use mosql::element::{DocumentValue, ElementType};

fn value(t: ElementType) -> DocumentValue {
    DocumentValue { value_type: t }
}

#[test]
fn test_sql_type_projects_every_tag() {
    assert_eq!(value(ElementType::String).sql_type(), "text");
    assert_eq!(value(ElementType::ObjectId).sql_type(), "text");
    assert_eq!(value(ElementType::Null).sql_type(), "text");
    assert_eq!(value(ElementType::Double).sql_type(), "numeric");
    assert_eq!(value(ElementType::Decimal128).sql_type(), "numeric");
    assert_eq!(value(ElementType::Int32).sql_type(), "integer");
    assert_eq!(value(ElementType::Int64).sql_type(), "bigint");
    assert_eq!(value(ElementType::Boolean).sql_type(), "boolean");
    assert_eq!(
        value(ElementType::Timestamp).sql_type(),
        "timestamp with time zone"
    );
    assert_eq!(
        value(ElementType::DateTime).sql_type(),
        "timestamp with time zone"
    );
}

#[test]
fn test_sql_type_falls_back_to_text() {
    assert_eq!(value(ElementType::Array).sql_type(), "text");
    assert_eq!(value(ElementType::Binary).sql_type(), "text");
    assert_eq!(value(ElementType::EmbeddedDocument).sql_type(), "text");
    assert_eq!(value(ElementType::Undefined).sql_type(), "text");
    assert_eq!(value(ElementType::RegularExpression).sql_type(), "text");
    assert_eq!(value(ElementType::DbPointer).sql_type(), "text");
    assert_eq!(value(ElementType::JavaScriptCode).sql_type(), "text");
    assert_eq!(value(ElementType::Symbol).sql_type(), "text");
    assert_eq!(
        value(ElementType::JavaScriptCodeWithScope).sql_type(),
        "text"
    );
    assert_eq!(value(ElementType::MaxKey).sql_type(), "text");
    assert_eq!(value(ElementType::MinKey).sql_type(), "text");
}

#[test]
fn test_mongo_type_labels_every_tag() {
    assert_eq!(value(ElementType::EmbeddedDocument).mongo_type(), "embed");
    assert_eq!(value(ElementType::Double).mongo_type(), "double");
    assert_eq!(value(ElementType::String).mongo_type(), "string");
    assert_eq!(value(ElementType::Array).mongo_type(), "array");
    assert_eq!(value(ElementType::Binary).mongo_type(), "binary");
    assert_eq!(value(ElementType::Undefined).mongo_type(), "undefined");
    assert_eq!(value(ElementType::ObjectId).mongo_type(), "object_id");
    assert_eq!(value(ElementType::Boolean).mongo_type(), "boolean");
    assert_eq!(value(ElementType::DateTime).mongo_type(), "datetime");
    assert_eq!(value(ElementType::Null).mongo_type(), "null");
    assert_eq!(
        value(ElementType::RegularExpression).mongo_type(),
        "regular_expression"
    );
    assert_eq!(value(ElementType::DbPointer).mongo_type(), "db_pointer");
    assert_eq!(
        value(ElementType::JavaScriptCode).mongo_type(),
        "javascript_code"
    );
    assert_eq!(value(ElementType::Symbol).mongo_type(), "symbol");
    assert_eq!(
        value(ElementType::JavaScriptCodeWithScope).mongo_type(),
        "javascript_code_with_scope"
    );
    assert_eq!(value(ElementType::Int32).mongo_type(), "int32");
    assert_eq!(value(ElementType::Timestamp).mongo_type(), "timestamp");
    assert_eq!(value(ElementType::Int64).mongo_type(), "int64");
    assert_eq!(value(ElementType::Decimal128).mongo_type(), "decimal128");
    assert_eq!(value(ElementType::MaxKey).mongo_type(), "max_key");
    assert_eq!(value(ElementType::MinKey).mongo_type(), "min_key");
}
