use mosql::assemble::generate_schema_mapping;
use mosql::document::{collection_flat_map, Document, FieldValue};
use mosql::element::ElementType;
use mosql::naming::{destination_field_name, replace_dots, to_snake_case};

#[test]
fn test_snake_case_of_camel_case() {
    assert_eq!(to_snake_case("fieldOne"), "field_one");
    assert_eq!(to_snake_case("camelToSnake"), "camel_to_snake");
    assert_eq!(to_snake_case("already_snake"), "already_snake");
    assert_eq!(to_snake_case(""), "");
}

#[test]
fn test_replace_dots_swaps_every_dot() {
    assert_eq!(replace_dots("a.b.c"), "a_b_c");
    assert_eq!(replace_dots("abc"), "abc");
}

#[test]
fn test_destination_field_name_strips_collection_prefix() {
    assert_eq!(
        destination_field_name("test_collection", "test_collection.fieldOne"),
        "field_one"
    );
    assert_eq!(
        destination_field_name("my_collection", "my_collection.fieldName"),
        "field_name"
    );
}

#[test]
fn test_destination_field_name_flattens_nested_paths() {
    assert_eq!(
        destination_field_name("people", "people.company.zipCode"),
        "company_zip_code"
    );
}

#[test]
fn test_destination_field_name_has_no_dot_and_is_idempotent() {
    let name = destination_field_name("people", "people.company.zipCode");
    assert!(!name.contains('.'));
    let again = destination_field_name("people", &format!("people.{}", name));
    assert_eq!(again, name);
}

#[test]
fn test_destination_field_name_without_expected_prefix() {
    // a path that does not start with the collection: everything after the
    // first separator is the field name
    assert_eq!(destination_field_name("people", "crowd.fieldOne"), "field_one");
    // a path without any separator stands for itself
    assert_eq!(destination_field_name("people", "fieldOne"), "field_one");
}

#[test]
fn test_generate_schema_mapping_for_sampled_collection() {
    // collection test_collection with sampled document
    // { fieldOne: "x", fieldTwo: 5.0 }
    let doc = Document {
        fields: vec![
            ("fieldOne".to_string(), FieldValue::Leaf(ElementType::String)),
            ("fieldTwo".to_string(), FieldValue::Leaf(ElementType::Double)),
        ],
    };
    let flat_map = collection_flat_map("test_collection", Some(&doc));
    let schema = generate_schema_mapping("test_ns", "test_collection", &flat_map);

    assert_eq!(schema.namespace, "test_ns");
    assert_eq!(schema.collection, "test_collection");
    assert_eq!(schema.sql_table, "test_collection");
    assert_eq!(schema.version, "1.0");
    assert!(schema.indexes.is_empty());
    assert_eq!(schema.mappings.len(), 2);

    assert_eq!(schema.mappings[0].source_field_name, "test_collection.fieldOne");
    assert_eq!(schema.mappings[0].destination_field_name, "field_one");
    assert_eq!(schema.mappings[0].source_field_type, "string");
    assert_eq!(schema.mappings[0].destination_field_type, "text");
    assert_eq!(schema.mappings[0].version, "1.0");

    assert_eq!(schema.mappings[1].source_field_name, "test_collection.fieldTwo");
    assert_eq!(schema.mappings[1].destination_field_name, "field_two");
    assert_eq!(schema.mappings[1].source_field_type, "double");
    assert_eq!(schema.mappings[1].destination_field_type, "numeric");
}

#[test]
fn test_generate_schema_mapping_snake_cases_the_table_name() {
    let doc = Document { fields: Vec::new() };
    let flat_map = collection_flat_map("myCollection", Some(&doc));
    let schema = generate_schema_mapping("ns", "myCollection", &flat_map);
    assert_eq!(schema.sql_table, "my_collection");
    assert_eq!(schema.mappings.len(), 0);
}
