use mosql::document::{collection_flat_map, create_flat_map, Document, FieldValue, FlatMap};
use mosql::element::{DocumentValue, ElementType};

fn field(name: &str, t: ElementType) -> (String, FieldValue) {
    (name.to_string(), FieldValue::Leaf(t))
}

fn nested(name: &str, fields: Vec<(String, FieldValue)>) -> (String, FieldValue) {
    (name.to_string(), FieldValue::Nested(Document { fields }))
}

fn sample_document() -> Document {
    Document {
        fields: vec![
            field("name", ElementType::String),
            field("age", ElementType::Int32),
            nested(
                "company",
                vec![
                    field("website", ElementType::String),
                    nested(
                        "address",
                        vec![
                            field("zipCode", ElementType::String),
                            field("residence", ElementType::Boolean),
                        ],
                    ),
                ],
            ),
            field("tags", ElementType::Array),
        ],
    }
}

#[test]
fn test_flatten_walks_nested_documents() {
    let flat_map = collection_flat_map("people", Some(&sample_document()));
    assert_eq!(flat_map.len(), 6);
    let mut seen: Vec<(String, ElementType)> = Vec::new();
    for i in 0..flat_map.len() {
        seen.push((flat_map.key_at(i).clone(), flat_map.value_at(i).value_type));
    }
    assert_eq!(
        seen,
        vec![
            ("people.name".to_string(), ElementType::String),
            ("people.age".to_string(), ElementType::Int32),
            ("people.company.website".to_string(), ElementType::String),
            (
                "people.company.address.zipCode".to_string(),
                ElementType::String
            ),
            (
                "people.company.address.residence".to_string(),
                ElementType::Boolean
            ),
            ("people.tags".to_string(), ElementType::Array),
        ]
    );
}

#[test]
fn test_flatten_counts_one_entry_per_leaf() {
    // arrays and binaries are leaves; only nested documents recurse
    let doc = Document {
        fields: vec![
            field("a", ElementType::Array),
            field("b", ElementType::Binary),
            nested("c", vec![field("d", ElementType::Double)]),
        ],
    };
    let flat_map = collection_flat_map("coll", Some(&doc));
    assert_eq!(flat_map.len(), 3);
}

#[test]
fn test_flatten_missing_sample_gives_empty_map() {
    let flat_map = collection_flat_map("coll", None);
    assert_eq!(flat_map.len(), 0);
}

#[test]
fn test_flatten_empty_document_gives_empty_map() {
    let doc = Document { fields: Vec::new() };
    let flat_map = collection_flat_map("coll", Some(&doc));
    assert_eq!(flat_map.len(), 0);
}

#[test]
fn test_flatten_is_deterministic() {
    let a = collection_flat_map("people", Some(&sample_document()));
    let b = collection_flat_map("people", Some(&sample_document()));
    assert_eq!(a.len(), b.len());
    for i in 0..a.len() {
        assert_eq!(a.key_at(i), b.key_at(i));
        assert_eq!(a.value_at(i).value_type, b.value_at(i).value_type);
    }
}

#[test]
fn test_repeated_path_takes_last_value_in_place() {
    let mut flat_map = FlatMap::new();
    flat_map.insert(
        "c.x".to_string(),
        DocumentValue {
            value_type: ElementType::String,
        },
    );
    flat_map.insert(
        "c.y".to_string(),
        DocumentValue {
            value_type: ElementType::Int32,
        },
    );
    flat_map.insert(
        "c.x".to_string(),
        DocumentValue {
            value_type: ElementType::Double,
        },
    );
    assert_eq!(flat_map.len(), 2);
    assert_eq!(flat_map.key_at(0), "c.x");
    assert_eq!(flat_map.value_at(0).value_type, ElementType::Double);
    assert_eq!(flat_map.key_at(1), "c.y");
}

#[test]
fn test_create_flat_map_extends_an_existing_map() {
    let mut flat_map = FlatMap::new();
    flat_map.insert(
        "other.z".to_string(),
        DocumentValue {
            value_type: ElementType::Null,
        },
    );
    let doc = Document {
        fields: vec![field("x", ElementType::String)],
    };
    create_flat_map(&mut flat_map, "coll", &doc);
    assert_eq!(flat_map.len(), 2);
    assert_eq!(flat_map.key_at(0), "other.z");
    assert_eq!(flat_map.key_at(1), "coll.x");
}
