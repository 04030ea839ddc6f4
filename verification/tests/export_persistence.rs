use mosql::model::{ExportBuilder, Mapping, Schema, User};
use mosql::save::{MissingField, SaveError};
use mosql::store::{MetadataStore, NewExportRow};

fn test_user() -> User {
    User {
        id: None,
        full_name: "Ada Lovelace".to_string(),
        email: "ada@example.com".to_string(),
        created_at: "date".to_string(),
    }
}

fn test_mapping(source: &str, dest: &str, source_type: &str, dest_type: &str) -> Mapping {
    Mapping {
        id: None,
        source_field_name: source.to_string(),
        destination_field_name: dest.to_string(),
        source_field_type: source_type.to_string(),
        destination_field_type: dest_type.to_string(),
        version: "1.0".to_string(),
    }
}

fn test_schema(namespace: &str, collection: &str, mappings: Vec<Mapping>) -> Schema {
    Schema {
        id: None,
        namespace: namespace.to_string(),
        collection: collection.to_string(),
        sql_table: collection.to_string(),
        version: "1.0".to_string(),
        indexes: Vec::new(),
        mappings,
    }
}

fn configured_builder(namespace: &str) -> ExportBuilder {
    let mut builder = ExportBuilder::init_export(namespace, "mongo_to_postgres");
    builder.add_connection("source", "mongo", "mongo://localhost:27017/mosql");
    builder.add_connection(
        "destination",
        "postgres",
        "postgres://localhost:54324/postgres",
    );
    builder.include_collections(Vec::new());
    builder.exclude_collections(vec![
        "exclude_coll1".to_string(),
        "exclude_coll2".to_string(),
    ]);
    builder.set_creator_info(test_user());
    builder.set_updator_info(test_user());
    builder
}

#[test]
fn test_save_assigns_ids_and_copies_them_back() {
    let mut store = MetadataStore::new();
    let mut builder = configured_builder("ns_ids");
    let schemas = vec![
        test_schema(
            "ns_ids",
            "coll_one",
            vec![
                test_mapping("coll_one.a", "a", "string", "text"),
                test_mapping("coll_one.b", "b", "double", "numeric"),
            ],
        ),
        test_schema(
            "ns_ids",
            "coll_two",
            vec![test_mapping("coll_two.c", "c", "string", "text")],
        ),
    ];
    builder.set_schemas(schemas);

    let saved = builder.save_at(&mut store, "2024-05-02T00:00:00+00:00").expect("save failed");
    assert!(saved);

    let export = builder.get_export();
    assert!(export.id.unwrap() > 0);
    assert_eq!(export.namespace, "ns_ids");
    assert!(export.creator.clone().unwrap().id.unwrap() > 0);
    assert!(export.source_connection.clone().unwrap().id.unwrap() > 0);
    assert!(export.destination_connection.clone().unwrap().id.unwrap() > 0);

    // exactly N schema rows and m1 + m2 mapping rows, all ids assigned
    let (users, connections, exports, schemas, mappings) = store.table_sizes();
    assert_eq!(users, 1);
    assert_eq!(connections, 2);
    assert_eq!(exports, 1);
    assert_eq!(schemas, 2);
    assert_eq!(mappings, 3);
    for schema in export.schemas.iter() {
        assert!(schema.id.unwrap() > 0);
        for mapping in schema.mappings.iter() {
            assert!(mapping.id.unwrap() > 0);
        }
    }

    let rows = store.schemas_by_namespace("ns_ids");
    assert_eq!(rows.len(), 2);
    assert_eq!(rows[0].collection, "coll_one");
    assert_eq!(rows[1].collection, "coll_two");
    assert_eq!(rows[0].export_id, export.id.unwrap());
}

#[test]
fn test_save_twice_keeps_one_export_per_namespace() {
    let mut store = MetadataStore::new();

    let mut first = configured_builder("ns_twice");
    first.save_at(&mut store, "t1").expect("first save failed");
    let first_id = first.get_export().id.unwrap();

    let mut second = configured_builder("ns_twice");
    second.save_at(&mut store, "t2").expect("second save failed");
    let second_id = second.get_export().id.unwrap();

    assert_ne!(first_id, second_id);
    let (yes, row) = store.check_export_exists("ns_twice");
    assert!(yes);
    let row = row.unwrap();
    assert_eq!(row.id, second_id);
    assert_eq!(row.created_at, "t2");
    let (_, _, exports, _, _) = store.table_sizes();
    assert_eq!(exports, 1);
}

#[test]
fn test_save_reuses_a_stored_user_by_email() {
    let mut store = MetadataStore::new();

    let mut first = configured_builder("ns_user_one");
    first.save_at(&mut store, "t1").expect("save failed");

    let mut second = configured_builder("ns_user_two");
    second.save_at(&mut store, "t2").expect("save failed");

    // the same creator email: no second user row
    let (users, connections, exports, _, _) = store.table_sizes();
    assert_eq!(users, 1);
    // connections are never deduplicated
    assert_eq!(connections, 4);
    assert_eq!(exports, 2);
}

#[test]
fn test_save_without_creator_is_a_validation_error_with_zero_writes() {
    let mut store = MetadataStore::new();
    let mut builder = ExportBuilder::init_export("ns_invalid", "mongo_to_postgres");
    builder.add_connection("source", "mongo", "mongo://localhost:27017/mosql");
    builder.add_connection("destination", "postgres", "postgres://localhost:5432/pg");

    let result = builder.save_at(&mut store, "t1");
    match result {
        Err(SaveError::Validation(MissingField::Creator)) => {}
        _ => panic!("expected a missing-creator validation error"),
    }
    let (users, connections, exports, schemas, mappings) = store.table_sizes();
    assert_eq!(users, 0);
    assert_eq!(connections, 0);
    assert_eq!(exports, 0);
    assert_eq!(schemas, 0);
    assert_eq!(mappings, 0);
}

#[test]
fn test_save_without_source_connection_is_a_validation_error() {
    let mut store = MetadataStore::new();
    let mut builder = ExportBuilder::init_export("ns_nosrc", "mongo_to_postgres");
    builder.set_creator_info(test_user());
    match builder.save_at(&mut store, "t1") {
        Err(SaveError::Validation(MissingField::SourceConnection)) => {}
        _ => panic!("expected a missing-source validation error"),
    }
}

#[test]
fn test_save_without_destination_connection_is_a_validation_error() {
    let mut store = MetadataStore::new();
    let mut builder = ExportBuilder::init_export("ns_nodst", "mongo_to_postgres");
    builder.set_creator_info(test_user());
    builder.add_connection("source", "mongo", "mongo://localhost:27017/mosql");
    match builder.save_at(&mut store, "t1") {
        Err(SaveError::Validation(MissingField::DestinationConnection)) => {}
        _ => panic!("expected a missing-destination validation error"),
    }
}

#[test]
fn test_export_row_holds_joined_filters_and_timestamps() {
    let mut store = MetadataStore::new();
    let mut builder = configured_builder("ns_filters");
    builder.save_at(&mut store, "2024-05-02T10:00:00+00:00").expect("save failed");
    let (yes, row) = store.check_export_exists("ns_filters");
    assert!(yes);
    let row = row.unwrap();
    assert_eq!(row.exclude_filters, "exclude_coll1,exclude_coll2");
    assert_eq!(row.include_filters, "");
    assert_eq!(row.export_type, "mongo_to_postgres");
    assert_eq!(row.created_at, "2024-05-02T10:00:00+00:00");
    assert_eq!(row.updated_at, "2024-05-02T10:00:00+00:00");
    assert_eq!(row.creator_id, row.updator_id);
}

#[test]
fn test_load_export_finds_a_saved_namespace() {
    let mut store = MetadataStore::new();
    let mut builder = configured_builder("ns_load");
    builder.save_at(&mut store, "t1").expect("save failed");

    let mut loader = ExportBuilder::init_export("ns_load", "mongo_to_postgres");
    assert_eq!(loader.load_export(&store, "ns_load").expect("load failed"), true);
    match loader.load_export(&store, "ns_absent") {
        Err(SaveError::ExportNotFound { namespace }) => assert_eq!(namespace, "ns_absent"),
        _ => panic!("expected a not-found error"),
    }
}

#[test]
fn test_store_lookups() {
    let mut store = MetadataStore::new();
    let mut builder = configured_builder("ns_lookup");
    builder.save_at(&mut store, "t1").expect("save failed");
    let export = builder.get_export();

    let sid = export.source_connection.unwrap().id.unwrap();
    let conn = store.connection_by_id(sid).expect("connection not found");
    assert_eq!(conn.name, "mongo");
    assert_eq!(conn.connection_string, "mongo://localhost:27017/mosql");
    assert!(store.connection_by_id(99).is_none());

    assert_eq!(store.user_by_email("ada@example.com"), export.creator.unwrap().id.unwrap());
    assert_eq!(store.user_by_email("nobody@example.com"), -1);
}

#[test]
fn test_has_schemas() {
    let builder = configured_builder("ns_h");
    assert!(!builder.get_export().has_schemas());
    let mut builder = configured_builder("ns_h");
    builder.set_schemas(vec![test_schema("ns_h", "c", Vec::new())]);
    assert!(builder.get_export().has_schemas());
}

#[test]
fn test_get_export_json_omits_ids() {
    let mut store = MetadataStore::new();
    let mut builder = configured_builder("ns_json");
    builder.save_at(&mut store, "t1").expect("save failed");
    let json = builder.get_export_json();
    assert_eq!(json.namespace, "ns_json");
    assert_eq!(json.export_type, "mongo_to_postgres");
    assert_eq!(json.exclude_filters, vec!["exclude_coll1", "exclude_coll2"]);
    assert!(json.include_filters.is_empty());
    assert_eq!(json.creator.unwrap().email, "ada@example.com");
}

#[test]
fn test_delete_of_more_than_one_stored_export_is_a_persistence_error() {
    let mut store = MetadataStore::new();
    // two rows under the same namespace, written directly: the save's
    // replace step then removes both and reports the mismatch
    let row = |ts: &str| NewExportRow {
        namespace: "ns_dup".to_string(),
        export_type: "mongo_to_postgres".to_string(),
        include_filters: String::new(),
        exclude_filters: String::new(),
        creator_id: 1,
        updator_id: 1,
        source_connection_id: 1,
        destination_connection_id: 2,
        created_at: ts.to_string(),
        updated_at: ts.to_string(),
    };
    store.save_export(row("t0"));
    store.save_export(row("t1"));

    let mut builder = configured_builder("ns_dup");
    match builder.save_at(&mut store, "t2") {
        Err(SaveError::Persistence { .. }) => {}
        _ => panic!("expected a persistence error from the replace step"),
    }
    // both rows are gone; nothing else was written
    let (users, connections, exports, schemas, mappings) = store.table_sizes();
    assert_eq!(exports, 0);
    assert_eq!(users, 0);
    assert_eq!(connections, 0);
    assert_eq!(schemas, 0);
    assert_eq!(mappings, 0);
}

#[test]
fn test_save_stamps_the_export_with_the_clock() {
    let mut store = MetadataStore::new();
    let mut builder = configured_builder("ns_clock");
    let saved = builder.save(&mut store).expect("save failed");
    assert!(saved);
    let (yes, row) = store.check_export_exists("ns_clock");
    assert!(yes);
    let row = row.unwrap();
    // an RFC 3339 timestamp from the wall clock: non-empty, equal on both
    // columns of one save
    assert!(!row.created_at.is_empty());
    assert_eq!(row.created_at, row.updated_at);
}
