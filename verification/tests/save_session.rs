use mosql::model::{ExportBuilder, Mapping, Schema, User};
use mosql::save::{MissingField, SaveError, SaveStage};
use mosql::session::{SaveAction, SaveSession, StoreReply};

fn configured_export(namespace: &str) -> mosql::model::Export {
    let mut builder = ExportBuilder::init_export(namespace, "mongo_to_postgres");
    builder.add_connection("source", "mongo", "mongo://localhost:27017/mosql");
    builder.add_connection("destination", "postgres", "postgres://localhost:5432/pg");
    builder.set_creator_info(User {
        id: None,
        full_name: "Ada Lovelace".to_string(),
        email: "ada@example.com".to_string(),
        created_at: "date".to_string(),
    });
    builder.set_schemas(vec![Schema {
        id: None,
        namespace: namespace.to_string(),
        collection: "coll".to_string(),
        sql_table: "coll".to_string(),
        version: "1.0".to_string(),
        indexes: Vec::new(),
        mappings: vec![Mapping {
            id: None,
            source_field_name: "coll.a".to_string(),
            destination_field_name: "a".to_string(),
            source_field_type: "string".to_string(),
            destination_field_type: "text".to_string(),
            version: "1.0".to_string(),
        }],
    }]);
    builder.get_export()
}

#[test]
fn test_session_replays_the_full_sequence() {
    let export = configured_export("ns_session");
    let mut session =
        SaveSession::begin(export, "t1".to_string()).expect("validation should pass");

    match session.next_action() {
        SaveAction::CheckExisting { namespace } => assert_eq!(namespace, "ns_session"),
        _ => panic!("expected an existence check first"),
    }
    session.apply(StoreReply::Exists(true)).expect("step failed");

    match session.next_action() {
        SaveAction::DeleteExisting { namespace } => assert_eq!(namespace, "ns_session"),
        _ => panic!("expected the delete of the stored export"),
    }
    session.apply(StoreReply::Deleted { rows: 1 }).expect("step failed");

    match session.next_action() {
        SaveAction::LookupUser { email } => assert_eq!(email, "ada@example.com"),
        _ => panic!("expected the user lookup"),
    }
    session.apply(StoreReply::UserMissing).expect("step failed");

    match session.next_action() {
        SaveAction::InsertUser { email, created_at, .. } => {
            assert_eq!(email, "ada@example.com");
            assert_eq!(created_at, "t1");
        }
        _ => panic!("expected the user insert"),
    }
    session.apply(StoreReply::Inserted { id: 7 }).expect("step failed");

    match session.next_action() {
        SaveAction::InsertConnection { name, .. } => assert_eq!(name, "mongo"),
        _ => panic!("expected the source connection insert"),
    }
    session.apply(StoreReply::Inserted { id: 11 }).expect("step failed");

    match session.next_action() {
        SaveAction::InsertConnection { name, .. } => assert_eq!(name, "postgres"),
        _ => panic!("expected the destination connection insert"),
    }
    session.apply(StoreReply::Inserted { id: 12 }).expect("step failed");

    match session.next_action() {
        SaveAction::InsertExport { row } => {
            assert_eq!(row.namespace, "ns_session");
            assert_eq!(row.creator_id, 7);
            assert_eq!(row.updator_id, 7);
            assert_eq!(row.source_connection_id, 11);
            assert_eq!(row.destination_connection_id, 12);
            assert_eq!(row.created_at, "t1");
        }
        _ => panic!("expected the export insert"),
    }
    session.apply(StoreReply::Inserted { id: 21 }).expect("step failed");

    match session.next_action() {
        SaveAction::InsertSchema { export_id, collection, .. } => {
            assert_eq!(export_id, 21);
            assert_eq!(collection, "coll");
        }
        _ => panic!("expected the schema insert"),
    }
    session.apply(StoreReply::Inserted { id: 31 }).expect("step failed");

    match session.next_action() {
        SaveAction::InsertMapping { schema_id, source_field_name, .. } => {
            assert_eq!(schema_id, 31);
            assert_eq!(source_field_name, "coll.a");
        }
        _ => panic!("expected the mapping insert"),
    }
    session.apply(StoreReply::Inserted { id: 41 }).expect("step failed");

    assert!(session.is_complete());
    match session.next_action() {
        SaveAction::Done => {}
        _ => panic!("a complete session has nothing left to do"),
    }
    let saved = session.into_export();
    assert_eq!(saved.id, Some(21));
    assert_eq!(saved.creator.unwrap().id, Some(7));
    assert_eq!(saved.source_connection.unwrap().id, Some(11));
    assert_eq!(saved.destination_connection.unwrap().id, Some(12));
}

#[test]
fn test_session_rejects_an_unvalidated_export() {
    let mut builder = ExportBuilder::init_export("ns_bad", "mongo_to_postgres");
    builder.add_connection("source", "mongo", "mongo://localhost:27017/mosql");
    builder.add_connection("destination", "postgres", "postgres://localhost:5432/pg");
    match SaveSession::begin(builder.get_export(), "t1".to_string()) {
        Err(SaveError::Validation(MissingField::Creator)) => {}
        _ => panic!("expected a missing-creator validation error"),
    }
}

#[test]
fn test_session_attributes_a_failing_step() {
    let export = configured_export("ns_fail");
    let mut session =
        SaveSession::begin(export, "t1".to_string()).expect("validation should pass");
    session.apply(StoreReply::Exists(false)).expect("step failed");
    // the user lookup fails on the store's side
    match session.apply(StoreReply::Failed) {
        Err(SaveError::Persistence { stage: SaveStage::User, .. }) => {}
        _ => panic!("expected the failure attributed to the user step"),
    }
    match session.next_action() {
        SaveAction::Done => {}
        _ => panic!("a failed session has nothing left to do"),
    }
}

#[test]
fn test_session_delete_of_more_than_one_row_fails() {
    let export = configured_export("ns_two_rows");
    let mut session =
        SaveSession::begin(export, "t1".to_string()).expect("validation should pass");
    session.apply(StoreReply::Exists(true)).expect("step failed");
    match session.apply(StoreReply::Deleted { rows: 2 }) {
        Err(SaveError::Persistence { stage: SaveStage::DeleteExisting, .. }) => {}
        _ => panic!("expected the failure attributed to the delete step"),
    }
}
