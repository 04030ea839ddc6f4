use mosql::prompt::{
    split_and_trim_commas, trim_spaces, ExportArgInput, ExportData, ExportInfoType,
};
use mosql::text::{join_comma, str_eq};

fn arg(info_type: ExportInfoType, user_input: &str, required: bool) -> ExportArgInput {
    ExportArgInput {
        prompt_text: "prompt".to_string(),
        user_input: user_input.to_string(),
        info_type,
        required,
    }
}

#[test]
fn test_validate_requires_more_than_one_character() {
    let required = arg(ExportInfoType::SourceDatabaseName, "", true);
    assert!(!required.validate("\n".to_string()));
    assert!(!required.validate("".to_string()));
    assert!(required.validate("db\n".to_string()));

    let optional = arg(ExportInfoType::UserName, "", false);
    assert!(optional.validate("\n".to_string()));
}

#[test]
fn test_input_field_labels() {
    assert_eq!(
        arg(ExportInfoType::SourceDatabaseName, "", true).input_field(),
        "source database name"
    );
    assert_eq!(
        arg(ExportInfoType::SourceDatabaseConnString, "", true).input_field(),
        "source database connection string"
    );
    assert_eq!(
        arg(ExportInfoType::DestinationDatabaseName, "", true).input_field(),
        "destination database name"
    );
    assert_eq!(
        arg(ExportInfoType::DestinationDatabaseConnString, "", true).input_field(),
        "destination database connection string"
    );
    assert_eq!(
        arg(ExportInfoType::IncludeCollections, "", false).input_field(),
        "collections to include"
    );
    assert_eq!(
        arg(ExportInfoType::ExcludeCollections, "", false).input_field(),
        "collections to exclude"
    );
    assert_eq!(arg(ExportInfoType::UserName, "", false).input_field(), "user name");
    assert_eq!(arg(ExportInfoType::Email, "", false).input_field(), "user email");
}

#[test]
fn test_set_export_data_files_plain_fields() {
    let mut data = ExportData::default();
    arg(ExportInfoType::SourceDatabaseName, "mongo", true).set_export_data_value(&mut data);
    arg(ExportInfoType::SourceDatabaseConnString, "mongo://h:1/db", true)
        .set_export_data_value(&mut data);
    arg(ExportInfoType::DestinationDatabaseName, "postgres", true)
        .set_export_data_value(&mut data);
    arg(ExportInfoType::DestinationDatabaseConnString, "postgres://h:2/db", true)
        .set_export_data_value(&mut data);
    arg(ExportInfoType::UserName, "Ada", false).set_export_data_value(&mut data);
    arg(ExportInfoType::Email, "ada@example.com", false).set_export_data_value(&mut data);

    assert_eq!(data.source_db_name.as_deref(), Some("mongo"));
    assert_eq!(data.source_db_uri.as_deref(), Some("mongo://h:1/db"));
    assert_eq!(data.destination_db_name.as_deref(), Some("postgres"));
    assert_eq!(data.destination_db_uri.as_deref(), Some("postgres://h:2/db"));
    assert_eq!(data.user_name.as_deref(), Some("Ada"));
    assert_eq!(data.email.as_deref(), Some("ada@example.com"));
}

#[test]
fn test_set_export_data_splits_collection_lists() {
    let mut data = ExportData::default();
    arg(ExportInfoType::IncludeCollections, "users, orders ,  items", false)
        .set_export_data_value(&mut data);
    arg(ExportInfoType::ExcludeCollections, "internal", false).set_export_data_value(&mut data);

    assert_eq!(data.include_collections, vec!["users", "orders", "items"]);
    assert_eq!(data.exclude_collections, vec!["internal"]);
}

#[test]
fn test_split_and_trim_commas() {
    assert_eq!(split_and_trim_commas("a,b,c"), vec!["a", "b", "c"]);
    assert_eq!(split_and_trim_commas(" a , b "), vec!["a", "b"]);
    assert_eq!(split_and_trim_commas("one"), vec!["one"]);
    assert_eq!(split_and_trim_commas(""), vec![""]);
    assert_eq!(split_and_trim_commas("a,,b"), vec!["a", "", "b"]);
    assert_eq!(split_and_trim_commas("a,"), vec!["a", ""]);
}

#[test]
fn test_trim_spaces() {
    assert_eq!(trim_spaces("  hello \t\n"), "hello");
    assert_eq!(trim_spaces("inner space kept"), "inner space kept");
    assert_eq!(trim_spaces("   "), "");
    assert_eq!(trim_spaces(""), "");
}

#[test]
fn test_join_comma() {
    assert_eq!(join_comma(&vec!["a".to_string(), "b".to_string()]), "a,b");
    assert_eq!(join_comma(&vec!["solo".to_string()]), "solo");
    assert_eq!(join_comma(&Vec::new()), "");
}

#[test]
fn test_str_eq() {
    assert!(str_eq("same", "same"));
    assert!(!str_eq("same", "other"));
    assert!(!str_eq("same", "sam"));
    assert!(str_eq("", ""));
}
