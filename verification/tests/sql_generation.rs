use mosql::model::{Mapping, Schema};
use mosql::sql::{
    create_table_if_not_exists_sql, drop_table_if_exists_sql, full_table_name,
    get_column_definition, table_exists_sql, truncate_table_sql,
};

fn test_schema() -> Schema {
    let mapping_1 = Mapping {
        id: Some(0),
        source_field_name: "fieldOne".to_string(),
        source_field_type: "string".to_string(),
        destination_field_name: "field_one".to_string(),
        destination_field_type: "text".to_string(),
        version: "1".to_string(),
    };
    let mapping_2 = Mapping {
        id: Some(0),
        source_field_name: "fieldTwo".to_string(),
        source_field_type: "number".to_string(),
        destination_field_name: "field_two".to_string(),
        destination_field_type: "numeric".to_string(),
        version: "1".to_string(),
    };
    Schema {
        id: None,
        namespace: "test_ns".to_string(),
        collection: "test_collection".to_string(),
        sql_table: "sql_test_table".to_string(),
        version: String::new(),
        indexes: Vec::new(),
        mappings: vec![mapping_1, mapping_2],
    }
}

#[test]
fn test_sql_generators() {
    let schema = test_schema();

    let mut test_cases = Vec::<(&str, &str)>::new();
    test_cases.insert(0, ("truncate", "TRUNCATE TABLE test_ns.sql_test_table"));
    test_cases.insert(1, ("drop", "DROP TABLE IF EXISTS test_ns.sql_test_table"));
    test_cases.insert(2, ("table_exists", "SELECT table_name FROM information_schema.tables WHERE table_schema = 'test_ns' AND table_name = 'sql_test_table'"));
    test_cases.insert(3, ("create_table", "CREATE TABLE IF NOT EXISTS test_ns.sql_test_table ( id SERIAL PRIMARY KEY, field_one text,field_two numeric )"));

    test_cases.iter().for_each(|(test_case, expected_output)| {
        let actual_output: String = match *test_case {
            "truncate" => truncate_table_sql(&schema),
            "drop" => drop_table_if_exists_sql(&schema),
            "table_exists" => table_exists_sql(&schema),
            "create_table" => create_table_if_not_exists_sql(&schema),
            _ => "n/a".to_string(),
        };
        let actual_output = actual_output
            .split_whitespace()
            .collect::<Vec<&str>>()
            .join(" ");
        println!("Actual SQL output: {}", actual_output);

        assert_eq!(actual_output.as_str(), *expected_output, "should be equal");
    });
}

#[test]
fn test_full_table_name_joins_namespace_and_table() {
    let schema = test_schema();
    assert_eq!(full_table_name(&schema), "test_ns.sql_test_table");
}

#[test]
fn test_column_definition_is_name_space_type() {
    let schema = test_schema();
    assert_eq!(get_column_definition(&schema.mappings[0]), "field_one text");
    assert_eq!(
        get_column_definition(&schema.mappings[1]),
        "field_two numeric"
    );
}

#[test]
fn test_create_table_with_no_mappings_has_only_primary_key() {
    let mut schema = test_schema();
    schema.mappings = Vec::new();
    assert_eq!(
        create_table_if_not_exists_sql(&schema),
        "CREATE TABLE IF NOT EXISTS test_ns.sql_test_table ( id SERIAL PRIMARY KEY,  )"
    );
}
