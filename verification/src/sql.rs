//! Pure DDL/DML text generation over a schema: existence check, drop,
//! truncate, and create-table statements for the destination store.
//! Identifiers are interpolated as they stand; no quoting is performed.
use vstd::prelude::*;
use vstd::string::*;

use crate::model::{Mapping, MappingV, Schema};
use crate::text::{join_comma, spec_join_comma};

verus! {

/// `namespace.sql_table`, as the statements name the destination table.
pub open spec fn spec_full_table_name(namespace: Seq<char>, sql_table: Seq<char>) -> Seq<char> {
    namespace + "."@ + sql_table
}

pub fn full_table_name(schema: &Schema) -> (r: String)
    ensures
        r@ == spec_full_table_name(schema@.namespace, schema@.sql_table),
{
    let mut r = String::new();
    r.append(schema.namespace.as_str());
    r.append(".");
    r.append(schema.sql_table.as_str());
    r
}

/// The catalog query that checks whether the destination table exists.
pub open spec fn spec_table_exists_sql(namespace: Seq<char>, sql_table: Seq<char>) -> Seq<char> {
    "SELECT table_name FROM information_schema.tables WHERE table_schema = '"@ + namespace
        + "' AND table_name = '"@ + sql_table + "'"@
}

pub fn table_exists_sql(schema: &Schema) -> (r: String)
    ensures
        r@ == spec_table_exists_sql(schema@.namespace, schema@.sql_table),
{
    let mut r = String::new();
    r.append("SELECT table_name FROM information_schema.tables WHERE table_schema = '");
    r.append(schema.namespace.as_str());
    r.append("' AND table_name = '");
    r.append(schema.sql_table.as_str());
    r.append("'");
    r
}

pub open spec fn spec_drop_table_if_exists_sql(
    namespace: Seq<char>,
    sql_table: Seq<char>,
) -> Seq<char> {
    "DROP TABLE IF EXISTS "@ + spec_full_table_name(namespace, sql_table)
}

pub fn drop_table_if_exists_sql(schema: &Schema) -> (r: String)
    ensures
        r@ == spec_drop_table_if_exists_sql(schema@.namespace, schema@.sql_table),
{
    let mut r = String::new();
    r.append("DROP TABLE IF EXISTS ");
    let t = full_table_name(schema);
    r.append(t.as_str());
    r
}

pub open spec fn spec_truncate_table_sql(namespace: Seq<char>, sql_table: Seq<char>) -> Seq<char> {
    "TRUNCATE TABLE "@ + spec_full_table_name(namespace, sql_table)
}

pub fn truncate_table_sql(schema: &Schema) -> (r: String)
    ensures
        r@ == spec_truncate_table_sql(schema@.namespace, schema@.sql_table),
{
    let mut r = String::new();
    r.append("TRUNCATE TABLE ");
    let t = full_table_name(schema);
    r.append(t.as_str());
    r
}

/// One column definition: destination name and type, space-separated,
/// both taken verbatim from the mapping.
pub open spec fn spec_column_def(m: MappingV) -> Seq<char> {
    m.destination_field_name + " "@ + m.destination_field_type
}

pub fn get_column_definition(m: &Mapping) -> (r: String)
    ensures
        r@ == spec_column_def(m@),
{
    let mut r = String::new();
    r.append(m.destination_field_name.as_str());
    r.append(" ");
    r.append(m.destination_field_type.as_str());
    r
}

/// The create statement: an id primary key, then one column per mapping,
/// comma-joined in mapping order.
pub open spec fn spec_create_table_if_not_exists_sql(
    namespace: Seq<char>,
    sql_table: Seq<char>,
    mappings: Seq<MappingV>,
) -> Seq<char> {
    "CREATE TABLE IF NOT EXISTS "@ + spec_full_table_name(namespace, sql_table)
        + " ( id SERIAL PRIMARY KEY, "@ + spec_join_comma(
        mappings.map_values(|m: MappingV| spec_column_def(m)),
    ) + " )"@
}

pub fn create_table_if_not_exists_sql(schema: &Schema) -> (r: String)
    ensures
        r@ == spec_create_table_if_not_exists_sql(
            schema@.namespace,
            schema@.sql_table,
            schema@.mappings,
        ),
{
    let mut defs: Vec<String> = Vec::new();
    let mut i: usize = 0;
    while i < schema.mappings.len()
        invariant
            i <= schema.mappings.len(),
            schema@.mappings == schema.mappings@.map_values(|m: Mapping| m@),
            defs.deep_view() =~= schema@.mappings.map_values(|m: MappingV| spec_column_def(m)).take(
                i as int,
            ),
        decreases schema.mappings.len() - i,
    {
        let ghost pre = defs.deep_view();
        let d = get_column_definition(&schema.mappings[i]);
        defs.push(d);
        proof {
            assert(defs.deep_view() =~= pre.push(d@));
            assert(defs.deep_view() =~= schema@.mappings.map_values(
                |m: MappingV| spec_column_def(m),
            ).take(i + 1));
        }
        i = i + 1;
    }
    proof {
        let all = schema@.mappings.map_values(|m: MappingV| spec_column_def(m));
        assert(all.take(all.len() as int) =~= all);
    }
    let cols = join_comma(&defs);
    let mut r = String::new();
    r.append("CREATE TABLE IF NOT EXISTS ");
    let t = full_table_name(schema);
    r.append(t.as_str());
    r.append(" ( id SERIAL PRIMARY KEY, ");
    r.append(cols.as_str());
    r.append(" )");
    r
}

} // verus!
