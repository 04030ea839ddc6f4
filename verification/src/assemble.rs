//! Assembly of one collection's schema from its flattened field map:
//! derives the destination table and column names and builds the ordered
//! mapping list.
use vstd::prelude::*;
use vstd::string::*;
use vstd::utf8::is_ascii_chars;

use crate::document::FlatMap;
use crate::element::{spec_mongo_type, spec_sql_type, ElementType};
use crate::model::{Mapping, MappingV, Schema};
use crate::naming::{destination_field_name, spec_destination_field_name, spec_snake_case, to_snake_case};

verus! {

/// What one assembled mapping holds for a flattened entry: the dotted
/// path verbatim, the derived destination name, the two type labels, and
/// the version label.
pub open spec fn spec_assembled_mapping_ok(
    coll: Seq<char>,
    e: (Seq<char>, ElementType),
    m: MappingV,
) -> bool {
    &&& m.id is None
    &&& m.source_field_name == e.0
    &&& m.source_field_type == spec_mongo_type(e.1)
    &&& m.destination_field_type == spec_sql_type(e.1)
    &&& m.version == "1.0"@
    &&& is_ascii_chars(e.0) ==> m.destination_field_name == spec_destination_field_name(coll, e.0)
}

/// Builds the schema of one collection from its flattened field map: one
/// mapping per entry, in the map's insertion order.
pub fn generate_schema_mapping(namespace: &str, collection: &str, flat_map: &FlatMap) -> (r:
    Schema)
    ensures
        r@.id is None,
        r@.namespace == namespace@,
        r@.collection == collection@,
        r@.version == "1.0"@,
        r@.indexes =~= Seq::<Seq<char>>::empty(),
        is_ascii_chars(collection@) ==> r@.sql_table == spec_snake_case(collection@),
        r@.mappings.len() == flat_map@.len(),
        forall|i: int|
            0 <= i < flat_map@.len() ==> spec_assembled_mapping_ok(
                collection@,
                flat_map@[i],
                #[trigger] r@.mappings[i],
            ),
{
    let n: usize = flat_map.len();
    let mut mappings: Vec<Mapping> = Vec::new();
    let mut i: usize = 0;
    while i < n
        invariant
            i <= n,
            n == flat_map@.len(),
            mappings@.len() == i,
            forall|j: int|
                0 <= j < i ==> spec_assembled_mapping_ok(
                    collection@,
                    flat_map@[j],
                    (#[trigger] mappings@[j])@,
                ),
        decreases n - i,
    {
        let dv = flat_map.value_at(i);
        let m = Mapping {
            id: None,
            source_field_name: flat_map.key_at(i).clone(),
            destination_field_name: destination_field_name(collection, flat_map.key_at(i).as_str()),
            source_field_type: dv.mongo_type(),
            destination_field_type: dv.sql_type(),
            version: String::from_str("1.0"),
        };
        mappings.push(m);
        i = i + 1;
    }
    let schema = Schema {
        id: None,
        namespace: String::from_str(namespace),
        collection: String::from_str(collection),
        sql_table: to_snake_case(collection),
        version: String::from_str("1.0"),
        indexes: Vec::new(),
        mappings,
    };
    proof {
        assert(schema@.indexes =~= Seq::<Seq<char>>::empty());
    }
    schema
}

} // verus!
