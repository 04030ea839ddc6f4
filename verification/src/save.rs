//! The persistence sequence of an export definition: validate, replace
//! any export already saved under the namespace, resolve the creator by
//! email, insert the two connections, the export row, and every schema
//! and mapping row, copying the assigned ids back onto the in-memory
//! model. Steps already taken are not rolled back when a later step
//! fails.
use vstd::prelude::*;
use vstd::string::*;

use crate::model::{
    ConnectionV, ExportBuilder, ExportBuilderV, ExportV, Mapping, MappingV, Schema, SchemaV, UserV,
};
use crate::store::{
    lemma_export_by_ns_none_all, lemma_exports_without_ns_absent, lemma_user_by_email_mem,
    spec_export_by_ns, spec_exports_without_ns, spec_user_by_email, ConnectionRowV, ExportRowV,
    MappingRowV, MetadataStore, NewExportRow, SchemaRowV, StoreV, UserRowV,
};
use crate::text::{join_comma, spec_join_comma};

verus! {

/// The field whose absence makes the export definition unsaveable.
#[derive(Clone, Copy, PartialEq, Eq, Structural, Debug)]
pub enum MissingField {
    Creator,
    SourceConnection,
    DestinationConnection,
}

/// The persistence step at which a save failed.
#[derive(Clone, Copy, PartialEq, Eq, Structural, Debug)]
pub enum SaveStage {
    DeleteExisting,
    User,
    SourceConnection,
    DestinationConnection,
    Export,
    Schema,
    Mapping,
}

/// Why a save or load did not complete: a validation error caught before
/// any store access, a persistence error tagged with the failing step and
/// the offending collection where one applies, or a lookup that found no
/// export under the namespace.
#[derive(Clone, Debug)]
pub enum SaveError {
    Validation(MissingField),
    Persistence { stage: SaveStage, collection: String },
    ExportNotFound { namespace: String },
}

/// An export definition that passes the pre-save validation: creator and
/// both connections present.
pub open spec fn spec_export_valid(e: ExportV) -> bool {
    &&& e.creator is Some
    &&& e.source_connection is Some
    &&& e.destination_connection is Some
}

/// Whether the creator's email already names a stored user.
pub open spec fn spec_resolved_user_found(s: StoreV, e: ExportV) -> bool {
    spec_user_by_email(s.users, e.creator->0.email) is Some
}

/// The user id the save uses: the stored user's, or the id the store
/// assigns to the freshly inserted one.
pub open spec fn spec_resolved_user_id(s: StoreV, e: ExportV) -> int {
    if spec_resolved_user_found(s, e) {
        spec_user_by_email(s.users, e.creator->0.email)->0.id
    } else {
        s.users_next_id
    }
}

/// The export row a save writes, stamped with `now` on both timestamps.
pub open spec fn spec_export_row_of(s: StoreV, e: ExportV, now: Seq<char>) -> ExportRowV {
    ExportRowV {
        id: s.exports_next_id,
        namespace: e.namespace,
        export_type: e.export_type,
        include_filters: spec_join_comma(e.include_filters),
        exclude_filters: spec_join_comma(e.exclude_filters),
        creator_id: spec_resolved_user_id(s, e),
        updator_id: spec_resolved_user_id(s, e),
        source_connection_id: s.connections_next_id,
        destination_connection_id: s.connections_next_id + 1,
        created_at: now,
        updated_at: now,
    }
}

/// The schema rows a save writes: one per attached schema, ids assigned
/// in order from `first_sid`, all referencing the new export row.
pub open spec fn spec_schema_rows(schemas: Seq<SchemaV>, export_id: int, first_sid: int) -> Seq<
    SchemaRowV,
> {
    Seq::new(
        schemas.len(),
        |i: int|
            SchemaRowV {
                id: first_sid + i,
                export_id: export_id,
                namespace: schemas[i].namespace,
                collection: schemas[i].collection,
                sql_table: schemas[i].sql_table,
                version: schemas[i].version,
                indexes: Seq::<char>::empty(),
            },
    )
}

/// How many mapping rows the attached schemas yield together.
pub open spec fn spec_mapping_count(schemas: Seq<SchemaV>) -> int
    decreases schemas.len(),
{
    if schemas.len() == 0 {
        0
    } else {
        spec_mapping_count(schemas.drop_last()) + schemas.last().mappings.len()
    }
}

pub proof fn lemma_mapping_count_nonneg(schemas: Seq<SchemaV>)
    ensures
        spec_mapping_count(schemas) >= 0,
    decreases schemas.len(),
{
    if schemas.len() > 0 {
        lemma_mapping_count_nonneg(schemas.drop_last());
    }
}

/// A prefix yields no more mapping rows than the whole list.
pub proof fn lemma_mapping_count_take_le(schemas: Seq<SchemaV>, k: int)
    requires
        0 <= k <= schemas.len(),
    ensures
        spec_mapping_count(schemas.take(k)) <= spec_mapping_count(schemas),
    decreases schemas.len(),
{
    if k == schemas.len() {
        assert(schemas.take(k) =~= schemas);
    } else {
        assert(schemas.drop_last().take(k) =~= schemas.take(k));
        lemma_mapping_count_take_le(schemas.drop_last(), k);
    }
}

/// The mapping rows of one schema: ids assigned in order from
/// `first_mid`, all referencing that schema's row.
pub open spec fn spec_mapping_rows_for(s: SchemaV, schema_id: int, first_mid: int) -> Seq<
    MappingRowV,
> {
    Seq::new(
        s.mappings.len(),
        |j: int|
            MappingRowV {
                id: first_mid + j,
                schema_id: schema_id,
                source_field_name: s.mappings[j].source_field_name,
                destination_field_name: s.mappings[j].destination_field_name,
                source_field_type: s.mappings[j].source_field_type,
                destination_field_type: s.mappings[j].destination_field_type,
                version: s.mappings[j].version,
            },
    )
}

/// The mapping rows of all schemas, in schema order, with ids running on
/// from `first_mid`.
pub open spec fn spec_mapping_rows(schemas: Seq<SchemaV>, first_sid: int, first_mid: int) -> Seq<
    MappingRowV,
>
    decreases schemas.len(),
{
    if schemas.len() == 0 {
        Seq::empty()
    } else {
        spec_mapping_rows(schemas.drop_last(), first_sid, first_mid) + spec_mapping_rows_for(
            schemas.last(),
            first_sid + schemas.len() - 1,
            first_mid + spec_mapping_count(schemas.drop_last()),
        )
    }
}

pub proof fn lemma_mapping_rows_len(schemas: Seq<SchemaV>, first_sid: int, first_mid: int)
    ensures
        spec_mapping_rows(schemas, first_sid, first_mid).len() == spec_mapping_count(schemas),
    decreases schemas.len(),
{
    if schemas.len() > 0 {
        lemma_mapping_rows_len(schemas.drop_last(), first_sid, first_mid);
        lemma_mapping_count_nonneg(schemas.drop_last());
    }
}

/// A schema of the saved export: the assigned id set, each mapping given
/// its assigned id in order.
pub open spec fn spec_updated_schema(s: SchemaV, sid: int, first_mid: int) -> SchemaV {
    SchemaV {
        id: Some(sid),
        mappings: Seq::new(
            s.mappings.len(),
            |j: int| MappingV { id: Some(first_mid + j), ..s.mappings[j] },
        ),
        ..s
    }
}

/// The saved export's schemas: ids assigned in order, mapping ids running
/// on across schemas.
pub open spec fn spec_updated_schemas(schemas: Seq<SchemaV>, first_sid: int, first_mid: int) -> Seq<
    SchemaV,
> {
    Seq::new(
        schemas.len(),
        |i: int|
            spec_updated_schema(
                schemas[i],
                first_sid + i,
                first_mid + spec_mapping_count(schemas.take(i)),
            ),
    )
}

/// The store after a successful save of `e` at time `now`: the namespace's
/// previous export rows removed, the creator resolved or inserted, two
/// fresh connection rows, the export row, and one row per schema and
/// mapping, each table's next id advanced accordingly.
pub open spec fn spec_store_after_save(s: StoreV, e: ExportV, now: Seq<char>) -> StoreV {
    let uid = spec_resolved_user_id(s, e);
    StoreV {
        users: if spec_resolved_user_found(s, e) {
            s.users
        } else {
            s.users.push(
                UserRowV {
                    id: uid,
                    full_name: e.creator->0.full_name,
                    email: e.creator->0.email,
                    created_at: now,
                },
            )
        },
        users_next_id: if spec_resolved_user_found(s, e) {
            s.users_next_id
        } else {
            s.users_next_id + 1
        },
        connections: s.connections.push(
            ConnectionRowV {
                id: s.connections_next_id,
                name: e.source_connection->0.name,
                connection_string: e.source_connection->0.connection_string,
            },
        ).push(
            ConnectionRowV {
                id: s.connections_next_id + 1,
                name: e.destination_connection->0.name,
                connection_string: e.destination_connection->0.connection_string,
            },
        ),
        connections_next_id: s.connections_next_id + 2,
        exports: spec_exports_without_ns(s.exports, e.namespace).push(
            spec_export_row_of(s, e, now),
        ),
        exports_next_id: s.exports_next_id + 1,
        schemas: s.schemas + spec_schema_rows(e.schemas, s.exports_next_id, s.schemas_next_id),
        schemas_next_id: s.schemas_next_id + e.schemas.len(),
        mappings: s.mappings + spec_mapping_rows(e.schemas, s.schemas_next_id, s.mappings_next_id),
        mappings_next_id: s.mappings_next_id + spec_mapping_count(e.schemas),
    }
}

/// The in-memory export after a successful save: every assigned id copied
/// back; on reuse of a stored user the creator and updator keep the ids
/// they had.
pub open spec fn spec_saved_export(s: StoreV, e: ExportV) -> ExportV {
    let uid = spec_resolved_user_id(s, e);
    let found = spec_resolved_user_found(s, e);
    ExportV {
        id: Some(s.exports_next_id),
        schemas: spec_updated_schemas(e.schemas, s.schemas_next_id, s.mappings_next_id),
        source_connection: Some(
            ConnectionV { id: Some(s.connections_next_id), ..e.source_connection->0 },
        ),
        destination_connection: Some(
            ConnectionV { id: Some(s.connections_next_id + 1), ..e.destination_connection->0 },
        ),
        creator: if found {
            e.creator
        } else {
            Some(UserV { id: Some(uid), ..e.creator->0 })
        },
        updator: if found {
            e.updator
        } else {
            match e.updator {
                Some(u) => Some(UserV { id: Some(uid), ..u }),
                None => None,
            }
        },
        ..e
    }
}

/// Room the save needs in each table's id space; a machine limit, not a
/// rule of the data model.
pub open spec fn spec_store_has_room(s: StoreV, e: ExportV) -> bool {
    &&& s.users_next_id + 1 <= i32::MAX
    &&& s.connections_next_id + 2 <= i32::MAX
    &&& s.exports_next_id + 1 <= i32::MAX
    &&& s.schemas_next_id + e.schemas.len() <= i32::MAX
    &&& s.mappings_next_id + spec_mapping_count(e.schemas) <= i32::MAX
}

/// A delete that would remove more than one stored export: the save
/// surfaces it as a persistence error after the rows are gone.
pub open spec fn spec_delete_conflict(s: StoreV, ns: Seq<char>) -> bool {
    &&& spec_export_by_ns(s.exports, ns) is Some
    &&& s.exports.len() != spec_exports_without_ns(s.exports, ns).len() + 1
}

impl ExportBuilder {
    /// Runs the save sequence against the store at time `now`: validation
    /// first, with no store access on failure; then replace-by-namespace,
    /// creator resolution, connection, export, schema and mapping inserts,
    /// copying each assigned id back onto the in-memory model.
    pub fn save_at(&mut self, store: &mut MetadataStore, now: &str) -> (r: Result<
        bool,
        SaveError,
    >)
        requires
            old(store)@.wf(),
            spec_store_has_room(old(store)@, old(self)@.export),
        ensures
            final(store)@.wf(),
            (old(self)@.export.creator is None) ==> (r matches Err(SaveError::Validation(
                MissingField::Creator,
            )) && final(store)@ == old(store)@ && final(self)@ == old(self)@),
            (old(self)@.export.creator is Some && old(self)@.export.source_connection is None)
                ==> (r matches Err(SaveError::Validation(MissingField::SourceConnection))
                && final(store)@ == old(store)@ && final(self)@ == old(self)@),
            (old(self)@.export.creator is Some && old(self)@.export.source_connection is Some
                && old(self)@.export.destination_connection is None) ==> (r matches Err(
                SaveError::Validation(MissingField::DestinationConnection),
            ) && final(store)@ == old(store)@ && final(self)@ == old(self)@),
            (spec_export_valid(old(self)@.export) && spec_delete_conflict(
                old(store)@,
                old(self)@.export.namespace,
            )) ==> (r matches Err(SaveError::Persistence { stage: SaveStage::DeleteExisting, .. })
                && final(store)@ == (StoreV {
                exports: spec_exports_without_ns(
                    old(store)@.exports,
                    old(self)@.export.namespace,
                ),
                ..old(store)@
            }) && final(self)@ == old(self)@),
            (spec_export_valid(old(self)@.export) && !spec_delete_conflict(
                old(store)@,
                old(self)@.export.namespace,
            )) ==> (r == Ok::<bool, SaveError>(true) && final(store)@ == spec_store_after_save(
                old(store)@,
                old(self)@.export,
                now@,
            ) && final(self)@.export == spec_saved_export(old(store)@, old(self)@.export)
                && final(self)@.entity == Some(
                spec_export_row_of(old(store)@, old(self)@.export, now@),
            )),
    {
        if self.export.creator.is_none() {
            return Err(SaveError::Validation(MissingField::Creator));
        }
        if self.export.source_connection.is_none() {
            return Err(SaveError::Validation(MissingField::SourceConnection));
        }
        if self.export.destination_connection.is_none() {
            return Err(SaveError::Validation(MissingField::DestinationConnection));
        }
        let ghost s0 = store@;
        let ghost e0 = self@.export;

        // replace any export already stored under this namespace
        let (exists, _saved) = store.check_export_exists(self.export.namespace.as_str());
        if exists {
            let clean = store.delete_export(self.export.namespace.as_str());
            if !clean {
                return Err(
                    SaveError::Persistence {
                        stage: SaveStage::DeleteExisting,
                        collection: String::new(),
                    },
                );
            }
        } else {
            proof {
                lemma_export_by_ns_none_all(s0.exports, e0.namespace);
                lemma_exports_without_ns_absent(s0.exports, e0.namespace);
            }
        }
        let ghost s1 = store@;
        proof {
            assert(s1 == (StoreV {
                exports: spec_exports_without_ns(s0.exports, e0.namespace),
                ..s0
            }));
        }
        // resolve the creator by email: reuse a stored user's id, else
        // insert a new user and copy the id onto creator and updator
        let (creator_full_name, creator_email) = match &self.export.creator {
            Some(u) => (u.full_name.clone(), u.email.clone()),
            None => (String::new(), String::new()),
        };
        let uid_lookup: i32 = store.user_by_email(creator_email.as_str());
        let user_found: bool = uid_lookup > 0;
        proof {
            if spec_user_by_email(s1.users, creator_email@) is Some {
                lemma_user_by_email_mem(s1.users, creator_email@);
            }
            assert(user_found == spec_resolved_user_found(s0, e0));
        }
        let user_id: i32;
        if user_found {
            user_id = uid_lookup;
        } else {
            let new_user = store.save_new_user(
                creator_full_name,
                creator_email,
                String::from_str(now),
            );
            user_id = new_user.id;
            match &mut self.export.creator {
                Some(u) => {
                    u.id = Some(user_id);
                },
                None => {
                },
            }
            match &mut self.export.updator {
                Some(u) => {
                    u.id = Some(user_id);
                },
                None => {
                },
            }
        }
        proof {
            assert(user_id as int == spec_resolved_user_id(s0, e0));
        }
        // fresh connection rows for both roles, ids copied back
        let (src_name, src_uri) = match &self.export.source_connection {
            Some(c) => (c.name.clone(), c.connection_string.clone()),
            None => (String::new(), String::new()),
        };
        let src_row = store.save_data_source_connection(src_name, src_uri);
        let source_connection_id: i32 = src_row.id;
        match &mut self.export.source_connection {
            Some(c) => {
                c.id = Some(source_connection_id);
            },
            None => {
            },
        }
        let (dst_name, dst_uri) = match &self.export.destination_connection {
            Some(c) => (c.name.clone(), c.connection_string.clone()),
            None => (String::new(), String::new()),
        };
        let dst_row = store.save_data_source_connection(dst_name, dst_uri);
        let destination_connection_id: i32 = dst_row.id;
        match &mut self.export.destination_connection {
            Some(c) => {
                c.id = Some(destination_connection_id);
            },
            None => {
            },
        }
        proof {
            assert(source_connection_id as int == s0.connections_next_id);
            assert(destination_connection_id as int == s0.connections_next_id + 1);
        }
        // the export row, stamped with `now` on both timestamps
        let include_joined = join_comma(&self.export.include_filters);
        let exclude_joined = join_comma(&self.export.exclude_filters);
        let new_export = NewExportRow {
            namespace: self.export.namespace.clone(),
            export_type: self.export.export_type.clone(),
            include_filters: include_joined,
            exclude_filters: exclude_joined,
            creator_id: user_id,
            updator_id: user_id,
            source_connection_id,
            destination_connection_id,
            created_at: String::from_str(now),
            updated_at: String::from_str(now),
        };
        let export_row = store.save_export(new_export);
        let export_id: i32 = export_row.id;
        self.export.id = Some(export_id);
        proof {
            assert(export_row@ == spec_export_row_of(s0, e0, now@));
            assert(export_id as int == s0.exports_next_id);
        }
        // one row per schema, then one per mapping, ids copied back
        let ghost s5 = store@;
        let ghost fsid = store@.schemas_next_id;
        let ghost fmid = store@.mappings_next_id;
        proof {
            assert(fsid == s0.schemas_next_id);
            assert(fmid == s0.mappings_next_id);
        }
        let n: usize = self.export.schemas.len();
        let mut new_schemas: Vec<Schema> = Vec::new();
        let mut i: usize = 0;
        while i < n
            invariant
                i <= n,
                n == e0.schemas.len(),
                self.export.schemas@.map_values(|s: Schema| s@) == e0.schemas,
                store@.wf(),
                spec_store_has_room(s0, e0),
                fsid == s0.schemas_next_id,
                fmid == s0.mappings_next_id,
                export_id as int == s0.exports_next_id,
                store@ == (StoreV {
                    schemas: s5.schemas + spec_schema_rows(
                        e0.schemas.take(i as int),
                        export_id as int,
                        fsid,
                    ),
                    schemas_next_id: fsid + i,
                    mappings: s5.mappings + spec_mapping_rows(
                        e0.schemas.take(i as int),
                        fsid,
                        fmid,
                    ),
                    mappings_next_id: fmid + spec_mapping_count(e0.schemas.take(i as int)),
                    ..s5
                }),
                new_schemas@.map_values(|s: Schema| s@) =~= spec_updated_schemas(
                    e0.schemas,
                    fsid,
                    fmid,
                ).take(i as int),
            decreases n - i,
        {
            proof {
                assert(e0.schemas.take(i + 1).drop_last() =~= e0.schemas.take(i as int));
                assert(e0.schemas.take(i + 1).last() == e0.schemas[i as int]);
                lemma_mapping_count_nonneg(e0.schemas.take(i as int));
                lemma_mapping_count_take_le(e0.schemas, i + 1);
                lemma_mapping_count_nonneg(e0.schemas.take(i + 1));
                assert(self.export.schemas@.map_values(|s: Schema| s@)[i as int] == e0.schemas[
                    i as int
                ]);
            }
            let schema_id: i32 = store.save_schema_row(
                export_id,
                self.export.schemas[i].namespace.clone(),
                self.export.schemas[i].collection.clone(),
                self.export.schemas[i].sql_table.clone(),
                self.export.schemas[i].version.clone(),
                String::new(),
            );
            proof {
                assert(schema_id as int == fsid + i);
            }
            let ghost s_m = store@;
            let ghost mid0 = store@.mappings_next_id;
            proof {
                assert(mid0 == fmid + spec_mapping_count(e0.schemas.take(i as int)));
                assert(mid0 + e0.schemas[i as int].mappings.len() <= i32::MAX) by {
                    assert(spec_mapping_count(e0.schemas.take(i + 1)) == spec_mapping_count(
                        e0.schemas.take(i as int),
                    ) + e0.schemas[i as int].mappings.len());
                };
            }
            let m_count: usize = self.export.schemas[i].mappings.len();
            proof {
                assert(m_count == e0.schemas[i as int].mappings.len());
            }
            let mut new_mappings: Vec<Mapping> = Vec::new();
            let mut j: usize = 0;
            while j < m_count
                invariant
                    j <= m_count,
                    i < n,
                    n == e0.schemas.len(),
                    m_count == e0.schemas[i as int].mappings.len(),
                    self.export.schemas@.map_values(|s: Schema| s@) == e0.schemas,
                    store@.wf(),
                    mid0 + m_count <= i32::MAX,
                    store@ == (StoreV {
                        mappings: s_m.mappings + spec_mapping_rows_for(
                            e0.schemas[i as int],
                            schema_id as int,
                            mid0,
                        ).take(j as int),
                        mappings_next_id: mid0 + j,
                        ..s_m
                    }),
                    new_mappings@.map_values(|m: Mapping| m@) =~= Seq::new(
                        e0.schemas[i as int].mappings.len(),
                        |jj: int|
                            MappingV {
                                id: Some(mid0 + jj),
                                ..e0.schemas[i as int].mappings[jj]
                            },
                    ).take(j as int),
                decreases m_count - j,
            {
                proof {
                    assert(self.export.schemas@.map_values(|s: Schema| s@)[i as int] == e0.schemas[
                        i as int
                    ]);
                    assert(self.export.schemas@[i as int]@.mappings[j as int] == e0.schemas[
                        i as int
                    ].mappings[j as int]);
                }
                let mapping_id: i32 = store.save_mapping_row(
                    schema_id,
                    self.export.schemas[i].mappings[j].source_field_name.clone(),
                    self.export.schemas[i].mappings[j].destination_field_name.clone(),
                    self.export.schemas[i].mappings[j].source_field_type.clone(),
                    self.export.schemas[i].mappings[j].destination_field_type.clone(),
                    self.export.schemas[i].mappings[j].version.clone(),
                );
                let m2 = Mapping {
                    id: Some(mapping_id),
                    source_field_name: self.export.schemas[i].mappings[j].source_field_name.clone(),
                    destination_field_name: self.export.schemas[
                        i
                    ].mappings[j].destination_field_name.clone(),
                    source_field_type: self.export.schemas[i].mappings[j].source_field_type.clone(),
                    destination_field_type: self.export.schemas[
                        i
                    ].mappings[j].destination_field_type.clone(),
                    version: self.export.schemas[i].mappings[j].version.clone(),
                };
                let ghost pre_m = new_mappings@.map_values(|m: Mapping| m@);
                new_mappings.push(m2);
                proof {
                    assert(new_mappings@.map_values(|m: Mapping| m@) =~= pre_m.push(m2@));
                    assert(store@.mappings =~= s_m.mappings + spec_mapping_rows_for(
                        e0.schemas[i as int],
                        schema_id as int,
                        mid0,
                    ).take(j + 1));
                    assert(new_mappings@.map_values(|m: Mapping| m@) =~= Seq::new(
                        e0.schemas[i as int].mappings.len(),
                        |jj: int|
                            MappingV {
                                id: Some(mid0 + jj),
                                ..e0.schemas[i as int].mappings[jj]
                            },
                    ).take(j + 1));
                }
                j = j + 1;
            }
            let s2 = Schema {
                id: Some(schema_id),
                namespace: self.export.schemas[i].namespace.clone(),
                collection: self.export.schemas[i].collection.clone(),
                sql_table: self.export.schemas[i].sql_table.clone(),
                version: self.export.schemas[i].version.clone(),
                indexes: crate::model::duplicate_strings(&self.export.schemas[i].indexes),
                mappings: new_mappings,
            };
            let ghost pre_s = new_schemas@.map_values(|s: Schema| s@);
            new_schemas.push(s2);
            proof {
                let full_m = Seq::new(
                    e0.schemas[i as int].mappings.len(),
                    |jj: int|
                        MappingV {
                            id: Some(mid0 + jj),
                            ..e0.schemas[i as int].mappings[jj]
                        },
                );
                assert(full_m.take(full_m.len() as int) =~= full_m);
                assert(s2@.mappings =~= spec_updated_schema(
                    e0.schemas[i as int],
                    fsid + i,
                    mid0,
                ).mappings);
                assert(s2@.indexes =~= e0.schemas[i as int].indexes);
                assert(s2@ == spec_updated_schema(e0.schemas[i as int], fsid + i, mid0));
                assert(new_schemas@.map_values(|s: Schema| s@) =~= pre_s.push(s2@));
                assert(spec_updated_schemas(e0.schemas, fsid, fmid)[i as int] == s2@);
                assert(new_schemas@.map_values(|s: Schema| s@) =~= spec_updated_schemas(
                    e0.schemas,
                    fsid,
                    fmid,
                ).take(i + 1));
                // fold this schema's rows into the prefix the outer
                // invariant carries
                let full_r = spec_mapping_rows_for(e0.schemas[i as int], schema_id as int, mid0);
                assert(full_r.take(full_r.len() as int) =~= full_r);
                assert(store@.mappings =~= s5.mappings + spec_mapping_rows(
                    e0.schemas.take(i + 1),
                    fsid,
                    fmid,
                ));
                assert(store@.schemas =~= s5.schemas + spec_schema_rows(
                    e0.schemas.take(i + 1),
                    export_id as int,
                    fsid,
                ));
                assert(store@ == (StoreV {
                    schemas: s5.schemas + spec_schema_rows(
                        e0.schemas.take(i + 1),
                        export_id as int,
                        fsid,
                    ),
                    schemas_next_id: fsid + i + 1,
                    mappings: s5.mappings + spec_mapping_rows(e0.schemas.take(i + 1), fsid, fmid),
                    mappings_next_id: fmid + spec_mapping_count(e0.schemas.take(i + 1)),
                    ..s5
                }));
            }
            i = i + 1;
        }
        self.export.schemas = new_schemas;
        self.entity = Some(export_row);
        proof {
            assert(e0.schemas.take(n as int) =~= e0.schemas);
            assert(spec_updated_schemas(e0.schemas, fsid, fmid).take(n as int)
                =~= spec_updated_schemas(e0.schemas, fsid, fmid));
            assert(store@.users =~= spec_store_after_save(s0, e0, now@).users);
            assert(store@.connections =~= spec_store_after_save(s0, e0, now@).connections);
            assert(store@.exports =~= spec_store_after_save(s0, e0, now@).exports);
            assert(store@.schemas =~= spec_store_after_save(s0, e0, now@).schemas);
            assert(store@.mappings =~= spec_store_after_save(s0, e0, now@).mappings);
            assert(store@ == spec_store_after_save(s0, e0, now@));
            assert(self@.export.schemas =~= spec_saved_export(s0, e0).schemas);
            assert(self@.export.include_filters =~= spec_saved_export(s0, e0).include_filters);
            assert(self@.export.exclude_filters =~= spec_saved_export(s0, e0).exclude_filters);
            assert(self@.export == spec_saved_export(s0, e0));
        }
        Ok(true)
    }
}

impl ExportBuilder {
    /// Persists the export definition, stamping the export row with the
    /// clock's current time; otherwise exactly the sequence of `save_at`.
    pub fn save(&mut self, store: &mut MetadataStore) -> (r: Result<bool, SaveError>)
        requires
            old(store)@.wf(),
            spec_store_has_room(old(store)@, old(self)@.export),
        ensures
            final(store)@.wf(),
            (old(self)@.export.creator is None) ==> (r matches Err(SaveError::Validation(
                MissingField::Creator,
            )) && final(store)@ == old(store)@ && final(self)@ == old(self)@),
            (old(self)@.export.creator is Some && old(self)@.export.source_connection is None)
                ==> (r matches Err(SaveError::Validation(MissingField::SourceConnection))
                && final(store)@ == old(store)@ && final(self)@ == old(self)@),
            (old(self)@.export.creator is Some && old(self)@.export.source_connection is Some
                && old(self)@.export.destination_connection is None) ==> (r matches Err(
                SaveError::Validation(MissingField::DestinationConnection),
            ) && final(store)@ == old(store)@ && final(self)@ == old(self)@),
            (spec_export_valid(old(self)@.export) && spec_delete_conflict(
                old(store)@,
                old(self)@.export.namespace,
            )) ==> (r matches Err(SaveError::Persistence { stage: SaveStage::DeleteExisting, .. })
                && final(store)@ == (StoreV {
                exports: spec_exports_without_ns(
                    old(store)@.exports,
                    old(self)@.export.namespace,
                ),
                ..old(store)@
            }) && final(self)@ == old(self)@),
            (spec_export_valid(old(self)@.export) && !spec_delete_conflict(
                old(store)@,
                old(self)@.export.namespace,
            )) ==> (r == Ok::<bool, SaveError>(true) && final(self)@.export == spec_saved_export(
                old(store)@,
                old(self)@.export,
            ) && exists|ts: Seq<char>|
                final(store)@ == #[trigger] spec_store_after_save(
                    old(store)@,
                    old(self)@.export,
                    ts,
                )),
    {
        let now = crate::clock::now_rfc3339();
        let r = self.save_at(store, now.as_str());
        proof {
            if spec_export_valid(old(self)@.export) && !spec_delete_conflict(
                old(store)@,
                old(self)@.export.namespace,
            ) {
                assert(store@ == spec_store_after_save(old(store)@, old(self)@.export, now@));
            }
        }
        r
    }

    /// Fetches the export row stored under `namespace` onto the builder;
    /// fails with a not-found error, leaving the builder as it was, when
    /// the store holds none.
    pub fn load_export(&mut self, db_client: &MetadataStore, namespace: &str) -> (r: Result<
        bool,
        SaveError,
    >)
        ensures
            (spec_export_by_ns(db_client@.exports, namespace@) is Some) ==> (r == Ok::<
                bool,
                SaveError,
            >(true) && final(self)@ == (ExportBuilderV {
                entity: Some(spec_export_by_ns(db_client@.exports, namespace@)->0),
                ..old(self)@
            })),
            (spec_export_by_ns(db_client@.exports, namespace@) is None) ==> (final(self)@ == old(
                self,
            )@ && match r {
                Err(SaveError::ExportNotFound { namespace: n }) => n@ == namespace@,
                _ => false,
            }),
    {
        let (yes, saved_export) = db_client.check_export_exists(namespace);
        if yes {
            match saved_export {
                Some(row) => {
                    self.entity = Some(row);
                    Ok(true)
                },
                None => Err(
                    SaveError::ExportNotFound { namespace: String::from_str(namespace) },
                ),
            }
        } else {
            Err(SaveError::ExportNotFound { namespace: String::from_str(namespace) })
        }
    }
}

/// How many export rows carry `ns`.
pub open spec fn spec_ns_count(rows: Seq<ExportRowV>, ns: Seq<char>) -> int
    decreases rows.len(),
{
    if rows.len() == 0 {
        0
    } else if rows.last().namespace == ns {
        1 + spec_ns_count(rows.drop_last(), ns)
    } else {
        spec_ns_count(rows.drop_last(), ns)
    }
}

/// Keeping and counting partition the table.
pub proof fn lemma_ns_count_split(rows: Seq<ExportRowV>, ns: Seq<char>)
    ensures
        spec_exports_without_ns(rows, ns).len() + spec_ns_count(rows, ns) == rows.len(),
    decreases rows.len(),
{
    if rows.len() > 0 {
        lemma_ns_count_split(rows.drop_last(), ns);
    }
}

/// Every mapping row a save writes has its id in the assigned range.
pub proof fn lemma_mapping_rows_ids(schemas: Seq<SchemaV>, first_sid: int, first_mid: int)
    ensures
        forall|k: int|
            0 <= k < spec_mapping_rows(schemas, first_sid, first_mid).len() ==> first_mid <= (
            #[trigger] spec_mapping_rows(schemas, first_sid, first_mid)[k]).id < first_mid
                + spec_mapping_count(schemas),
    decreases schemas.len(),
{
    if schemas.len() > 0 {
        let prefix = schemas.drop_last();
        lemma_mapping_rows_ids(prefix, first_sid, first_mid);
        lemma_mapping_rows_len(prefix, first_sid, first_mid);
        lemma_mapping_count_nonneg(prefix);
        let rows = spec_mapping_rows(schemas, first_sid, first_mid);
        let tail = spec_mapping_rows_for(
            schemas.last(),
            first_sid + schemas.len() - 1,
            first_mid + spec_mapping_count(prefix),
        );
        assert forall|k: int| 0 <= k < rows.len() implies first_mid <= (#[trigger] rows[k]).id
            < first_mid + spec_mapping_count(schemas) by {
            if k < spec_mapping_rows(prefix, first_sid, first_mid).len() {
                assert(rows[k] == spec_mapping_rows(prefix, first_sid, first_mid)[k]);
            } else {
                assert(rows[k] == tail[k - spec_mapping_count(prefix)]);
            }
        }
    }
}

/// A save keeps the store well-formed: every id it assigns is fresh.
pub proof fn lemma_store_after_save_wf(s: StoreV, e: ExportV, now: Seq<char>)
    requires
        s.wf(),
    ensures
        spec_store_after_save(s, e, now).wf(),
{
    let after = spec_store_after_save(s, e, now);
    assert forall|i: int| 0 <= i < after.users.len() implies 1 <= (#[trigger] after.users[i]).id
        < after.users_next_id by {
        if !spec_resolved_user_found(s, e) && i == s.users.len() {
            assert(after.users[i].id == s.users_next_id);
        } else {
            assert(after.users[i] == s.users[i]);
        }
    }
    assert forall|i: int| 0 <= i < after.connections.len() implies 1 <= (
    #[trigger] after.connections[i]).id < after.connections_next_id by {
        if i < s.connections.len() {
            assert(after.connections[i] == s.connections[i]);
        }
    }
    crate::store::lemma_exports_without_ns_ids(s.exports, e.namespace, s.exports_next_id);
    let kept = spec_exports_without_ns(s.exports, e.namespace);
    crate::store::lemma_exports_without_ns_len(s.exports, e.namespace);
    assert forall|i: int| 0 <= i < after.exports.len() implies 1 <= (
    #[trigger] after.exports[i]).id < after.exports_next_id by {
        if i < kept.len() {
            assert(after.exports[i] == kept[i]);
        } else {
            assert(after.exports[i] == spec_export_row_of(s, e, now));
        }
    }
    assert forall|i: int| 0 <= i < after.schemas.len() implies 1 <= (
    #[trigger] after.schemas[i]).id < after.schemas_next_id by {
        if i < s.schemas.len() {
            assert(after.schemas[i] == s.schemas[i]);
        } else {
            assert(after.schemas[i] == spec_schema_rows(
                e.schemas,
                s.exports_next_id,
                s.schemas_next_id,
            )[i - s.schemas.len()]);
        }
    }
    lemma_mapping_rows_ids(e.schemas, s.schemas_next_id, s.mappings_next_id);
    lemma_mapping_rows_len(e.schemas, s.schemas_next_id, s.mappings_next_id);
    lemma_mapping_count_nonneg(e.schemas);
    assert forall|i: int| 0 <= i < after.mappings.len() implies 1 <= (
    #[trigger] after.mappings[i]).id < after.mappings_next_id by {
        if i < s.mappings.len() {
            assert(after.mappings[i] == s.mappings[i]);
        } else {
            assert(after.mappings[i] == spec_mapping_rows(
                e.schemas,
                s.schemas_next_id,
                s.mappings_next_id,
            )[i - s.mappings.len()]);
        }
    }
}

/// Saving a namespace twice leaves exactly one export row resolvable by
/// it: the second save's row, under a fresh id; the first save's row and
/// its id are gone. Rows of other namespaces are untouched.
pub proof fn lemma_save_replaces_export(
    s: StoreV,
    e1: ExportV,
    t1: Seq<char>,
    e2: ExportV,
    t2: Seq<char>,
)
    requires
        s.wf(),
        e2.namespace == e1.namespace,
    ensures
        ({
            let s1 = spec_store_after_save(s, e1, t1);
            let s2 = spec_store_after_save(s1, e2, t2);
            let ns = e1.namespace;
            &&& spec_ns_count(s2.exports, ns) == 1
            &&& spec_export_by_ns(s2.exports, ns) == Some(spec_export_row_of(s1, e2, t2))
            &&& spec_export_row_of(s1, e2, t2).id != spec_export_row_of(s, e1, t1).id
            &&& forall|k: int|
                0 <= k < s2.exports.len() ==> (#[trigger] s2.exports[k]).id != spec_export_row_of(
                    s,
                    e1,
                    t1,
                ).id
            &&& spec_exports_without_ns(s2.exports, ns) == spec_exports_without_ns(s.exports, ns)
        }),
{
    let ns = e1.namespace;
    let s1 = spec_store_after_save(s, e1, t1);
    let s2 = spec_store_after_save(s1, e2, t2);
    let row1 = spec_export_row_of(s, e1, t1);
    let row2 = spec_export_row_of(s1, e2, t2);
    let kept = spec_exports_without_ns(s.exports, ns);
    crate::store::lemma_exports_without_ns_no_match(s.exports, ns);
    crate::store::lemma_exports_without_ns_ids(s.exports, ns, s.exports_next_id);
    // deleting ns from the first save's table gives back the rows of the
    // other namespaces alone
    assert(s1.exports == kept.push(row1));
    crate::store::lemma_exports_without_ns_push_match(kept, ns, row1);
    crate::store::lemma_exports_without_ns_absent(kept, ns);
    assert(spec_exports_without_ns(s1.exports, ns) == kept);
    assert(s2.exports == kept.push(row2));
    crate::store::lemma_export_by_ns_push_fresh(kept, ns, row2);
    // exactly one row for the namespace
    crate::store::lemma_exports_without_ns_push_match(kept, ns, row2);
    lemma_ns_count_split(s2.exports, ns);
    crate::store::lemma_exports_without_ns_len(s.exports, ns);
    // the first save's id is gone: kept rows predate it, the new row
    // postdates it
    assert(row1.id == s.exports_next_id);
    assert(row2.id == s.exports_next_id + 1);
    assert forall|k: int| 0 <= k < s2.exports.len() implies (#[trigger] s2.exports[k]).id
        != row1.id by {
        if k < kept.len() {
            assert(s2.exports[k] == kept[k]);
        } else {
            assert(s2.exports[k] == row2);
        }
    }
}

/// A schema of the saved export carries a store-assigned id, as does each
/// of its mappings.
pub open spec fn spec_schema_ids_assigned(s: SchemaV) -> bool {
    &&& s.id is Some
    &&& s.id->0 > 0
    &&& forall|j: int|
        0 <= j < s.mappings.len() ==> ((#[trigger] s.mappings[j]).id is Some && s.mappings[j].id->0
            > 0)
}

/// Saving an export with N schemas of m1..mN mappings writes exactly N
/// schema rows and m1+..+mN mapping rows, and the saved export carries a
/// store-assigned id on every schema and mapping.
pub proof fn lemma_save_row_counts(s: StoreV, e: ExportV, now: Seq<char>)
    requires
        s.wf(),
    ensures
        spec_store_after_save(s, e, now).schemas.len() == s.schemas.len() + e.schemas.len(),
        spec_store_after_save(s, e, now).mappings.len() == s.mappings.len() + spec_mapping_count(
            e.schemas,
        ),
        spec_saved_export(s, e).schemas.len() == e.schemas.len(),
        forall|i: int|
            0 <= i < e.schemas.len() ==> spec_schema_ids_assigned(
                #[trigger] spec_saved_export(s, e).schemas[i],
            ) && spec_saved_export(s, e).schemas[i].mappings.len() == e.schemas[i].mappings.len(),
{
    lemma_mapping_rows_len(e.schemas, s.schemas_next_id, s.mappings_next_id);
    let saved = spec_saved_export(s, e);
    assert forall|i: int| 0 <= i < e.schemas.len() implies spec_schema_ids_assigned(
        #[trigger] saved.schemas[i],
    ) && saved.schemas[i].mappings.len() == e.schemas[i].mappings.len() by {
        assert(saved.schemas[i] == spec_updated_schema(
            e.schemas[i],
            s.schemas_next_id + i,
            s.mappings_next_id + spec_mapping_count(e.schemas.take(i)),
        ));
        lemma_mapping_count_nonneg(e.schemas.take(i));
        assert forall|j: int| 0 <= j < saved.schemas[i].mappings.len() implies ((
        #[trigger] saved.schemas[i].mappings[j]).id is Some && saved.schemas[i].mappings[j].id->0
            > 0) by {
            assert(saved.schemas[i].mappings[j].id == Some(
                s.mappings_next_id + spec_mapping_count(e.schemas.take(i)) + j,
            ));
        }
    }
}

} // verus!
