//! An executable model of the metadata store: one row type per table, and
//! a store value holding the five tables together with the next id each
//! table will assign. The save sequence is verified against this model;
//! a driver for an external store replays the same sequence action by
//! action.
use vstd::prelude::*;
use vstd::string::*;

use crate::model::Connection;
use crate::text::str_eq;

verus! {

/// Row of the `user` table.
#[derive(Clone, Debug)]
pub struct UserRow {
    pub id: i32,
    pub full_name: String,
    pub email: String,
    pub created_at: String,
}

pub ghost struct UserRowV {
    pub id: int,
    pub full_name: Seq<char>,
    pub email: Seq<char>,
    pub created_at: Seq<char>,
}

impl View for UserRow {
    type V = UserRowV;

    open spec fn view(&self) -> UserRowV {
        UserRowV {
            id: self.id as int,
            full_name: self.full_name@,
            email: self.email@,
            created_at: self.created_at@,
        }
    }
}

impl UserRow {
    /// A field-for-field copy with the same view.
    pub fn duplicate(&self) -> (r: UserRow)
        ensures
            r@ == self@,
    {
        UserRow {
            id: self.id,
            full_name: self.full_name.clone(),
            email: self.email.clone(),
            created_at: self.created_at.clone(),
        }
    }
}

/// Row of the `connection` table.
#[derive(Clone, Debug)]
pub struct ConnectionRow {
    pub id: i32,
    pub name: String,
    pub connection_string: String,
}

pub ghost struct ConnectionRowV {
    pub id: int,
    pub name: Seq<char>,
    pub connection_string: Seq<char>,
}

impl View for ConnectionRow {
    type V = ConnectionRowV;

    open spec fn view(&self) -> ConnectionRowV {
        ConnectionRowV {
            id: self.id as int,
            name: self.name@,
            connection_string: self.connection_string@,
        }
    }
}

impl ConnectionRow {
    /// A field-for-field copy with the same view.
    pub fn duplicate(&self) -> (r: ConnectionRow)
        ensures
            r@ == self@,
    {
        ConnectionRow {
            id: self.id,
            name: self.name.clone(),
            connection_string: self.connection_string.clone(),
        }
    }
}

/// Row of the `export` table; the filter lists are stored comma-joined.
#[derive(Clone, Debug)]
pub struct ExportRow {
    pub id: i32,
    pub namespace: String,
    pub export_type: String,
    pub include_filters: String,
    pub exclude_filters: String,
    pub creator_id: i32,
    pub updator_id: i32,
    pub source_connection_id: i32,
    pub destination_connection_id: i32,
    pub created_at: String,
    pub updated_at: String,
}

pub ghost struct ExportRowV {
    pub id: int,
    pub namespace: Seq<char>,
    pub export_type: Seq<char>,
    pub include_filters: Seq<char>,
    pub exclude_filters: Seq<char>,
    pub creator_id: int,
    pub updator_id: int,
    pub source_connection_id: int,
    pub destination_connection_id: int,
    pub created_at: Seq<char>,
    pub updated_at: Seq<char>,
}

impl View for ExportRow {
    type V = ExportRowV;

    open spec fn view(&self) -> ExportRowV {
        ExportRowV {
            id: self.id as int,
            namespace: self.namespace@,
            export_type: self.export_type@,
            include_filters: self.include_filters@,
            exclude_filters: self.exclude_filters@,
            creator_id: self.creator_id as int,
            updator_id: self.updator_id as int,
            source_connection_id: self.source_connection_id as int,
            destination_connection_id: self.destination_connection_id as int,
            created_at: self.created_at@,
            updated_at: self.updated_at@,
        }
    }
}

impl ExportRow {
    /// A field-for-field copy with the same view.
    pub fn duplicate(&self) -> (r: ExportRow)
        ensures
            r@ == self@,
    {
        ExportRow {
            id: self.id,
            namespace: self.namespace.clone(),
            export_type: self.export_type.clone(),
            include_filters: self.include_filters.clone(),
            exclude_filters: self.exclude_filters.clone(),
            creator_id: self.creator_id,
            updator_id: self.updator_id,
            source_connection_id: self.source_connection_id,
            destination_connection_id: self.destination_connection_id,
            created_at: self.created_at.clone(),
            updated_at: self.updated_at.clone(),
        }
    }
}

/// Column values for a new export row, before the store assigns its id.
#[derive(Clone, Debug)]
pub struct NewExportRow {
    pub namespace: String,
    pub export_type: String,
    pub include_filters: String,
    pub exclude_filters: String,
    pub creator_id: i32,
    pub updator_id: i32,
    pub source_connection_id: i32,
    pub destination_connection_id: i32,
    pub created_at: String,
    pub updated_at: String,
}

impl NewExportRow {
    /// The row this seed becomes once the store assigns it `id`.
    pub open spec fn with_id(&self, id: int) -> ExportRowV {
        ExportRowV {
            id: id,
            namespace: self.namespace@,
            export_type: self.export_type@,
            include_filters: self.include_filters@,
            exclude_filters: self.exclude_filters@,
            creator_id: self.creator_id as int,
            updator_id: self.updator_id as int,
            source_connection_id: self.source_connection_id as int,
            destination_connection_id: self.destination_connection_id as int,
            created_at: self.created_at@,
            updated_at: self.updated_at@,
        }
    }
}

/// Row of the `schema` table.
#[derive(Clone, Debug)]
pub struct SchemaRow {
    pub id: i32,
    pub export_id: i32,
    pub namespace: String,
    pub collection: String,
    pub sql_table: String,
    pub version: String,
    pub indexes: String,
}

pub ghost struct SchemaRowV {
    pub id: int,
    pub export_id: int,
    pub namespace: Seq<char>,
    pub collection: Seq<char>,
    pub sql_table: Seq<char>,
    pub version: Seq<char>,
    pub indexes: Seq<char>,
}

impl View for SchemaRow {
    type V = SchemaRowV;

    open spec fn view(&self) -> SchemaRowV {
        SchemaRowV {
            id: self.id as int,
            export_id: self.export_id as int,
            namespace: self.namespace@,
            collection: self.collection@,
            sql_table: self.sql_table@,
            version: self.version@,
            indexes: self.indexes@,
        }
    }
}

impl SchemaRow {
    /// A field-for-field copy with the same view.
    pub fn duplicate(&self) -> (r: SchemaRow)
        ensures
            r@ == self@,
    {
        SchemaRow {
            id: self.id,
            export_id: self.export_id,
            namespace: self.namespace.clone(),
            collection: self.collection.clone(),
            sql_table: self.sql_table.clone(),
            version: self.version.clone(),
            indexes: self.indexes.clone(),
        }
    }
}

/// Row of the `mapping` table.
#[derive(Clone, Debug)]
pub struct MappingRow {
    pub id: i32,
    pub schema_id: i32,
    pub source_field_name: String,
    pub destination_field_name: String,
    pub source_field_type: String,
    pub destination_field_type: String,
    pub version: String,
}

pub ghost struct MappingRowV {
    pub id: int,
    pub schema_id: int,
    pub source_field_name: Seq<char>,
    pub destination_field_name: Seq<char>,
    pub source_field_type: Seq<char>,
    pub destination_field_type: Seq<char>,
    pub version: Seq<char>,
}

impl View for MappingRow {
    type V = MappingRowV;

    open spec fn view(&self) -> MappingRowV {
        MappingRowV {
            id: self.id as int,
            schema_id: self.schema_id as int,
            source_field_name: self.source_field_name@,
            destination_field_name: self.destination_field_name@,
            source_field_type: self.source_field_type@,
            destination_field_type: self.destination_field_type@,
            version: self.version@,
        }
    }
}

/// The store's tables and the id each table will assign next.
pub ghost struct StoreV {
    pub users: Seq<UserRowV>,
    pub connections: Seq<ConnectionRowV>,
    pub exports: Seq<ExportRowV>,
    pub schemas: Seq<SchemaRowV>,
    pub mappings: Seq<MappingRowV>,
    pub users_next_id: int,
    pub connections_next_id: int,
    pub exports_next_id: int,
    pub schemas_next_id: int,
    pub mappings_next_id: int,
}

impl StoreV {
    /// Every assigned id is positive and below the id its table assigns
    /// next, so a fresh id never collides with a stored one.
    pub open spec fn wf(self) -> bool {
        &&& 1 <= self.users_next_id
        &&& 1 <= self.connections_next_id
        &&& 1 <= self.exports_next_id
        &&& 1 <= self.schemas_next_id
        &&& 1 <= self.mappings_next_id
        &&& forall|i: int|
            0 <= i < self.users.len() ==> 1 <= (#[trigger] self.users[i]).id
                < self.users_next_id
        &&& forall|i: int|
            0 <= i < self.connections.len() ==> 1 <= (#[trigger] self.connections[i]).id
                < self.connections_next_id
        &&& forall|i: int|
            0 <= i < self.exports.len() ==> 1 <= (#[trigger] self.exports[i]).id
                < self.exports_next_id
        &&& forall|i: int|
            0 <= i < self.schemas.len() ==> 1 <= (#[trigger] self.schemas[i]).id
                < self.schemas_next_id
        &&& forall|i: int|
            0 <= i < self.mappings.len() ==> 1 <= (#[trigger] self.mappings[i]).id
                < self.mappings_next_id
    }
}

/// The first export row carrying `ns`, if any.
pub open spec fn spec_export_by_ns(rows: Seq<ExportRowV>, ns: Seq<char>) -> Option<ExportRowV>
    decreases rows.len(),
{
    if rows.len() == 0 {
        None
    } else if rows[0].namespace == ns {
        Some(rows[0])
    } else {
        spec_export_by_ns(rows.drop_first(), ns)
    }
}

/// The export table with every row carrying `ns` removed, order kept.
pub open spec fn spec_exports_without_ns(rows: Seq<ExportRowV>, ns: Seq<char>) -> Seq<ExportRowV>
    decreases rows.len(),
{
    if rows.len() == 0 {
        Seq::empty()
    } else if rows.last().namespace == ns {
        spec_exports_without_ns(rows.drop_last(), ns)
    } else {
        spec_exports_without_ns(rows.drop_last(), ns).push(rows.last())
    }
}

/// The first user row carrying `email`, if any.
pub open spec fn spec_user_by_email(rows: Seq<UserRowV>, email: Seq<char>) -> Option<UserRowV>
    decreases rows.len(),
{
    if rows.len() == 0 {
        None
    } else if rows[0].email == email {
        Some(rows[0])
    } else {
        spec_user_by_email(rows.drop_first(), email)
    }
}

/// The first connection row carrying `id`, if any.
pub open spec fn spec_connection_by_id(rows: Seq<ConnectionRowV>, id: int) -> Option<
    ConnectionRowV,
>
    decreases rows.len(),
{
    if rows.len() == 0 {
        None
    } else if rows[0].id == id {
        Some(rows[0])
    } else {
        spec_connection_by_id(rows.drop_first(), id)
    }
}

/// The schema rows carrying `ns`, in table order.
pub open spec fn spec_schemas_with_ns(rows: Seq<SchemaRowV>, ns: Seq<char>) -> Seq<SchemaRowV>
    decreases rows.len(),
{
    if rows.len() == 0 {
        Seq::empty()
    } else if rows.last().namespace == ns {
        spec_schemas_with_ns(rows.drop_last(), ns).push(rows.last())
    } else {
        spec_schemas_with_ns(rows.drop_last(), ns)
    }
}

/// The in-memory metadata store.
pub struct MetadataStore {
    users: Vec<UserRow>,
    connections: Vec<ConnectionRow>,
    exports: Vec<ExportRow>,
    schemas: Vec<SchemaRow>,
    mappings: Vec<MappingRow>,
    users_next_id: i32,
    connections_next_id: i32,
    exports_next_id: i32,
    schemas_next_id: i32,
    mappings_next_id: i32,
}

impl View for MetadataStore {
    type V = StoreV;

    closed spec fn view(&self) -> StoreV {
        StoreV {
            users: self.users@.map_values(|r: UserRow| r@),
            connections: self.connections@.map_values(|r: ConnectionRow| r@),
            exports: self.exports@.map_values(|r: ExportRow| r@),
            schemas: self.schemas@.map_values(|r: SchemaRow| r@),
            mappings: self.mappings@.map_values(|r: MappingRow| r@),
            users_next_id: self.users_next_id as int,
            connections_next_id: self.connections_next_id as int,
            exports_next_id: self.exports_next_id as int,
            schemas_next_id: self.schemas_next_id as int,
            mappings_next_id: self.mappings_next_id as int,
        }
    }
}

impl MetadataStore {
    /// An empty store; each table will assign ids from 1 upward.
    pub fn new() -> (r: MetadataStore)
        ensures
            r@.wf(),
            r@.users =~= Seq::<UserRowV>::empty(),
            r@.connections =~= Seq::<ConnectionRowV>::empty(),
            r@.exports =~= Seq::<ExportRowV>::empty(),
            r@.schemas =~= Seq::<SchemaRowV>::empty(),
            r@.mappings =~= Seq::<MappingRowV>::empty(),
            r@.users_next_id == 1,
            r@.connections_next_id == 1,
            r@.exports_next_id == 1,
            r@.schemas_next_id == 1,
            r@.mappings_next_id == 1,
    {
        MetadataStore {
            users: Vec::new(),
            connections: Vec::new(),
            exports: Vec::new(),
            schemas: Vec::new(),
            mappings: Vec::new(),
            users_next_id: 1,
            connections_next_id: 1,
            exports_next_id: 1,
            schemas_next_id: 1,
            mappings_next_id: 1,
        }
    }

    /// Whether an export row for `namespace` exists, and the first such row.
    pub fn check_export_exists(&self, namespace: &str) -> (r: (bool, Option<ExportRow>))
        ensures
            r.0 == spec_export_by_ns(self@.exports, namespace@) is Some,
            match r.1 {
                Some(row) => spec_export_by_ns(self@.exports, namespace@) == Some(row@),
                None => spec_export_by_ns(self@.exports, namespace@) is None,
            },
    {
        proof {
            assert(self@.exports.skip(0) =~= self@.exports);
        }
        let mut i: usize = 0;
        while i < self.exports.len()
            invariant
                i <= self.exports.len(),
                self@.exports == self.exports@.map_values(|r: ExportRow| r@),
                spec_export_by_ns(self@.exports, namespace@) == spec_export_by_ns(
                    self@.exports.skip(i as int),
                    namespace@,
                ),
            decreases self.exports.len() - i,
        {
            if str_eq(self.exports[i].namespace.as_str(), namespace) {
                proof {
                    assert(self@.exports.skip(i as int)[0] == self@.exports[i as int]);
                }
                return (true, Some(self.exports[i].duplicate()));
            }
            proof {
                assert(self@.exports.skip(i as int).drop_first() =~= self@.exports.skip(
                    i + 1,
                ));
            }
            i = i + 1;
        }
        proof {
            assert(self@.exports.skip(self.exports@.len() as int) =~= Seq::<
                ExportRowV,
            >::empty());
        }
        (false, None)
    }

    /// The id of the first user row carrying `email`, or -1 when none does.
    pub fn user_by_email(&self, email: &str) -> (r: i32)
        ensures
            match spec_user_by_email(self@.users, email@) {
                Some(row) => r as int == row.id,
                None => r == -1,
            },
    {
        proof {
            assert(self@.users.skip(0) =~= self@.users);
        }
        let mut i: usize = 0;
        while i < self.users.len()
            invariant
                i <= self.users.len(),
                self@.users == self.users@.map_values(|r: UserRow| r@),
                spec_user_by_email(self@.users, email@) == spec_user_by_email(
                    self@.users.skip(i as int),
                    email@,
                ),
            decreases self.users.len() - i,
        {
            if str_eq(self.users[i].email.as_str(), email) {
                proof {
                    assert(self@.users.skip(i as int)[0] == self@.users[i as int]);
                }
                return self.users[i].id;
            }
            proof {
                assert(self@.users.skip(i as int).drop_first() =~= self@.users.skip(i + 1));
            }
            i = i + 1;
        }
        proof {
            assert(self@.users.skip(self.users@.len() as int) =~= Seq::<UserRowV>::empty());
        }
        -1
    }

    /// Inserts a user row with a fresh id and returns the stored row.
    pub fn save_new_user(&mut self, full_name: String, email: String, created_at: String) -> (r:
        UserRow)
        requires
            old(self)@.wf(),
            old(self)@.users_next_id < i32::MAX,
        ensures
            final(self)@.wf(),
            r@ == (UserRowV {
                id: old(self)@.users_next_id,
                full_name: full_name@,
                email: email@,
                created_at: created_at@,
            }),
            final(self)@ == (StoreV {
                users: old(self)@.users.push(r@),
                users_next_id: old(self)@.users_next_id + 1,
                ..old(self)@
            }),
    {
        let id: i32 = self.users_next_id;
        let row = UserRow { id, full_name, email, created_at };
        let result = row.duplicate();
        self.users.push(row);
        self.users_next_id = self.users_next_id + 1;
        proof {
            assert(final(self)@.users =~= old(self)@.users.push(result@));
            assert(final(self)@ == (StoreV {
                users: old(self)@.users.push(result@),
                users_next_id: old(self)@.users_next_id + 1,
                ..old(self)@
            }));
        }
        result
    }

    /// Inserts a connection row with a fresh id and returns the stored row.
    /// Connections are never deduplicated: every call adds a row.
    pub fn save_data_source_connection(&mut self, name: String, connection_string: String) -> (r:
        ConnectionRow)
        requires
            old(self)@.wf(),
            old(self)@.connections_next_id < i32::MAX,
        ensures
            final(self)@.wf(),
            r@ == (ConnectionRowV {
                id: old(self)@.connections_next_id,
                name: name@,
                connection_string: connection_string@,
            }),
            final(self)@ == (StoreV {
                connections: old(self)@.connections.push(r@),
                connections_next_id: old(self)@.connections_next_id + 1,
                ..old(self)@
            }),
    {
        let id: i32 = self.connections_next_id;
        let row = ConnectionRow { id, name, connection_string };
        let result = row.duplicate();
        self.connections.push(row);
        self.connections_next_id = self.connections_next_id + 1;
        proof {
            assert(final(self)@.connections =~= old(self)@.connections.push(result@));
            assert(final(self)@ == (StoreV {
                connections: old(self)@.connections.push(result@),
                connections_next_id: old(self)@.connections_next_id + 1,
                ..old(self)@
            }));
        }
        result
    }

    /// Inserts an export row with a fresh id and returns the stored row.
    pub fn save_export(&mut self, new_export: NewExportRow) -> (r: ExportRow)
        requires
            old(self)@.wf(),
            old(self)@.exports_next_id < i32::MAX,
        ensures
            final(self)@.wf(),
            r@ == new_export.with_id(old(self)@.exports_next_id),
            final(self)@ == (StoreV {
                exports: old(self)@.exports.push(r@),
                exports_next_id: old(self)@.exports_next_id + 1,
                ..old(self)@
            }),
    {
        let id: i32 = self.exports_next_id;
        let row = ExportRow {
            id,
            namespace: new_export.namespace,
            export_type: new_export.export_type,
            include_filters: new_export.include_filters,
            exclude_filters: new_export.exclude_filters,
            creator_id: new_export.creator_id,
            updator_id: new_export.updator_id,
            source_connection_id: new_export.source_connection_id,
            destination_connection_id: new_export.destination_connection_id,
            created_at: new_export.created_at,
            updated_at: new_export.updated_at,
        };
        let result = row.duplicate();
        self.exports.push(row);
        self.exports_next_id = self.exports_next_id + 1;
        proof {
            assert(final(self)@.exports =~= old(self)@.exports.push(result@));
            assert(final(self)@ == (StoreV {
                exports: old(self)@.exports.push(result@),
                exports_next_id: old(self)@.exports_next_id + 1,
                ..old(self)@
            }));
        }
        result
    }

    /// Inserts a schema row with a fresh id and returns its id.
    pub fn save_schema_row(
        &mut self,
        export_id: i32,
        namespace: String,
        collection: String,
        sql_table: String,
        version: String,
        indexes: String,
    ) -> (r: i32)
        requires
            old(self)@.wf(),
            old(self)@.schemas_next_id < i32::MAX,
        ensures
            final(self)@.wf(),
            r as int == old(self)@.schemas_next_id,
            final(self)@ == (StoreV {
                schemas: old(self)@.schemas.push(
                    SchemaRowV {
                        id: old(self)@.schemas_next_id,
                        export_id: export_id as int,
                        namespace: namespace@,
                        collection: collection@,
                        sql_table: sql_table@,
                        version: version@,
                        indexes: indexes@,
                    },
                ),
                schemas_next_id: old(self)@.schemas_next_id + 1,
                ..old(self)@
            }),
    {
        let id: i32 = self.schemas_next_id;
        let row = SchemaRow { id, export_id, namespace, collection, sql_table, version, indexes };
        let ghost rv = row@;
        self.schemas.push(row);
        self.schemas_next_id = self.schemas_next_id + 1;
        proof {
            assert(final(self)@.schemas =~= old(self)@.schemas.push(rv));
            assert(final(self)@ == (StoreV {
                schemas: old(self)@.schemas.push(rv),
                schemas_next_id: old(self)@.schemas_next_id + 1,
                ..old(self)@
            }));
        }
        id
    }

    /// Inserts a mapping row with a fresh id and returns its id.
    pub fn save_mapping_row(
        &mut self,
        schema_id: i32,
        source_field_name: String,
        destination_field_name: String,
        source_field_type: String,
        destination_field_type: String,
        version: String,
    ) -> (r: i32)
        requires
            old(self)@.wf(),
            old(self)@.mappings_next_id < i32::MAX,
        ensures
            final(self)@.wf(),
            r as int == old(self)@.mappings_next_id,
            final(self)@ == (StoreV {
                mappings: old(self)@.mappings.push(
                    MappingRowV {
                        id: old(self)@.mappings_next_id,
                        schema_id: schema_id as int,
                        source_field_name: source_field_name@,
                        destination_field_name: destination_field_name@,
                        source_field_type: source_field_type@,
                        destination_field_type: destination_field_type@,
                        version: version@,
                    },
                ),
                mappings_next_id: old(self)@.mappings_next_id + 1,
                ..old(self)@
            }),
    {
        let id: i32 = self.mappings_next_id;
        let row = MappingRow {
            id,
            schema_id,
            source_field_name,
            destination_field_name,
            source_field_type,
            destination_field_type,
            version,
        };
        let ghost rv = row@;
        self.mappings.push(row);
        self.mappings_next_id = self.mappings_next_id + 1;
        proof {
            assert(final(self)@.mappings =~= old(self)@.mappings.push(rv));
            assert(final(self)@ == (StoreV {
                mappings: old(self)@.mappings.push(rv),
                mappings_next_id: old(self)@.mappings_next_id + 1,
                ..old(self)@
            }));
        }
        id
    }

    /// Deletes every export row carrying `namespace`, keeping table order;
    /// reports whether exactly one row went away.
    pub fn delete_export(&mut self, namespace: &str) -> (r: bool)
        ensures
            final(self)@ == (StoreV {
                exports: spec_exports_without_ns(old(self)@.exports, namespace@),
                ..old(self)@
            }),
            r == (old(self)@.exports.len() == spec_exports_without_ns(
                old(self)@.exports,
                namespace@,
            ).len() + 1),
            old(self)@.wf() ==> final(self)@.wf(),
    {
        let ghost old_rows = self@.exports;
        let mut kept: Vec<ExportRow> = Vec::new();
        let mut removed: usize = 0;
        let mut i: usize = 0;
        while i < self.exports.len()
            invariant
                i <= self.exports.len(),
                self@.exports == self.exports@.map_values(|r: ExportRow| r@),
                old_rows == self@.exports,
                kept@.map_values(|r: ExportRow| r@) =~= spec_exports_without_ns(
                    old_rows.take(i as int),
                    namespace@,
                ),
                removed == i - kept.len(),
                removed <= i,
            decreases self.exports.len() - i,
        {
            proof {
                assert(old_rows.take(i + 1).drop_last() =~= old_rows.take(i as int));
                assert(old_rows.take(i + 1).last() == old_rows[i as int]);
            }
            if str_eq(self.exports[i].namespace.as_str(), namespace) {
                removed = removed + 1;
            } else {
                kept.push(self.exports[i].duplicate());
            }
            i = i + 1;
        }
        proof {
            assert(old_rows.take(old_rows.len() as int) =~= old_rows);
        }
        let result: bool = removed == 1;
        self.exports = kept;
        proof {
            lemma_exports_without_ns_len(old_rows, namespace@);
            assert(final(self)@ == (StoreV {
                exports: spec_exports_without_ns(old_rows, namespace@),
                ..old(self)@
            }));
            if old(self)@.wf() {
                lemma_exports_without_ns_ids(old_rows, namespace@, old(self)@.exports_next_id);
            }
        }
        result
    }

    /// The first connection row carrying `conn_id`, as a model connection.
    pub fn connection_by_id(&self, conn_id: i32) -> (r: Option<Connection>)
        ensures
            match r {
                Some(conn) => {
                    &&& spec_connection_by_id(self@.connections, conn_id as int) is Some
                    &&& {
                        let row = spec_connection_by_id(self@.connections, conn_id as int)->0;
                        conn@ == (crate::model::ConnectionV {
                            id: Some(row.id),
                            name: row.name,
                            connection_string: row.connection_string,
                        })
                    }
                },
                None => spec_connection_by_id(self@.connections, conn_id as int) is None,
            },
    {
        proof {
            assert(self@.connections.skip(0) =~= self@.connections);
        }
        let mut i: usize = 0;
        while i < self.connections.len()
            invariant
                i <= self.connections.len(),
                self@.connections == self.connections@.map_values(|r: ConnectionRow| r@),
                spec_connection_by_id(self@.connections, conn_id as int) == spec_connection_by_id(
                    self@.connections.skip(i as int),
                    conn_id as int,
                ),
            decreases self.connections.len() - i,
        {
            if self.connections[i].id == conn_id {
                proof {
                    assert(self@.connections.skip(i as int)[0] == self@.connections[i as int]);
                }
                return Some(
                    Connection {
                        id: Some(self.connections[i].id),
                        name: self.connections[i].name.clone(),
                        connection_string: self.connections[i].connection_string.clone(),
                    },
                );
            }
            proof {
                assert(self@.connections.skip(i as int).drop_first() =~= self@.connections.skip(
                    i + 1,
                ));
            }
            i = i + 1;
        }
        proof {
            assert(self@.connections.skip(self.connections@.len() as int) =~= Seq::<
                ConnectionRowV,
            >::empty());
        }
        None
    }

    /// The schema rows carrying `namespace`, in table order.
    pub fn schemas_by_namespace(&self, namespace: &str) -> (r: Vec<SchemaRow>)
        ensures
            r@.map_values(|row: SchemaRow| row@) == spec_schemas_with_ns(
                self@.schemas,
                namespace@,
            ),
    {
        let mut result: Vec<SchemaRow> = Vec::new();
        let mut i: usize = 0;
        while i < self.schemas.len()
            invariant
                i <= self.schemas.len(),
                self@.schemas == self.schemas@.map_values(|r: SchemaRow| r@),
                result@.map_values(|row: SchemaRow| row@) =~= spec_schemas_with_ns(
                    self@.schemas.take(i as int),
                    namespace@,
                ),
            decreases self.schemas.len() - i,
        {
            proof {
                assert(self@.schemas.take(i + 1).drop_last() =~= self@.schemas.take(i as int));
                assert(self@.schemas.take(i + 1).last() == self@.schemas[i as int]);
            }
            if str_eq(self.schemas[i].namespace.as_str(), namespace) {
                result.push(self.schemas[i].duplicate());
            }
            i = i + 1;
        }
        proof {
            assert(self@.schemas.take(self.schemas@.len() as int) =~= self@.schemas);
        }
        result
    }

    /// How many rows each table holds, in table order: user, connection,
    /// export, schema, mapping.
    pub fn table_sizes(&self) -> (r: (usize, usize, usize, usize, usize))
        ensures
            r.0 == self@.users.len(),
            r.1 == self@.connections.len(),
            r.2 == self@.exports.len(),
            r.3 == self@.schemas.len(),
            r.4 == self@.mappings.len(),
    {
        (
            self.users.len(),
            self.connections.len(),
            self.exports.len(),
            self.schemas.len(),
            self.mappings.len(),
        )
    }
}

/// Removing rows never lengthens the export table.
pub proof fn lemma_exports_without_ns_len(rows: Seq<ExportRowV>, ns: Seq<char>)
    ensures
        spec_exports_without_ns(rows, ns).len() <= rows.len(),
    decreases rows.len(),
{
    if rows.len() > 0 {
        lemma_exports_without_ns_len(rows.drop_last(), ns);
    }
}

/// Rows kept by the delete keep their id bound.
pub proof fn lemma_exports_without_ns_ids(rows: Seq<ExportRowV>, ns: Seq<char>, bound: int)
    requires
        forall|i: int| 0 <= i < rows.len() ==> 1 <= (#[trigger] rows[i]).id < bound,
    ensures
        forall|i: int|
            0 <= i < spec_exports_without_ns(rows, ns).len() ==> 1 <= (
            #[trigger] spec_exports_without_ns(rows, ns)[i]).id < bound,
    decreases rows.len(),
{
    if rows.len() > 0 {
        let prefix = rows.drop_last();
        assert(forall|i: int| 0 <= i < prefix.len() ==> 1 <= (#[trigger] prefix[i]).id < bound) by {
            assert(forall|i: int| 0 <= i < prefix.len() ==> prefix[i] == rows[i]);
        }
        lemma_exports_without_ns_ids(prefix, ns, bound);
        let res = spec_exports_without_ns(rows, ns);
        if rows.last().namespace != ns {
            assert(1 <= rows[rows.len() - 1].id < bound);
            assert(res == spec_exports_without_ns(prefix, ns).push(rows.last()));
            assert forall|i: int| 0 <= i < res.len() implies 1 <= (#[trigger] res[i]).id
                < bound by {
                if i == res.len() - 1 {
                    assert(res[i] == rows.last());
                }
            }
        }
    }
}

/// No export row for `ns` survives the delete, and rows for other
/// namespaces all survive in order.
pub proof fn lemma_exports_without_ns_no_match(rows: Seq<ExportRowV>, ns: Seq<char>)
    ensures
        forall|i: int|
            0 <= i < spec_exports_without_ns(rows, ns).len() ==> (
            #[trigger] spec_exports_without_ns(rows, ns)[i]).namespace != ns,
    decreases rows.len(),
{
    if rows.len() > 0 {
        let prefix = rows.drop_last();
        lemma_exports_without_ns_no_match(prefix, ns);
        let res = spec_exports_without_ns(rows, ns);
        if rows.last().namespace != ns {
            assert(res == spec_exports_without_ns(prefix, ns).push(rows.last()));
            assert forall|i: int| 0 <= i < res.len() implies (#[trigger] res[i]).namespace
                != ns by {
                if i == res.len() - 1 {
                    assert(res[i] == rows.last());
                }
            }
        }
    }
}

/// When no row carries `ns`, the lookup confirms it.
pub proof fn lemma_export_by_ns_none_all(rows: Seq<ExportRowV>, ns: Seq<char>)
    requires
        spec_export_by_ns(rows, ns) is None,
    ensures
        forall|i: int| 0 <= i < rows.len() ==> (#[trigger] rows[i]).namespace != ns,
    decreases rows.len(),
{
    if rows.len() > 0 {
        lemma_export_by_ns_none_all(rows.drop_first(), ns);
        assert forall|i: int| 0 <= i < rows.len() implies (#[trigger] rows[i]).namespace != ns by {
            if i > 0 {
                assert(rows.drop_first()[i - 1] == rows[i]);
            }
        }
    }
}

/// Deleting a namespace that no row carries leaves the table unchanged.
pub proof fn lemma_exports_without_ns_absent(rows: Seq<ExportRowV>, ns: Seq<char>)
    requires
        forall|i: int| 0 <= i < rows.len() ==> (#[trigger] rows[i]).namespace != ns,
    ensures
        spec_exports_without_ns(rows, ns) == rows,
    decreases rows.len(),
{
    if rows.len() > 0 {
        assert(forall|i: int|
            0 <= i < rows.drop_last().len() ==> (#[trigger] rows.drop_last()[i]).namespace != ns);
        lemma_exports_without_ns_absent(rows.drop_last(), ns);
        assert(rows[rows.len() - 1].namespace != ns);
        assert(spec_exports_without_ns(rows, ns) =~= rows);
    }
}

/// Appending a row for `ns` to a table free of `ns` makes it the one the
/// lookup finds.
pub proof fn lemma_export_by_ns_push_fresh(rows: Seq<ExportRowV>, ns: Seq<char>, row: ExportRowV)
    requires
        forall|i: int| 0 <= i < rows.len() ==> (#[trigger] rows[i]).namespace != ns,
        row.namespace == ns,
    ensures
        spec_export_by_ns(rows.push(row), ns) == Some(row),
    decreases rows.len(),
{
    if rows.len() == 0 {
        assert(rows.push(row)[0] == row);
    } else {
        assert(rows.push(row)[0] == rows[0]);
        assert(rows.push(row).drop_first() =~= rows.drop_first().push(row));
        assert(forall|i: int|
            0 <= i < rows.drop_first().len() ==> (#[trigger] rows.drop_first()[i]).namespace
                != ns);
        lemma_export_by_ns_push_fresh(rows.drop_first(), ns, row);
    }
}

/// Appending a row for `ns` and then deleting `ns` removes it together
/// with every earlier row for `ns`.
pub proof fn lemma_exports_without_ns_push_match(rows: Seq<ExportRowV>, ns: Seq<char>, row: ExportRowV)
    requires
        row.namespace == ns,
    ensures
        spec_exports_without_ns(rows.push(row), ns) == spec_exports_without_ns(rows, ns),
{
    assert(rows.push(row).drop_last() =~= rows);
    assert(rows.push(row).last() == row);
}

/// The user the email lookup finds is a row of the table.
pub proof fn lemma_user_by_email_mem(rows: Seq<UserRowV>, email: Seq<char>)
    requires
        spec_user_by_email(rows, email) is Some,
    ensures
        exists|i: int|
            0 <= i < rows.len() && rows[i] == spec_user_by_email(rows, email)->0,
    decreases rows.len(),
{
    if rows.len() > 0 {
        if rows[0].email == email {
            assert(rows[0] == spec_user_by_email(rows, email)->0);
        } else {
            lemma_user_by_email_mem(rows.drop_first(), email);
            let i = choose|i: int|
                0 <= i < rows.drop_first().len() && rows.drop_first()[i] == spec_user_by_email(
                    rows.drop_first(),
                    email,
                )->0;
            assert(rows[i + 1] == spec_user_by_email(rows, email)->0);
        }
    }
}

} // verus!
