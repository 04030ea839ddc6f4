//! The export data model: User, Connection, Mapping, Schema, Export, the
//! id-free JSON projection, and the builder that assembles an export
//! definition in memory.
use vstd::prelude::*;
use vstd::string::*;

use crate::text::str_eq;

verus! {

/// Identity of a creator or updater of an export definition.
#[derive(Clone, Debug)]
pub struct User {
    pub id: Option<i32>,
    pub full_name: String,
    pub email: String,
    pub created_at: String,
}

pub ghost struct UserV {
    pub id: Option<int>,
    pub full_name: Seq<char>,
    pub email: Seq<char>,
    pub created_at: Seq<char>,
}

impl View for User {
    type V = UserV;

    open spec fn view(&self) -> UserV {
        UserV {
            id: match self.id {
                Some(i) => Some(i as int),
                None => None,
            },
            full_name: self.full_name@,
            email: self.email@,
            created_at: self.created_at@,
        }
    }
}

impl User {
    /// A field-for-field copy with the same view.
    pub fn duplicate(&self) -> (r: User)
        ensures
            r@ == self@,
    {
        User {
            id: self.id,
            full_name: self.full_name.clone(),
            email: self.email.clone(),
            created_at: self.created_at.clone(),
        }
    }
}

/// A named connection string to a source or destination store.
#[derive(Clone, Debug)]
pub struct Connection {
    pub id: Option<i32>,
    pub name: String,
    pub connection_string: String,
}

pub ghost struct ConnectionV {
    pub id: Option<int>,
    pub name: Seq<char>,
    pub connection_string: Seq<char>,
}

impl View for Connection {
    type V = ConnectionV;

    open spec fn view(&self) -> ConnectionV {
        ConnectionV {
            id: match self.id {
                Some(i) => Some(i as int),
                None => None,
            },
            name: self.name@,
            connection_string: self.connection_string@,
        }
    }
}

impl Connection {
    /// A field-for-field copy with the same view.
    pub fn duplicate(&self) -> (r: Connection)
        ensures
            r@ == self@,
    {
        Connection {
            id: self.id,
            name: self.name.clone(),
            connection_string: self.connection_string.clone(),
        }
    }
}

/// One field-level source-to-destination projection within a Schema.
#[derive(Clone, Debug)]
pub struct Mapping {
    pub id: Option<i32>,
    pub source_field_name: String,
    pub destination_field_name: String,
    pub source_field_type: String,
    pub destination_field_type: String,
    pub version: String,
}

pub ghost struct MappingV {
    pub id: Option<int>,
    pub source_field_name: Seq<char>,
    pub destination_field_name: Seq<char>,
    pub source_field_type: Seq<char>,
    pub destination_field_type: Seq<char>,
    pub version: Seq<char>,
}

impl View for Mapping {
    type V = MappingV;

    open spec fn view(&self) -> MappingV {
        MappingV {
            id: match self.id {
                Some(i) => Some(i as int),
                None => None,
            },
            source_field_name: self.source_field_name@,
            destination_field_name: self.destination_field_name@,
            source_field_type: self.source_field_type@,
            destination_field_type: self.destination_field_type@,
            version: self.version@,
        }
    }
}

impl Mapping {
    /// A field-for-field copy with the same view.
    pub fn duplicate(&self) -> (r: Mapping)
        ensures
            r@ == self@,
    {
        Mapping {
            id: self.id,
            source_field_name: self.source_field_name.clone(),
            destination_field_name: self.destination_field_name.clone(),
            source_field_type: self.source_field_type.clone(),
            destination_field_type: self.destination_field_type.clone(),
            version: self.version.clone(),
        }
    }
}

/// One collection's inferred column mapping, owned by exactly one Export.
#[derive(Clone, Debug)]
pub struct Schema {
    pub id: Option<i32>,
    pub namespace: String,
    pub collection: String,
    pub sql_table: String,
    pub version: String,
    pub indexes: Vec<String>,
    pub mappings: Vec<Mapping>,
}

pub ghost struct SchemaV {
    pub id: Option<int>,
    pub namespace: Seq<char>,
    pub collection: Seq<char>,
    pub sql_table: Seq<char>,
    pub version: Seq<char>,
    pub indexes: Seq<Seq<char>>,
    pub mappings: Seq<MappingV>,
}

impl View for Schema {
    type V = SchemaV;

    open spec fn view(&self) -> SchemaV {
        SchemaV {
            id: match self.id {
                Some(i) => Some(i as int),
                None => None,
            },
            namespace: self.namespace@,
            collection: self.collection@,
            sql_table: self.sql_table@,
            version: self.version@,
            indexes: self.indexes.deep_view(),
            mappings: self.mappings@.map_values(|m: Mapping| m@),
        }
    }
}

/// Copies each string of a list; the copy has the same deep view.
pub fn duplicate_strings(v: &Vec<String>) -> (r: Vec<String>)
    ensures
        r.deep_view() == v.deep_view(),
{
    let mut r: Vec<String> = Vec::new();
    let mut i: usize = 0;
    while i < v.len()
        invariant
            i <= v.len(),
            r.deep_view() =~= v.deep_view().take(i as int),
        decreases v.len() - i,
    {
        let ghost pre = r.deep_view();
        let x = v[i].clone();
        proof {
            assert(x@ == v.deep_view()[i as int]);
        }
        r.push(x);
        proof {
            assert(r.deep_view() =~= pre.push(x@));
            assert(r.deep_view() =~= v.deep_view().take(i + 1));
        }
        i = i + 1;
    }
    proof {
        assert(v.deep_view().take(v.len() as int) =~= v.deep_view());
    }
    r
}

/// Copies each mapping of a list; the copy has the same view sequence.
pub fn duplicate_mappings(v: &Vec<Mapping>) -> (r: Vec<Mapping>)
    ensures
        r@.map_values(|m: Mapping| m@) == v@.map_values(|m: Mapping| m@),
{
    let mut r: Vec<Mapping> = Vec::new();
    let mut i: usize = 0;
    while i < v.len()
        invariant
            i <= v.len(),
            r@.map_values(|m: Mapping| m@) =~= v@.map_values(|m: Mapping| m@).take(i as int),
        decreases v.len() - i,
    {
        let ghost pre = r@.map_values(|m: Mapping| m@);
        let x = v[i].duplicate();
        proof {
            assert(x@ == v@.map_values(|m: Mapping| m@)[i as int]);
        }
        r.push(x);
        proof {
            assert(r@.map_values(|m: Mapping| m@) =~= pre.push(x@));
            assert(r@.map_values(|m: Mapping| m@) =~= v@.map_values(|m: Mapping| m@).take(
                i + 1,
            ));
        }
        i = i + 1;
    }
    proof {
        assert(v@.map_values(|m: Mapping| m@).take(v.len() as int) =~= v@.map_values(
            |m: Mapping| m@,
        ));
    }
    r
}

impl Schema {
    /// A field-for-field copy with the same view.
    pub fn duplicate(&self) -> (r: Schema)
        ensures
            r@ == self@,
    {
        Schema {
            id: self.id,
            namespace: self.namespace.clone(),
            collection: self.collection.clone(),
            sql_table: self.sql_table.clone(),
            version: self.version.clone(),
            indexes: duplicate_strings(&self.indexes),
            mappings: duplicate_mappings(&self.mappings),
        }
    }
}

/// Copies each schema of a list; the copy has the same view sequence.
pub fn duplicate_schemas(v: &Vec<Schema>) -> (r: Vec<Schema>)
    ensures
        r@.map_values(|s: Schema| s@) == v@.map_values(|s: Schema| s@),
{
    let mut r: Vec<Schema> = Vec::new();
    let mut i: usize = 0;
    while i < v.len()
        invariant
            i <= v.len(),
            r@.map_values(|s: Schema| s@) =~= v@.map_values(|s: Schema| s@).take(i as int),
        decreases v.len() - i,
    {
        let ghost pre = r@.map_values(|s: Schema| s@);
        let x = v[i].duplicate();
        proof {
            assert(x@ == v@.map_values(|s: Schema| s@)[i as int]);
        }
        r.push(x);
        proof {
            assert(r@.map_values(|s: Schema| s@) =~= pre.push(x@));
            assert(r@.map_values(|s: Schema| s@) =~= v@.map_values(|s: Schema| s@).take(i + 1));
        }
        i = i + 1;
    }
    proof {
        assert(v@.map_values(|s: Schema| s@).take(v.len() as int) =~= v@.map_values(
            |s: Schema| s@,
        ));
    }
    r
}

/// One export definition: namespace, type label, filters, connections,
/// attribution and per-collection schemas.
#[derive(Clone, Debug)]
pub struct Export {
    pub id: Option<i32>,
    pub namespace: String,
    pub export_type: String,
    pub exclude_filters: Vec<String>,
    pub include_filters: Vec<String>,
    pub schemas: Vec<Schema>,
    pub source_connection: Option<Connection>,
    pub destination_connection: Option<Connection>,
    pub creator: Option<User>,
    pub updator: Option<User>,
}

pub ghost struct ExportV {
    pub id: Option<int>,
    pub namespace: Seq<char>,
    pub export_type: Seq<char>,
    pub exclude_filters: Seq<Seq<char>>,
    pub include_filters: Seq<Seq<char>>,
    pub schemas: Seq<SchemaV>,
    pub source_connection: Option<ConnectionV>,
    pub destination_connection: Option<ConnectionV>,
    pub creator: Option<UserV>,
    pub updator: Option<UserV>,
}

impl View for Export {
    type V = ExportV;

    open spec fn view(&self) -> ExportV {
        ExportV {
            id: match self.id {
                Some(i) => Some(i as int),
                None => None,
            },
            namespace: self.namespace@,
            export_type: self.export_type@,
            exclude_filters: self.exclude_filters.deep_view(),
            include_filters: self.include_filters.deep_view(),
            schemas: self.schemas@.map_values(|s: Schema| s@),
            source_connection: match self.source_connection {
                Some(ref c) => Some(c@),
                None => None,
            },
            destination_connection: match self.destination_connection {
                Some(ref c) => Some(c@),
                None => None,
            },
            creator: match self.creator {
                Some(ref u) => Some(u@),
                None => None,
            },
            updator: match self.updator {
                Some(ref u) => Some(u@),
                None => None,
            },
        }
    }
}

impl Export {
    /// Whether any schema has been attached to this export.
    pub fn has_schemas(&self) -> (r: bool)
        ensures
            r == (self@.schemas.len() != 0),
    {
        proof {
            assert(self@.schemas.len() == self.schemas@.len());
        }
        !self.schemas.is_empty()
    }

    /// A field-for-field copy with the same view.
    pub fn duplicate(&self) -> (r: Export)
        ensures
            r@ == self@,
    {
        Export {
            id: self.id,
            namespace: self.namespace.clone(),
            export_type: self.export_type.clone(),
            exclude_filters: duplicate_strings(&self.exclude_filters),
            include_filters: duplicate_strings(&self.include_filters),
            schemas: duplicate_schemas(&self.schemas),
            source_connection: match self.source_connection {
                Some(ref c) => Some(c.duplicate()),
                None => None,
            },
            destination_connection: match self.destination_connection {
                Some(ref c) => Some(c.duplicate()),
                None => None,
            },
            creator: match self.creator {
                Some(ref u) => Some(u.duplicate()),
                None => None,
            },
            updator: match self.updator {
                Some(ref u) => Some(u.duplicate()),
                None => None,
            },
        }
    }
}

/// The export definition without generated ids, as it is written to the
/// per-namespace JSON snapshot.
#[derive(Clone, Debug)]
pub struct ExportJSON {
    pub namespace: String,
    pub export_type: String,
    pub exclude_filters: Vec<String>,
    pub include_filters: Vec<String>,
    pub source_connection: Option<Connection>,
    pub destination_connection: Option<Connection>,
    pub creator: Option<User>,
    pub updator: Option<User>,
}

pub ghost struct ExportJSONV {
    pub namespace: Seq<char>,
    pub export_type: Seq<char>,
    pub exclude_filters: Seq<Seq<char>>,
    pub include_filters: Seq<Seq<char>>,
    pub source_connection: Option<ConnectionV>,
    pub destination_connection: Option<ConnectionV>,
    pub creator: Option<UserV>,
    pub updator: Option<UserV>,
}

impl View for ExportJSON {
    type V = ExportJSONV;

    open spec fn view(&self) -> ExportJSONV {
        ExportJSONV {
            namespace: self.namespace@,
            export_type: self.export_type@,
            exclude_filters: self.exclude_filters.deep_view(),
            include_filters: self.include_filters.deep_view(),
            source_connection: match self.source_connection {
                Some(ref c) => Some(c@),
                None => None,
            },
            destination_connection: match self.destination_connection {
                Some(ref c) => Some(c@),
                None => None,
            },
            creator: match self.creator {
                Some(ref u) => Some(u@),
                None => None,
            },
            updator: match self.updator {
                Some(ref u) => Some(u@),
                None => None,
            },
        }
    }
}

/// The JSON projection of an export: the same definition with every
/// generated id left out.
pub open spec fn spec_export_json(e: ExportV) -> ExportJSONV {
    ExportJSONV {
        namespace: e.namespace,
        export_type: e.export_type,
        exclude_filters: e.exclude_filters,
        include_filters: e.include_filters,
        source_connection: e.source_connection,
        destination_connection: e.destination_connection,
        creator: e.creator,
        updator: e.updator,
    }
}

/// Assembles an export definition in memory; `save` then persists it.
pub struct ExportBuilder {
    pub entity: Option<crate::store::ExportRow>,
    pub export: Export,
}

pub ghost struct ExportBuilderV {
    pub entity: Option<crate::store::ExportRowV>,
    pub export: ExportV,
}

impl View for ExportBuilder {
    type V = ExportBuilderV;

    open spec fn view(&self) -> ExportBuilderV {
        ExportBuilderV {
            entity: match self.entity {
                Some(ref r) => Some(r@),
                None => None,
            },
            export: self.export@,
        }
    }
}

impl ExportBuilder {
    /// Starts a fresh export definition for a namespace and export type;
    /// filters, connections, attribution and schemas start empty.
    pub fn init_export(namespace: &str, export_type: &str) -> (r: ExportBuilder)
        ensures
            r@.entity is None,
            r@.export.id is None,
            r@.export.namespace == namespace@,
            r@.export.export_type == export_type@,
            r@.export.exclude_filters =~= Seq::<Seq<char>>::empty(),
            r@.export.include_filters =~= Seq::<Seq<char>>::empty(),
            r@.export.schemas =~= Seq::<SchemaV>::empty(),
            r@.export.source_connection is None,
            r@.export.destination_connection is None,
            r@.export.creator is None,
            r@.export.updator is None,
    {
        ExportBuilder {
            entity: None,
            export: Export {
                id: None,
                namespace: String::from_str(namespace),
                export_type: String::from_str(export_type),
                exclude_filters: Vec::new(),
                include_filters: Vec::new(),
                schemas: Vec::new(),
                source_connection: None,
                destination_connection: None,
                creator: None,
                updator: None,
            },
        }
    }

    /// Sets the connection for one role: "source" sets the source
    /// connection, anything else the destination connection. A later call
    /// for the same role replaces the earlier one.
    pub fn add_connection(&mut self, conn_type: &str, name: &str, connection_uri: &str)
        ensures
            conn_type@ == "source"@ ==> final(self)@ == (ExportBuilderV {
                export: ExportV {
                    source_connection: Some(
                        ConnectionV {
                            id: None,
                            name: name@,
                            connection_string: connection_uri@,
                        },
                    ),
                    ..old(self)@.export
                },
                ..old(self)@
            }),
            conn_type@ != "source"@ ==> final(self)@ == (ExportBuilderV {
                export: ExportV {
                    destination_connection: Some(
                        ConnectionV {
                            id: None,
                            name: name@,
                            connection_string: connection_uri@,
                        },
                    ),
                    ..old(self)@.export
                },
                ..old(self)@
            }),
    {
        let conn = Connection {
            id: None,
            name: String::from_str(name),
            connection_string: String::from_str(connection_uri),
        };
        if str_eq(conn_type, "source") {
            self.export.source_connection = Some(conn);
        } else {
            self.export.destination_connection = Some(conn);
        }
    }

    /// Replaces the include filter list wholesale.
    pub fn include_collections(&mut self, collections: Vec<String>)
        ensures
            final(self)@ == (ExportBuilderV {
                export: ExportV { include_filters: collections.deep_view(), ..old(self)@.export },
                ..old(self)@
            }),
    {
        self.export.include_filters = collections;
    }

    /// Replaces the exclude filter list wholesale.
    pub fn exclude_collections(&mut self, collections: Vec<String>)
        ensures
            final(self)@ == (ExportBuilderV {
                export: ExportV { exclude_filters: collections.deep_view(), ..old(self)@.export },
                ..old(self)@
            }),
    {
        self.export.exclude_filters = collections;
    }

    /// Replaces the updator attribution.
    pub fn set_updator_info(&mut self, user: User)
        ensures
            final(self)@ == (ExportBuilderV {
                export: ExportV { updator: Some(user@), ..old(self)@.export },
                ..old(self)@
            }),
    {
        self.export.updator = Some(user);
    }

    /// Replaces the creator attribution.
    pub fn set_creator_info(&mut self, user: User)
        ensures
            final(self)@ == (ExportBuilderV {
                export: ExportV { creator: Some(user@), ..old(self)@.export },
                ..old(self)@
            }),
    {
        self.export.creator = Some(user);
    }

    /// Replaces the attached schema list wholesale.
    pub fn set_schemas(&mut self, schemas: Vec<Schema>)
        ensures
            final(self)@ == (ExportBuilderV {
                export: ExportV {
                    schemas: schemas@.map_values(|s: Schema| s@),
                    ..old(self)@.export
                },
                ..old(self)@
            }),
    {
        self.export.schemas = schemas;
    }

    /// The current in-memory export definition.
    pub fn get_export(&self) -> (r: Export)
        ensures
            r@ == self@.export,
    {
        self.export.duplicate()
    }

    /// The current definition without generated ids, for the JSON snapshot.
    pub fn get_export_json(&self) -> (r: ExportJSON)
        ensures
            r@ == spec_export_json(self@.export),
    {
        ExportJSON {
            namespace: self.export.namespace.clone(),
            export_type: self.export.export_type.clone(),
            exclude_filters: duplicate_strings(&self.export.exclude_filters),
            include_filters: duplicate_strings(&self.export.include_filters),
            source_connection: match self.export.source_connection {
                Some(ref c) => Some(c.duplicate()),
                None => None,
            },
            destination_connection: match self.export.destination_connection {
                Some(ref c) => Some(c.duplicate()),
                None => None,
            },
            creator: match self.export.creator {
                Some(ref u) => Some(u.duplicate()),
                None => None,
            },
            updator: match self.export.updator {
                Some(ref u) => Some(u.duplicate()),
                None => None,
            },
        }
    }
}

} // verus!
