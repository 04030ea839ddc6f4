//! The save sequence as a state machine for drivers of an external
//! metadata store: the session decides, in the library, what to ask the
//! store next and how to move on from each answer; the driver only
//! performs the requested operation and hands the answer back. The
//! decisions and their order are exactly those of the in-memory save
//! sequence; steps already taken are not rolled back on failure.
use vstd::prelude::*;
use vstd::string::*;

use crate::model::{Export, ExportV};
use crate::save::{MissingField, SaveError, SaveStage};
use crate::store::NewExportRow;
use crate::text::{join_comma, spec_join_comma};

verus! {

/// Where the save sequence stands.
#[derive(Clone, Copy, PartialEq, Eq, Structural, Debug)]
pub enum SavePhase {
    CheckExisting,
    DeleteExisting,
    ResolveUser,
    InsertUser,
    InsertSourceConnection,
    InsertDestinationConnection,
    InsertExport,
    InsertSchema,
    InsertMapping,
    Complete,
    Failed,
}

/// What the driver must ask the store next.
pub enum SaveAction {
    CheckExisting { namespace: String },
    DeleteExisting { namespace: String },
    LookupUser { email: String },
    InsertUser { full_name: String, email: String, created_at: String },
    InsertConnection { name: String, connection_string: String },
    InsertExport { row: NewExportRow },
    InsertSchema {
        export_id: i32,
        namespace: String,
        collection: String,
        sql_table: String,
        version: String,
        indexes: String,
    },
    InsertMapping {
        schema_id: i32,
        source_field_name: String,
        destination_field_name: String,
        source_field_type: String,
        destination_field_type: String,
        version: String,
    },
    Done,
}

/// What the store answered.
pub enum StoreReply {
    Exists(bool),
    Deleted { rows: u64 },
    UserFound { id: i32 },
    UserMissing,
    Inserted { id: i32 },
    Failed,
}

/// One save in flight: the definition being saved, the timestamp it is
/// stamped with, the ids collected so far, and the phase.
pub struct SaveSession {
    pub export: Export,
    pub now: String,
    pub phase: SavePhase,
    pub user_id: i32,
    pub source_connection_id: i32,
    pub destination_connection_id: i32,
    pub export_id: i32,
    pub current_schema_id: i32,
    pub schema_idx: usize,
    pub mapping_idx: usize,
    pub schema_ids: Vec<i32>,
    pub mapping_ids: Vec<i32>,
}

impl SaveSession {
    /// The indices stay inside the definition in every phase that uses
    /// them.
    pub open spec fn wf(self) -> bool {
        &&& self.phase is InsertSchema ==> self.schema_idx < self.export@.schemas.len()
        &&& self.phase is InsertMapping ==> self.schema_idx < self.export@.schemas.len()
            && self.mapping_idx < self.export@.schemas[self.schema_idx as int].mappings.len()
    }

    /// Starts a save of `export` stamped with `now`: the same validation
    /// as the store-backed save, caught before any action is emitted.
    pub fn begin(export: Export, now: String) -> (r: Result<SaveSession, SaveError>)
        ensures
            (export@.creator is None) ==> (r matches Err(SaveError::Validation(
                MissingField::Creator,
            ))),
            (export@.creator is Some && export@.source_connection is None) ==> (r matches Err(
                SaveError::Validation(MissingField::SourceConnection),
            )),
            (export@.creator is Some && export@.source_connection is Some
                && export@.destination_connection is None) ==> (r matches Err(
                SaveError::Validation(MissingField::DestinationConnection),
            )),
            (crate::save::spec_export_valid(export@)) ==> (match r {
                Ok(s) => {
                    &&& s.wf()
                    &&& s.phase is CheckExisting
                    &&& s.export@ == export@
                    &&& s.now@ == now@
                },
                Err(_) => false,
            }),
    {
        if export.creator.is_none() {
            return Err(SaveError::Validation(MissingField::Creator));
        }
        if export.source_connection.is_none() {
            return Err(SaveError::Validation(MissingField::SourceConnection));
        }
        if export.destination_connection.is_none() {
            return Err(SaveError::Validation(MissingField::DestinationConnection));
        }
        Ok(
            SaveSession {
                export,
                now,
                phase: SavePhase::CheckExisting,
                user_id: 0,
                source_connection_id: 0,
                destination_connection_id: 0,
                export_id: 0,
                current_schema_id: 0,
                schema_idx: 0,
                mapping_idx: 0,
                schema_ids: Vec::new(),
                mapping_ids: Vec::new(),
            },
        )
    }

    /// The operation the driver must perform for the current phase.
    pub fn next_action(&self) -> (r: SaveAction)
        requires
            self.wf(),
            crate::save::spec_export_valid(self.export@),
        ensures
            self.phase is CheckExisting ==> (r matches SaveAction::CheckExisting { namespace }
                && namespace@ == self.export@.namespace),
            self.phase is DeleteExisting ==> (r matches SaveAction::DeleteExisting { namespace }
                && namespace@ == self.export@.namespace),
            self.phase is ResolveUser ==> (r matches SaveAction::LookupUser { email } && email@
                == self.export@.creator->0.email),
            self.phase is InsertUser ==> (r matches SaveAction::InsertUser {
                full_name,
                email,
                created_at,
            } && full_name@ == self.export@.creator->0.full_name && email@
                == self.export@.creator->0.email && created_at@ == self.now@),
            self.phase is InsertSourceConnection ==> (r matches SaveAction::InsertConnection {
                name,
                connection_string,
            } && name@ == self.export@.source_connection->0.name && connection_string@
                == self.export@.source_connection->0.connection_string),
            self.phase is InsertDestinationConnection ==> (r
                matches SaveAction::InsertConnection { name, connection_string } && name@
                == self.export@.destination_connection->0.name && connection_string@
                == self.export@.destination_connection->0.connection_string),
            self.phase is InsertExport ==> (r matches SaveAction::InsertExport { row }
                && row.namespace@ == self.export@.namespace && row.export_type@
                == self.export@.export_type && row.include_filters@ == spec_join_comma(
                self.export@.include_filters,
            ) && row.exclude_filters@ == spec_join_comma(self.export@.exclude_filters)
                && row.creator_id == self.user_id && row.updator_id == self.user_id
                && row.source_connection_id == self.source_connection_id
                && row.destination_connection_id == self.destination_connection_id
                && row.created_at@ == self.now@ && row.updated_at@ == self.now@),
            self.phase is InsertSchema ==> (r matches SaveAction::InsertSchema {
                export_id,
                namespace,
                collection,
                sql_table,
                version,
                indexes,
            } && export_id == self.export_id && namespace@ == self.export@.schemas[
                self.schema_idx as int
            ].namespace && collection@ == self.export@.schemas[self.schema_idx as int].collection
                && sql_table@ == self.export@.schemas[self.schema_idx as int].sql_table
                && version@ == self.export@.schemas[self.schema_idx as int].version && indexes@
                =~= Seq::<char>::empty()),
            self.phase is InsertMapping ==> (r matches SaveAction::InsertMapping {
                schema_id,
                source_field_name,
                destination_field_name,
                source_field_type,
                destination_field_type,
                version,
            } && schema_id == self.current_schema_id && source_field_name@ == self.export@.schemas[
                self.schema_idx as int
            ].mappings[self.mapping_idx as int].source_field_name && destination_field_name@
                == self.export@.schemas[self.schema_idx as int].mappings[
                self.mapping_idx as int
            ].destination_field_name && source_field_type@ == self.export@.schemas[
                self.schema_idx as int
            ].mappings[self.mapping_idx as int].source_field_type && destination_field_type@
                == self.export@.schemas[self.schema_idx as int].mappings[
                self.mapping_idx as int
            ].destination_field_type && version@ == self.export@.schemas[
                self.schema_idx as int
            ].mappings[self.mapping_idx as int].version),
            (self.phase is Complete || self.phase is Failed) ==> (r matches SaveAction::Done),
    {
        match self.phase {
            SavePhase::CheckExisting => SaveAction::CheckExisting {
                namespace: self.export.namespace.clone(),
            },
            SavePhase::DeleteExisting => SaveAction::DeleteExisting {
                namespace: self.export.namespace.clone(),
            },
            SavePhase::ResolveUser => {
                let email = match &self.export.creator {
                    Some(u) => u.email.clone(),
                    None => String::new(),
                };
                SaveAction::LookupUser { email }
            },
            SavePhase::InsertUser => {
                let (full_name, email) = match &self.export.creator {
                    Some(u) => (u.full_name.clone(), u.email.clone()),
                    None => (String::new(), String::new()),
                };
                SaveAction::InsertUser { full_name, email, created_at: self.now.clone() }
            },
            SavePhase::InsertSourceConnection => {
                let (name, connection_string) = match &self.export.source_connection {
                    Some(c) => (c.name.clone(), c.connection_string.clone()),
                    None => (String::new(), String::new()),
                };
                SaveAction::InsertConnection { name, connection_string }
            },
            SavePhase::InsertDestinationConnection => {
                let (name, connection_string) = match &self.export.destination_connection {
                    Some(c) => (c.name.clone(), c.connection_string.clone()),
                    None => (String::new(), String::new()),
                };
                SaveAction::InsertConnection { name, connection_string }
            },
            SavePhase::InsertExport => SaveAction::InsertExport {
                row: NewExportRow {
                    namespace: self.export.namespace.clone(),
                    export_type: self.export.export_type.clone(),
                    include_filters: join_comma(&self.export.include_filters),
                    exclude_filters: join_comma(&self.export.exclude_filters),
                    creator_id: self.user_id,
                    updator_id: self.user_id,
                    source_connection_id: self.source_connection_id,
                    destination_connection_id: self.destination_connection_id,
                    created_at: self.now.clone(),
                    updated_at: self.now.clone(),
                },
            },
            SavePhase::InsertSchema => SaveAction::InsertSchema {
                export_id: self.export_id,
                namespace: self.export.schemas[self.schema_idx].namespace.clone(),
                collection: self.export.schemas[self.schema_idx].collection.clone(),
                sql_table: self.export.schemas[self.schema_idx].sql_table.clone(),
                version: self.export.schemas[self.schema_idx].version.clone(),
                indexes: String::new(),
            },
            SavePhase::InsertMapping => SaveAction::InsertMapping {
                schema_id: self.current_schema_id,
                source_field_name: self.export.schemas[self.schema_idx].mappings[
                    self.mapping_idx
                ].source_field_name.clone(),
                destination_field_name: self.export.schemas[self.schema_idx].mappings[
                    self.mapping_idx
                ].destination_field_name.clone(),
                source_field_type: self.export.schemas[self.schema_idx].mappings[
                    self.mapping_idx
                ].source_field_type.clone(),
                destination_field_type: self.export.schemas[self.schema_idx].mappings[
                    self.mapping_idx
                ].destination_field_type.clone(),
                version: self.export.schemas[self.schema_idx].mappings[
                    self.mapping_idx
                ].version.clone(),
            },
            SavePhase::Complete => SaveAction::Done,
            SavePhase::Failed => SaveAction::Done,
        }
    }

    /// Whether the reply answers what the current phase asks.
    pub open spec fn spec_reply_fits(self, reply: StoreReply) -> bool {
        match self.phase {
            SavePhase::CheckExisting => reply is Exists,
            SavePhase::DeleteExisting => reply is Deleted || reply is Failed,
            SavePhase::ResolveUser => reply is UserFound || reply is UserMissing
                || reply is Failed,
            SavePhase::InsertUser => reply is Inserted || reply is Failed,
            SavePhase::InsertSourceConnection => reply is Inserted || reply is Failed,
            SavePhase::InsertDestinationConnection => reply is Inserted || reply is Failed,
            SavePhase::InsertExport => reply is Inserted || reply is Failed,
            SavePhase::InsertSchema => reply is Inserted || reply is Failed,
            SavePhase::InsertMapping => reply is Inserted || reply is Failed,
            SavePhase::Complete => false,
            SavePhase::Failed => false,
        }
    }

    /// The phase that follows a finished schema: the next schema when one
    /// remains, else completion.
    pub open spec fn spec_after_schema(e: ExportV, idx: int) -> SavePhase {
        if idx + 1 < e.schemas.len() {
            SavePhase::InsertSchema
        } else {
            SavePhase::Complete
        }
    }

    /// Feeds the store's answer back: moves to the next phase, records
    /// the assigned id, and copies it onto the in-memory definition. A
    /// failure answer ends the session with the error attributed to the
    /// failing step and, for schema and mapping steps, the offending
    /// collection.
    pub fn apply(&mut self, reply: StoreReply) -> (r: Result<(), SaveError>)
        requires
            old(self).wf(),
            old(self).spec_reply_fits(reply),
        ensures
            final(self).wf(),
            final(self).export@.namespace == old(self).export@.namespace,
            final(self).export@.schemas.len() == old(self).export@.schemas.len(),
            crate::save::spec_export_valid(old(self).export@) ==> crate::save::spec_export_valid(
                final(self).export@,
            ),
            (old(self).phase is CheckExisting) ==> (reply matches StoreReply::Exists(yes) ==> (r
                is Ok && (if yes {
                final(self).phase is DeleteExisting
            } else {
                final(self).phase is ResolveUser
            }))),
            (old(self).phase is DeleteExisting) ==> (reply matches StoreReply::Deleted { rows }
                ==> (if rows == 1 {
                r is Ok && final(self).phase is ResolveUser
            } else {
                (r matches Err(SaveError::Persistence { stage: SaveStage::DeleteExisting, .. }))
                    && final(self).phase is Failed
            })),
            (old(self).phase is ResolveUser) ==> (reply matches StoreReply::UserFound { id } ==> (
            r is Ok && final(self).phase is InsertSourceConnection && final(self).user_id == id)),
            (old(self).phase is ResolveUser && reply is UserMissing) ==> (r is Ok && final(self).phase is InsertUser),
            (old(self).phase is InsertUser) ==> (reply matches StoreReply::Inserted { id } ==> (r
                is Ok && final(self).phase is InsertSourceConnection && final(self).user_id == id
                && (old(self).export@.creator is Some ==> final(self).export@.creator == Some(
                crate::model::UserV { id: Some(id as int), ..old(self).export@.creator->0 },
            )) && (old(self).export@.updator is Some ==> final(self).export@.updator == Some(
                crate::model::UserV { id: Some(id as int), ..old(self).export@.updator->0 },
            )))),
            (old(self).phase is InsertSourceConnection) ==> (reply
                matches StoreReply::Inserted { id } ==> (r is Ok && final(self).phase
                is InsertDestinationConnection && final(self).source_connection_id == id)),
            (old(self).phase is InsertDestinationConnection) ==> (reply
                matches StoreReply::Inserted { id } ==> (r is Ok && final(self).phase
                is InsertExport && final(self).destination_connection_id == id)),
            (old(self).phase is InsertExport) ==> (reply matches StoreReply::Inserted { id } ==> (
            r is Ok && final(self).export_id == id && final(self).export@.id == Some(id as int)
                && (if old(self).export@.schemas.len() > 0 {
                final(self).phase is InsertSchema && final(self).schema_idx == 0
            } else {
                final(self).phase is Complete
            }))),
            (old(self).phase is InsertSchema) ==> (reply matches StoreReply::Inserted { id } ==> (
            r is Ok && final(self).current_schema_id == id && final(self).schema_ids@ == old(self).schema_ids@.push(id) && (if old(self).export@.schemas[
                old(self).schema_idx as int
            ].mappings.len() > 0 {
                final(self).phase is InsertMapping && final(self).schema_idx == old(self).schema_idx && final(self).mapping_idx == 0
            } else {
                final(self).phase == Self::spec_after_schema(
                    old(self).export@,
                    old(self).schema_idx as int,
                ) && (final(self).phase is InsertSchema ==> final(self).schema_idx == old(self).schema_idx + 1)
            }))),
            (old(self).phase is InsertMapping) ==> (reply matches StoreReply::Inserted { id } ==> (
            r is Ok && final(self).mapping_ids@ == old(self).mapping_ids@.push(id) && (if old(self).mapping_idx + 1 < old(self).export@.schemas[
                old(self).schema_idx as int
            ].mappings.len() {
                final(self).phase is InsertMapping && final(self).schema_idx == old(self).schema_idx && final(self).mapping_idx == old(self).mapping_idx + 1
            } else {
                final(self).phase == Self::spec_after_schema(
                    old(self).export@,
                    old(self).schema_idx as int,
                ) && (final(self).phase is InsertSchema ==> final(self).schema_idx == old(self).schema_idx + 1)
            }))),
            (reply is Failed && !(old(self).phase is CheckExisting)) ==> (final(self).phase
                is Failed && (match r {
                Err(SaveError::Persistence { stage, .. }) => stage == (match old(self).phase {
                    SavePhase::DeleteExisting => SaveStage::DeleteExisting,
                    SavePhase::ResolveUser => SaveStage::User,
                    SavePhase::InsertUser => SaveStage::User,
                    SavePhase::InsertSourceConnection => SaveStage::SourceConnection,
                    SavePhase::InsertDestinationConnection => SaveStage::DestinationConnection,
                    SavePhase::InsertExport => SaveStage::Export,
                    SavePhase::InsertSchema => SaveStage::Schema,
                    SavePhase::InsertMapping => SaveStage::Mapping,
                    _ => SaveStage::Export,
                }),
                _ => false,
            })),
    {
        match reply {
            StoreReply::Failed => {
                let stage = match self.phase {
                    SavePhase::DeleteExisting => SaveStage::DeleteExisting,
                    SavePhase::ResolveUser => SaveStage::User,
                    SavePhase::InsertUser => SaveStage::User,
                    SavePhase::InsertSourceConnection => SaveStage::SourceConnection,
                    SavePhase::InsertDestinationConnection => SaveStage::DestinationConnection,
                    SavePhase::InsertExport => SaveStage::Export,
                    SavePhase::InsertSchema => SaveStage::Schema,
                    SavePhase::InsertMapping => SaveStage::Mapping,
                    _ => SaveStage::Export,
                };
                let collection = match self.phase {
                    SavePhase::InsertSchema | SavePhase::InsertMapping => self.export.schemas[
                        self.schema_idx
                    ].collection.clone(),
                    _ => String::new(),
                };
                self.phase = SavePhase::Failed;
                Err(SaveError::Persistence { stage, collection })
            },
            StoreReply::Exists(yes) => {
                if yes {
                    self.phase = SavePhase::DeleteExisting;
                } else {
                    self.phase = SavePhase::ResolveUser;
                }
                Ok(())
            },
            StoreReply::Deleted { rows } => {
                if rows == 1 {
                    self.phase = SavePhase::ResolveUser;
                    Ok(())
                } else {
                    self.phase = SavePhase::Failed;
                    Err(
                        SaveError::Persistence {
                            stage: SaveStage::DeleteExisting,
                            collection: String::new(),
                        },
                    )
                }
            },
            StoreReply::UserFound { id } => {
                self.user_id = id;
                self.phase = SavePhase::InsertSourceConnection;
                Ok(())
            },
            StoreReply::UserMissing => {
                self.phase = SavePhase::InsertUser;
                Ok(())
            },
            StoreReply::Inserted { id } => {
                match self.phase {
                    SavePhase::InsertUser => {
                        self.user_id = id;
                        match &mut self.export.creator {
                            Some(u) => {
                                u.id = Some(id);
                            },
                            None => {
                            },
                        }
                        match &mut self.export.updator {
                            Some(u) => {
                                u.id = Some(id);
                            },
                            None => {
                            },
                        }
                        self.phase = SavePhase::InsertSourceConnection;
                    },
                    SavePhase::InsertSourceConnection => {
                        self.source_connection_id = id;
                        match &mut self.export.source_connection {
                            Some(c) => {
                                c.id = Some(id);
                            },
                            None => {
                            },
                        }
                        self.phase = SavePhase::InsertDestinationConnection;
                    },
                    SavePhase::InsertDestinationConnection => {
                        self.destination_connection_id = id;
                        match &mut self.export.destination_connection {
                            Some(c) => {
                                c.id = Some(id);
                            },
                            None => {
                            },
                        }
                        self.phase = SavePhase::InsertExport;
                    },
                    SavePhase::InsertExport => {
                        self.export_id = id;
                        self.export.id = Some(id);
                        if self.export.schemas.len() > 0 {
                            self.schema_idx = 0;
                            self.phase = SavePhase::InsertSchema;
                        } else {
                            self.phase = SavePhase::Complete;
                        }
                    },
                    SavePhase::InsertSchema => {
                        self.current_schema_id = id;
                        self.schema_ids.push(id);
                        let n_schemas = self.export.schemas.len();
                        proof {
                            assert(self.export@.schemas.len() == self.export.schemas@.len());
                        }
                        if self.export.schemas[self.schema_idx].mappings.len() > 0 {
                            self.mapping_idx = 0;
                            self.phase = SavePhase::InsertMapping;
                        } else {
                            if self.schema_idx + 1 < n_schemas {
                                self.schema_idx = self.schema_idx + 1;
                                self.phase = SavePhase::InsertSchema;
                            } else {
                                self.phase = SavePhase::Complete;
                            }
                        }
                    },
                    SavePhase::InsertMapping => {
                        self.mapping_ids.push(id);
                        let n_schemas = self.export.schemas.len();
                        let n_mappings = self.export.schemas[self.schema_idx].mappings.len();
                        proof {
                            assert(self.export@.schemas.len() == self.export.schemas@.len());
                            assert(self.export@.schemas[self.schema_idx as int].mappings.len()
                                == self.export.schemas@[self.schema_idx as int].mappings@.len());
                        }
                        if self.mapping_idx + 1 < n_mappings {
                            self.mapping_idx = self.mapping_idx + 1;
                        } else {
                            if self.schema_idx + 1 < n_schemas {
                                self.schema_idx = self.schema_idx + 1;
                                self.phase = SavePhase::InsertSchema;
                            } else {
                                self.phase = SavePhase::Complete;
                            }
                        }
                    },
                    _ => {
                    },
                }
                Ok(())
            },
        }
    }

    /// Whether the sequence has run to its end.
    pub fn is_complete(&self) -> (r: bool)
        ensures
            r == (self.phase is Complete),
    {
        matches!(self.phase, SavePhase::Complete)
    }

    /// The definition as the session holds it, ids copied back so far.
    pub fn into_export(self) -> (r: Export)
        ensures
            r@ == self.export@,
    {
        self.export
    }
}

} // verus!
