//! Schema discovery and export-definition engine for document-store to
//! relational-store migrations: document flattening and type projection,
//! the export/schema/mapping data model, an export builder with an
//! idempotent save sequence against a metadata store, and pure DDL
//! generation for destination tables.
pub mod assemble;
pub mod clock;
pub mod document;
pub mod element;
pub mod model;
pub mod naming;
pub mod prompt;
pub mod save;
pub mod session;
pub mod sql;
pub mod store;
pub mod text;
