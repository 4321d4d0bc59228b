//! AuthKit: a schema-migration engine for an authentication subsystem.
//!
//! The library assembles an ordered catalog of schema migrations from enabled
//! feature flags, fingerprints each migration's forward SQL with a checksum,
//! classifies every migration as applied, pending or missing by diffing the
//! catalog against the database's tracking table, and decomposes multi-statement
//! SQL into individually executable statements.  All database I/O lives outside
//! the library; callers fetch the applied rows and execute the statements that
//! these functions produce.

pub mod cli;
pub mod config;
pub mod error;
pub mod migrations;
pub mod naming;
pub mod schema;
pub mod text;
