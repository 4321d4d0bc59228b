//! Error taxonomy for the migration engine.
//!
//! Every fallible operation returns a `CliResult`, whose error distinguishes
//! the failure classes: database/IO trouble (carried as rendered text, since
//! the driver lives outside the library), configuration problems, migration
//! execution failures, and checksum drift.

use vstd::prelude::*;

verus! {

/// The result type used by all fallible operations of this crate.
pub type CliResult<T> = Result<T, CliError>;

/// A typed failure of the migration engine.
#[derive(Debug)]
pub enum CliError {
    /// A database operation failed; carries the driver's rendered error text.
    Database(String),
    /// A filesystem operation failed; carries the rendered error text.
    Io(String),
    /// The database URL's scheme names no supported database.
    UnknownDatabase(String),
    /// A statement of a migration failed to execute; names the migration.
    Migration(String),
    /// A previously applied migration's recorded digest disagrees with the
    /// catalog's current digest for the same version.
    ChecksumMismatch { version: u32, expected: String, actual: String },
    /// A generation target already exists and overwrite was not requested.
    FileExists(String),
    /// The user declined a destructive operation.
    Cancelled,
    /// The configuration file is absent.
    ConfigNotFound(String),
    /// The configuration file is present but malformed.
    ConfigParse(String),
    /// A requested feature is not enabled in the configuration.
    FeatureNotEnabled(String),
    /// Any other failure, already rendered as text.
    Other(String),
}

} // verus!
