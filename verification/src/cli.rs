//! The command surface of the tool, as plain data.
//!
//! The binary around this library parses command-line arguments into these
//! structures; the library itself only consumes the values.  `DatabaseType`
//! is the dialect tag of the engine: a closed union over the two supported
//! SQL dialects, carrying the dialect-specific DDL as methods.

use vstd::prelude::*;
use vstd::string::StringExecFns;

use crate::error::{CliError, CliResult};
use crate::text::str_starts_with;

verus! {

/// Parsed top-level invocation: one command plus global switches.
pub struct Cli {
    pub command: Commands,
    /// Enable verbose output.
    pub verbose: bool,
}

/// The commands the tool supports.
pub enum Commands {
    /// Initialize the configuration file.
    Init(InitArgs),
    /// Generate migration SQL files based on enabled features.
    Generate(GenerateArgs),
    /// Apply pending migrations to the database.
    Migrate(MigrateArgs),
    /// Show migration status.
    Status(StatusArgs),
    /// Drop all known tables (destructive).
    Destroy(DestroyArgs),
    /// Display the current schema.
    Schema(SchemaArgs),
}

pub struct InitArgs {
    /// Target database type.
    pub db: DatabaseType,
    /// Output path for the config file.
    pub output: String,
    /// Overwrite an existing config file.
    pub force: bool,
}

pub struct GenerateArgs {
    /// Path to the config file.
    pub config: String,
    /// Output directory for migration files.
    pub output: String,
    /// Overwrite existing files.
    pub force: bool,
}

pub struct MigrateArgs {
    /// Database connection URL.
    pub db_url: String,
    /// Path to the config file.
    pub config: String,
    /// Show what would be executed without applying.
    pub dry_run: bool,
}

pub struct StatusArgs {
    /// Database connection URL.
    pub db_url: String,
    /// Path to the config file.
    pub config: String,
}

pub struct DestroyArgs {
    /// Database connection URL.
    pub db_url: String,
    /// Skip the confirmation prompt.
    pub force: bool,
}

pub struct SchemaArgs {
    /// Path to the config file.
    pub config: Option<String>,
    /// Target database type (overrides the config).
    pub db: Option<DatabaseType>,
    /// Output format.
    pub format: OutputFormat,
    /// Database URL (to show the actual schema).
    pub db_url: Option<String>,
}

/// The SQL dialect a database speaks.
#[derive(Clone, Copy, PartialEq, Eq, Structural, Debug)]
pub enum DatabaseType {
    Sqlite,
    Postgres,
}

/// The canonical lower-case name of a dialect, as it appears in
/// configuration files and connection URLs.
pub open spec fn spec_db_type_name(d: DatabaseType) -> Seq<char> {
    match d {
        DatabaseType::Sqlite => "sqlite"@,
        DatabaseType::Postgres => "postgres"@,
    }
}

/// The idempotent DDL creating the tracking table for SQLite: `version` as
/// the primary key, `name`, epoch-second `applied_at`, and the recorded
/// `checksum`.
pub const SQLITE_TRACKING_TABLE_SQL: &'static str = r#"
                CREATE TABLE IF NOT EXISTS _authkit_migrations (
                    version INTEGER PRIMARY KEY,
                    name TEXT NOT NULL,
                    applied_at INTEGER NOT NULL,
                    checksum TEXT NOT NULL
                )
                "#;

/// The idempotent DDL creating the tracking table for PostgreSQL; identical
/// shape, with a BIGINT timestamp column.
pub const POSTGRES_TRACKING_TABLE_SQL: &'static str = r#"
                CREATE TABLE IF NOT EXISTS _authkit_migrations (
                    version INTEGER PRIMARY KEY,
                    name TEXT NOT NULL,
                    applied_at BIGINT NOT NULL,
                    checksum TEXT NOT NULL
                )
                "#;

/// The tracking-table DDL a dialect uses.
pub open spec fn spec_tracking_table_sql(d: DatabaseType) -> Seq<char> {
    match d {
        DatabaseType::Sqlite => SQLITE_TRACKING_TABLE_SQL@,
        DatabaseType::Postgres => POSTGRES_TRACKING_TABLE_SQL@,
    }
}

/// The statement dropping one table for a dialect: PostgreSQL cascades to
/// dependent objects, SQLite does not support the clause.
pub open spec fn spec_drop_table_sql(d: DatabaseType, table: Seq<char>) -> Seq<char> {
    "DROP TABLE IF EXISTS "@ + table + (match d {
        DatabaseType::Sqlite => Seq::<char>::empty(),
        DatabaseType::Postgres => " CASCADE"@,
    })
}

impl DatabaseType {
    /// The canonical lower-case name of this dialect.
    pub fn as_str(&self) -> (r: &'static str)
        ensures
            r@ == spec_db_type_name(*self),
    {
        match self {
            DatabaseType::Sqlite => "sqlite",
            DatabaseType::Postgres => "postgres",
        }
    }

    /// The statement that idempotently creates the tracking table in this
    /// dialect.  Safe to execute on every invocation.
    pub fn ensure_tracking_table_sql(&self) -> (r: &'static str)
        ensures
            r@ == spec_tracking_table_sql(*self),
    {
        match self {
            DatabaseType::Sqlite => SQLITE_TRACKING_TABLE_SQL,
            DatabaseType::Postgres => POSTGRES_TRACKING_TABLE_SQL,
        }
    }

    /// The statement that drops the named table in this dialect.
    pub fn drop_table_sql(&self, table: &str) -> (r: String)
        ensures
            r@ == spec_drop_table_sql(*self, table@),
    {
        let mut s = "DROP TABLE IF EXISTS ".to_owned();
        s.append(table);
        match self {
            DatabaseType::Sqlite => {
                proof {
                    assert(s@ =~= spec_drop_table_sql(DatabaseType::Sqlite, table@));
                }
            },
            DatabaseType::Postgres => {
                s.append(" CASCADE");
            },
        }
        s
    }
}

/// Detects the database type from a connection URL's scheme.  `sqlite:`
/// URLs are SQLite; `postgres:` and `postgresql:` URLs are PostgreSQL; any
/// other scheme is an unknown database, reported with the URL.
pub fn detect_type(url: &str) -> (r: CliResult<DatabaseType>)
    ensures
        ({
            let sq = "sqlite:"@.is_prefix_of(url@);
            let pg = "postgres:"@.is_prefix_of(url@) || "postgresql:"@.is_prefix_of(url@);
            match r {
                Ok(d) => (d == DatabaseType::Sqlite && sq) || (d == DatabaseType::Postgres && !sq
                    && pg),
                Err(e) => !sq && !pg && (e matches CliError::UnknownDatabase(m) && m@ == url@),
            }
        }),
{
    if str_starts_with(url, "sqlite:") {
        Ok(DatabaseType::Sqlite)
    } else if str_starts_with(url, "postgres:") || str_starts_with(url, "postgresql:") {
        Ok(DatabaseType::Postgres)
    } else {
        Err(CliError::UnknownDatabase(url.to_owned()))
    }
}

/// Output format for the schema command.
#[derive(Clone, Copy, PartialEq, Eq, Structural, Debug)]
pub enum OutputFormat {
    Sql,
    Json,
    Table,
}

} // verus!
