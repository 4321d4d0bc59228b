//! Migration records and the checksum engine.
//!
//! A `Migration` is an immutable catalog entry: a version that defines the
//! total order, a stable name, the forward and reverse DDL text, and a
//! checksum derived from the forward text.  An `AppliedMigration` is a row
//! read back from the tracking table.  `MigrationState` is the three-way
//! classification produced by diffing a catalog against the applied rows.

use vstd::prelude::*;

use sha2::Digest;

pub mod runner;

verus! {

/// A single migration of the catalog.
pub struct Migration {
    /// Positive integer defining the total order; unique within a catalog.
    pub version: u32,
    /// Human-readable identifier, stable across runs.
    pub name: String,
    /// Forward DDL text, possibly holding several statements and comments.
    pub up_sql: &'static str,
    /// Reverse DDL text, same shape.
    pub down_sql: &'static str,
    /// Hex digest of `up_sql`, computed at catalog-build time.
    pub checksum: String,
}

/// The mathematical value of a `Migration`.
pub ghost struct MigrationView {
    pub version: u32,
    pub name: Seq<char>,
    pub up_sql: Seq<char>,
    pub down_sql: Seq<char>,
    pub checksum: Seq<char>,
}

impl View for Migration {
    type V = MigrationView;

    open spec fn view(&self) -> MigrationView {
        MigrationView {
            version: self.version,
            name: self.name@,
            up_sql: self.up_sql@,
            down_sql: self.down_sql@,
            checksum: self.checksum@,
        }
    }
}

impl DeepView for Migration {
    type V = MigrationView;

    open spec fn deep_view(&self) -> MigrationView {
        self.view()
    }
}

impl Clone for Migration {
    fn clone(&self) -> (r: Self)
        ensures
            r@ == self@,
    {
        Migration {
            version: self.version,
            name: self.name.clone(),
            up_sql: self.up_sql,
            down_sql: self.down_sql,
            checksum: self.checksum.clone(),
        }
    }
}

/// A migration that has been applied to the database, as recorded in the
/// tracking table.
pub struct AppliedMigration {
    pub version: u32,
    pub name: String,
    /// Epoch seconds at application time.
    pub applied_at: i64,
    /// Digest recorded when the migration was applied.
    pub checksum: String,
}

/// The mathematical value of an `AppliedMigration`.
pub ghost struct AppliedMigrationView {
    pub version: u32,
    pub name: Seq<char>,
    pub applied_at: i64,
    pub checksum: Seq<char>,
}

impl View for AppliedMigration {
    type V = AppliedMigrationView;

    open spec fn view(&self) -> AppliedMigrationView {
        AppliedMigrationView {
            version: self.version,
            name: self.name@,
            applied_at: self.applied_at,
            checksum: self.checksum@,
        }
    }
}

impl DeepView for AppliedMigration {
    type V = AppliedMigrationView;

    open spec fn deep_view(&self) -> AppliedMigrationView {
        self.view()
    }
}

impl Clone for AppliedMigration {
    fn clone(&self) -> (r: Self)
        ensures
            r@ == self@,
    {
        AppliedMigration {
            version: self.version,
            name: self.name.clone(),
            applied_at: self.applied_at,
            checksum: self.checksum.clone(),
        }
    }
}

/// The classification of one migration version.
#[derive(Clone, Copy, PartialEq, Eq, Structural, Debug)]
pub enum MigrationState {
    /// Available in the catalog and recorded as applied.
    Applied,
    /// Available in the catalog but not yet applied.
    Pending,
    /// Recorded as applied but no longer present in the catalog.
    Missing,
}

impl MigrationState {
    /// The display name of the classification.
    pub fn as_str(&self) -> (r: &'static str)
        ensures
            *self == MigrationState::Applied ==> r@ == "Applied"@,
            *self == MigrationState::Pending ==> r@ == "Pending"@,
            *self == MigrationState::Missing ==> r@ == "Missing"@,
    {
        match self {
            MigrationState::Applied => "Applied",
            MigrationState::Pending => "Pending",
            MigrationState::Missing => "Missing",
        }
    }
}

/// The lowercase hex rendering of the SHA-256 digest of a text.  A function
/// of the text alone: the same characters always yield the same digest.
pub uninterp spec fn sha256_hex_of(s: Seq<char>) -> Seq<char>;

/// Relies on `sha2::Sha256` and `hex::encode`: the SHA-256 digest of the
/// UTF-8 bytes of `content` (32 bytes, per the SHA-256 specification),
/// rendered as lowercase hexadecimal, two digits per byte.  The result
/// depends on the input text alone.
#[verifier::external_body]
pub fn compute_checksum(content: &str) -> (r: String)
    ensures
        r@ == sha256_hex_of(content@),
        r@.len() == 64,
{
    let mut hasher = sha2::Sha256::new();
    hasher.update(content.as_bytes());
    hex::encode(hasher.finalize())
}

} // verus!
