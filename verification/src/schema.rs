//! Feature-based catalog construction.
//!
//! The catalog is a pure function of the ordered enabled-feature list and the
//! dialect: for each feature it looks up the static SQL pair for that
//! (feature, dialect) combination, takes version and name from the feature's
//! own fixed mapping, and fingerprints the forward SQL with the checksum
//! engine.  Input feature order is preserved.

pub mod features;

use vstd::prelude::*;

use crate::cli::DatabaseType;
use crate::config::{
    spec_enabled_features, spec_feature_version, spec_migration_name, Feature, FeaturesConfig,
};
use crate::migrations::runner::catalog_versions_sorted;
use crate::migrations::{compute_checksum, sha256_hex_of, Migration, MigrationView};

verus! {

/// The forward DDL text for a (feature, dialect) combination.
pub open spec fn spec_up_sql(f: Feature, d: DatabaseType) -> Seq<char> {
    match (f, d) {
        (Feature::EmailPassword, DatabaseType::Postgres) => features::base::POSTGRES_UP@,
        (Feature::EmailPassword, DatabaseType::Sqlite) => features::base::SQLITE_UP@,
        (Feature::EmailVerification, DatabaseType::Postgres) => features::email_verification::POSTGRES_UP@,
        (Feature::EmailVerification, DatabaseType::Sqlite) => features::email_verification::SQLITE_UP@,
    }
}

/// The reverse DDL text for a (feature, dialect) combination.
pub open spec fn spec_down_sql(f: Feature, d: DatabaseType) -> Seq<char> {
    match (f, d) {
        (Feature::EmailPassword, DatabaseType::Postgres) => features::base::POSTGRES_DOWN@,
        (Feature::EmailPassword, DatabaseType::Sqlite) => features::base::SQLITE_DOWN@,
        (Feature::EmailVerification, DatabaseType::Postgres) => features::email_verification::POSTGRES_DOWN@,
        (Feature::EmailVerification, DatabaseType::Sqlite) => features::email_verification::SQLITE_DOWN@,
    }
}

/// The migration a feature contributes for a dialect: versioned and named by
/// the feature, carrying the static SQL pair, fingerprinted over the forward
/// text.
pub open spec fn spec_feature_migration(f: Feature, d: DatabaseType) -> MigrationView {
    MigrationView {
        version: spec_feature_version(f),
        name: spec_migration_name(f),
        up_sql: spec_up_sql(f, d),
        down_sql: spec_down_sql(f, d),
        checksum: sha256_hex_of(spec_up_sql(f, d)),
    }
}

/// The catalog an ordered feature list yields: one migration per feature, in
/// input order.
pub open spec fn spec_catalog(fs: Seq<Feature>, d: DatabaseType) -> Seq<MigrationView> {
    fs.map_values(|f: Feature| spec_feature_migration(f, d))
}

/// The migration for a specific feature and database type.
pub fn get_feature_migration(feature: Feature, db_type: DatabaseType) -> (r: Migration)
    ensures
        r@ == spec_feature_migration(feature, db_type),
{
    let up_sql: &'static str = match (feature, db_type) {
        (Feature::EmailPassword, DatabaseType::Postgres) => features::base::POSTGRES_UP,
        (Feature::EmailPassword, DatabaseType::Sqlite) => features::base::SQLITE_UP,
        (Feature::EmailVerification, DatabaseType::Postgres) => features::email_verification::POSTGRES_UP,
        (Feature::EmailVerification, DatabaseType::Sqlite) => features::email_verification::SQLITE_UP,
    };
    let down_sql: &'static str = match (feature, db_type) {
        (Feature::EmailPassword, DatabaseType::Postgres) => features::base::POSTGRES_DOWN,
        (Feature::EmailPassword, DatabaseType::Sqlite) => features::base::SQLITE_DOWN,
        (Feature::EmailVerification, DatabaseType::Postgres) => features::email_verification::POSTGRES_DOWN,
        (Feature::EmailVerification, DatabaseType::Sqlite) => features::email_verification::SQLITE_DOWN,
    };
    Migration {
        version: feature.version(),
        name: feature.migration_name().to_owned(),
        up_sql,
        down_sql,
        checksum: compute_checksum(up_sql),
    }
}

/// All migrations for the enabled features, in input order.
pub fn get_migrations_for_features(features: &Vec<Feature>, db_type: DatabaseType) -> (r: Vec<
    Migration,
>)
    ensures
        r.deep_view() == spec_catalog(features@, db_type),
{
    let mut out: Vec<Migration> = Vec::new();
    proof {
        assert(out.deep_view() =~~= spec_catalog(features@.take(0), db_type));
    }
    let mut i: usize = 0;
    while i < features.len()
        invariant
            i <= features@.len(),
            out.deep_view() == spec_catalog(features@.take(i as int), db_type),
        decreases features@.len() - i,
    {
        let ghost prev = out.deep_view();
        let m = get_feature_migration(features[i], db_type);
        out.push(m);
        proof {
            assert(out.deep_view() =~~= prev.push(spec_feature_migration(
                features@[i as int],
                db_type,
            )));
            assert(spec_catalog(features@.take(i + 1), db_type) =~~= prev.push(
                spec_feature_migration(features@[i as int], db_type),
            ));
        }
        i = i + 1;
    }
    proof {
        assert(features@.take(features@.len() as int) =~= features@);
    }
    out
}

/// The tables the tool owns, in the order a destroy drops them: dependents
/// before their referents, the tracking table last.
pub fn authkit_tables() -> (r: Vec<&'static str>)
    ensures
        r@.len() == 4,
        r@[0]@ == "tokens"@,
        r@[1]@ == "sessions"@,
        r@[2]@ == "users"@,
        r@[3]@ == "_authkit_migrations"@,
{
    let mut v: Vec<&'static str> = Vec::new();
    v.push("tokens");
    v.push("sessions");
    v.push("users");
    v.push("_authkit_migrations");
    v
}

/// Determinism: catalogs built from the same enabled features and the same
/// dialect are identical — in particular, every entry's checksum (derived
/// from its forward SQL) is the same across repeated builds.
pub proof fn lemma_catalog_deterministic(
    fs: Seq<Feature>,
    d: DatabaseType,
    c1: Seq<MigrationView>,
    c2: Seq<MigrationView>,
)
    requires
        c1 == spec_catalog(fs, d),
        c2 == spec_catalog(fs, d),
    ensures
        c1 == c2,
        forall|i: int|
            0 <= i < c1.len() ==> c1[i].checksum == c2[i].checksum && c1[i].checksum
                == sha256_hex_of(c1[i].up_sql),
{
    assert forall|i: int|
        0 <= i < c1.len() implies c1[i].checksum == c2[i].checksum && c1[i].checksum
        == sha256_hex_of(c1[i].up_sql) by {
        assert(c1[i] == spec_feature_migration(fs[i], d));
    }
}

/// The catalog invariant: a catalog built from a configuration's enabled
/// features has strictly increasing (hence unique) versions in catalog order.
pub proof fn lemma_enabled_catalog_sorted(f: FeaturesConfig, d: DatabaseType)
    ensures
        catalog_versions_sorted(spec_catalog(spec_enabled_features(f), d)),
{
    let fs = spec_enabled_features(f);
    let c = spec_catalog(fs, d);
    assert forall|i: int, j: int| 0 <= i < j < c.len() implies c[i].version < c[j].version by {
        assert(c[i] == spec_feature_migration(fs[i], d));
        assert(c[j] == spec_feature_migration(fs[j], d));
        assert(fs.len() == 2);
        assert(fs[0] == Feature::EmailPassword);
        assert(fs[1] == Feature::EmailVerification);
    }
}

} // verus!
