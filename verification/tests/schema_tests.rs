use authkit::cli::DatabaseType;
use authkit::config::Feature;
use authkit::migrations::compute_checksum;
use authkit::schema::features::{base, email_verification};
use authkit::schema::{get_feature_migration, get_migrations_for_features};

#[test]
fn test_postgres_up_contains_all_tables() {
    assert!(base::POSTGRES_UP.contains("CREATE TABLE IF NOT EXISTS users"));
    assert!(base::POSTGRES_UP.contains("CREATE TABLE IF NOT EXISTS accounts"));
    assert!(base::POSTGRES_UP.contains("CREATE TABLE IF NOT EXISTS sessions"));
    assert!(base::POSTGRES_UP.contains("CREATE TABLE IF NOT EXISTS verification"));
}

#[test]
fn test_sqlite_up_contains_all_tables() {
    assert!(base::SQLITE_UP.contains("CREATE TABLE IF NOT EXISTS users"));
    assert!(base::SQLITE_UP.contains("CREATE TABLE IF NOT EXISTS accounts"));
    assert!(base::SQLITE_UP.contains("CREATE TABLE IF NOT EXISTS sessions"));
    assert!(base::SQLITE_UP.contains("CREATE TABLE IF NOT EXISTS verification"));
}

#[test]
fn test_down_migrations_drop_all_tables() {
    assert!(base::POSTGRES_DOWN.contains("DROP TABLE IF EXISTS users"));
    assert!(base::POSTGRES_DOWN.contains("DROP TABLE IF EXISTS accounts"));
    assert!(base::POSTGRES_DOWN.contains("DROP TABLE IF EXISTS sessions"));
    assert!(base::POSTGRES_DOWN.contains("DROP TABLE IF EXISTS verification"));
}

#[test]
fn test_postgres_up_adds_columns() {
    assert!(email_verification::POSTGRES_UP.contains("ALTER TABLE users ADD COLUMN"));
    assert!(email_verification::POSTGRES_UP.contains("email_verified"));
    assert!(email_verification::POSTGRES_UP.contains("email_verified_at"));
}

#[test]
fn test_postgres_down_removes_columns() {
    assert!(email_verification::POSTGRES_DOWN.contains("ALTER TABLE users DROP COLUMN"));
    assert!(email_verification::POSTGRES_DOWN.contains("email_verified"));
}

#[test]
fn test_sqlite_up_adds_columns() {
    assert!(email_verification::SQLITE_UP.contains("ALTER TABLE users ADD COLUMN"));
    assert!(email_verification::SQLITE_UP.contains("email_verified"));
}

#[test]
fn test_base_migration_postgres() {
    let migration = get_feature_migration(Feature::EmailPassword, DatabaseType::Postgres);
    assert_eq!(migration.version, 1);
    assert_eq!(migration.name, "base");
    assert!(migration.up_sql.contains("CREATE TABLE"));
    assert!(migration.down_sql.contains("DROP TABLE"));
}

#[test]
fn test_email_verification_migration_postgres() {
    let migration = get_feature_migration(Feature::EmailVerification, DatabaseType::Postgres);
    assert_eq!(migration.version, 2);
    assert_eq!(migration.name, "email_verification");
    assert!(migration.up_sql.contains("ALTER TABLE"));
}

#[test]
fn test_migrations_for_features() {
    let features = vec![Feature::EmailPassword, Feature::EmailVerification];
    let migrations = get_migrations_for_features(&features, DatabaseType::Postgres);
    assert_eq!(migrations.len(), 2);
    assert_eq!(migrations[0].version, 1);
    assert_eq!(migrations[1].version, 2);
}

#[test]
fn test_catalog_checksum_is_of_up_sql() {
    let migration = get_feature_migration(Feature::EmailPassword, DatabaseType::Sqlite);
    assert_eq!(migration.checksum, compute_checksum(migration.up_sql));
    assert_eq!(migration.checksum.len(), 64);
}

#[test]
fn test_catalog_deterministic() {
    let features = vec![Feature::EmailPassword, Feature::EmailVerification];
    let first = get_migrations_for_features(&features, DatabaseType::Postgres);
    let second = get_migrations_for_features(&features, DatabaseType::Postgres);
    assert_eq!(first.len(), second.len());
    for (a, b) in first.iter().zip(second.iter()) {
        assert_eq!(a.version, b.version);
        assert_eq!(a.name, b.name);
        assert_eq!(a.up_sql, b.up_sql);
        assert_eq!(a.down_sql, b.down_sql);
        assert_eq!(a.checksum, b.checksum);
    }
}

#[test]
fn test_checksum_known_answers() {
    assert_eq!(
        compute_checksum(""),
        "e3b0c44298fc1c149afbf4c8996fb92427ae41e4649b934ca495991b7852b855"
    );
    assert_eq!(
        compute_checksum("abc"),
        "ba7816bf8f01cfea414140de5dae2223b00361a396177a9cb410ff61f20015ad"
    );
}

#[test]
fn test_checksums_differ_between_dialects() {
    let pg = get_feature_migration(Feature::EmailPassword, DatabaseType::Postgres);
    let lite = get_feature_migration(Feature::EmailPassword, DatabaseType::Sqlite);
    assert_ne!(pg.checksum, lite.checksum);
}

#[test]
fn test_authkit_tables_order() {
    let tables = authkit::schema::authkit_tables();
    assert_eq!(tables, vec!["tokens", "sessions", "users", "_authkit_migrations"]);
}
