use authkit::cli::DatabaseType;
use authkit::config::{AuthKitConfig, Feature};
use authkit::error::CliError;
use authkit::migrations::runner::{
    applied_record, get_migration_status, get_pending_migrations, split_statements,
    verify_checksums,
};
use authkit::migrations::{AppliedMigration, Migration, MigrationState};
use authkit::naming::migration_file_name;
use authkit::schema::get_migrations_for_features;

fn catalog(db: DatabaseType, with_addon: bool) -> Vec<Migration> {
    let mut features = vec![Feature::EmailPassword];
    if with_addon {
        features.push(Feature::EmailVerification);
    }
    get_migrations_for_features(&features, db)
}

#[test]
fn test_fresh_database_scenario() {
    // Empty tracking table: every catalog entry is pending, in ascending
    // version order; once each is recorded, nothing is pending any more.
    let available = catalog(DatabaseType::Sqlite, true);
    let mut applied: Vec<AppliedMigration> = Vec::new();

    let pending = get_pending_migrations(&available, &applied);
    assert_eq!(pending.len(), available.len());
    for (k, m) in pending.iter().enumerate() {
        assert_eq!(m.version, available[k].version);
        assert!(k == 0 || pending[k - 1].version < m.version);
    }

    for m in &pending {
        applied.push(applied_record(m, 1_700_000_000));
    }
    assert_eq!(applied.len(), available.len());

    let pending_again = get_pending_migrations(&available, &applied);
    assert!(pending_again.is_empty());
}

#[test]
fn test_apply_idempotence() {
    // Applying the full pending queue, then recomputing pending on the same
    // catalog, yields an empty queue even with a partially applied start.
    let available = catalog(DatabaseType::Postgres, true);
    let mut applied = vec![applied_record(&available[0], 1_000)];

    let pending = get_pending_migrations(&available, &applied);
    assert_eq!(pending.len(), 1);
    assert_eq!(pending[0].version, 2);

    for m in &pending {
        applied.push(applied_record(m, 2_000));
    }
    assert!(get_pending_migrations(&available, &applied).is_empty());
}

#[test]
fn test_status_three_way_diff() {
    // Catalog versions {1, 2}; applied versions {2, 5}: version 1 is
    // pending, 2 applied, 5 missing, merge-sorted by version.
    let available = catalog(DatabaseType::Postgres, true);
    let applied = vec![
        applied_record(&available[1], 4_200),
        AppliedMigration {
            version: 5,
            name: "two_factor".to_string(),
            applied_at: 4_300,
            checksum: "0123".to_string(),
        },
    ];

    let statuses = get_migration_status(&available, &applied);
    assert_eq!(statuses.len(), 3);

    assert_eq!(statuses[0].version, 1);
    assert_eq!(statuses[0].name, "base");
    assert_eq!(statuses[0].state, MigrationState::Pending);
    assert_eq!(statuses[0].applied_at, None);

    assert_eq!(statuses[1].version, 2);
    assert_eq!(statuses[1].name, "email_verification");
    assert_eq!(statuses[1].state, MigrationState::Applied);
    assert_eq!(statuses[1].applied_at, Some(4_200));

    assert_eq!(statuses[2].version, 5);
    assert_eq!(statuses[2].name, "two_factor");
    assert_eq!(statuses[2].state, MigrationState::Missing);
    assert_eq!(statuses[2].applied_at, Some(4_300));
}

#[test]
fn test_feature_drift_scenario() {
    // Catalog built with {base} only, while the tracking table still holds a
    // row for the add-on version: exactly one Missing entry shows up.
    let full = catalog(DatabaseType::Sqlite, true);
    let applied = vec![
        applied_record(&full[0], 100),
        applied_record(&full[1], 200),
    ];
    let base_only = catalog(DatabaseType::Sqlite, false);

    let statuses = get_migration_status(&base_only, &applied);
    assert_eq!(statuses.len(), 2);
    assert_eq!(statuses[0].state, MigrationState::Applied);
    let missing: Vec<_> = statuses
        .iter()
        .filter(|s| s.state == MigrationState::Missing)
        .collect();
    assert_eq!(missing.len(), 1);
    assert_eq!(missing[0].version, 2);
    assert_eq!(missing[0].name, "email_verification");
}

#[test]
fn test_partial_failure_scenario() {
    // A migration whose second statement is invalid: the splitter hands the
    // runner both statements, the failure aborts before any record is
    // written, and the version therefore stays pending.
    let migration = Migration {
        version: 7,
        name: "bad_migration".to_string(),
        up_sql: "CREATE TABLE t (id INT);\nTHIS IS NOT SQL;",
        down_sql: "DROP TABLE t;",
        checksum: "d41d".to_string(),
    };
    let statements = split_statements(migration.up_sql);
    assert_eq!(statements.len(), 2);
    assert_eq!(statements[0], "CREATE TABLE t (id INT)");
    assert_eq!(statements[1], "THIS IS NOT SQL");

    // The first statement executed; the second failed, so no tracking row
    // was inserted and the applied set is unchanged.
    let available = vec![migration];
    let applied: Vec<AppliedMigration> = Vec::new();
    let pending = get_pending_migrations(&available, &applied);
    assert_eq!(pending.len(), 1);
    assert_eq!(pending[0].version, 7);
}

#[test]
fn test_verify_checksums_agreement() {
    let available = catalog(DatabaseType::Postgres, true);
    let applied = vec![
        applied_record(&available[0], 1),
        applied_record(&available[1], 2),
    ];
    assert!(verify_checksums(&available, &applied).is_ok());
}

#[test]
fn test_verify_checksums_ignores_missing_versions() {
    // Applied versions absent from the catalog have nothing to compare
    // against and are not checked.
    let available = catalog(DatabaseType::Postgres, false);
    let applied = vec![
        applied_record(&available[0], 1),
        AppliedMigration {
            version: 9,
            name: "gone".to_string(),
            applied_at: 2,
            checksum: "feed".to_string(),
        },
    ];
    assert!(verify_checksums(&available, &applied).is_ok());
}

#[test]
fn test_verify_checksums_detects_drift() {
    // The recorded digest D1 disagrees with the catalog's digest D2 for the
    // same version: the mismatch names the version and both digests.
    let available = catalog(DatabaseType::Postgres, true);
    let mut drifted = applied_record(&available[1], 77);
    drifted.checksum = "cafe".to_string();
    let applied = vec![applied_record(&available[0], 76), drifted];

    let err = verify_checksums(&available, &applied).unwrap_err();
    match err {
        CliError::ChecksumMismatch { version, expected, actual } => {
            assert_eq!(version, 2);
            assert_eq!(expected, "cafe");
            assert_eq!(actual, available[1].checksum);
        }
        other => panic!("unexpected error: {:?}", other),
    }
}

#[test]
fn test_migration_state_as_str() {
    assert_eq!(MigrationState::Applied.as_str(), "Applied");
    assert_eq!(MigrationState::Pending.as_str(), "Pending");
    assert_eq!(MigrationState::Missing.as_str(), "Missing");
}

#[test]
fn test_migration_file_names() {
    assert_eq!(
        migration_file_name(1, "create_users_table", true),
        "001_create_users_table.up.sql"
    );
    assert_eq!(
        migration_file_name(1, "create_users_table", false),
        "001_create_users_table.down.sql"
    );
    assert_eq!(
        migration_file_name(10, "create_tokens_type_index", true),
        "010_create_tokens_type_index.up.sql"
    );
    assert_eq!(migration_file_name(123, "big", true), "123_big.up.sql");
    assert_eq!(migration_file_name(1234, "bigger", false), "1234_bigger.down.sql");
    assert_eq!(migration_file_name(0, "zero", true), "000_zero.up.sql");
}

#[test]
fn test_dialect_ddl() {
    assert_eq!(DatabaseType::Sqlite.as_str(), "sqlite");
    assert_eq!(DatabaseType::Postgres.as_str(), "postgres");
    assert!(DatabaseType::Sqlite
        .ensure_tracking_table_sql()
        .contains("CREATE TABLE IF NOT EXISTS _authkit_migrations"));
    assert!(DatabaseType::Sqlite.ensure_tracking_table_sql().contains("applied_at INTEGER"));
    assert!(DatabaseType::Postgres.ensure_tracking_table_sql().contains("applied_at BIGINT"));
    assert_eq!(
        DatabaseType::Sqlite.drop_table_sql("users"),
        "DROP TABLE IF EXISTS users"
    );
    assert_eq!(
        DatabaseType::Postgres.drop_table_sql("users"),
        "DROP TABLE IF EXISTS users CASCADE"
    );
}

#[test]
fn test_applied_record_fields() {
    let config = AuthKitConfig::default_config(DatabaseType::Sqlite);
    let available = get_migrations_for_features(&config.enabled_features(), DatabaseType::Sqlite);
    let record = applied_record(&available[0], 1_234_567);
    assert_eq!(record.version, available[0].version);
    assert_eq!(record.name, available[0].name);
    assert_eq!(record.applied_at, 1_234_567);
    assert_eq!(record.checksum, available[0].checksum);
}
