use authkit::cli::DatabaseType;
use authkit::config::{AuthKitConfig, Feature};
use authkit::error::CliError;

#[test]
fn test_default_config() {
    let config = AuthKitConfig::default_config(DatabaseType::Postgres);
    assert_eq!(config.database.db_type, "postgres");
    assert!(config.features.email_password);
    assert!(!config.features.email_verification);
}

#[test]
fn test_enabled_features() {
    let mut config = AuthKitConfig::default_config(DatabaseType::Postgres);
    config.features.email_verification = true;

    let features = config.enabled_features();
    assert_eq!(features.len(), 2);
    assert_eq!(features[0], Feature::EmailPassword);
    assert_eq!(features[1], Feature::EmailVerification);
}

#[test]
fn test_enabled_features_base_only() {
    let config = AuthKitConfig::default_config(DatabaseType::Sqlite);
    let features = config.enabled_features();
    assert_eq!(features.len(), 1);
    assert_eq!(features[0], Feature::EmailPassword);
}

#[test]
fn test_validate_accepts_default() {
    let config = AuthKitConfig::default_config(DatabaseType::Sqlite);
    assert!(config.validate().is_ok());
}

#[test]
fn test_validate_rejects_unknown_db_type() {
    let mut config = AuthKitConfig::default_config(DatabaseType::Sqlite);
    config.database.db_type = "mysql".to_string();
    let err = config.validate().unwrap_err();
    assert!(matches!(err, CliError::ConfigParse(_)));
    if let CliError::ConfigParse(m) = err {
        assert_eq!(m, "Invalid database type 'mysql'. Must be 'sqlite' or 'postgres'.");
    }
}

#[test]
fn test_validate_rejects_disabled_base_feature() {
    let mut config = AuthKitConfig::default_config(DatabaseType::Sqlite);
    config.features.email_password = false;
    let err = config.validate().unwrap_err();
    assert!(matches!(err, CliError::ConfigParse(_)));
    if let CliError::ConfigParse(m) = err {
        assert_eq!(m, "email_password feature must be enabled (it is the base feature)");
    }
}

#[test]
fn test_database_type_of_config() {
    let config = AuthKitConfig::default_config(DatabaseType::Postgres);
    assert_eq!(config.database_type().unwrap(), DatabaseType::Postgres);

    let config = AuthKitConfig::default_config(DatabaseType::Sqlite);
    assert_eq!(config.database_type().unwrap(), DatabaseType::Sqlite);

    let mut config = AuthKitConfig::default_config(DatabaseType::Sqlite);
    config.database.db_type = "oracle".to_string();
    assert!(matches!(config.database_type(), Err(CliError::ConfigParse(_))));
}

#[test]
fn test_feature_accessors() {
    assert_eq!(Feature::EmailPassword.migration_name(), "base");
    assert_eq!(Feature::EmailVerification.migration_name(), "email_verification");
    assert_eq!(Feature::EmailPassword.display_name(), "Email/Password Authentication");
    assert_eq!(Feature::EmailVerification.display_name(), "Email Verification");
    assert_eq!(Feature::EmailPassword.version(), 1);
    assert_eq!(Feature::EmailVerification.version(), 2);
}

#[test]
fn test_detect_type() {
    assert_eq!(
        authkit::cli::detect_type("sqlite:test.db?mode=rwc").unwrap(),
        DatabaseType::Sqlite
    );
    assert_eq!(
        authkit::cli::detect_type("postgres://localhost/db").unwrap(),
        DatabaseType::Postgres
    );
    assert_eq!(
        authkit::cli::detect_type("postgresql://localhost/db").unwrap(),
        DatabaseType::Postgres
    );
    let err = authkit::cli::detect_type("invalid://something").unwrap_err();
    assert!(matches!(err, CliError::UnknownDatabase(_)));
    if let CliError::UnknownDatabase(url) = err {
        assert_eq!(url, "invalid://something");
    }
}
