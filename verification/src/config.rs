//! Configuration: the enabled features and the target database type.
//!
//! The file on disk is TOML; loading and saving it is the caller's business.
//! The library receives the decoded values and owns their validation and the
//! derivation of the ordered enabled-feature list that the catalog is built
//! from.  The base feature is always enabled; add-on features follow it in
//! ascending version order.

use vstd::prelude::*;
use vstd::string::StringExecFns;

use crate::cli::{spec_db_type_name, DatabaseType};
use crate::error::{CliError, CliResult};
use crate::text::str_eq;

verus! {

/// The configuration file's contents.
pub struct AuthKitConfig {
    /// Database configuration.
    pub database: DatabaseConfig,
    /// Enabled features.
    pub features: FeaturesConfig,
}

/// The `[database]` section.
pub struct DatabaseConfig {
    /// Database type: `"sqlite"` or `"postgres"`.
    pub db_type: String,
}

/// The `[features]` section.
#[derive(Clone, Copy, PartialEq, Eq, Structural, Debug)]
pub struct FeaturesConfig {
    /// Email/password authentication (always enabled, the base feature).
    pub email_password: bool,
    /// Email verification (adds email_verified columns to users).
    pub email_verification: bool,
}

/// A feature that can be enabled: a named, versioned unit of schema change.
#[derive(Clone, Copy, PartialEq, Eq, Structural, Debug, Hash)]
pub enum Feature {
    /// Base email/password authentication.
    EmailPassword,
    /// Email verification add-on.
    EmailVerification,
}

/// The migration version a feature owns.  Features own their version
/// numbers; the catalog never renumbers them.
pub open spec fn spec_feature_version(f: Feature) -> u32 {
    match f {
        Feature::EmailPassword => 1,
        Feature::EmailVerification => 2,
    }
}

/// The stable identifier a feature's migration is named with.
pub open spec fn spec_migration_name(f: Feature) -> Seq<char> {
    match f {
        Feature::EmailPassword => "base"@,
        Feature::EmailVerification => "email_verification"@,
    }
}

impl Feature {
    /// The feature name used for migration naming.
    pub fn migration_name(&self) -> (r: &'static str)
        ensures
            r@ == spec_migration_name(*self),
    {
        match self {
            Feature::EmailPassword => "base",
            Feature::EmailVerification => "email_verification",
        }
    }

    /// The human-readable feature name.
    pub fn display_name(&self) -> (r: &'static str)
        ensures
            *self == Feature::EmailPassword ==> r@ == "Email/Password Authentication"@,
            *self == Feature::EmailVerification ==> r@ == "Email Verification"@,
    {
        match self {
            Feature::EmailPassword => "Email/Password Authentication",
            Feature::EmailVerification => "Email Verification",
        }
    }

    /// The migration version for this feature.
    pub fn version(&self) -> (r: u32)
        ensures
            r == spec_feature_version(*self),
    {
        match self {
            Feature::EmailPassword => 1,
            Feature::EmailVerification => 2,
        }
    }
}

/// The ordered list of enabled features: the base feature first, add-ons
/// after it.
pub open spec fn spec_enabled_features(f: FeaturesConfig) -> Seq<Feature> {
    (if f.email_password {
        seq![Feature::EmailPassword]
    } else {
        Seq::<Feature>::empty()
    }) + (if f.email_verification {
        seq![Feature::EmailVerification]
    } else {
        Seq::<Feature>::empty()
    })
}

impl AuthKitConfig {
    /// The default configuration for a database type: base feature enabled,
    /// add-ons disabled.
    pub fn default_config(db_type: DatabaseType) -> (r: Self)
        ensures
            r.database.db_type@ == spec_db_type_name(db_type),
            r.features.email_password,
            !r.features.email_verification,
    {
        AuthKitConfig {
            database: DatabaseConfig { db_type: db_type.as_str().to_owned() },
            features: FeaturesConfig { email_password: true, email_verification: false },
        }
    }

    /// Validates the configuration: the database type must name a supported
    /// dialect, and the base feature must be enabled.  Returns the first
    /// violation as a configuration error.
    pub fn validate(&self) -> (r: CliResult<()>)
        ensures
            ({
                let t = self.database.db_type@;
                let valid_db = t == "sqlite"@ || t == "postgres"@;
                match r {
                    Ok(()) => valid_db && self.features.email_password,
                    Err(e) => e matches CliError::ConfigParse(m) && if !valid_db {
                        m@ == "Invalid database type '"@ + t
                            + "'. Must be 'sqlite' or 'postgres'."@
                    } else {
                        !self.features.email_password && m@
                            == "email_password feature must be enabled (it is the base feature)"@
                    },
                }
            }),
    {
        let is_sqlite = str_eq(self.database.db_type.as_str(), "sqlite");
        let is_postgres = str_eq(self.database.db_type.as_str(), "postgres");
        if !is_sqlite && !is_postgres {
            let mut m = "Invalid database type '".to_owned();
            m.append(self.database.db_type.as_str());
            m.append("'. Must be 'sqlite' or 'postgres'.");
            return Err(CliError::ConfigParse(m));
        }
        if !self.features.email_password {
            return Err(
                CliError::ConfigParse(
                    "email_password feature must be enabled (it is the base feature)".to_owned(),
                ),
            );
        }
        Ok(())
    }

    /// The database type the configuration names, or a configuration error
    /// for an unsupported name.
    pub fn database_type(&self) -> (r: CliResult<DatabaseType>)
        ensures
            ({
                let t = self.database.db_type@;
                match r {
                    Ok(d) => spec_db_type_name(d) == t,
                    Err(e) => t != "sqlite"@ && t != "postgres"@ && (e matches CliError::ConfigParse(m)
                        && m@ == "Invalid database type '"@ + t + "'"@),
                }
            }),
    {
        if str_eq(self.database.db_type.as_str(), "sqlite") {
            Ok(DatabaseType::Sqlite)
        } else if str_eq(self.database.db_type.as_str(), "postgres") {
            Ok(DatabaseType::Postgres)
        } else {
            let mut m = "Invalid database type '".to_owned();
            m.append(self.database.db_type.as_str());
            m.append("'");
            Err(CliError::ConfigParse(m))
        }
    }

    /// The enabled features, in order: the base feature first, add-ons after.
    pub fn enabled_features(&self) -> (r: Vec<Feature>)
        ensures
            r@ == spec_enabled_features(self.features),
    {
        let mut features: Vec<Feature> = Vec::new();
        if self.features.email_password {
            features.push(Feature::EmailPassword);
        }
        if self.features.email_verification {
            features.push(Feature::EmailVerification);
        }
        proof {
            assert(features@ =~= spec_enabled_features(self.features));
        }
        features
    }
}

} // verus!
