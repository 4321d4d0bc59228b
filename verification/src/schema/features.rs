//! Feature-specific SQL schemas.
//!
//! Each feature module holds the up/down SQL for both PostgreSQL and SQLite.

pub mod base;
pub mod email_verification;
