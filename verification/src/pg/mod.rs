//! The database connection settings.
pub mod pg;
