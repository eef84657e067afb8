//! The catalog database: its records and the rules by which they are made.

pub mod backup;
pub mod connection;
pub mod migration;
pub mod models;

pub use connection::DbConnection;
pub use migration::needs_migration;
pub use models::{Distro, Mirror};
