//! The service's configuration.
pub mod config;

pub use config::DatabaseConfig;
