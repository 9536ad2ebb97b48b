//! A banking service's verified core: users, orders, the rules that create and
//! change them, the mapping between their stored, exposed and domain forms, and
//! the decisions taken around persistence and event publishing.
pub mod adapters;
pub mod application;
pub mod clock;
pub mod config;
pub mod domain;
pub mod ids;
pub mod money;
pub mod text;
