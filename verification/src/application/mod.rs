//! The use cases: commands, and the decisions of the user-creation use case.
pub mod command;
pub mod user_service;

pub use command::{CreateOrderCommand, CreateUserCommand};
