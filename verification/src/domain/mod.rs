//! The domain: users, orders and the errors of the business rules.
pub mod error;
pub mod order;
pub mod user;

pub use error::DomainError;
pub use order::Order;
pub use user::User;
