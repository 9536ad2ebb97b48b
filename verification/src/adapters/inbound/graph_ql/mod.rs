//! The GraphQL forms of users and orders, and their mapping to and from the domain.
pub mod order;
pub mod schema;
pub mod user;

pub use order::{CreateOrderInput, OrderView};
pub use user::{CreateUserInput, UserView};
