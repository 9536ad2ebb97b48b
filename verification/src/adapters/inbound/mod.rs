//! What comes in: the GraphQL inputs and views.
pub mod graph_ql;
