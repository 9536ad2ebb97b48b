//! What goes out: the stored form of users and orders, and the event stream.
pub mod kafka_service;
pub mod postgres;
