//! The forms that the domain takes at the edges of the service.
pub mod inbound;
pub mod outbound;
