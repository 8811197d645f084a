//! The router side: client events, routing between clients and queriers,
//! connection health and errors.

pub mod types;
pub mod error;
pub mod message_bus;
pub mod health;
