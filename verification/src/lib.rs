//! Message types, event execution and routing decisions of the second
//! version of the websocket layer between clients, the router and queriers.

pub mod connection;
pub mod event;
pub mod meta;
pub mod outside;
pub mod router;
