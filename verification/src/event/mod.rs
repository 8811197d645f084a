//! Running the events that reach a querier: search, cancel and benchmark.

pub mod executor;
pub mod handlers;
