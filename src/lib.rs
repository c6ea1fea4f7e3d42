//! Typed data exchange between a host and an embedded module: drawable items
//! going out, an ordered key/value configuration coming in, and the store that
//! holds the configuration currently in force.

pub mod param;
pub mod config;
pub mod schema;
pub mod store;
pub mod laws;
