//! AWS configuration for sources and sinks.

pub mod assume_role;
pub mod connection;
pub mod credentials;
pub mod guarantees;
pub mod laws;
pub mod sdk;
pub mod types;
pub mod wire;
