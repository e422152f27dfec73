//! Manages a single environment.
//!
//! Everything here decides from the options of the command line. What carries the
//! decisions out (the runtime, the orchestrators, the servers) is the caller's.

pub mod args;
pub mod connections;
pub mod controller;
pub mod error;
pub mod guarantees;
pub mod orchestrator;
pub mod run;
pub mod startup;
