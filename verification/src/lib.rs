//! The decisions of a daemon that manages a single environment: how it is
//! configured, how it connects to AWS on behalf of customers, and which resources
//! it reports to have used.

pub mod aws;
pub mod base64url;
pub mod environment;
pub mod global_id;
pub mod outside;
pub mod proto;
pub mod rusage;
pub mod string_map;
pub mod text;
