//! The JSON-RPC service with its own method set, and its HTTP front ends.

pub mod method;
pub mod param;
pub mod service;
pub mod http;
pub mod server;

