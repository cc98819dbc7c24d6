//! The node RPC service: a middleware that turns JSON-RPC and binary calls
//! into calls of the core service, and its HTTP front end.

pub mod method;
pub mod param;
pub mod core_service;

pub mod http_service;
