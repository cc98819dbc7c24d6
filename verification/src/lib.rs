//! A small JSON-RPC service stack: the protocol values that travel over the
//! wire, the method dispatch of two services, and the decisions of the HTTP
//! front ends that carry them.
//!
//! Everything here is synchronous and side-effect free. Waiting, reading
//! request bodies and writing replies belong to the host that runs these
//! services; the functions here say, for each event the host reports, what
//! the service does next.

pub mod protocol;
pub mod reply;
pub mod json_rpc;
pub mod core_rpc;


