//! The methods that the JSON-RPC service knows.

use vstd::prelude::*;
use crate::json_rpc::param::TestMethod;

verus! {

/// A method name the service answers to. On the wire the names are
/// `test_method` and `get_block_count`.
#[derive(Clone, Copy, Debug, PartialEq, Eq, Structural)]
pub enum Method {
    TestMethod,
    GetBlockCount,
}

/// A method together with the parameters it was called with.
#[derive(Clone, Copy, Debug, PartialEq, Eq, Structural)]
pub enum Rpc {
    TestMethod(TestMethod),
    GetBlockCount,
}

} // verus!
