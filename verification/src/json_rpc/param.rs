//! Parameters of the JSON-RPC service's methods.

use vstd::prelude::*;

verus! {

/// The parameters of `test_method`: `{"number": n}` with `n` a byte.
#[derive(Clone, Copy, Debug, PartialEq, Eq, Structural)]
pub struct TestMethod {
    number: u8,
}

impl TestMethod {
    pub closed spec fn spec_number(self) -> u8 {
        self.number
    }

    pub fn new(number: u8) -> (p: TestMethod)
        ensures
            p.spec_number() == number,
    {
        TestMethod { number }
    }

    pub fn number(&self) -> (n: u8)
        ensures
            n == self.spec_number(),
    {
        self.number
    }
}

} // verus!
