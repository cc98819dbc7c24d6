//! The methods of the core service, its calls and its replies.

use vstd::prelude::*;
use crate::core_rpc::param::TestMethod;

verus! {

/// A method name the middleware answers to. On the wire the names are
/// `test_method` and `get_block_count`.
#[derive(Clone, Copy, Debug, PartialEq, Eq, Structural)]
pub enum Method {
    TestMethod,
    GetBlockCount,
}

/// A call of the core service.
#[derive(Clone, Copy, Debug, PartialEq, Eq, Structural)]
pub enum Rpc {
    TestMethod(TestMethod),
    GetBlockCount,
}

/// The fields that every reply of the core service carries.
pub struct BaseResponse {
    pub credits: u64,
    pub status: String,
    pub top_hash: String,
    pub untrusted: bool,
}

/// What a [`BaseResponse`] holds.
pub struct BaseResponseView {
    pub credits: u64,
    pub status: Seq<char>,
    pub top_hash: Seq<char>,
    pub untrusted: bool,
}

impl View for BaseResponse {
    type V = BaseResponseView;

    open spec fn view(&self) -> BaseResponseView {
        BaseResponseView {
            credits: self.credits,
            status: self.status@,
            top_hash: self.top_hash@,
            untrusted: self.untrusted,
        }
    }
}

impl BaseResponse {
    /// A base with no credits, empty status and top hash, and not marked
    /// untrusted.
    pub open spec fn spec_blank() -> BaseResponseView {
        BaseResponseView { credits: 0, status: Seq::empty(), top_hash: Seq::empty(), untrusted: false }
    }

    pub fn blank() -> (b: BaseResponse)
        ensures
            b@ == Self::spec_blank(),
    {
        BaseResponse { credits: 0, status: String::new(), top_hash: String::new(), untrusted: false }
    }
}

/// The reply of `test_method`.
pub struct TestResponse {
    base: BaseResponse,
    pub test: u8,
}

/// What a [`TestResponse`] holds.
pub struct TestResponseView {
    pub base: BaseResponseView,
    pub test: u8,
}

impl View for TestResponse {
    type V = TestResponseView;

    closed spec fn view(&self) -> TestResponseView {
        TestResponseView { base: self.base@, test: self.test }
    }
}

impl TestResponse {
    pub fn new(base: BaseResponse, test: u8) -> (r: TestResponse)
        ensures
            r@ == (TestResponseView { base: base@, test }),
    {
        TestResponse { base, test }
    }

    pub fn base(&self) -> (b: &BaseResponse)
        ensures
            b@ == self@.base,
    {
        &self.base
    }

    pub fn test(&self) -> (t: u8)
        ensures
            t == self@.test,
    {
        self.test
    }
}

/// A reply of the core service.
pub enum Response {
    TestMethod(TestResponse),
}

/// What a [`Response`] holds.
pub enum ResponseView {
    TestMethod(TestResponseView),
}

impl View for Response {
    type V = ResponseView;

    open spec fn view(&self) -> ResponseView {
        match self {
            Response::TestMethod(r) => ResponseView::TestMethod(r@),
        }
    }
}

} // verus!
