//! A minimal HTTP front end that answers every request with the same
//! invalid-request error.

use vstd::prelude::*;
use crate::protocol::{ErrorCode, ErrorObject, Id, Request, Response};

verus! {

/// The identifier that the fixed replies of this front end carry.
pub const FIXED_REPLY_ID: u64 = 1234;

/// The reply that this front end gives to everything.
pub open spec fn spec_fixed_reply() -> Response<String> {
    Response::spec_error(ErrorObject::spec_invalid_request(), Some(Id::Num(FIXED_REPLY_ID)))
}

/// The HTTP front end.
#[derive(Clone, Copy, Debug, Default)]
pub struct HttpService;

/// A service that answers any request with the fixed reply.
#[derive(Clone, Copy, Debug, Default)]
pub struct RpcService;

impl HttpService {
    /// The reply to an HTTP request, whatever its method. (The host reads
    /// the body of a POST and requires it to be JSON, but its contents do not
    /// change the reply.)
    pub fn call(&self) -> (r: Response<String>)
        ensures
            r == spec_fixed_reply(),
    {
        Response::error(ErrorObject::invalid_request(), Some(Id::Num(FIXED_REPLY_ID)))
    }
}

impl RpcService {
    /// The reply to any request.
    pub fn call<M, P>(&self, req: Request<M, P>) -> (r: Response<String>)
        ensures
            r == spec_fixed_reply(),
    {
        Response::error(ErrorObject::invalid_request(), Some(Id::Num(FIXED_REPLY_ID)))
    }
}

/// The fixed reply is the invalid-request error (-32600) with the
/// identifier 1234.
pub proof fn lemma_fixed_reply()
    ensures
        spec_fixed_reply() == (Response::<String> {
            id: Some(Id::Num(1234)),
            payload: Err(ErrorObject { code: ErrorCode::InvalidRequest }),
        }),
        ErrorCode::InvalidRequest.spec_code() == -32600,
{
}

} // verus!
