//! The values of the JSON-RPC 2.0 protocol that the services exchange.

use vstd::prelude::*;

verus! {

/// The identifier that a client puts on a request and that the reply echoes.
#[derive(Clone, Debug, PartialEq, Eq)]
pub enum Id {
    Null,
    Num(u64),
    Str(String),
}

/// The standard error codes that these services answer with.
#[derive(Clone, Copy, Debug, PartialEq, Eq, Structural)]
pub enum ErrorCode {
    /// The JSON sent is not a valid request object (-32600).
    InvalidRequest,
    /// Invalid method parameters (-32602).
    InvalidParams,
}

impl ErrorCode {
    /// The number that stands for the code on the wire.
    pub open spec fn spec_code(self) -> int {
        match self {
            ErrorCode::InvalidRequest => -32600,
            ErrorCode::InvalidParams => -32602,
        }
    }

    /// The message that goes with the code.
    pub open spec fn spec_message(self) -> Seq<char> {
        match self {
            ErrorCode::InvalidRequest => "Invalid Request"@,
            ErrorCode::InvalidParams => "Invalid params"@,
        }
    }

    pub fn code(&self) -> (c: i32)
        ensures
            c == self.spec_code(),
    {
        match self {
            ErrorCode::InvalidRequest => -32600,
            ErrorCode::InvalidParams => -32602,
        }
    }

    pub fn message(&self) -> (m: &'static str)
        ensures
            m@ == self.spec_message(),
    {
        match self {
            ErrorCode::InvalidRequest => "Invalid Request",
            ErrorCode::InvalidParams => "Invalid params",
        }
    }
}

/// The error member of a reply.
#[derive(Clone, Copy, Debug, PartialEq, Eq, Structural)]
pub struct ErrorObject {
    pub code: ErrorCode,
}

impl ErrorObject {
    pub open spec fn spec_invalid_request() -> ErrorObject {
        ErrorObject { code: ErrorCode::InvalidRequest }
    }

    pub open spec fn spec_invalid_params() -> ErrorObject {
        ErrorObject { code: ErrorCode::InvalidParams }
    }

    /// The error for a request that names no method this service knows.
    pub fn invalid_request() -> (e: ErrorObject)
        ensures
            e == Self::spec_invalid_request(),
    {
        ErrorObject { code: ErrorCode::InvalidRequest }
    }

    /// The error for parameters that are missing or do not fit the method.
    pub fn invalid_params() -> (e: ErrorObject)
        ensures
            e == Self::spec_invalid_params(),
    {
        ErrorObject { code: ErrorCode::InvalidParams }
    }
}

/// A request as the services see it: `method` and `params` hold what the
/// host made of the raw members (for instance, whether they could be read as
/// a known method and as that method's parameters).
pub struct Request<M, P> {
    pub id: Option<Id>,
    pub method: M,
    pub params: Option<P>,
}

/// The parameters of a request, where it carries some that could be read:
/// `None` stands for absent parameters, `Some(None)` for parameters that do
/// not fit the method.
pub open spec fn readable_params<P>(params: Option<Option<P>>) -> Option<P> {
    match params {
        Some(Some(p)) => Some(p),
        _ => None,
    }
}

/// A reply: the echoed identifier and either a result or an error.
pub struct Response<R> {
    pub id: Option<Id>,
    pub payload: Result<R, ErrorObject>,
}

impl<R: View> View for Response<R> {
    type V = Response<R::V>;

    /// The reply with its result taken by its view.
    open spec fn view(&self) -> Response<R::V> {
        Response {
            id: self.id,
            payload: match self.payload {
                Ok(r) => Ok(r@),
                Err(e) => Err(e),
            },
        }
    }
}

impl<R> Response<R> {
    pub open spec fn spec_error(error: ErrorObject, id: Option<Id>) -> Response<R> {
        Response { id, payload: Err(error) }
    }

    pub open spec fn spec_result(result: R, id: Option<Id>) -> Response<R> {
        Response { id, payload: Ok(result) }
    }

    /// A reply that carries `error`.
    pub fn error(error: ErrorObject, id: Option<Id>) -> (r: Response<R>)
        ensures
            r == Self::spec_error(error, id),
    {
        Response { id, payload: Err(error) }
    }

    /// A reply that carries `result`.
    pub fn result(result: R, id: Option<Id>) -> (r: Response<R>)
        ensures
            r == Self::spec_result(result, id),
    {
        Response { id, payload: Ok(result) }
    }

    /// The reply to a request whose parameters are missing or malformed.
    pub fn invalid_params(id: Option<Id>) -> (r: Response<R>)
        ensures
            r == Self::spec_error(ErrorObject::spec_invalid_params(), id),
    {
        Response::error(ErrorObject::invalid_params(), id)
    }
}

} // verus!
