//! Method dispatch of the JSON-RPC service.
//!
//! A call either is answered at once (an unknown method, bad parameters) or
//! becomes an [`Invocation`]: the host waits the invocation's delay and then
//! asks it for the reply.

use vstd::prelude::*;
use crate::protocol::{readable_params, ErrorCode, ErrorObject, Id, Request, Response};
use crate::json_rpc::method::{Method, Rpc};
use crate::json_rpc::param::TestMethod;

verus! {

/// A request as the service receives it: `method` is the method the host
/// read from the request's `method` member, `None` where that member names
/// no known method; each `params` value is the parameters the host read as a
/// [`TestMethod`], `None` where they do not fit that shape.
pub type ServiceRequest = Request<Option<Method>, Option<TestMethod>>;

/// The reply type of the service; a result would be raw JSON text.
pub type ServiceResponse = Response<String>;

/// The JSON-RPC service. It holds no state.
#[derive(Clone, Copy, Debug, Default)]
pub struct RpcService;

/// A method call that the service has accepted.
pub struct Invocation {
    pub method: Method,
    pub call: Rpc,
    pub id: Option<Id>,
}

/// What the service does with a request.
pub enum Action {
    /// Answer at once with this reply.
    Respond(ServiceResponse),
    /// Run the method: wait [`Invocation::delay_secs`] seconds, then reply with
    /// [`Invocation::finish`].
    Invoke(Invocation),
}

impl RpcService {
    /// What the service does with `req`.
    pub open spec fn spec_call(req: ServiceRequest) -> Action {
        match req.method {
            None => Action::Respond(Response::spec_error(ErrorObject::spec_invalid_request(), req.id)),
            Some(Method::TestMethod) => match readable_params(req.params) {
                Some(p) => Action::Invoke(
                    Invocation { method: Method::TestMethod, call: Rpc::TestMethod(p), id: req.id },
                ),
                None => Action::Respond(Response::spec_error(ErrorObject::spec_invalid_params(), req.id)),
            },
            Some(Method::GetBlockCount) => Action::Invoke(
                Invocation { method: Method::GetBlockCount, call: Rpc::GetBlockCount, id: req.id },
            ),
        }
    }

    /// Dispatches a request: a request without a known method is answered
    /// with an invalid-request error; `test_method` without readable
    /// parameters with an invalid-params error; otherwise the method runs.
    /// Every answer carries the request's identifier.
    pub fn call(&mut self, req: ServiceRequest) -> (a: Action)
        ensures
            a == Self::spec_call(req),
            *final(self) == *old(self),
    {
        let ServiceRequest { id, method, params } = req;
        match method {
            None => Action::Respond(Response::error(ErrorObject::invalid_request(), id)),
            Some(Method::TestMethod) => {
                let param = match params {
                    Some(Some(p)) => p,
                    _ => {
                        return Action::Respond(Response::invalid_params(id));
                    },
                };
                Action::Invoke(Invocation { method: Method::TestMethod, call: Rpc::TestMethod(param), id })
            },
            Some(Method::GetBlockCount) => Action::Invoke(
                Invocation { method: Method::GetBlockCount, call: Rpc::GetBlockCount, id },
            ),
        }
    }
}

/// The reply of `test_method` once its wait is over.
pub fn test(param: TestMethod, id: Option<Id>) -> (r: ServiceResponse)
    ensures
        r == Response::<String>::spec_error(ErrorObject::spec_invalid_request(), id),
{
    Response::error(ErrorObject::invalid_request(), id)
}

/// The reply of `get_block_count`.
pub fn get_block_count(id: Option<Id>) -> (r: ServiceResponse)
    ensures
        r == Response::<String>::spec_error(ErrorObject::spec_invalid_request(), id),
{
    Response::error(ErrorObject::invalid_request(), id)
}

impl Invocation {
    pub open spec fn spec_delay_secs(self) -> u64 {
        match self.call {
            Rpc::TestMethod(_) => 2,
            Rpc::GetBlockCount => 0,
        }
    }

    pub open spec fn spec_finish(self) -> ServiceResponse {
        Response::spec_error(ErrorObject::spec_invalid_request(), self.id)
    }

    /// How many seconds the method takes before it replies: two for
    /// `test_method`, none for `get_block_count`.
    pub fn delay_secs(&self) -> (s: u64)
        ensures
            s == self.spec_delay_secs(),
    {
        match self.call {
            Rpc::TestMethod(_) => 2,
            Rpc::GetBlockCount => 0,
        }
    }

    /// The reply of the method, once its delay has passed.
    pub fn finish(self) -> (r: ServiceResponse)
        ensures
            r == self.spec_finish(),
    {
        match self.call {
            Rpc::TestMethod(param) => test(param, self.id),
            Rpc::GetBlockCount => get_block_count(self.id),
        }
    }
}

/// The reply that the service gives to `req` in the end.
pub open spec fn spec_reply(req: ServiceRequest) -> ServiceResponse {
    match RpcService::spec_call(req) {
        Action::Respond(r) => r,
        Action::Invoke(inv) => inv.spec_finish(),
    }
}

/// Every request is answered with its own identifier, and with an error:
/// none of the service's methods produces a result.
pub proof fn lemma_reply_echoes_id(req: ServiceRequest)
    ensures
        spec_reply(req).id == req.id,
        spec_reply(req).payload is Err,
{
}

/// A request is answered with an invalid-params error exactly when it calls
/// `test_method` without readable parameters; every other request ends in an
/// invalid-request error.
pub proof fn lemma_reply_error_kind(req: ServiceRequest)
    ensures
        spec_reply(req).payload == Err::<String, ErrorObject>(ErrorObject::spec_invalid_params())
            <==> (req.method == Some(Method::TestMethod) && readable_params(req.params) is None),
        spec_reply(req).payload == Err::<String, ErrorObject>(ErrorObject::spec_invalid_request())
            <==> !(req.method == Some(Method::TestMethod) && readable_params(req.params) is None),
{
}

/// A request that names no known method is answered at once with the
/// invalid-request error (-32600) and its own identifier, whatever its
/// parameters.
pub proof fn lemma_unknown_method_answered_at_once(req: ServiceRequest)
    requires
        req.method is None,
    ensures
        RpcService::spec_call(req) == Action::Respond(
            Response::<String> { id: req.id, payload: Err(ErrorObject { code: ErrorCode::InvalidRequest }) },
        ),
        ErrorCode::InvalidRequest.spec_code() == -32600,
{
}

/// `test_method` without parameters, or with parameters that cannot be read,
/// is answered at once with the invalid-params error (-32602) and the
/// request's identifier.
pub proof fn lemma_test_method_needs_params(req: ServiceRequest)
    requires
        req.method == Some(Method::TestMethod),
        req.params is None || req.params == Some(None::<TestMethod>),
    ensures
        RpcService::spec_call(req) == Action::Respond(
            Response::<String> { id: req.id, payload: Err(ErrorObject { code: ErrorCode::InvalidParams }) },
        ),
        ErrorCode::InvalidParams.spec_code() == -32602,
{
}

/// `test_method` with readable parameters runs with those parameters: it
/// waits two seconds and then answers with the invalid-request error and the
/// request's identifier.
pub proof fn lemma_test_method_runs(req: ServiceRequest, params: TestMethod)
    requires
        req.method == Some(Method::TestMethod),
        req.params == Some(Some(params)),
    ensures
        RpcService::spec_call(req) == Action::Invoke(
            Invocation { method: Method::TestMethod, call: Rpc::TestMethod(params), id: req.id },
        ),
        (Invocation { method: Method::TestMethod, call: Rpc::TestMethod(params), id: req.id }).spec_delay_secs() == 2,
        (Invocation { method: Method::TestMethod, call: Rpc::TestMethod(params), id: req.id }).spec_finish()
            == (Response::<String> { id: req.id, payload: Err(ErrorObject { code: ErrorCode::InvalidRequest }) }),
{
}

/// `get_block_count` runs whatever its parameters: it answers at once, with
/// no wait, with the invalid-request error and the request's identifier.
pub proof fn lemma_get_block_count_runs(req: ServiceRequest)
    requires
        req.method == Some(Method::GetBlockCount),
    ensures
        RpcService::spec_call(req) == Action::Invoke(
            Invocation { method: Method::GetBlockCount, call: Rpc::GetBlockCount, id: req.id },
        ),
        (Invocation { method: Method::GetBlockCount, call: Rpc::GetBlockCount, id: req.id }).spec_delay_secs() == 0,
        (Invocation { method: Method::GetBlockCount, call: Rpc::GetBlockCount, id: req.id }).spec_finish()
            == (Response::<String> { id: req.id, payload: Err(ErrorObject { code: ErrorCode::InvalidRequest }) }),
{
}

} // verus!
