//! The core service and the middleware in front of it.

use vstd::prelude::*;
use crate::protocol::{readable_params, ErrorCode, ErrorObject, Id, Request, Response as JsonResponse};
use crate::core_rpc::method::{
    BaseResponse, BaseResponseView, Method, Response, ResponseView, Rpc, TestResponse, TestResponseView,
};
use crate::core_rpc::param::TestMethod;

verus! {

/// A JSON-RPC request as the middleware receives it: `method` is the method
/// the host read from the request's `method` member, `None` where that
/// member names no known method; each `params` value is the parameters the
/// host read as a [`TestMethod`], `None` where they do not fit that shape.
pub type MiddlewareRequest = Request<Option<Method>, Option<TestMethod>>;

/// The JSON-RPC reply of the middleware: its result is a reply of the core
/// service.
pub type MiddlewareResponse = JsonResponse<Response>;

/// The identifier of the reply to a request that names no known method.
pub const UNKNOWN_METHOD_REPLY_ID: u64 = 12;

/// A failure of the core service.
#[derive(Clone, Copy, Debug, PartialEq, Eq, Structural)]
pub struct RpcError;

/// The core service. It holds no state.
#[derive(Clone, Copy, Debug, Default)]
pub struct CoreRpc;

/// The middleware that decodes calls for the core service and encodes its
/// replies.
#[derive(Clone, Copy, Debug, Default)]
pub struct MiddlewareRpc {
    pub core_rpc: CoreRpc,
}

/// A call in the binary format: the method name and its parameters.
pub struct CoreRpcRequest<T> {
    pub method: Box<String>,
    pub params: T,
}

/// The reply that the core service gives to every call.
pub open spec fn spec_core_reply() -> TestResponseView {
    TestResponseView { base: BaseResponse::spec_blank(), test: 0 }
}

impl CoreRpc {
    /// Answers a call: every call succeeds with the `test_method` reply whose
    /// `test` is 0 and whose base is blank.
    pub fn call(&mut self, req: Rpc) -> (res: Result<Response, RpcError>)
        ensures
            res matches Ok(r) && r@ == ResponseView::TestMethod(spec_core_reply()),
            *final(self) == *old(self),
    {
        Ok(Response::TestMethod(TestResponse::new(BaseResponse::blank(), 0)))
    }
}

impl MiddlewareRpc {
    /// The reply to a JSON-RPC request, with its result taken by its view.
    pub open spec fn spec_call(req: MiddlewareRequest) -> JsonResponse<ResponseView> {
        match req.method {
            None => JsonResponse::spec_error(
                ErrorObject::spec_invalid_request(),
                Some(Id::Num(UNKNOWN_METHOD_REPLY_ID)),
            ),
            Some(_) => match readable_params(req.params) {
                None => JsonResponse::spec_error(ErrorObject::spec_invalid_params(), req.id),
                Some(p) => JsonResponse::spec_result(ResponseView::TestMethod(Self::spec_call_bin(p)), req.id),
            },
        }
    }

    /// The reply to a binary call with parameters `params`.
    pub open spec fn spec_call_bin(params: TestMethod) -> TestResponseView {
        spec_core_reply()
    }

    /// Answers a JSON-RPC request. A request that names no known method gets
    /// an invalid-request error with the identifier 12. Otherwise the
    /// parameters must read as a [`TestMethod`], else the reply is an
    /// invalid-params error; with them the core service is called with
    /// `test_method` (for either method), and its reply becomes the result.
    /// Apart from the first case, the reply carries the request's identifier.
    pub fn call(&mut self, req: MiddlewareRequest) -> (res: MiddlewareResponse)
        ensures
            res@ == Self::spec_call(req),
            *final(self) == *old(self),
    {
        let MiddlewareRequest { id, method, params } = req;
        if method.is_none() {
            return JsonResponse::error(ErrorObject::invalid_request(), Some(Id::Num(UNKNOWN_METHOD_REPLY_ID)));
        }
        let param = match params {
            Some(Some(p)) => p,
            _ => {
                return JsonResponse::invalid_params(id);
            },
        };
        let mut core = self.core_rpc;
        match core.call(Rpc::TestMethod(param)) {
            Ok(result) => JsonResponse::result(result, id),
            Err(_) => JsonResponse::invalid_params(id),
        }
    }

    /// Answers a binary call whose parameters have been decoded: the core
    /// service is called with `test_method` and its reply is returned.
    pub fn call_bin(&mut self, req: CoreRpcRequest<TestMethod>) -> (res: TestResponse)
        ensures
            res@ == Self::spec_call_bin(req.params),
            *final(self) == *old(self),
    {
        let mut core = self.core_rpc;
        let result = core.call(Rpc::TestMethod(req.params));
        match result {
            Ok(Response::TestMethod(inner)) => inner,
            Err(_) => {
                proof {
                    assert(false);
                }
                TestResponse::new(BaseResponse::blank(), 0)
            },
        }
    }
}

/// A request that names a known method and carries readable parameters gets
/// the same core reply as a JSON-RPC result as the same parameters get over
/// the binary path; and such a reply carries the request's identifier.
pub proof fn lemma_json_and_binary_agree(req: MiddlewareRequest, params: TestMethod)
    requires
        req.method is Some,
        readable_params(req.params) == Some(params),
    ensures
        MiddlewareRpc::spec_call(req).payload == Ok::<ResponseView, ErrorObject>(
            ResponseView::TestMethod(MiddlewareRpc::spec_call_bin(params)),
        ),
        MiddlewareRpc::spec_call(req).id == req.id,
{
}

/// The middleware answers with a result exactly when the request names a
/// known method and carries readable parameters; a request that names a
/// known method is always answered with its own identifier.
pub proof fn lemma_result_iff_readable_call(req: MiddlewareRequest)
    ensures
        MiddlewareRpc::spec_call(req).payload is Ok <==> (req.method is Some && readable_params(req.params) is Some),
        req.method is Some ==> MiddlewareRpc::spec_call(req).id == req.id,
{
}

/// The core service answers every call with the blank `test_method` reply
/// (`test` 0, no credits, empty status and top hash, trusted).
pub proof fn lemma_core_reply_is_blank()
    ensures
        spec_core_reply() == (TestResponseView {
            base: BaseResponseView {
                credits: 0,
                status: Seq::<char>::empty(),
                top_hash: Seq::<char>::empty(),
                untrusted: false,
            },
            test: 0,
        }),
        BaseResponse::spec_blank() == (BaseResponseView {
            credits: 0,
            status: Seq::<char>::empty(),
            top_hash: Seq::<char>::empty(),
            untrusted: false,
        }),
{
}

/// A binary call is answered with the core service's reply unchanged,
/// whatever its parameters.
pub proof fn lemma_binary_reply_is_core_reply(params: TestMethod)
    ensures
        MiddlewareRpc::spec_call_bin(params) == (TestResponseView {
            base: BaseResponseView {
                credits: 0,
                status: Seq::<char>::empty(),
                top_hash: Seq::<char>::empty(),
                untrusted: false,
            },
            test: 0,
        }),
{
}

/// A JSON-RPC request that names no known method is rejected before its
/// parameters are looked at: the reply is the invalid-request error (-32600)
/// with the identifier 12, whatever the request's identifier and parameters.
pub proof fn lemma_unknown_method_rejected_first(req: MiddlewareRequest)
    requires
        req.method is None,
    ensures
        MiddlewareRpc::spec_call(req) == (JsonResponse::<ResponseView> {
            id: Some(Id::Num(12)),
            payload: Err(ErrorObject { code: ErrorCode::InvalidRequest }),
        }),
        ErrorCode::InvalidRequest.spec_code() == -32600,
{
}

/// A JSON-RPC request that names a known method, either of them, but whose
/// parameters are absent or cannot be read is answered with the
/// invalid-params error (-32602) and its own identifier.
pub proof fn lemma_known_method_without_params(req: MiddlewareRequest)
    requires
        req.method == Some(Method::TestMethod) || req.method == Some(Method::GetBlockCount),
        req.params is None || req.params == Some(None::<TestMethod>),
    ensures
        MiddlewareRpc::spec_call(req) == (JsonResponse::<ResponseView> {
            id: req.id,
            payload: Err(ErrorObject { code: ErrorCode::InvalidParams }),
        }),
        ErrorCode::InvalidParams.spec_code() == -32602,
{
}

/// A JSON-RPC request that names a known method, either of them, and carries
/// readable parameters is answered with its own identifier and the core
/// service's reply as the result, the same as a binary call with those
/// parameters.
pub proof fn lemma_readable_call_gets_core_reply(req: MiddlewareRequest, params: TestMethod)
    requires
        req.method == Some(Method::TestMethod) || req.method == Some(Method::GetBlockCount),
        req.params == Some(Some(params)),
    ensures
        MiddlewareRpc::spec_call(req) == (JsonResponse::<ResponseView> {
            id: req.id,
            payload: Ok(ResponseView::TestMethod(TestResponseView {
                base: BaseResponseView {
                    credits: 0,
                    status: Seq::<char>::empty(),
                    top_hash: Seq::<char>::empty(),
                    untrusted: false,
                },
                test: 0,
            })),
        }),
        MiddlewareRpc::spec_call(req).payload == Ok::<ResponseView, ErrorObject>(
            ResponseView::TestMethod(MiddlewareRpc::spec_call_bin(params)),
        ),
{
}

} // verus!
