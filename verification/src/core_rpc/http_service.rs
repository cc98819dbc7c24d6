//! The HTTP front end of the middleware, as a state machine: the host reports
//! what happened with an HTTP request and is told what to do next.

use vstd::prelude::*;
use crate::reply::{body_failure_prefix, body_read_failure, PlainReply, BAD_REQUEST};
use crate::core_rpc::core_service::{MiddlewareRequest, MiddlewareResponse, MiddlewareRpc};

verus! {

/// Where a request goes, by the path of its URI.
#[derive(Clone, Copy, Debug, PartialEq, Eq, Structural)]
pub enum Route {
    /// `/json_rpc`: a JSON-RPC request for the middleware.
    JsonRpc,
    /// A path ending in `.bin`: a call in the binary format.
    Binary,
    /// Any other path: a plain call.
    Plain,
}

/// Whether `s` ends with `suffix`.
pub open spec fn has_suffix(s: Seq<char>, suffix: Seq<char>) -> bool {
    s.len() >= suffix.len() && s.subrange(s.len() - suffix.len(), s.len() as int) == suffix
}

/// The route of a request whose URI has the path `path`.
pub open spec fn spec_route(path: Seq<char>) -> Route {
    if path == "/json_rpc"@ {
        Route::JsonRpc
    } else if has_suffix(path, ".bin"@) {
        Route::Binary
    } else {
        Route::Plain
    }
}

/// Whether `s` and `t` hold the same characters.
fn same_text(s: &str, t: &str) -> (b: bool)
    ensures
        b == (s@ == t@),
{
    let n = s.unicode_len();
    let m = t.unicode_len();
    if n != m {
        return false;
    }
    let mut i: usize = 0;
    while i < n
        invariant
            n == s@.len(),
            m == t@.len(),
            n == m,
            i <= n,
            forall|j: int| 0 <= j < i ==> s@[j] == t@[j],
        decreases n - i,
    {
        if s.get_char(i) != t.get_char(i) {
            return false;
        }
        i = i + 1;
    }
    assert(s@ =~= t@);
    true
}

/// Whether `s` ends with `suffix`.
fn ends_with(s: &str, suffix: &str) -> (b: bool)
    ensures
        b == has_suffix(s@, suffix@),
{
    let n = s.unicode_len();
    let m = suffix.unicode_len();
    if m > n {
        return false;
    }
    let start = n - m;
    let mut i: usize = 0;
    while i < m
        invariant
            n == s@.len(),
            m == suffix@.len(),
            m <= n,
            start == n - m,
            i <= m,
            forall|j: int| 0 <= j < i ==> s@[start + j] == suffix@[j],
        decreases m - i,
    {
        if s.get_char(start + i) != suffix.get_char(i) {
            assert(s@.subrange(start as int, n as int)[i as int] != suffix@[i as int]);
            return false;
        }
        i = i + 1;
    }
    assert(s@.subrange(start as int, n as int) =~= suffix@);
    true
}

/// The HTTP front end of the middleware.
#[derive(Clone, Copy, Debug, Default)]
pub struct Server {
    rpc_server: MiddlewareRpc,
}

/// What the host reports about the HTTP request it is serving.
pub enum Event {
    /// The body could not be read, for the reason given.
    BodyFailed(String),
    /// The body was read; the request's URI has this path.
    BodyRead { path: String },
    /// The body of a JSON-RPC request was read as this request.
    RequestParsed(MiddlewareRequest),
}

/// What the host does next.
pub enum Step {
    /// Send this plain reply.
    Reject(PlainReply),
    /// Read the body as a JSON-RPC request.
    ParseJsonRpc,
    /// The route is not served yet.
    Unserved(Route),
    /// Send this JSON-RPC reply with status 200.
    Reply(MiddlewareResponse),
}

impl Server {
    /// The route of a request whose URI has the path `path`: `/json_rpc` is
    /// the JSON-RPC route, any other path ending in `.bin` the binary route,
    /// anything else the plain route.
    pub fn route(path: &str) -> (r: Route)
        ensures
            r == spec_route(path@),
    {
        if same_text(path, "/json_rpc") {
            Route::JsonRpc
        } else if ends_with(path, ".bin") {
            Route::Binary
        } else {
            Route::Plain
        }
    }

    /// What the host does after `event`. A body that cannot be read is
    /// answered with status 400 and the reason; a request on the JSON-RPC
    /// route has its body read as a JSON-RPC request, which goes to the
    /// middleware; the other routes are not served.
    pub fn step(&self, event: Event) -> (s: Step)
        ensures
            match event {
                Event::BodyFailed(detail) => s matches Step::Reject(r) && r.status == BAD_REQUEST
                    && r.body@ == body_failure_prefix() + detail@,
                Event::BodyRead { path } => if spec_route(path@) == Route::JsonRpc {
                    s is ParseJsonRpc
                } else {
                    s == Step::Unserved(spec_route(path@))
                },
                Event::RequestParsed(req) => s matches Step::Reply(r) && r@ == MiddlewareRpc::spec_call(req),
            },
    {
        match event {
            Event::BodyFailed(detail) => Step::Reject(body_read_failure(detail.as_str())),
            Event::BodyRead { path } => {
                let route = Self::route(path.as_str());
                match route {
                    Route::JsonRpc => Step::ParseJsonRpc,
                    _ => Step::Unserved(route),
                }
            },
            Event::RequestParsed(req) => {
                let mut rpc_service = self.rpc_server;
                Step::Reply(rpc_service.call(req))
            },
        }
    }
}

/// Routing goes by the path alone: exactly `/json_rpc` is the JSON-RPC
/// route; every other path whose last four characters are `.bin` is the
/// binary route, whatever its length; every remaining path is the plain
/// route.
pub proof fn lemma_route_by_path(path: Seq<char>)
    ensures
        spec_route(path) == Route::JsonRpc <==> path == "/json_rpc"@,
        path != "/json_rpc"@ && path.len() >= 4 && path.subrange(path.len() - 4, path.len() as int)
            == ".bin"@ ==> spec_route(path) == Route::Binary,
        path != "/json_rpc"@ && !(path.len() >= 4 && path.subrange(path.len() - 4, path.len() as int)
            == ".bin"@) ==> spec_route(path) == Route::Plain,
{
    reveal_strlit(".bin");
}

} // verus!
