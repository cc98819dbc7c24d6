//! The HTTP front end of the JSON-RPC service, as a state machine: the host
//! reports what happened with an HTTP request and is told what to do next.

use vstd::prelude::*;
use crate::protocol::{ErrorObject, Id, Response};
use crate::reply::{body_failure_prefix, body_read_failure, PlainReply, BAD_REQUEST};
use crate::json_rpc::http::{spec_fixed_reply, FIXED_REPLY_ID};
use crate::json_rpc::service::{Action, Invocation, RpcService, ServiceRequest, ServiceResponse};

verus! {

/// The HTTP front end.
#[derive(Clone, Copy, Debug, Default)]
pub struct Server {
    rpc_server: RpcService,
}

/// What the host reports about the HTTP request it is serving.
pub enum Event {
    /// A request arrived; `post` tells whether its method is POST.
    Arrived { post: bool },
    /// The body could not be read, for the reason given.
    BodyFailed(String),
    /// The body was read and holds this JSON-RPC request.
    BodyParsed(ServiceRequest),
}

/// What the host does next.
pub enum Step {
    /// Read the request body.
    ReadBody,
    /// Send this JSON-RPC reply with status 200.
    Reply(ServiceResponse),
    /// Send this plain reply.
    Reject(PlainReply),
    /// Run this method call and send its reply with status 200.
    Invoke(Invocation),
}

impl Server {
    /// What the host does after `event`. A request that is not a POST is
    /// answered with an invalid-request error carrying the identifier 1234;
    /// a POST has its body read; a body that cannot be read is answered with
    /// status 400 and the reason; a request read from the body goes to the
    /// JSON-RPC service.
    pub fn step(&self, event: Event) -> (s: Step)
        ensures
            match event {
                Event::Arrived { post } => if post {
                    s is ReadBody
                } else {
                    s == Step::Reply(spec_fixed_reply())
                },
                Event::BodyFailed(detail) => s matches Step::Reject(r) && r.status == BAD_REQUEST
                    && r.body@ == body_failure_prefix() + detail@,
                Event::BodyParsed(req) => match RpcService::spec_call(req) {
                    Action::Respond(r) => s == Step::Reply(r),
                    Action::Invoke(inv) => s == Step::Invoke(inv),
                },
            },
    {
        match event {
            Event::Arrived { post } => {
                if post {
                    Step::ReadBody
                } else {
                    Step::Reply(Response::error(ErrorObject::invalid_request(), Some(Id::Num(FIXED_REPLY_ID))))
                }
            },
            Event::BodyFailed(detail) => Step::Reject(body_read_failure(detail.as_str())),
            Event::BodyParsed(req) => {
                let mut rpc_service = self.rpc_server;
                match rpc_service.call(req) {
                    Action::Respond(r) => Step::Reply(r),
                    Action::Invoke(inv) => Step::Invoke(inv),
                }
            },
        }
    }
}

} // verus!
