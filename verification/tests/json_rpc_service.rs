use rpc::json_rpc::http::{HttpService, RpcService as FixedRpcService};
use rpc::json_rpc::method::{Method, Rpc};
use rpc::json_rpc::param::TestMethod;
use rpc::json_rpc::server::{Event, Server, Step};
use rpc::json_rpc::service::{get_block_count, Action, RpcService};
use rpc::protocol::{ErrorCode, ErrorObject, Id, Request, Response};

fn request(id: Option<Id>, method: Option<Method>, params: Option<Option<TestMethod>>) -> Request<Option<Method>, Option<TestMethod>> {
    Request { id, method, params }
}

fn invalid_request() -> Result<String, ErrorObject> {
    Err(ErrorObject { code: ErrorCode::InvalidRequest })
}

fn invalid_params() -> Result<String, ErrorObject> {
    Err(ErrorObject { code: ErrorCode::InvalidParams })
}

fn final_reply(action: Action) -> Response<String> {
    match action {
        Action::Respond(r) => r,
        Action::Invoke(inv) => inv.finish(),
    }
}

#[test]
fn error_codes_and_messages() {
    assert_eq!(ErrorObject::invalid_request().code.code(), -32600);
    assert_eq!(ErrorObject::invalid_request().code.message(), "Invalid Request");
    assert_eq!(ErrorObject::invalid_params().code.code(), -32602);
    assert_eq!(ErrorObject::invalid_params().code.message(), "Invalid params");
}

#[test]
fn unknown_method_is_invalid_request_with_request_id() {
    let mut svc = RpcService;
    let action = svc.call(request(Some(Id::Str("abc".to_string())), None, None));
    match action {
        Action::Respond(r) => {
            assert_eq!(r.id, Some(Id::Str("abc".to_string())));
            assert_eq!(r.payload, invalid_request());
        }
        Action::Invoke(_) => panic!("unknown method must be answered at once"),
    }
}

#[test]
fn test_method_without_params_is_invalid_params() {
    let mut svc = RpcService;
    match svc.call(request(Some(Id::Num(7)), Some(Method::TestMethod), None)) {
        Action::Respond(r) => {
            assert_eq!(r.id, Some(Id::Num(7)));
            assert_eq!(r.payload, invalid_params());
        }
        Action::Invoke(_) => panic!("missing params must be answered at once"),
    }
}

#[test]
fn test_method_with_malformed_params_is_invalid_params() {
    let mut svc = RpcService;
    match svc.call(request(Some(Id::Null), Some(Method::TestMethod), Some(None))) {
        Action::Respond(r) => {
            assert_eq!(r.id, Some(Id::Null));
            assert_eq!(r.payload, invalid_params());
        }
        Action::Invoke(_) => panic!("malformed params must be answered at once"),
    }
}

#[test]
fn test_method_with_params_waits_two_seconds() {
    let mut svc = RpcService;
    match svc.call(request(Some(Id::Num(3)), Some(Method::TestMethod), Some(Some(TestMethod::new(9))))) {
        Action::Invoke(inv) => {
            assert_eq!(inv.method, Method::TestMethod);
            assert_eq!(inv.call, Rpc::TestMethod(TestMethod::new(9)));
            assert_eq!(inv.delay_secs(), 2);
            let r = inv.finish();
            assert_eq!(r.id, Some(Id::Num(3)));
            assert_eq!(r.payload, invalid_request());
        }
        Action::Respond(_) => panic!("a readable test_method call runs"),
    }
}

#[test]
fn get_block_count_runs_without_delay_and_ignores_params() {
    let mut svc = RpcService;
    match svc.call(request(None, Some(Method::GetBlockCount), Some(None))) {
        Action::Invoke(inv) => {
            assert_eq!(inv.call, Rpc::GetBlockCount);
            assert_eq!(inv.delay_secs(), 0);
            let r = inv.finish();
            assert_eq!(r.id, None);
            assert_eq!(r.payload, invalid_request());
        }
        Action::Respond(_) => panic!("get_block_count runs"),
    }
}

#[test]
fn handlers_reply_with_invalid_request() {
    let r = rpc::json_rpc::service::test(TestMethod::new(1), Some(Id::Num(1)));
    assert_eq!(r.id, Some(Id::Num(1)));
    assert_eq!(r.payload, invalid_request());
    let r = get_block_count(Some(Id::Str("x".to_string())));
    assert_eq!(r.id, Some(Id::Str("x".to_string())));
    assert_eq!(r.payload, invalid_request());
}

#[test]
fn every_reply_echoes_the_request_id() {
    let cases = vec![
        (None, None),
        (Some(Method::TestMethod), None),
        (Some(Method::TestMethod), Some(None)),
        (Some(Method::TestMethod), Some(Some(TestMethod::new(0)))),
        (Some(Method::GetBlockCount), None),
    ];
    for (i, (method, params)) in cases.into_iter().enumerate() {
        let mut svc = RpcService;
        let id = Some(Id::Num(i as u64 + 100));
        let r = final_reply(svc.call(request(id.clone(), method, params)));
        assert_eq!(r.id, id);
        assert!(r.payload.is_err());
    }
}

#[test]
fn param_number_round_trips() {
    assert_eq!(TestMethod::new(200).number(), 200);
}

#[test]
fn http_service_always_gives_fixed_reply() {
    let r = HttpService.call();
    assert_eq!(r.id, Some(Id::Num(1234)));
    assert_eq!(r.payload, invalid_request());
    let r = FixedRpcService.call(request(Some(Id::Num(5)), Some(Method::TestMethod), None));
    assert_eq!(r.id, Some(Id::Num(1234)));
    assert_eq!(r.payload, invalid_request());
}

#[test]
fn server_answers_non_post_without_reading_body() {
    let server = Server::default();
    match server.step(Event::Arrived { post: false }) {
        Step::Reply(r) => {
            assert_eq!(r.id, Some(Id::Num(1234)));
            assert_eq!(r.payload, invalid_request());
        }
        _ => panic!("non-POST is answered at once"),
    }
}

#[test]
fn server_reads_body_of_post() {
    let server = Server::default();
    assert!(matches!(server.step(Event::Arrived { post: true }), Step::ReadBody));
}

#[test]
fn server_rejects_unreadable_body() {
    let server = Server::default();
    match server.step(Event::BodyFailed("connection reset".to_string())) {
        Step::Reject(r) => {
            assert_eq!(r.status, 400);
            assert_eq!(r.body, "Failed to read request body: connection reset");
        }
        _ => panic!("unreadable body is rejected"),
    }
}

#[test]
fn server_passes_parsed_request_to_service() {
    let server = Server::default();
    match server.step(Event::BodyParsed(request(Some(Id::Num(8)), None, None))) {
        Step::Reply(r) => {
            assert_eq!(r.id, Some(Id::Num(8)));
            assert_eq!(r.payload, invalid_request());
        }
        _ => panic!("unknown method is answered at once"),
    }
    match server.step(Event::BodyParsed(request(Some(Id::Num(9)), Some(Method::GetBlockCount), None))) {
        Step::Invoke(inv) => assert_eq!(inv.finish().id, Some(Id::Num(9))),
        _ => panic!("known method runs"),
    }
}
