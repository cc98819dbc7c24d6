use rpc::core_rpc::core_service::{CoreRpc, CoreRpcRequest, MiddlewareRpc};
use rpc::core_rpc::http_service::{Event, Route, Server, Step};
use rpc::core_rpc::method::{Method, Response, Rpc, TestResponse};
use rpc::core_rpc::param::TestMethod;
use rpc::protocol::{ErrorCode, ErrorObject, Id, Request};
use rpc::reply::body_read_failure;

fn request(id: Option<Id>, method: Option<Method>, params: Option<Option<TestMethod>>) -> Request<Option<Method>, Option<TestMethod>> {
    Request { id, method, params }
}

fn assert_core_reply(r: &TestResponse) {
    assert_eq!(r.test(), 0);
    assert_eq!(r.base().credits, 0);
    assert_eq!(r.base().status, "");
    assert_eq!(r.base().top_hash, "");
    assert!(!r.base().untrusted);
}

#[test]
fn core_answers_every_call_with_test_reply() {
    let mut core = CoreRpc;
    for call in [Rpc::TestMethod(TestMethod::new(4)), Rpc::GetBlockCount] {
        match core.call(call) {
            Ok(Response::TestMethod(r)) => assert_core_reply(&r),
            Err(_) => panic!("core calls succeed"),
        }
    }
}

#[test]
fn middleware_unknown_method_uses_id_twelve() {
    let mut m = MiddlewareRpc::default();
    let r = m.call(request(Some(Id::Num(77)), None, Some(Some(TestMethod::new(1)))));
    assert_eq!(r.id, Some(Id::Num(12)));
    match r.payload {
        Err(e) => assert_eq!(e, ErrorObject { code: ErrorCode::InvalidRequest }),
        Ok(_) => panic!("unknown method is an error"),
    }
}

#[test]
fn middleware_missing_or_bad_params_is_invalid_params() {
    for params in [None, Some(None)] {
        let mut m = MiddlewareRpc::default();
        let r = m.call(request(Some(Id::Str("q".to_string())), Some(Method::TestMethod), params));
        assert_eq!(r.id, Some(Id::Str("q".to_string())));
        match r.payload {
            Err(e) => assert_eq!(e.code, ErrorCode::InvalidParams),
            Ok(_) => panic!("bad params are an error"),
        }
    }
}

#[test]
fn middleware_readable_call_returns_core_result() {
    for method in [Method::TestMethod, Method::GetBlockCount] {
        let mut m = MiddlewareRpc::default();
        let r = m.call(request(Some(Id::Num(5)), Some(method), Some(Some(TestMethod::new(3)))));
        assert_eq!(r.id, Some(Id::Num(5)));
        match r.payload {
            Ok(Response::TestMethod(t)) => assert_core_reply(&t),
            Err(_) => panic!("readable call succeeds"),
        }
    }
}

#[test]
fn binary_call_returns_core_reply() {
    let mut m = MiddlewareRpc::default();
    let r = m.call_bin(CoreRpcRequest { method: Box::new("get_info".to_string()), params: TestMethod::new(6) });
    assert_core_reply(&r);
}

#[test]
fn json_and_binary_paths_agree() {
    let mut m = MiddlewareRpc::default();
    let bin = m.call_bin(CoreRpcRequest { method: Box::new("test_method".to_string()), params: TestMethod::new(2) });
    let json = m.call(request(None, Some(Method::TestMethod), Some(Some(TestMethod::new(2)))));
    match json.payload {
        Ok(Response::TestMethod(t)) => {
            assert_eq!(t.test(), bin.test());
            assert_eq!(t.base().credits, bin.base().credits);
            assert_eq!(t.base().status, bin.base().status);
            assert_eq!(t.base().top_hash, bin.base().top_hash);
            assert_eq!(t.base().untrusted, bin.base().untrusted);
        }
        Err(_) => panic!("readable call succeeds"),
    }
}

#[test]
fn routes_by_path() {
    assert_eq!(Server::route("/json_rpc"), Route::JsonRpc);
    assert_eq!(Server::route("/get_blocks.bin"), Route::Binary);
    assert_eq!(Server::route(".bin"), Route::Binary);
    assert_eq!(Server::route("/bin"), Route::Plain);
    assert_eq!(Server::route("/json_rpc/"), Route::Plain);
    assert_eq!(Server::route("/get_info"), Route::Plain);
    assert_eq!(Server::route(""), Route::Plain);
    assert_eq!(Server::route("/über.bin"), Route::Binary);
}

#[test]
fn server_steps() {
    let server = Server::default();
    match server.step(Event::BodyFailed("eof".to_string())) {
        Step::Reject(r) => {
            assert_eq!(r.status, 400);
            assert_eq!(r.body, "Failed to read request body: eof");
        }
        _ => panic!("unreadable body is rejected"),
    }
    assert!(matches!(server.step(Event::BodyRead { path: "/json_rpc".to_string() }), Step::ParseJsonRpc));
    assert!(matches!(server.step(Event::BodyRead { path: "/x.bin".to_string() }), Step::Unserved(Route::Binary)));
    assert!(matches!(server.step(Event::BodyRead { path: "/x".to_string() }), Step::Unserved(Route::Plain)));
    match server.step(Event::RequestParsed(request(Some(Id::Num(1)), Some(Method::GetBlockCount), Some(Some(TestMethod::new(0)))))) {
        Step::Reply(r) => {
            assert_eq!(r.id, Some(Id::Num(1)));
            assert!(r.payload.is_ok());
        }
        _ => panic!("parsed request is answered"),
    }
}

#[test]
fn body_failure_message() {
    let r = body_read_failure("");
    assert_eq!(r.status, 400);
    assert_eq!(r.body, "Failed to read request body: ");
}
