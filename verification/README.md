# rpc

A JSON-RPC service stack with verified decision logic.

- `src/protocol.rs`: identifiers, error objects, requests and replies.
- `src/reply.rs`: the plain 400 reply for unreadable request bodies.
- `src/json_rpc/`: a JSON-RPC service (`test_method`, `get_block_count`),
  a minimal front end that answers everything with one fixed error, and
  an HTTP front end written as a state machine.
- `src/core_rpc/`: a core service, the middleware that feeds it JSON-RPC
  and binary calls, and its HTTP front end with path routing.
- `app/`: the async host: JSON and epee encodings, hyper and tower
  services, and accept loops.

The library is pure: each front end takes an event that the host reports
(a request arrived, its body failed or was parsed) and says what the host
does next. Waiting, reading and writing happen in `app/`.
