use mcp_core::json::Json;
use mcp_core::protocol::{
    request_response, timeout_response, CancelReason, HandlerOutcome, PendingTable, RequestOptions,
    DEFAULT_REQUEST_TIMEOUT_MSEC,
};
use mcp_core::transport::{JsonRpcRequest, JsonRpcResponse, JsonRpcVersion};
use mcp_core::types::ErrorCode;

fn response(id: u64) -> JsonRpcResponse {
    JsonRpcResponse { id, result: Some(Json::Bool(true)), error: None, jsonrpc: JsonRpcVersion::default() }
}

#[test]
fn request_ids_strictly_increase() {
    let mut t: PendingTable<&str> = PendingTable::new();
    let a = t.create_request("a").unwrap();
    let b = t.create_request("b").unwrap();
    let c = t.create_request("c").unwrap();
    assert_eq!((a, b, c), (0, 1, 2));
    assert_eq!(t.len(), 3);
    t.take(b);
    let d = t.create_request("d").unwrap();
    assert_eq!(d, 3);
}

#[test]
fn response_reaches_the_waiter_of_its_id() {
    let mut t: PendingTable<&str> = PendingTable::new();
    let a = t.create_request("first").unwrap();
    let b = t.create_request("second").unwrap();
    let (slot, resp) = t.handle_response(response(b)).unwrap();
    assert_eq!(slot, "second");
    assert_eq!(resp.id, b);
    assert!(t.contains(a));
    assert!(!t.contains(b));
}

#[test]
fn each_slot_is_signalled_at_most_once() {
    let mut t: PendingTable<u32> = PendingTable::new();
    let id = t.create_request(42).unwrap();
    assert!(t.handle_response(response(id)).is_some());
    assert!(t.handle_response(response(id)).is_none());
    assert!(t.cancel_response(id, CancelReason::TimedOut).is_none());
    assert_eq!(t.len(), 0);
}

#[test]
fn late_response_after_cancellation_is_dropped() {
    let mut t: PendingTable<u32> = PendingTable::new();
    let id = t.create_request(1).unwrap();
    let (slot, resp) = t.cancel_response(id, CancelReason::Cancelled).unwrap();
    assert_eq!(slot, 1);
    assert_eq!(resp.id, id);
    let err = resp.error.unwrap();
    assert_eq!(err.code, -2);
    assert_eq!(err.message, "Request cancelled");
    assert!(t.handle_response(response(id)).is_none());
}

#[test]
fn timed_out_request_gets_request_timeout_error() {
    let r = timeout_response(17, CancelReason::TimedOut);
    assert_eq!(r.id, 17);
    assert!(r.result.is_none());
    let e = r.error.unwrap();
    assert_eq!(e.code, ErrorCode::RequestTimeout.code());
    assert_eq!(e.code, -2);
    assert_eq!(e.message, "Request timed out");
}

#[test]
fn unknown_method_gets_method_not_found() {
    let req = JsonRpcRequest { id: 8, method: "nope".to_string(), params: None, jsonrpc: JsonRpcVersion::default() };
    let r = request_response(&req, None);
    assert_eq!(r.id, 8);
    let e = r.error.unwrap();
    assert_eq!(e.code, -32601);
    assert_eq!(e.message, "Method not found: nope");
}

#[test]
fn handler_failure_gets_internal_error() {
    let req = JsonRpcRequest { id: 9, method: "tools/list".to_string(), params: None, jsonrpc: JsonRpcVersion::default() };
    let r = request_response(&req, Some(HandlerOutcome::Failed("Client not initialized".to_string())));
    assert_eq!(r.id, 9);
    let e = r.error.unwrap();
    assert_eq!(e.code, -32603);
    assert_eq!(e.message, "Client not initialized");
    let ok = request_response(&req, Some(HandlerOutcome::Done(Json::Null)));
    assert_eq!(ok.result, Some(Json::Null));
    assert!(ok.error.is_none());
}

#[test]
fn error_codes_have_their_wire_values() {
    assert_eq!(ErrorCode::ConnectionClosed.code(), -1);
    assert_eq!(ErrorCode::ParseError.code(), -32700);
    assert_eq!(ErrorCode::InvalidRequest.code(), -32600);
    assert_eq!(ErrorCode::InvalidParams.code(), -32602);
    assert_eq!(ErrorCode::InternalError.code(), -32603);
}

#[test]
fn request_options_default_and_timeout() {
    let o = RequestOptions::default();
    assert_eq!(o.timeout, 60000);
    assert_eq!(DEFAULT_REQUEST_TIMEOUT_MSEC, 60000);
    assert_eq!(o.timeout(100).timeout, 100);
}
