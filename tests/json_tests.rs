use mcp_core::json::{Json, JsonNumber};
use mcp_core::registry::Registry;
use mcp_core::transport::{JsonRpcError, JsonRpcMessage, JsonRpcResponse, JsonRpcVersion};
use mcp_core::types::{ToolAnnotations, ProtocolVersion};

#[test]
fn member_lookup_takes_the_first_match() {
    let v = Json::Object(vec![
        ("a".to_string(), Json::Number(JsonNumber::PosInt(1))),
        ("b".to_string(), Json::Null),
        ("a".to_string(), Json::Number(JsonNumber::PosInt(2))),
    ]);
    assert_eq!(v.get(&"a".to_string()), Some(&Json::Number(JsonNumber::PosInt(1))));
    assert_eq!(v.get(&"c".to_string()), None);
    assert_eq!(Json::Bool(true).get(&"a".to_string()), None);
    assert_eq!(v.duplicate(), v);
}

#[test]
fn registry_replaces_and_keeps_order() {
    let mut r: Registry<u32> = Registry::new();
    r.insert("x".to_string(), 1);
    r.insert("y".to_string(), 2);
    r.insert("x".to_string(), 3);
    assert_eq!(r.len(), 2);
    assert_eq!(r.get(&"x".to_string()), Some(&3));
    assert_eq!(r.entry(0), (&"x".to_string(), &3));
    assert_eq!(r.entry(1), (&"y".to_string(), &2));
    assert!(!r.contains(&"z".to_string()));
}

#[test]
fn error_response_reads_back() {
    let r = JsonRpcResponse {
        id: 4,
        result: None,
        error: Some(JsonRpcError { code: -32603, message: "boom".to_string(), data: Some(Json::Bool(false)) }),
        jsonrpc: JsonRpcVersion::default(),
    };
    let back = JsonRpcMessage::from_json(&r.to_json()).unwrap();
    assert_eq!(back, JsonRpcMessage::Response(r));
}

#[test]
fn annotation_defaults_and_versions() {
    let a = ToolAnnotations::empty();
    assert!(!a.is_read_only());
    assert!(a.is_destructive());
    assert!(!a.is_idempotent());
    assert!(a.is_open_world());
    let b = ToolAnnotations { read_only_hint: Some(true), destructive_hint: Some(false), ..ToolAnnotations::empty() };
    assert!(b.is_read_only());
    assert!(!b.is_destructive());
    assert_eq!(ProtocolVersion::V2024_11_05.as_str(), "2024-11-05");
    assert_eq!(ProtocolVersion::V2025_03_26.as_str(), "2025-03-26");
    assert_eq!(JsonRpcVersion::default().as_str(), "2.0");
}
