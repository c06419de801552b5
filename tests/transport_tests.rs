use mcp_core::json::{Json, JsonNumber};
use mcp_core::transport::{
    EnvelopeError, JsonRpcError, JsonRpcMessage, JsonRpcNotification, JsonRpcRequest, JsonRpcResponse, JsonRpcVersion,
};

fn to_json(v: &serde_json::Value) -> Json {
    match v {
        serde_json::Value::Null => Json::Null,
        serde_json::Value::Bool(b) => Json::Bool(*b),
        serde_json::Value::Number(n) => {
            if let Some(u) = n.as_u64() {
                Json::Number(JsonNumber::PosInt(u))
            } else if let Some(i) = n.as_i64() {
                Json::Number(JsonNumber::NegInt(i))
            } else {
                Json::Number(JsonNumber::Float(n.to_string()))
            }
        }
        serde_json::Value::String(s) => Json::String(s.clone()),
        serde_json::Value::Array(a) => Json::Array(a.iter().map(to_json).collect()),
        serde_json::Value::Object(m) => Json::Object(m.iter().map(|(k, v)| (k.clone(), to_json(v))).collect()),
    }
}

fn from_json(j: &Json) -> serde_json::Value {
    match j {
        Json::Null => serde_json::Value::Null,
        Json::Bool(b) => serde_json::Value::Bool(*b),
        Json::Number(JsonNumber::PosInt(u)) => serde_json::Value::from(*u),
        Json::Number(JsonNumber::NegInt(i)) => serde_json::Value::from(*i),
        Json::Number(JsonNumber::Float(s)) => serde_json::from_str(s).unwrap(),
        Json::String(s) => serde_json::Value::String(s.clone()),
        Json::Array(a) => serde_json::Value::Array(a.iter().map(from_json).collect()),
        Json::Object(m) => {
            let mut map = serde_json::Map::new();
            for (k, v) in m {
                map.insert(k.clone(), from_json(v));
            }
            serde_json::Value::Object(map)
        }
    }
}

fn parse(text: &str) -> Result<JsonRpcMessage, EnvelopeError> {
    let v: serde_json::Value = serde_json::from_str(text).unwrap();
    JsonRpcMessage::from_json(&to_json(&v))
}

fn text(j: &Json) -> String {
    serde_json::to_string(&from_json(j)).unwrap()
}

#[test]
fn test_deserialize_initialize_request() {
    let json = r#"{"method":"initialize","params":{"protocolVersion":"2024-11-05","capabilities":{},"clientInfo":{"name":"example-client","version":"0.1.0"}},"jsonrpc":"2.0","id":0}"#;

    let message = parse(json).unwrap();
    match message {
        JsonRpcMessage::Request(req) => {
            assert_eq!(req.jsonrpc.as_str(), "2.0");
            assert_eq!(req.id, 0);
            assert_eq!(req.method, "initialize");

            let params = from_json(&req.params.expect("params should exist"));
            assert!(params.is_object());

            let params_obj = params.as_object().unwrap();
            assert_eq!(params_obj["protocolVersion"], "2024-11-05");

            let client_info = params_obj["clientInfo"].as_object().unwrap();
            assert_eq!(client_info["name"], "example-client");
            assert_eq!(client_info["version"], "0.1.0");
        }
        _ => panic!("Expected Request variant"),
    }
}

#[test]
fn envelope_with_id_and_method_is_request() {
    assert!(matches!(parse(r#"{"id":7,"method":"tools/list"}"#), Ok(JsonRpcMessage::Request(r)) if r.id == 7 && r.method == "tools/list"));
}

#[test]
fn envelope_with_id_only_is_response() {
    match parse(r#"{"id":3,"result":{"ok":true},"jsonrpc":"2.0"}"#) {
        Ok(JsonRpcMessage::Response(r)) => {
            assert_eq!(r.id, 3);
            assert!(r.error.is_none());
            let mut expected = serde_json::Map::new();
            expected.insert("ok".to_string(), serde_json::Value::Bool(true));
            assert_eq!(from_json(&r.result.unwrap()), serde_json::Value::Object(expected));
        }
        other => panic!("unexpected {:?}", other),
    }
}

#[test]
fn envelope_with_method_only_is_notification() {
    match parse(r#"{"method":"notifications/initialized","jsonrpc":"2.0"}"#) {
        Ok(JsonRpcMessage::Notification(n)) => {
            assert_eq!(n.method, "notifications/initialized");
            assert!(n.params.is_none());
        }
        other => panic!("unexpected {:?}", other),
    }
}

#[test]
fn envelope_with_extra_field_is_rejected() {
    assert_eq!(parse(r#"{"id":1,"method":"m","extra":1}"#), Err(EnvelopeError::UnknownField));
    assert_eq!(parse(r#"{"id":1,"result":1,"method2":1}"#), Err(EnvelopeError::UnknownField));
    assert_eq!(parse(r#"{"method":"m","result":1}"#), Err(EnvelopeError::UnknownField));
    assert_eq!(parse(r#"{"id":1,"method":"m","result":1}"#), Err(EnvelopeError::UnknownField));
}

#[test]
fn envelope_without_id_or_method_is_rejected() {
    assert_eq!(parse(r#"{"jsonrpc":"2.0"}"#), Err(EnvelopeError::NoIdOrMethod));
    assert_eq!(parse(r#"[1,2]"#), Err(EnvelopeError::NotAnObject));
    assert_eq!(parse(r#"{"id":"x","method":"m"}"#), Err(EnvelopeError::InvalidField));
    assert_eq!(parse(r#"{"id":-1,"result":1}"#), Err(EnvelopeError::InvalidField));
    assert_eq!(parse(r#"{"id":1,"error":5}"#), Err(EnvelopeError::InvalidField));
}

#[test]
fn envelope_accepts_whitespace_and_any_order_and_defaults_version() {
    match parse("  {\n \"method\" : \"ping\" ,  \"id\" : 4 }  ") {
        Ok(JsonRpcMessage::Request(r)) => {
            assert_eq!(r.id, 4);
            assert_eq!(r.jsonrpc.as_str(), "2.0");
        }
        other => panic!("unexpected {:?}", other),
    }
}

#[test]
fn response_error_is_read() {
    match parse(r#"{"id":9,"error":{"code":-32601,"message":"Method not found: x","extra":true}}"#) {
        Ok(JsonRpcMessage::Response(r)) => {
            let e = r.error.unwrap();
            assert_eq!(e.code, -32601);
            assert_eq!(e.message, "Method not found: x");
            assert!(e.data.is_none());
        }
        other => panic!("unexpected {:?}", other),
    }
}

#[test]
fn request_is_written_without_absent_params() {
    let req = JsonRpcRequest {
        id: 5,
        method: "tools/list".to_string(),
        params: None,
        jsonrpc: JsonRpcVersion::default(),
    };
    assert_eq!(text(&req.to_json()), r#"{"id":5,"method":"tools/list","jsonrpc":"2.0"}"#);
}

#[test]
fn notification_and_response_are_written() {
    let n = JsonRpcNotification {
        method: "notifications/initialized".to_string(),
        params: None,
        jsonrpc: JsonRpcVersion::default(),
    };
    assert_eq!(text(&n.to_json()), r#"{"method":"notifications/initialized","jsonrpc":"2.0"}"#);
    let r = JsonRpcResponse {
        id: 2,
        result: None,
        error: Some(JsonRpcError { code: -2, message: "Request timed out".to_string(), data: None }),
        jsonrpc: JsonRpcVersion::default(),
    };
    assert_eq!(
        text(&r.to_json()),
        r#"{"id":2,"error":{"code":-2,"message":"Request timed out"},"jsonrpc":"2.0"}"#
    );
}

#[test]
fn written_message_reads_back() {
    let req = JsonRpcRequest {
        id: 11,
        method: "tools/call".to_string(),
        params: Some(Json::Object(vec![("name".to_string(), Json::String("echo".to_string()))])),
        jsonrpc: JsonRpcVersion::default(),
    };
    let back = JsonRpcMessage::from_json(&JsonRpcMessage::Request(req.clone()).to_json()).unwrap();
    assert_eq!(back, JsonRpcMessage::Request(req));
}
