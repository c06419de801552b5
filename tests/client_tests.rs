use mcp_core::client::{apply_secure_replacements, response_result, Client, ClientBuilder, ClientError, SecureValue};
use mcp_core::json::Json;
use mcp_core::transport::{JsonRpcError, JsonRpcResponse, JsonRpcVersion};
use mcp_core::types::{InitializeResponse, Implementation, ProtocolVersion, ServerCapabilities};

fn s(v: &str) -> Json {
    Json::String(v.to_string())
}

fn obj(members: Vec<(&str, Json)>) -> Json {
    Json::Object(members.into_iter().map(|(k, v)| (k.to_string(), v)).collect())
}

fn client(secure: Vec<(&str, SecureValue)>) -> Client<()> {
    let mut b = ClientBuilder::new(());
    for (k, v) in secure {
        b = b.with_secure_value(k.to_string(), v);
    }
    b.build()
}

fn vars(pairs: &[(&str, &str)]) -> Vec<(String, String)> {
    pairs.iter().map(|(k, v)| (k.to_string(), v.to_string())).collect()
}

#[test]
fn secure_values_substituted_from_environment() {
    let c = client(vec![("api_key", SecureValue::Env("X_KEY".to_string()))]);
    assert_eq!(c.secure_env_names(), vec!["X_KEY".to_string()]);
    let args = obj(vec![("api_key", s("placeholder")), ("nested", obj(vec![("api_key", s("other"))]))]);
    let req = c.call_tool_request(&"t".to_string(), Some(args), &vars(&[("X_KEY", "abc")]));
    assert_eq!(req.name, "t");
    assert_eq!(
        req.arguments,
        Some(vec![
            ("api_key".to_string(), s("abc")),
            ("nested".to_string(), obj(vec![("api_key", s("abc"))])),
        ])
    );
}

#[test]
fn substitution_twice_equals_once() {
    let cfg = vec![
        ("k".to_string(), SecureValue::Static("secret".to_string())),
        ("e".to_string(), SecureValue::Env("UNSET_VAR".to_string())),
    ];
    let env = vars(&[("OTHER", "1")]);
    let v = Json::Array(vec![obj(vec![("k", s("a")), ("e", s("keep")), ("x", obj(vec![("k", s("b"))]))])]);
    let once = apply_secure_replacements(&v, &cfg, &env);
    let twice = apply_secure_replacements(&once, &cfg, &env);
    assert_eq!(once, twice);
    assert_eq!(
        once,
        Json::Array(vec![obj(vec![("k", s("secret")), ("e", s("keep")), ("x", obj(vec![("k", s("secret"))]))])])
    );
}

#[test]
fn non_string_values_are_not_replaced_but_walked() {
    let cfg = vec![("k".to_string(), SecureValue::Static("secret".to_string()))];
    let v = obj(vec![("k", obj(vec![("k", s("inner"))])), ("n", Json::Bool(true))]);
    let r = apply_secure_replacements(&v, &cfg, &Vec::new());
    assert_eq!(r, obj(vec![("k", obj(vec![("k", s("secret"))])), ("n", Json::Bool(true))]));
}

#[test]
fn arguments_that_are_not_an_object_become_empty() {
    let c = client(vec![]);
    let req = c.call_tool_request(&"t".to_string(), Some(Json::Array(vec![])), &Vec::new());
    assert_eq!(req.arguments, Some(vec![]));
    let none = c.call_tool_request(&"t".to_string(), None, &Vec::new());
    assert_eq!(none.arguments, None);
}

fn init_response(version: &str) -> InitializeResponse {
    InitializeResponse {
        protocol_version: version.to_string(),
        capabilities: ServerCapabilities::empty(),
        server_info: Implementation { name: "echo".to_string(), version: "1.0".to_string() },
        instructions: None,
    }
}

#[test]
fn handshake_rejects_other_protocol_version() {
    let mut c = ClientBuilder::new(()).set_protocol_version(ProtocolVersion::V2024_11_05).use_strict().build();
    assert_eq!(c.initialize_request().protocol_version, "2024-11-05");
    assert_eq!(c.check_ready(), Err(ClientError::NotInitialized));
    assert_eq!(
        c.complete_initialize(init_response("2025-03-26")),
        Err(ClientError::UnsupportedProtocolVersion("2025-03-26".to_string()))
    );
    assert!(c.initialize_res.is_none());
    assert_eq!(c.complete_initialize(init_response("2024-11-05")), Ok(()));
    assert_eq!(c.check_ready(), Ok(()));
    assert_eq!(c.assert_initialized(), Ok(()));
}

#[test]
fn non_strict_client_needs_no_handshake() {
    let c = ClientBuilder::new(()).with_strict(false).build();
    assert_eq!(c.check_ready(), Ok(()));
    assert_eq!(c.assert_initialized(), Err(ClientError::NotInitialized));
    assert_eq!(c.client_info.name, "mcp-client");
    assert_eq!(c.protocol_version, ProtocolVersion::V2025_03_26);
}

#[test]
fn response_without_result_is_an_error() {
    let err = JsonRpcError { code: -32601, message: "Method not found: x".to_string(), data: None };
    let r = JsonRpcResponse { id: 1, result: None, error: Some(err.clone()), jsonrpc: JsonRpcVersion::default() };
    assert_eq!(response_result(r), Err(ClientError::RequestFailed(Some(err))));
    let ok = JsonRpcResponse { id: 1, result: Some(Json::Null), error: None, jsonrpc: JsonRpcVersion::default() };
    assert_eq!(response_result(ok), Ok(Json::Null));
}
