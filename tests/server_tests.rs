use mcp_core::json::Json;
use mcp_core::protocol::{request_response, HandlerOutcome};
use mcp_core::server::{ClientConnection, Server, ServerProtocolBuilder};
use mcp_core::transport::{JsonRpcRequest, JsonRpcVersion};
use mcp_core::types::{
    tool_error_response, tool_text_response, CallToolRequest, CallToolResponse, ClientCapabilities, Implementation,
    InitializeRequest, ListRequest, ProtocolVersion, Tool, ToolResponseContent,
};

type Handler = fn(&CallToolRequest) -> CallToolResponse;

fn echo(req: &CallToolRequest) -> CallToolResponse {
    let message = req
        .arguments
        .as_ref()
        .and_then(|args| args.iter().find(|(k, _)| k == "message"))
        .and_then(|(_, v)| match v {
            Json::String(s) => Some(s.clone()),
            _ => None,
        });
    match message {
        Some(m) => tool_text_response(m),
        None => tool_error_response("missing message".to_string()),
    }
}

fn echo_tool() -> Tool {
    let schema = Json::Object(vec![
        ("type".to_string(), Json::String("object".to_string())),
        (
            "properties".to_string(),
            Json::Object(vec![(
                "message".to_string(),
                Json::Object(vec![("type".to_string(), Json::String("string".to_string()))]),
            )]),
        ),
        ("required".to_string(), Json::Array(vec![Json::String("message".to_string())])),
    ]);
    Tool { name: "echo".to_string(), description: Some("Echo a message".to_string()), input_schema: schema, annotations: None }
}

fn echo_server() -> ServerProtocolBuilder<Handler> {
    Server::builder("echo".to_string(), "1.0".to_string(), ProtocolVersion::V2024_11_05).register_tool(echo_tool(), echo)
}

fn init_request() -> InitializeRequest {
    InitializeRequest {
        protocol_version: "2024-11-05".to_string(),
        capabilities: ClientCapabilities::empty(),
        client_info: Implementation { name: "test-client".to_string(), version: "0.1.0".to_string() },
    }
}

fn list_request() -> ListRequest {
    ListRequest { cursor: None, meta: None }
}

fn call(name: &str, message: &str) -> CallToolRequest {
    CallToolRequest {
        name: name.to_string(),
        arguments: Some(vec![("message".to_string(), Json::String(message.to_string()))]),
        meta: None,
    }
}

#[test]
fn handshake_then_tool_listing() {
    let mut server = echo_server();
    let init = server.handle_init(init_request());
    assert_eq!(init.protocol_version, "2024-11-05");
    assert_eq!(init.server_info.name, "echo");
    assert_eq!(init.server_info.version, "1.0");
    assert_eq!(server.get_client_info().unwrap().name, "test-client");
    server.handle_initialized();
    let list = server.handle_tools_list(&list_request()).unwrap();
    assert_eq!(list.tools.len(), 1);
    assert_eq!(list.tools[0].name, "echo");
    match &list.tools[0].input_schema {
        Json::Object(members) => {
            let required = members.iter().find(|(k, _)| k == "required").map(|(_, v)| v.clone());
            assert_eq!(required, Some(Json::Array(vec![Json::String("message".to_string())])));
        }
        other => panic!("schema is not an object: {:?}", other),
    }
}

#[test]
fn echo_tool_invocation() {
    let mut server = echo_server();
    server.handle_init(init_request());
    server.handle_initialized();
    let handler = server.handle_tools_call(&call("echo", "hi")).unwrap();
    let resp = handler(&call("echo", "hi"));
    assert_eq!(resp.content.len(), 1);
    match &resp.content[0] {
        ToolResponseContent::Text(t) => {
            assert_eq!(t.content_type, "text");
            assert_eq!(t.text, "hi");
        }
        other => panic!("unexpected content {:?}", other),
    }
    assert_eq!(resp.is_error, None);
}

#[test]
fn listing_before_initialize_is_refused() {
    let server = echo_server();
    let err = server.handle_tools_list(&list_request()).unwrap_err();
    assert_eq!(err, "Client not initialized");
    let req = JsonRpcRequest { id: 1, method: "tools/list".to_string(), params: None, jsonrpc: JsonRpcVersion::default() };
    let wire = request_response(&req, Some(HandlerOutcome::Failed(err)));
    assert_eq!(wire.id, 1);
    assert_eq!(wire.error.unwrap().message, "Client not initialized");
}

#[test]
fn gated_methods_refused_until_initialized_notification() {
    let mut server = echo_server();
    assert!(!server.is_initialized());
    assert_eq!(server.handle_tools_call(&call("echo", "x")).err(), Some("Client not initialized".to_string()));
    server.handle_init(init_request());
    assert!(!server.is_initialized());
    assert!(server.handle_tools_list(&list_request()).is_err());
    assert!(server.handle_tools_call(&call("echo", "x")).is_err());
    server.handle_initialized();
    assert!(server.is_initialized());
    assert!(server.handle_tools_list(&list_request()).is_ok());
    assert!(server.handle_tools_call(&call("echo", "x")).is_ok());
}

#[test]
fn unknown_tool_is_reported() {
    let mut server = echo_server();
    server.handle_initialized();
    assert_eq!(server.handle_tools_call(&call("nope", "x")).err(), Some("Tool not found: nope".to_string()));
}

#[test]
fn tool_failure_is_a_result_with_is_error() {
    let resp = echo(&CallToolRequest { name: "echo".to_string(), arguments: None, meta: None });
    assert_eq!(resp.is_error, Some(true));
}

#[test]
fn registering_a_tool_twice_replaces_it() {
    let mut second = echo_tool();
    second.description = Some("replaced".to_string());
    let mut server = echo_server().register_tool(second, echo);
    server.handle_initialized();
    let list = server.handle_tools_list(&list_request()).unwrap();
    assert_eq!(list.tools.len(), 1);
    assert_eq!(list.tools[0].description, Some("replaced".to_string()));
    assert!(server.tools.get_tool(&"echo".to_string()).is_some());
    assert!(server.tools.get_tool(&"other".to_string()).is_none());
}

#[test]
fn initialize_answers_with_instructions_and_records_client() {
    let mut server = echo_server().set_instructions("use echo".to_string());
    let init = server.handle_init(init_request());
    assert_eq!(init.instructions, Some("use echo".to_string()));
    assert!(server.get_client_capabilities().is_some());
    let mut bare = echo_server().set_instructions("x".to_string()).remove_instructions();
    assert_eq!(bare.handle_init(init_request()).instructions, None);
    assert_eq!(ServerProtocolBuilder::<Handler>::new("n".to_string(), "v".to_string()).protocol_version, ProtocolVersion::V2025_03_26);
    let conn = ClientConnection::new();
    assert!(!conn.initialized);
}
