//! Protocol versions, error codes and the payloads of the standard methods.
use vstd::prelude::*;
use crate::json::{Json, JsonNumber, owned};

verus! {

/// Supported versions of the Model Context Protocol.
#[derive(Debug, Clone, Copy, PartialEq, Eq, Hash, Structural)]
pub enum ProtocolVersion {
    V2024_11_05,
    V2025_03_26,
}

pub open spec fn version_text(v: ProtocolVersion) -> Seq<char> {
    match v {
        ProtocolVersion::V2024_11_05 => "2024-11-05"@,
        ProtocolVersion::V2025_03_26 => "2025-03-26"@,
    }
}

impl ProtocolVersion {
    /// The dated tag of this version.
    pub fn as_str(&self) -> (r: &'static str)
        ensures
            r@ == version_text(*self),
    {
        match self {
            ProtocolVersion::V2024_11_05 => "2024-11-05",
            ProtocolVersion::V2025_03_26 => "2025-03-26",
        }
    }
}

/// The latest version of the protocol.
pub const LATEST_PROTOCOL_VERSION: ProtocolVersion = ProtocolVersion::V2025_03_26;

/// Error codes used on the wire.
#[derive(Debug, Clone, Copy, PartialEq, Eq, Structural)]
pub enum ErrorCode {
    /// The connection was closed.
    ConnectionClosed,
    /// The request timed out or was cancelled.
    RequestTimeout,
    /// Invalid JSON was received.
    ParseError,
    /// The JSON sent is not a valid request object.
    InvalidRequest,
    /// The method does not exist or is not available.
    MethodNotFound,
    /// Invalid method parameters.
    InvalidParams,
    /// Internal JSON-RPC error.
    InternalError,
}

pub open spec fn code_of(c: ErrorCode) -> i32 {
    match c {
        ErrorCode::ConnectionClosed => -1i32,
        ErrorCode::RequestTimeout => -2i32,
        ErrorCode::ParseError => -32700i32,
        ErrorCode::InvalidRequest => -32600i32,
        ErrorCode::MethodNotFound => -32601i32,
        ErrorCode::InvalidParams => -32602i32,
        ErrorCode::InternalError => -32603i32,
    }
}

impl ErrorCode {
    /// The integer sent on the wire.
    pub fn code(self) -> (r: i32)
        ensures
            r == code_of(self),
    {
        match self {
            ErrorCode::ConnectionClosed => -1,
            ErrorCode::RequestTimeout => -2,
            ErrorCode::ParseError => -32700,
            ErrorCode::InvalidRequest => -32600,
            ErrorCode::MethodNotFound => -32601,
            ErrorCode::InvalidParams => -32602,
            ErrorCode::InternalError => -32603,
        }
    }
}

/// Name and version of an implementation.
#[derive(Debug, Clone, PartialEq)]
pub struct Implementation {
    pub name: String,
    pub version: String,
}

/// Sent by the client to open a session.
#[derive(Debug, Clone, PartialEq)]
pub struct InitializeRequest {
    pub protocol_version: String,
    pub capabilities: ClientCapabilities,
    pub client_info: Implementation,
}

/// The server's answer to `initialize`.
#[derive(Debug, Clone, PartialEq)]
pub struct InitializeResponse {
    pub protocol_version: String,
    pub capabilities: ServerCapabilities,
    pub server_info: Implementation,
    /// Free-form hints on how to use the server.
    pub instructions: Option<String>,
}

/// Features that a server offers.
#[derive(Debug, Clone, PartialEq)]
pub struct ServerCapabilities {
    pub tools: Option<ToolCapabilities>,
    pub experimental: Option<Json>,
    pub logging: Option<Json>,
    pub completions: Option<Json>,
    pub prompts: Option<PromptCapabilities>,
    pub resources: Option<ResourceCapabilities>,
}

#[derive(Debug, Clone, PartialEq)]
pub struct ToolCapabilities {
    pub list_changed: Option<bool>,
}

#[derive(Debug, Clone, PartialEq)]
pub struct PromptCapabilities {
    pub list_changed: Option<bool>,
}

#[derive(Debug, Clone, PartialEq)]
pub struct ResourceCapabilities {
    pub subscribe: Option<bool>,
    pub list_changed: Option<bool>,
}

/// Features that a client offers.
#[derive(Debug, Clone, PartialEq)]
pub struct ClientCapabilities {
    pub experimental: Option<Json>,
    pub sampling: Option<Json>,
    pub roots: Option<RootCapabilities>,
}

#[derive(Debug, Clone, PartialEq)]
pub struct RootCapabilities {
    pub list_changed: Option<bool>,
}

impl ServerCapabilities {
    /// No feature block.
    pub fn empty() -> (r: ServerCapabilities)
        ensures
            r.tools is None && r.experimental is None && r.logging is None,
            r.completions is None && r.prompts is None && r.resources is None,
    {
        ServerCapabilities { tools: None, experimental: None, logging: None, completions: None, prompts: None, resources: None }
    }
}

impl ClientCapabilities {
    pub open spec fn empty_spec() -> ClientCapabilities {
        ClientCapabilities { experimental: None, sampling: None, roots: None }
    }

    /// No feature block.
    pub fn empty() -> (r: ClientCapabilities)
        ensures
            r == Self::empty_spec(),
    {
        ClientCapabilities { experimental: None, sampling: None, roots: None }
    }
}

/// A tool that the server exposes.
#[derive(Debug, Clone, PartialEq)]
pub struct Tool {
    pub name: String,
    pub description: Option<String>,
    /// JSON Schema of the tool's arguments.
    pub input_schema: Json,
    pub annotations: Option<ToolAnnotations>,
}

/// Hints about a tool's behaviour; never to be trusted from an untrusted server.
#[derive(Debug, Clone, PartialEq)]
pub struct ToolAnnotations {
    pub title: Option<String>,
    /// Default: false.
    pub read_only_hint: Option<bool>,
    /// Default: true.
    pub destructive_hint: Option<bool>,
    /// Default: false.
    pub idempotent_hint: Option<bool>,
    /// Default: true.
    pub open_world_hint: Option<bool>,
}

pub open spec fn hint_or(h: Option<bool>, default: bool) -> bool {
    match h {
        Some(b) => b,
        None => default,
    }
}

impl ToolAnnotations {
    /// No hint given.
    pub fn empty() -> (r: ToolAnnotations)
        ensures
            r.title is None && r.read_only_hint is None && r.destructive_hint is None,
            r.idempotent_hint is None && r.open_world_hint is None,
    {
        ToolAnnotations { title: None, read_only_hint: None, destructive_hint: None, idempotent_hint: None, open_world_hint: None }
    }

    /// Whether the tool leaves its environment unchanged (false unless stated).
    pub fn is_read_only(&self) -> (r: bool)
        ensures
            r == hint_or(self.read_only_hint, false),
    {
        match self.read_only_hint {
            Some(b) => b,
            None => false,
        }
    }

    /// Whether the tool may destroy data (true unless stated).
    pub fn is_destructive(&self) -> (r: bool)
        ensures
            r == hint_or(self.destructive_hint, true),
    {
        match self.destructive_hint {
            Some(b) => b,
            None => true,
        }
    }

    /// Whether repeating a call has no further effect (false unless stated).
    pub fn is_idempotent(&self) -> (r: bool)
        ensures
            r == hint_or(self.idempotent_hint, false),
    {
        match self.idempotent_hint {
            Some(b) => b,
            None => false,
        }
    }

    /// Whether the tool reaches outside entities (true unless stated).
    pub fn is_open_world(&self) -> (r: bool)
        ensures
            r == hint_or(self.open_world_hint, true),
    {
        match self.open_world_hint {
            Some(b) => b,
            None => true,
        }
    }
}

/// A call of a tool.
#[derive(Debug, Clone, PartialEq)]
pub struct CallToolRequest {
    pub name: String,
    /// The arguments, as the members of an object.
    pub arguments: Option<Vec<(String, Json)>>,
    pub meta: Option<Json>,
}

/// The outcome of a tool call. Failures of the tool itself are reported here
/// with `is_error` set, not as protocol errors.
#[derive(Debug, Clone, PartialEq)]
pub struct CallToolResponse {
    pub content: Vec<ToolResponseContent>,
    pub is_error: Option<bool>,
    pub meta: Option<Json>,
}

/// One piece of a tool's output.
#[derive(Debug, Clone, PartialEq)]
pub enum ToolResponseContent {
    Text(TextContent),
    Image(ImageContent),
    Audio(AudioContent),
    Resource(EmbeddedResource),
}

#[derive(Debug, Clone, PartialEq)]
pub struct TextContent {
    /// Always `"text"`.
    pub content_type: String,
    pub text: String,
    pub annotations: Option<Annotations>,
}

#[derive(Debug, Clone, PartialEq)]
pub struct ImageContent {
    /// Always `"image"`.
    pub content_type: String,
    /// Base64-encoded image data.
    pub data: String,
    pub mime_type: String,
    pub annotations: Option<Annotations>,
}

#[derive(Debug, Clone, PartialEq)]
pub struct AudioContent {
    /// Always `"audio"`.
    pub content_type: String,
    /// Base64-encoded audio data.
    pub data: String,
    pub mime_type: String,
    pub annotations: Option<Annotations>,
}

#[derive(Debug, Clone, PartialEq)]
pub struct EmbeddedResource {
    /// Always `"resource"`.
    pub content_type: String,
    pub resource: ResourceContents,
    pub annotations: Option<Annotations>,
}

/// Hints for the client on how to use a piece of content.
#[derive(Debug, Clone, PartialEq)]
pub struct Annotations {
    pub audience: Option<Vec<Role>>,
    /// Importance from 0 (optional) to 1 (required).
    pub priority: Option<JsonNumber>,
}

#[derive(Debug, Clone, PartialEq)]
pub struct ResourceContents {
    pub uri: String,
    pub mime_type: Option<String>,
    pub text: Option<String>,
    /// Base64-encoded binary data.
    pub blob: Option<String>,
}

#[derive(Debug, Clone, PartialEq)]
pub struct ReadResourceRequest {
    pub uri: String,
}

#[derive(Debug, Clone, PartialEq)]
pub struct ReadResourceResponse {
    pub contents: Vec<ResourceContents>,
    pub meta: Option<Json>,
}

/// Parameters of a paginated listing.
#[derive(Debug, Clone, PartialEq)]
pub struct ListRequest {
    pub cursor: Option<String>,
    pub meta: Option<Json>,
}

#[derive(Debug, Clone, PartialEq)]
pub struct ToolsListResponse {
    pub tools: Vec<Tool>,
    pub next_cursor: Option<String>,
    pub meta: Option<Json>,
}

#[derive(Debug, Clone, PartialEq)]
pub struct PromptsListResponse {
    pub prompts: Vec<Prompt>,
    pub next_cursor: Option<String>,
    pub meta: Option<Vec<(String, Json)>>,
}

#[derive(Debug, Clone, PartialEq)]
pub struct Prompt {
    pub name: String,
    pub description: Option<String>,
    pub arguments: Option<Vec<PromptArgument>>,
}

#[derive(Debug, Clone, PartialEq)]
pub struct PromptArgument {
    pub name: String,
    pub description: Option<String>,
    pub required: Option<bool>,
}

#[derive(Debug, Clone, PartialEq)]
pub struct ResourcesListResponse {
    pub resources: Vec<Resource>,
    pub next_cursor: Option<String>,
    pub meta: Option<Vec<(String, Json)>>,
}

#[derive(Debug, Clone, PartialEq)]
pub struct Resource {
    pub uri: String,
    pub name: String,
    pub description: Option<String>,
    pub mime_type: Option<String>,
    pub annotations: Option<Annotations>,
    /// Size of the raw content in bytes.
    pub size: Option<usize>,
}

/// Sender or recipient of a message.
#[derive(Debug, Clone, Copy, PartialEq, Eq, Structural)]
pub enum Role {
    User,
    Assistant,
}

#[derive(Debug, Clone, PartialEq)]
pub struct PromptMessage {
    pub role: Role,
    pub content: PromptMessageContent,
}

#[derive(Debug, Clone, PartialEq)]
pub enum PromptMessageContent {
    Text(TextContent),
    Image(ImageContent),
    Audio(AudioContent),
    Resource(EmbeddedResource),
}

/// What a server prefers when the client picks a model; weights from 0 to 1.
#[derive(Debug, Clone, PartialEq)]
pub struct ModelPreferences {
    pub hints: Option<Vec<ModelHint>>,
    pub cost_priority: Option<JsonNumber>,
    pub speed_priority: Option<JsonNumber>,
    pub intelligence_priority: Option<JsonNumber>,
}

#[derive(Debug, Clone, PartialEq)]
pub struct ModelHint {
    pub name: Option<String>,
}

/// The `type` of text content.
pub fn default_text_type() -> (r: String)
    ensures
        r@ == "text"@,
{
    owned("text")
}

/// The `type` of image content.
pub fn default_image_type() -> (r: String)
    ensures
        r@ == "image"@,
{
    owned("image")
}

/// The `type` of audio content.
pub fn default_audio_type() -> (r: String)
    ensures
        r@ == "audio"@,
{
    owned("audio")
}

/// The `type` of an embedded resource.
pub fn default_resource_type() -> (r: String)
    ensures
        r@ == "resource"@,
{
    owned("resource")
}

/// Text content with no annotations.
pub fn tool_text_content(text: String) -> (r: ToolResponseContent)
    ensures
        r matches ToolResponseContent::Text(t) && t.content_type@ == "text"@ && t.text == text && t.annotations is None,
{
    ToolResponseContent::Text(TextContent { content_type: default_text_type(), text, annotations: None })
}

/// A successful tool response made of one text.
pub fn tool_text_response(text: String) -> (r: CallToolResponse)
    ensures
        r.content@.len() == 1,
        r.content@[0] matches ToolResponseContent::Text(t) && t.content_type@ == "text"@ && t.text == text
            && t.annotations is None,
        r.is_error is None,
        r.meta is None,
{
    CallToolResponse { content: vec![tool_text_content(text)], is_error: None, meta: None }
}

/// A failed tool response whose text describes the failure.
pub fn tool_error_response(message: String) -> (r: CallToolResponse)
    ensures
        r.content@.len() == 1,
        r.content@[0] matches ToolResponseContent::Text(t) && t.content_type@ == "text"@ && t.text == message
            && t.annotations is None,
        r.is_error == Some(true),
        r.meta is None,
{
    CallToolResponse { content: vec![tool_text_content(message)], is_error: Some(true), meta: None }
}

/// Image content with no annotations.
pub fn tool_image_content(data: String, mime_type: String) -> (r: ToolResponseContent)
    ensures
        r matches ToolResponseContent::Image(c) && c.content_type@ == "image"@ && c.data == data
            && c.mime_type == mime_type && c.annotations is None,
{
    ToolResponseContent::Image(ImageContent { content_type: default_image_type(), data, mime_type, annotations: None })
}

/// Audio content with no annotations.
pub fn tool_audio_content(data: String, mime_type: String) -> (r: ToolResponseContent)
    ensures
        r matches ToolResponseContent::Audio(c) && c.content_type@ == "audio"@ && c.data == data
            && c.mime_type == mime_type && c.annotations is None,
{
    ToolResponseContent::Audio(AudioContent { content_type: default_audio_type(), data, mime_type, annotations: None })
}

/// An embedded resource that names `uri`, with an optional MIME type.
pub fn tool_resource_content(uri: String, mime_type: Option<String>) -> (r: ToolResponseContent)
    ensures
        r matches ToolResponseContent::Resource(c) && c.content_type@ == "resource"@ && c.resource.uri == uri
            && c.resource.mime_type == mime_type && c.resource.text is None && c.resource.blob is None
            && c.annotations is None,
{
    ToolResponseContent::Resource(
        EmbeddedResource {
            content_type: default_resource_type(),
            resource: ResourceContents { uri, mime_type, text: None, blob: None },
            annotations: None,
        },
    )
}

} // verus!
