//! The server side of a session: what it advertises, the per-connection
//! state, and the standard methods `initialize`, `notifications/initialized`,
//! `tools/list` and `tools/call`.
use vstd::prelude::*;
use crate::json::{Json, owned};
use crate::tools::{Tools, same_tool};
use crate::transport::opt_model;
use crate::types::{
    CallToolRequest, ClientCapabilities, Implementation, InitializeRequest, InitializeResponse, ListRequest,
    PromptCapabilities, ProtocolVersion, ResourceCapabilities, ServerCapabilities, Tool, ToolCapabilities,
    ToolsListResponse, LATEST_PROTOCOL_VERSION, version_text,
};

verus! {

/// What the server knows of the client on one connection.
pub struct ClientConnection {
    pub client_capabilities: Option<ClientCapabilities>,
    pub client_info: Option<Implementation>,
    /// Set once the client has sent `notifications/initialized`.
    pub initialized: bool,
}

impl ClientConnection {
    /// The state of a connection that was just accepted.
    pub fn new() -> (r: ClientConnection)
        ensures
            r.client_capabilities is None,
            r.client_info is None,
            !r.initialized,
    {
        ClientConnection { client_capabilities: None, client_info: None, initialized: false }
    }
}

/// Provides the entry points that create and start servers.
pub struct Server;

impl Server {
    /// A builder for a server with the given identity and protocol version.
    pub fn builder<H>(name: String, version: String, protocol_version: ProtocolVersion) -> (r: ServerProtocolBuilder<H>)
        ensures
            r.server_info.name == name,
            r.server_info.version == version,
            r.protocol_version == protocol_version,
            r.instructions is None,
            r.tools.wf(),
            forall|k: Seq<char>| r.tools.tool_named(k) is None,
    {
        ServerProtocolBuilder::new(name, version).set_protocol_version(protocol_version)
    }
}

impl ServerCapabilities {
    pub fn duplicate(&self) -> (r: ServerCapabilities)
        ensures
            r.tools == self.tools,
            opt_model(r.experimental) == opt_model(self.experimental),
            opt_model(r.logging) == opt_model(self.logging),
            opt_model(r.completions) == opt_model(self.completions),
            r.prompts == self.prompts,
            r.resources == self.resources,
    {
        ServerCapabilities {
            tools: match &self.tools {
                Some(t) => Some(ToolCapabilities { list_changed: t.list_changed }),
                None => None,
            },
            experimental: copy_optional(&self.experimental),
            logging: copy_optional(&self.logging),
            completions: copy_optional(&self.completions),
            prompts: match &self.prompts {
                Some(p) => Some(PromptCapabilities { list_changed: p.list_changed }),
                None => None,
            },
            resources: match &self.resources {
                Some(p) => Some(ResourceCapabilities { subscribe: p.subscribe, list_changed: p.list_changed }),
                None => None,
            },
        }
    }
}

fn copy_optional(v: &Option<Json>) -> (r: Option<Json>)
    ensures
        opt_model(r) == opt_model(*v),
{
    match v {
        Some(j) => Some(j.duplicate()),
        None => None,
    }
}

fn copy_string(v: &Option<String>) -> (r: Option<String>)
    ensures
        r == *v,
{
    match v {
        Some(s) => Some(s.clone()),
        None => None,
    }
}

/// Configuration of a server: identity, version, capabilities, instructions
/// and tools, plus the state of the client connection.
pub struct ServerProtocolBuilder<H> {
    pub protocol_version: ProtocolVersion,
    pub server_info: Implementation,
    pub capabilities: ServerCapabilities,
    pub instructions: Option<String>,
    pub tools: Tools<H>,
    pub client_connection: ClientConnection,
}

impl<H> ServerProtocolBuilder<H> {
    /// A server with no tool and no capability, speaking the latest version.
    pub fn new(name: String, version: String) -> (r: ServerProtocolBuilder<H>)
        ensures
            r.server_info.name == name,
            r.server_info.version == version,
            r.protocol_version == LATEST_PROTOCOL_VERSION,
            r.instructions is None,
            r.tools.wf(),
            forall|k: Seq<char>| r.tools.tool_named(k) is None,
            !r.client_connection.initialized,
    {
        ServerProtocolBuilder {
            protocol_version: LATEST_PROTOCOL_VERSION,
            server_info: Implementation { name, version },
            capabilities: ServerCapabilities::empty(),
            instructions: None,
            tools: Tools::new(),
            client_connection: ClientConnection::new(),
        }
    }

    pub fn set_protocol_version(self, protocol_version: ProtocolVersion) -> (r: ServerProtocolBuilder<H>)
        ensures
            r == (ServerProtocolBuilder { protocol_version, ..self }),
    {
        ServerProtocolBuilder { protocol_version, ..self }
    }

    pub fn set_capabilities(self, capabilities: ServerCapabilities) -> (r: ServerProtocolBuilder<H>)
        ensures
            r == (ServerProtocolBuilder { capabilities, ..self }),
    {
        ServerProtocolBuilder { capabilities, ..self }
    }

    pub fn set_instructions(self, instructions: String) -> (r: ServerProtocolBuilder<H>)
        ensures
            r == (ServerProtocolBuilder { instructions: Some(instructions), ..self }),
    {
        ServerProtocolBuilder { instructions: Some(instructions), ..self }
    }

    pub fn remove_instructions(self) -> (r: ServerProtocolBuilder<H>)
        ensures
            r == (ServerProtocolBuilder { instructions: None, ..self }),
    {
        ServerProtocolBuilder { instructions: None, ..self }
    }

    /// Adds a tool, replacing any tool of the same name.
    pub fn register_tool(self, tool: Tool, f: H) -> (r: ServerProtocolBuilder<H>)
        requires
            self.tools.wf(),
        ensures
            r.tools.wf(),
            r.tools.tool_named(tool.name@) matches Some(h) && h.tool == tool && h.f == f,
            forall|k: Seq<char>| k != tool.name@ ==> r.tools.tool_named(k) == self.tools.tool_named(k),
            r.protocol_version == self.protocol_version,
            r.server_info == self.server_info,
            r.capabilities == self.capabilities,
            r.instructions == self.instructions,
            r.client_connection == self.client_connection,
    {
        let mut b = self;
        b.tools.register(tool, f);
        b
    }

    /// The capabilities the client announced, once it has sent `initialize`.
    pub fn get_client_capabilities(&self) -> (r: Option<&ClientCapabilities>)
        ensures
            r == match &self.client_connection.client_capabilities {
                Some(c) => Some(c),
                None => None::<&ClientCapabilities>,
            },
    {
        match &self.client_connection.client_capabilities {
            Some(c) => Some(c),
            None => None,
        }
    }

    /// The client's identity, once it has sent `initialize`.
    pub fn get_client_info(&self) -> (r: Option<&Implementation>)
        ensures
            r == match &self.client_connection.client_info {
                Some(c) => Some(c),
                None => None::<&Implementation>,
            },
    {
        match &self.client_connection.client_info {
            Some(c) => Some(c),
            None => None,
        }
    }

    /// Whether the client has sent `notifications/initialized`.
    pub fn is_initialized(&self) -> (r: bool)
        ensures
            r == self.client_connection.initialized,
    {
        self.client_connection.initialized
    }

    /// `initialize`: records the client's capabilities and identity and
    /// answers with the server's version, capabilities, identity and
    /// instructions. It is served whatever the state of the connection.
    pub fn handle_init(&mut self, req: InitializeRequest) -> (r: InitializeResponse)
        ensures
            r.protocol_version@ == version_text(old(self).protocol_version),
            r.server_info == old(self).server_info,
            r.instructions == old(self).instructions,
            r.capabilities.tools == old(self).capabilities.tools,
            r.capabilities.prompts == old(self).capabilities.prompts,
            r.capabilities.resources == old(self).capabilities.resources,
            opt_model(r.capabilities.experimental) == opt_model(old(self).capabilities.experimental),
            opt_model(r.capabilities.logging) == opt_model(old(self).capabilities.logging),
            opt_model(r.capabilities.completions) == opt_model(old(self).capabilities.completions),
            final(self).client_connection.client_capabilities == Some(req.capabilities),
            final(self).client_connection.client_info == Some(req.client_info),
            final(self).client_connection.initialized == old(self).client_connection.initialized,
            final(self).protocol_version == old(self).protocol_version,
            final(self).server_info == old(self).server_info,
            final(self).capabilities == old(self).capabilities,
            final(self).instructions == old(self).instructions,
            final(self).tools == old(self).tools,
    {
        self.client_connection.client_capabilities = Some(req.capabilities);
        self.client_connection.client_info = Some(req.client_info);
        InitializeResponse {
            protocol_version: owned(self.protocol_version.as_str()),
            capabilities: self.capabilities.duplicate(),
            server_info: Implementation { name: self.server_info.name.clone(), version: self.server_info.version.clone() },
            instructions: copy_string(&self.instructions),
        }
    }

    /// `notifications/initialized`: from now on the gated methods are served.
    pub fn handle_initialized(&mut self)
        ensures
            final(self).client_connection.initialized,
            final(self).client_connection.client_capabilities == old(self).client_connection.client_capabilities,
            final(self).client_connection.client_info == old(self).client_connection.client_info,
            final(self).protocol_version == old(self).protocol_version,
            final(self).server_info == old(self).server_info,
            final(self).capabilities == old(self).capabilities,
            final(self).instructions == old(self).instructions,
            final(self).tools == old(self).tools,
    {
        self.client_connection.initialized = true;
    }

    /// `tools/list`: every registered tool, once the client is initialized;
    /// before that, `"Client not initialized"`.
    pub fn handle_tools_list(&self, _req: &ListRequest) -> (r: Result<ToolsListResponse, String>)
        ensures
            match r {
                Ok(resp) => {
                    &&& gate_error(self.client_connection) is None
                    &&& resp.tools@.len() == self.tools.handlers().table().len()
                    &&& forall|i: int|
                        0 <= i < resp.tools@.len() ==> same_tool(
                            #[trigger] resp.tools@[i],
                            self.tools.handlers().table()[i].1.tool,
                        )
                    &&& resp.next_cursor is None
                    &&& resp.meta is None
                },
                Err(m) => gate_error(self.client_connection) == Some(m@),
            },
    {
        if !self.client_connection.initialized {
            return Err(owned("Client not initialized"));
        }
        Ok(ToolsListResponse { tools: self.tools.list_tools(), next_cursor: None, meta: None })
    }

    /// `tools/call`: the handler of the named tool, once the client is
    /// initialized; `"Client not initialized"` before that, and
    /// `"Tool not found: <name>"` for a name that no tool has.
    pub fn handle_tools_call(&self, req: &CallToolRequest) -> (r: Result<&H, String>)
        ensures
            match r {
                Ok(f) => gate_error(self.client_connection) is None && (self.tools.tool_named(req.name@) matches Some(
                    h,
                ) && h.f == *f),
                Err(m) => if gate_error(self.client_connection) is Some {
                    m@ == gate_error(self.client_connection)->0
                } else {
                    self.tools.tool_named(req.name@) is None && m@ == "Tool not found: "@ + req.name@
                },
            },
    {
        if !self.client_connection.initialized {
            return Err(owned("Client not initialized"));
        }
        self.tools.call_tool(req)
    }
}

/// Why a gated method (`tools/list`, `tools/call`) is refused on a
/// connection, if it is.
pub open spec fn gate_error(conn: ClientConnection) -> Option<Seq<char>> {
    if conn.initialized {
        None
    } else {
        Some("Client not initialized"@)
    }
}

/// Method gating: on a connection that was just accepted, and after
/// `initialize` alone, the gated methods are refused with "Client not
/// initialized"; once `notifications/initialized` has been handled they are
/// not refused for that reason.
pub proof fn lemma_method_gating(
    fresh: ClientConnection,
    after_initialize: ClientConnection,
    after_initialized: ClientConnection,
)
    requires
        !fresh.initialized,
        after_initialize.initialized == fresh.initialized,
        after_initialized.initialized,
    ensures
        gate_error(fresh) == Some("Client not initialized"@),
        gate_error(after_initialize) == Some("Client not initialized"@),
        gate_error(after_initialized) is None,
{
}

} // verus!
