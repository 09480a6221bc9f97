//! The MCP server state: the protocol versions it speaks, its
//! initialization handshake, and the dispatch of tool calls to the registry.

use vstd::prelude::*;
use crate::arguments::ToolArgs;
use crate::config::WebConfig;
use crate::error::{McpError, McpErrorKind, WebMcpError};
use crate::protocol::ToolDef;
use crate::service::SERVER_NAME;
use crate::tools::{registry_call_outcome, registry_plan_outcome, RegistryPlan, ToolRegistry};
use crate::text::str_equals;

verus! {

/// Declares `serde_json::Value`, carried opaquely.
#[verifier::external_type_specification]
#[verifier::external_body]
pub struct ExJsonValue(serde_json::Value);

/// The version this server reports.
pub const SERVER_VERSION: &'static str = "0.1.0";

/// The MCP protocol versions the server accepts.
pub open spec fn is_supported_protocol_version(v: Seq<char>) -> bool {
    v == "2024-11-05"@ || v == "2025-06-18"@ || v == "2025-11-25"@
}

/// The result of the `initialize` handshake. Tools are advertised through
/// `tools/list`, so there is no tool list here.
#[derive(Debug)]
pub struct InitializeResult {
    /// The protocol version, echoed.
    pub protocol_version: String,
    pub server_name: String,
    pub server_version: String,
    /// Whether the server announces changes of its tool list (it does not).
    pub tools_list_changed: bool,
}

/// MCP server state.
#[derive(Debug)]
pub struct McpServer {
    /// Tool registry.
    tool_registry: ToolRegistry,
    /// Initialized flag.
    initialized: bool,
}

impl McpServer {
    /// The `initialized` notification has been received (and no shutdown
    /// since).
    pub closed spec fn initialized(&self) -> bool {
        self.initialized
    }

    /// The registry tool calls are dispatched to.
    pub closed spec fn registry(&self) -> ToolRegistry {
        self.tool_registry
    }

    /// Create a new MCP server using default configuration.
    pub fn new() -> (s: Self)
        ensures
            !s.initialized(),
            s.registry().configuration().is_default(),
            !s.registry().allows_private(),
    {
        Self::with_config(WebConfig::default())
    }

    /// Create a new MCP server with a specific configuration.
    pub fn with_config(config: WebConfig) -> (s: Self)
        ensures
            !s.initialized(),
            s.registry().configuration() == config,
            s.registry().allows_private() == config.allow_private_hosts,
    {
        McpServer { tool_registry: ToolRegistry::with_config(config), initialized: false }
    }

    /// Handle the `initialize` request: accept one of the supported protocol
    /// versions, echo it, and describe the server.
    pub fn handle_initialize(&self, protocol_version: &str, _client_capabilities: &serde_json::Value) -> (r: Result<
        InitializeResult,
        WebMcpError,
    >)
        ensures
            is_supported_protocol_version(protocol_version@) ==> r is Ok && r->Ok_0.protocol_version@ == protocol_version@
                && r->Ok_0.server_name@ == SERVER_NAME@ && r->Ok_0.server_version@ == SERVER_VERSION@
                && !r->Ok_0.tools_list_changed,
            !is_supported_protocol_version(protocol_version@) ==> r is Err && (r->Err_0 matches WebMcpError::Mcp(e)
                && e@ == (McpErrorKind::InvalidProtocolVersion, protocol_version@)),
    {
        if !str_equals(protocol_version, "2024-11-05") && !str_equals(protocol_version, "2025-06-18")
            && !str_equals(protocol_version, "2025-11-25") {
            return Err(WebMcpError::Mcp(McpError::InvalidProtocolVersion(String::from_str(protocol_version))));
        }
        Ok(InitializeResult {
            protocol_version: String::from_str(protocol_version),
            server_name: String::from_str(SERVER_NAME),
            server_version: String::from_str(SERVER_VERSION),
            tools_list_changed: false,
        })
    }

    /// Handle the `initialized` notification.
    pub fn handle_initialized(&mut self) -> (r: Result<(), WebMcpError>)
        ensures
            r is Ok,
            final(self).initialized(),
            final(self).registry() == old(self).registry(),
    {
        self.initialized = true;
        Ok(())
    }

    /// Handle a tool call: what it asks of the search backend or the browser.
    pub fn handle_tool_call(&self, tool_name: &str, arguments: &ToolArgs) -> (r: Result<RegistryPlan, WebMcpError>)
        ensures
            registry_plan_outcome(r) == registry_call_outcome(self.registry().allows_private(), tool_name@, arguments),
    {
        self.tool_registry.execute_tool(tool_name, arguments)
    }

    /// Handle the `shutdown` request.
    pub fn handle_shutdown(&mut self) -> (r: Result<(), WebMcpError>)
        ensures
            r is Ok,
            !final(self).initialized(),
            final(self).registry() == old(self).registry(),
    {
        self.initialized = false;
        Ok(())
    }

    /// List tools in MCP schema format.
    pub fn list_tools(&self) -> (t: Vec<ToolDef>)
        ensures
            t@.len() == 3,
            crate::tools::is_search_tool(t@[0]),
            crate::tools::is_registry_read_tool(t@[1]),
            crate::service::is_screenshot_tool(t@[2]),
    {
        self.tool_registry.list_tools()
    }

    /// Check if server is initialized.
    pub fn is_initialized(&self) -> (b: bool)
        ensures
            b == self.initialized(),
    {
        self.initialized
    }
}

impl Default for McpServer {
    fn default() -> (s: Self)
        ensures
            !s.initialized(),
            s.registry().configuration().is_default(),
    {
        Self::new()
    }
}

} // verus!
