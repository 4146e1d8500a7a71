//! The state of the MCP client around its transport: which server it is
//! connected to, its timeout, and the tools it last listed.

use vstd::prelude::*;
use crate::domain::entities::{clone_tools, same_tool, ListToolsResult, ServerConfig, Tool};
use crate::domain::errors::{call_failed_message, server_details, details_model, ErrorCode, MCPError};
use crate::text::{append_str, decimal, opt_string_view, u64_to_decimal};

verus! {

/// The state of the MCP client apart from its open transport.
#[derive(Debug)]
pub struct ClientState {
    server_name: Option<String>,
    connected: bool,
    tool_cache: Option<Vec<Tool>>,
    timeout_ms: u64,
}

impl ClientState {
    /// A client that is not connected, with a timeout of 30000 ms.
    pub fn new() -> (r: Self)
        ensures
            r.server_name() is None,
            !r.connected(),
            r.tool_cache() is None,
            r.timeout_ms() == 30000,
    {
        ClientState { server_name: None, connected: false, tool_cache: None, timeout_ms: 30000 }
    }

    /// The server the client is connecting or connected to.
    pub closed spec fn server_name(&self) -> Option<String> {
        self.server_name
    }

    /// Whether a transport is open.
    pub closed spec fn connected(&self) -> bool {
        self.connected
    }

    /// The tools last listed.
    pub closed spec fn tool_cache(&self) -> Option<Vec<Tool>> {
        self.tool_cache
    }

    /// The timeout of requests, in milliseconds.
    pub closed spec fn timeout_ms(&self) -> u64 {
        self.timeout_ms
    }

    /// Whether a transport must be closed before connecting anew.
    pub fn needs_disconnect(&self) -> (r: bool)
        ensures
            r == self.connected(),
    {
        self.connected
    }

    /// The transport was closed: the client forgets its server and tools.
    pub fn disconnected(&mut self)
        ensures
            final(self).server_name() is None,
            !final(self).connected(),
            final(self).tool_cache() is None,
            final(self).timeout_ms() == old(self).timeout_ms(),
    {
        self.connected = false;
        self.server_name = None;
        self.tool_cache = None;
    }

    /// Connecting to `server_name` starts: the timeout becomes the server's,
    /// and the server is remembered.
    pub fn begin_connect(&mut self, server_name: &str, config: &ServerConfig)
        ensures
            final(self).server_name() matches Some(n) && n@ == server_name@,
            final(self).timeout_ms() == match config.timeout { Some(t) => t, None => 30000 },
            final(self).connected() == old(self).connected(),
            final(self).tool_cache() == old(self).tool_cache(),
    {
        self.timeout_ms = config.get_timeout_ms();
        self.server_name = Some(server_name.to_owned());
    }

    /// The transport is open.
    pub fn connected_now(&mut self)
        ensures
            final(self).connected(),
            final(self).server_name() == old(self).server_name(),
            final(self).tool_cache() == old(self).tool_cache(),
            final(self).timeout_ms() == old(self).timeout_ms(),
    {
        self.connected = true;
    }

    /// Whether the client is connected.
    pub fn is_connected(&self) -> (r: bool)
        ensures
            r == self.connected(),
    {
        self.connected
    }

    /// The timeout of requests, in milliseconds.
    pub fn get_timeout_ms(&self) -> (r: u64)
        ensures
            r == self.timeout_ms(),
    {
        self.timeout_ms
    }

    /// The current server.
    pub fn current_server(&self) -> (r: Option<&str>)
        ensures
            match r {
                Some(s) => self.server_name() matches Some(n) && s@ == n@,
                None => self.server_name() is None,
            },
    {
        match &self.server_name {
            Some(s) => Some(s.as_str()),
            None => None,
        }
    }

    /// The tools were listed: they are remembered.
    pub fn tools_listed(&mut self, result: &ListToolsResult)
        ensures
            final(self).tool_cache() matches Some(t) && t@.len() == result.tools@.len()
                && forall|i: int| 0 <= i < t@.len() ==> same_tool(#[trigger] t@[i], result.tools@[i]),
            final(self).server_name() == old(self).server_name(),
            final(self).connected() == old(self).connected(),
            final(self).timeout_ms() == old(self).timeout_ms(),
    {
        self.tool_cache = Some(clone_tools(&result.tools));
    }

    /// The error of a request made without an open transport.
    pub fn not_connected() -> (r: MCPError)
        ensures
            r.code == ErrorCode::TransportError && r.message@ == "Not connected to server"@ && r.details is None,
    {
        MCPError::transport_error("Not connected to server")
    }

    /// The error of a connection that did not open in time.
    pub fn connect_timeout(&self, server_name: &str) -> (r: MCPError)
        ensures
            r.code == ErrorCode::ConnectFailed,
            r.message@ == "Connection timeout after "@ + decimal(self.timeout_ms() as nat) + "ms"@,
            details_model(r.details) == Some(server_details(server_name@)),
    {
        let mut text = "Connection timeout after ".to_owned();
        append_str(&mut text, u64_to_decimal(self.timeout_ms).as_str());
        append_str(&mut text, "ms");
        MCPError::connect_failed(server_name, text.as_str())
    }

    /// The error of a tools listing that did not answer in time.
    pub fn list_tools_timeout() -> (r: MCPError)
        ensures
            r.code == ErrorCode::TransportError && r.message@ == "List tools timeout"@ && r.details is None,
    {
        MCPError::transport_error("List tools timeout")
    }

    /// The name of the current server for error messages, empty when none.
    pub fn server_label(&self) -> (r: String)
        ensures
            r@ == match self.server_name() { Some(n) => n@, None => Seq::empty() },
    {
        match &self.server_name {
            Some(s) => s.clone(),
            None => String::new(),
        }
    }

    /// The error of a tool call that failed with `err` or did not answer in
    /// time (`err` is then "Request timeout").
    pub fn call_failure(&self, tool_name: &str, err: &str) -> (r: MCPError)
        ensures
            r.code == ErrorCode::CallFailed,
            r.message@ == call_failed_message(tool_name@, match self.server_name() { Some(n) => n@, None => Seq::empty() }, err@),
    {
        let server = self.server_label();
        MCPError::call_failed(tool_name, server.as_str(), err)
    }
}

} // verus!
