//! Domain entities: server configuration, tools and the messages of the MCP
//! protocol.

use vstd::prelude::*;
use crate::domain::value_objects::{clone_opt_auth, infer_transport, AuthConfig, TransportType};
use crate::json::{Json, JsonValue};
use crate::strmap::StrMap;
use crate::text::{
    append_str, clone_opt_string, clone_strings, join, join_strings, opt_string_view, views,
};

verus! {

/// The texts of an optional map of texts.
pub open spec fn opt_map_view(m: Option<StrMap<String>>) -> Option<Map<Seq<char>, Seq<char>>> {
    match m {
        Some(m) => Some(m.model().map_values(|v: String| v@)),
        None => None,
    }
}

/// The texts of optional arguments.
pub open spec fn opt_args_view(a: Option<Vec<String>>) -> Option<Seq<Seq<char>>> {
    match a {
        Some(a) => Some(views(a@)),
        None => None,
    }
}

/// What a server configuration says, with texts as character sequences.
pub struct ServerConfigView {
    pub transport: Option<Seq<char>>,
    pub type_: Option<Seq<char>>,
    pub url: Option<Seq<char>>,
    pub command: Option<Seq<char>>,
    pub args: Option<Seq<Seq<char>>>,
    pub env: Option<Map<Seq<char>, Seq<char>>>,
    pub timeout: Option<u64>,
    pub headers: Option<Map<Seq<char>, Seq<char>>>,
    pub auth: Option<AuthConfig>,
}

/// Configuration of one MCP server.
#[derive(Debug)]
pub struct ServerConfig {
    pub transport: Option<String>,
    pub type_: Option<String>,
    pub url: Option<String>,
    pub command: Option<String>,
    pub args: Option<Vec<String>>,
    pub env: Option<StrMap<String>>,
    pub timeout: Option<u64>,
    pub headers: Option<StrMap<String>>,
    pub auth: Option<AuthConfig>,
}

impl View for ServerConfig {
    type V = ServerConfigView;

    open spec fn view(&self) -> ServerConfigView {
        ServerConfigView {
            transport: opt_string_view(self.transport),
            type_: opt_string_view(self.type_),
            url: opt_string_view(self.url),
            command: opt_string_view(self.command),
            args: opt_args_view(self.args),
            env: opt_map_view(self.env),
            timeout: self.timeout,
            headers: opt_map_view(self.headers),
            auth: self.auth,
        }
    }
}

/// The transport name a configuration gives: `transport`, else `type`.
pub open spec fn explicit_transport(c: ServerConfigView) -> Option<Seq<char>> {
    if c.transport is Some { c.transport } else { c.type_ }
}

/// The transport of a configuration.
pub open spec fn config_transport(c: ServerConfigView) -> TransportType {
    infer_transport(explicit_transport(c), c.url, c.command)
}

/// The command line shown for a configuration: the command, followed by a
/// space and the arguments joined by spaces when there are arguments.
pub open spec fn command_string(c: ServerConfigView) -> Option<Seq<char>> {
    match c.command {
        Some(cmd) => match c.args {
            Some(args) => Some(cmd + " "@ + join(args, " "@)),
            None => Some(cmd),
        },
        None => None,
    }
}

/// A copy of an optional map of texts.
fn copy_opt_map(m: &Option<StrMap<String>>) -> (r: Option<StrMap<String>>)
    ensures
        opt_map_view(r) == opt_map_view(*m),
{
    match m {
        Some(m) => Some(m.copy()),
        None => None,
    }
}

/// A copy of optional arguments.
fn copy_opt_args(a: &Option<Vec<String>>) -> (r: Option<Vec<String>>)
    ensures
        opt_args_view(r) == opt_args_view(*a),
{
    match a {
        Some(a) => Some(clone_strings(a)),
        None => None,
    }
}

impl Clone for ServerConfig {
    fn clone(&self) -> (r: Self)
        ensures
            r@ == self@,
    {
        ServerConfig {
            transport: clone_opt_string(&self.transport),
            type_: clone_opt_string(&self.type_),
            url: clone_opt_string(&self.url),
            command: clone_opt_string(&self.command),
            args: copy_opt_args(&self.args),
            env: copy_opt_map(&self.env),
            timeout: self.timeout,
            headers: copy_opt_map(&self.headers),
            auth: clone_opt_auth(&self.auth),
        }
    }
}

impl ServerConfig {
    /// A configuration that sets nothing.
    pub fn new() -> (r: Self)
        ensures
            r.transport is None && r.type_ is None && r.url is None && r.command is None
                && r.args is None && r.env is None && r.timeout is None && r.headers is None
                && r.auth is None,
    {
        Self::default()
    }

    /// The same configuration with the given URL.
    pub fn with_url(self, url: &str) -> (r: Self)
        ensures
            r == (ServerConfig { url: r.url, ..self }),
            r.url matches Some(u) && u@ == url@,
    {
        let mut s = self;
        s.url = Some(url.to_owned());
        s
    }

    /// The same configuration with the given command.
    pub fn with_command(self, command: &str) -> (r: Self)
        ensures
            r == (ServerConfig { command: r.command, ..self }),
            r.command matches Some(c) && c@ == command@,
    {
        let mut s = self;
        s.command = Some(command.to_owned());
        s
    }

    /// The same configuration with the given arguments.
    pub fn with_args(self, args: Vec<String>) -> (r: Self)
        ensures
            r == (ServerConfig { args: Some(args), ..self }),
    {
        let mut s = self;
        s.args = Some(args);
        s
    }

    /// The same configuration with the given transport name.
    pub fn with_transport(self, transport: &str) -> (r: Self)
        ensures
            r == (ServerConfig { transport: r.transport, ..self }),
            r.transport matches Some(t) && t@ == transport@,
    {
        let mut s = self;
        s.transport = Some(transport.to_owned());
        s
    }

    /// The same configuration with the given timeout in milliseconds.
    pub fn with_timeout(self, timeout: u64) -> (r: Self)
        ensures
            r == (ServerConfig { timeout: Some(timeout), ..self }),
    {
        let mut s = self;
        s.timeout = Some(timeout);
        s
    }

    /// The same configuration with the given headers.
    pub fn with_headers(self, headers: StrMap<String>) -> (r: Self)
        ensures
            r == (ServerConfig { headers: Some(headers), ..self }),
    {
        let mut s = self;
        s.headers = Some(headers);
        s
    }

    /// The same configuration with the given authentication.
    pub fn with_auth(self, auth: AuthConfig) -> (r: Self)
        ensures
            r == (ServerConfig { auth: Some(auth), ..self }),
    {
        let mut s = self;
        s.auth = Some(auth);
        s
    }

    /// The transport inferred from `transport` (else `type`), the URL and the
    /// command.
    pub fn get_transport_type(&self) -> (r: TransportType)
        ensures
            r == config_transport(self@),
    {
        let explicit: Option<&str> = match &self.transport {
            Some(t) => Some(t.as_str()),
            None => match &self.type_ {
                Some(t) => Some(t.as_str()),
                None => None,
            },
        };
        let url: Option<&str> = match &self.url {
            Some(u) => Some(u.as_str()),
            None => None,
        };
        let command: Option<&str> = match &self.command {
            Some(c) => Some(c.as_str()),
            None => None,
        };
        TransportType::infer(explicit, url, command)
    }

    /// The timeout in milliseconds; 30000 when none is set.
    pub fn get_timeout_ms(&self) -> (r: u64)
        ensures
            r == match self.timeout {
                Some(t) => t,
                None => 30000,
            },
    {
        match self.timeout {
            Some(t) => t,
            None => 30000,
        }
    }

    /// The command line for display: the command and its arguments separated
    /// by spaces; `None` without a command.
    pub fn build_command_string(&self) -> (r: Option<String>)
        ensures
            opt_string_view(r) == command_string(self@),
    {
        match &self.command {
            Some(cmd) => match &self.args {
                Some(args) => {
                    let mut s = cmd.clone();
                    append_str(&mut s, " ");
                    let joined = join_strings(args, " ");
                    append_str(&mut s, joined.as_str());
                    Some(s)
                },
                None => Some(cmd.clone()),
            },
            None => None,
        }
    }
}

impl Default for ServerConfig {
    fn default() -> (r: Self)
        ensures
            r.transport is None && r.type_ is None && r.url is None && r.command is None
                && r.args is None && r.env is None && r.timeout is None && r.headers is None
                && r.auth is None,
    {
        ServerConfig {
            transport: None,
            type_: None,
            url: None,
            command: None,
            args: None,
            env: None,
            timeout: None,
            headers: None,
            auth: None,
        }
    }
}

/// MCP configuration: the servers by name.
#[derive(Debug)]
pub struct MCPConfig {
    pub mcp_servers: StrMap<ServerConfig>,
}

impl MCPConfig {
    /// A configuration without servers.
    pub fn new() -> (r: Self)
        ensures
            r.mcp_servers.model() == Map::<Seq<char>, ServerConfig>::empty(),
    {
        MCPConfig { mcp_servers: StrMap::new() }
    }

    /// The same configuration with the server `name` set to `config`.
    pub fn with_server(self, name: &str, config: ServerConfig) -> (r: Self)
        ensures
            r.mcp_servers.model() == self.mcp_servers.model().insert(name@, config),
    {
        let mut s = self;
        s.mcp_servers.insert(name.to_owned(), config);
        s
    }

    /// The configuration of the server `name`, if it is configured.
    pub fn get_server(&self, name: &str) -> (r: Option<&ServerConfig>)
        ensures
            match r {
                Some(c) => self.mcp_servers.model().contains_key(name@) && *c == self.mcp_servers.model()[name@],
                None => !self.mcp_servers.model().contains_key(name@),
            },
    {
        self.mcp_servers.get(name)
    }

    /// Adds the servers of `other`; a server configured in both takes the
    /// configuration of `other`.
    pub fn merge(&mut self, other: MCPConfig)
        ensures
            final(self).mcp_servers.model() == old(self).mcp_servers.model().union_prefer_right(other.mcp_servers.model()),
    {
        self.mcp_servers.merge_from(other.mcp_servers);
    }
}

impl Default for MCPConfig {
    fn default() -> (r: Self)
        ensures
            r.mcp_servers.model() == Map::<Seq<char>, ServerConfig>::empty(),
    {
        Self::new()
    }
}

/// An MCP tool.
#[derive(Debug)]
pub struct Tool {
    pub name: String,
    pub description: Option<String>,
    pub input_schema: Option<JsonValue>,
}

/// Two tools with the same name, description and schema.
pub open spec fn same_tool(a: Tool, b: Tool) -> bool {
    &&& a.name == b.name
    &&& a.description == b.description
    &&& match (a.input_schema, b.input_schema) {
        (Some(x), Some(y)) => x.model() == y.model(),
        (None, None) => true,
        _ => false,
    }
}

impl Clone for Tool {
    fn clone(&self) -> (r: Self)
        ensures
            same_tool(r, *self),
    {
        Tool {
            name: self.name.clone(),
            description: clone_opt_string(&self.description),
            input_schema: match &self.input_schema {
                Some(v) => Some(crate::json::json_clone(v)),
                None => None,
            },
        }
    }
}

/// A copy of a list of tools.
pub fn clone_tools(v: &Vec<Tool>) -> (r: Vec<Tool>)
    ensures
        r@.len() == v@.len(),
        forall|i: int| 0 <= i < v@.len() ==> same_tool(#[trigger] r@[i], v@[i]),
{
    let mut r: Vec<Tool> = Vec::new();
    let mut i: usize = 0;
    while i < v.len()
        invariant
            i <= v@.len(),
            r@.len() == i,
            forall|j: int| 0 <= j < i ==> same_tool(#[trigger] r@[j], v@[j]),
        decreases v@.len() - i,
    {
        r.push(v[i].clone());
        i = i + 1;
    }
    r
}

impl Tool {
    /// A tool with a name and nothing else.
    pub fn new(name: &str) -> (r: Self)
        ensures
            r.name@ == name@,
            r.description is None,
            r.input_schema is None,
    {
        Tool { name: name.to_owned(), description: None, input_schema: None }
    }

    /// The same tool with the given description.
    pub fn with_description(self, desc: &str) -> (r: Self)
        ensures
            r == (Tool { description: r.description, ..self }),
            r.description matches Some(d) && d@ == desc@,
    {
        let mut s = self;
        s.description = Some(desc.to_owned());
        s
    }

    /// The same tool with the given input schema.
    pub fn with_input_schema(self, schema: JsonValue) -> (r: Self)
        ensures
            r == (Tool { input_schema: Some(schema), ..self }),
    {
        let mut s = self;
        s.input_schema = Some(schema);
        s
    }
}

/// One piece of content of a tool call result.
#[derive(Debug, Clone)]
pub enum ToolContent {
    Text { text: String },
    Image { data: String, mime_type: String },
    Resource { resource: EmbeddedResource },
}

/// A resource embedded in a tool call result.
#[derive(Debug, Clone)]
pub struct EmbeddedResource {
    pub uri: Option<String>,
    pub mime_type: Option<String>,
    pub text: Option<String>,
    pub blob: Option<String>,
}

/// The texts of the text contents, in order.
pub open spec fn texts_of(content: Seq<ToolContent>) -> Seq<Seq<char>>
    decreases content.len(),
{
    if content.len() == 0 {
        Seq::empty()
    } else {
        let rest = texts_of(content.drop_last());
        match content.last() {
            ToolContent::Text { text } => rest.push(text@),
            _ => rest,
        }
    }
}

/// The result of a tool call.
#[derive(Debug, Clone)]
pub struct CallToolResult {
    pub content: Vec<ToolContent>,
    pub is_error: Option<bool>,
}

impl CallToolResult {
    /// A result without content.
    pub fn new() -> (r: Self)
        ensures
            r.content@ == Seq::<ToolContent>::empty(),
            r.is_error is None,
    {
        CallToolResult { content: Vec::new(), is_error: None }
    }

    /// The same result with one more piece of content at the end.
    pub fn with_content(self, content: ToolContent) -> (r: Self)
        ensures
            r.content@ == self.content@.push(content),
            r.is_error == self.is_error,
    {
        let mut s = self;
        s.content.push(content);
        s
    }

    /// The texts of the text contents, in order.
    pub fn extract_text(&self) -> (r: Vec<String>)
        ensures
            views(r@) == texts_of(self.content@),
    {
        let mut r: Vec<String> = Vec::new();
        let mut i: usize = 0;
        while i < self.content.len()
            invariant
                i <= self.content@.len(),
                views(r@) == texts_of(self.content@.take(i as int)),
            decreases self.content@.len() - i,
        {
            let ghost r0 = r@;
            assert(self.content@.take(i + 1).drop_last() =~= self.content@.take(i as int));
            match &self.content[i] {
                ToolContent::Text { text } => {
                    r.push(text.clone());
                    assert(views(r@) =~= views(r0).push(text@));
                },
                _ => {},
            }
            i = i + 1;
        }
        assert(self.content@.take(i as int) =~= self.content@);
        r
    }
}

impl Default for CallToolResult {
    fn default() -> (r: Self)
        ensures
            r.content@ == Seq::<ToolContent>::empty(),
            r.is_error is None,
    {
        Self::new()
    }
}

/// The result of listing tools.
#[derive(Debug, Clone)]
pub struct ListToolsResult {
    pub tools: Vec<Tool>,
    pub next_cursor: Option<String>,
}

/// A JSON-RPC request of the MCP protocol.
#[derive(Debug, Clone)]
pub struct JsonRpcRequest<T> {
    pub jsonrpc: String,
    pub id: u64,
    pub method: String,
    pub params: T,
}

impl<T> JsonRpcRequest<T> {
    /// A JSON-RPC 2.0 request.
    pub fn new(id: u64, method: &str, params: T) -> (r: Self)
        ensures
            r.jsonrpc@ == "2.0"@,
            r.id == id,
            r.method@ == method@,
            r.params == params,
    {
        JsonRpcRequest { jsonrpc: "2.0".to_owned(), id, method: method.to_owned(), params }
    }
}

/// A JSON-RPC response of the MCP protocol.
#[derive(Debug, Clone)]
pub struct JsonRpcResponse<T> {
    pub jsonrpc: String,
    pub id: Option<u64>,
    pub result: JsonRpcResult<T>,
}

/// The result or the error of a JSON-RPC response.
#[derive(Debug, Clone)]
pub enum JsonRpcResult<T> {
    Result(T),
    Error(JsonRpcError),
}

/// A JSON-RPC error.
#[derive(Debug, Clone)]
pub struct JsonRpcError {
    pub code: i64,
    pub message: String,
    pub data: Option<JsonValue>,
}

/// Parameters of a tool call.
#[derive(Debug, Clone)]
pub struct CallToolParams {
    pub name: String,
    pub arguments: Option<JsonValue>,
}

impl CallToolParams {
    /// Parameters naming a tool, without arguments.
    pub fn new(name: &str) -> (r: Self)
        ensures
            r.name@ == name@,
            r.arguments is None,
    {
        CallToolParams { name: name.to_owned(), arguments: None }
    }

    /// The same parameters with the given arguments.
    pub fn with_arguments(self, args: JsonValue) -> (r: Self)
        ensures
            r == (CallToolParams { arguments: Some(args), ..self }),
    {
        let mut s = self;
        s.arguments = Some(args);
        s
    }
}

/// Parameters of a tools listing.
#[derive(Debug, Clone)]
pub struct ListToolsParams {
    pub cursor: Option<String>,
}

impl Default for ListToolsParams {
    fn default() -> (r: Self)
        ensures
            r.cursor is None,
    {
        ListToolsParams { cursor: None }
    }
}

} // verus!

verus! {

/// After a merge every server of either configuration is configured, and a
/// server of `other` has the configuration that `other` gives it; a server
/// only in the first keeps its configuration.
pub proof fn law_merge_keeps_both(first: MCPConfig, other: MCPConfig, name: Seq<char>)
    ensures
        ({
            let a = first.mcp_servers.model();
            let b = other.mcp_servers.model();
            &&& a.union_prefer_right(b).contains_key(name) <==> (a.contains_key(name) || b.contains_key(name))
            &&& b.contains_key(name) ==> a.union_prefer_right(b)[name] == b[name]
            &&& a.contains_key(name) && !b.contains_key(name) ==> a.union_prefer_right(b)[name] == a[name]
        }),
{
}

/// A server set with `with_server` is what `get_server` finds under that name,
/// and every other server is found as it was before.
pub proof fn law_get_after_with_server(c: MCPConfig, name: Seq<char>, config: ServerConfig, other: Seq<char>)
    ensures
        c.mcp_servers.model().insert(name, config).contains_key(name),
        c.mcp_servers.model().insert(name, config)[name] == config,
        other != name ==> (c.mcp_servers.model().insert(name, config).contains_key(other)
            <==> c.mcp_servers.model().contains_key(other)),
        other != name && c.mcp_servers.model().contains_key(other)
            ==> c.mcp_servers.model().insert(name, config)[other] == c.mcp_servers.model()[other],
{
}

/// An explicit transport name decides the transport, whatever the URL and
/// the command say.
pub proof fn law_explicit_transport_decides(c: ServerConfigView)
    requires
        c.transport is Some,
    ensures
        config_transport(c) == crate::domain::value_objects::transport_from_name(c.transport->0),
{
}

/// Without an explicit transport name, a non-empty command means stdio.
pub proof fn law_command_means_stdio(c: ServerConfigView)
    requires
        c.transport is None,
        c.type_ is None,
        c.command matches Some(cmd) && cmd.len() > 0,
    ensures
        config_transport(c) == TransportType::Stdio,
{
}

} // verus!

verus! {

/// The JSON of an embedded resource, keys in sorted order: blob, mime_type,
/// text and uri, where present.
pub open spec fn resource_json(r: EmbeddedResource) -> Json {
    Json::Object(crate::json::opt_text_entry("blob"@, opt_string_view(r.blob))
        + crate::json::opt_text_entry("mime_type"@, opt_string_view(r.mime_type))
        + crate::json::opt_text_entry("text"@, opt_string_view(r.text))
        + crate::json::opt_text_entry("uri"@, opt_string_view(r.uri)))
}

/// The JSON of a piece of content, tagged by "type", keys in sorted order.
pub open spec fn content_json(c: ToolContent) -> Json {
    match c {
        ToolContent::Text { text } => Json::Object(seq![("text"@, Json::Str(text@)), ("type"@, Json::Str("text"@))]),
        ToolContent::Image { data, mime_type } => Json::Object(seq![
            ("data"@, Json::Str(data@)),
            ("mime_type"@, Json::Str(mime_type@)),
            ("type"@, Json::Str("image"@)),
        ]),
        ToolContent::Resource { resource } => Json::Object(seq![("resource"@, resource_json(resource)), ("type"@, Json::Str("resource"@))]),
    }
}

/// The JSON of a tool call result, keys in sorted order: content, and isError
/// where present.
pub open spec fn call_result_json(r: CallToolResult) -> Json {
    Json::Object(seq![("content"@, Json::Array(Seq::new(r.content@.len(), |i: int| content_json(r.content@[i]))))]
        + match r.is_error {
            Some(b) => seq![("isError"@, Json::Bool(b))],
            None => Seq::empty(),
        })
}

impl EmbeddedResource {
    /// The JSON of the resource.
    pub fn to_json(&self) -> (r: JsonValue)
        ensures
            r.model() == resource_json(*self),
    {
        let mut e: Vec<(String, JsonValue)> = Vec::new();
        crate::json::push_opt_text(&mut e, "blob", &self.blob);
        crate::json::push_opt_text(&mut e, "mime_type", &self.mime_type);
        crate::json::push_opt_text(&mut e, "text", &self.text);
        crate::json::push_opt_text(&mut e, "uri", &self.uri);
        let r = crate::json::object(e);
        assert(r.model()->Object_0 =~= resource_json(*self)->Object_0);
        r
    }
}

impl ToolContent {
    /// The JSON of the content.
    pub fn to_json(&self) -> (r: JsonValue)
        ensures
            r.model() == content_json(*self),
    {
        let mut e: Vec<(String, JsonValue)> = Vec::new();
        match self {
            ToolContent::Text { text } => {
                crate::json::push_entry(&mut e, "text", JsonValue::Str(text.clone()));
                crate::json::push_entry(&mut e, "type", JsonValue::Str("text".to_owned()));
            },
            ToolContent::Image { data, mime_type } => {
                crate::json::push_entry(&mut e, "data", JsonValue::Str(data.clone()));
                crate::json::push_entry(&mut e, "mime_type", JsonValue::Str(mime_type.clone()));
                crate::json::push_entry(&mut e, "type", JsonValue::Str("image".to_owned()));
            },
            ToolContent::Resource { resource } => {
                crate::json::push_entry(&mut e, "resource", resource.to_json());
                crate::json::push_entry(&mut e, "type", JsonValue::Str("resource".to_owned()));
            },
        }
        let r = crate::json::object(e);
        assert(r.model()->Object_0 =~= content_json(*self)->Object_0);
        r
    }
}

impl CallToolResult {
    /// The JSON of the result.
    pub fn to_json(&self) -> (r: JsonValue)
        ensures
            r.model() == call_result_json(*self),
    {
        let mut items: Vec<JsonValue> = Vec::new();
        let mut i: usize = 0;
        while i < self.content.len()
            invariant
                i <= self.content@.len(),
                items@.len() == i,
                forall|j: int| 0 <= j < i ==> #[trigger] items@[j].model() == content_json(self.content@[j]),
            decreases self.content@.len() - i,
        {
            items.push(self.content[i].to_json());
            i = i + 1;
        }
        let arr = JsonValue::Array(items);
        assert forall|j: int| 0 <= j < items@.len() implies #[trigger] arr.model()->Array_0[j] == content_json(self.content@[j]) by {
            assert(items@[j].model() == content_json(self.content@[j]));
        }
        assert(arr.model()->Array_0 =~= Seq::new(self.content@.len(), |i: int| content_json(self.content@[i])));
        let mut e: Vec<(String, JsonValue)> = Vec::new();
        crate::json::push_entry(&mut e, "content", arr);
        let ghost before = crate::json::entries_model(e@);
        match self.is_error {
            Some(b) => crate::json::push_entry(&mut e, "isError", JsonValue::Bool(b)),
            None => {},
        }
        let r = crate::json::object(e);
        assert(r.model()->Object_0 =~= call_result_json(*self)->Object_0);
        r
    }
}

} // verus!
