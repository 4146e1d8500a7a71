//! Data transfer objects, and the JSON each is written as.

use vstd::prelude::*;
use crate::json::{
    entries_model, object, opt_text_entry, push_entry, push_opt_text, strings_to_json, texts_json, Json,
    JsonValue,
};
use crate::strmap::StrMap;
use crate::text::{lowercase, opt_string_view, str_eq, to_lowercase, views};

verus! {

/// Request to list the servers.
#[derive(Debug, Clone)]
pub struct ListServersRequest {
    pub include_tools: bool,
}

impl Default for ListServersRequest {
    fn default() -> (r: Self)
        ensures
            !r.include_tools,
    {
        ListServersRequest { include_tools: false }
    }
}

/// Request for the information on a server.
#[derive(Debug, Clone)]
pub struct GetServerInfoRequest {
    pub server_name: String,
}

/// Request to list the tools of a server.
#[derive(Debug, Clone)]
pub struct ListToolsRequest {
    pub server_name: String,
}

/// Request for the information on a tool.
#[derive(Debug, Clone)]
pub struct GetToolInfoRequest {
    pub server_name: String,
    pub tool_name: String,
}

/// Request to call a tool.
#[derive(Debug)]
pub struct CallToolRequest {
    pub server_name: String,
    pub tool_name: String,
    pub params: StrMap<JsonValue>,
    pub stream: bool,
}

/// Request to find a tool by name on every server.
#[derive(Debug, Clone)]
pub struct FindToolRequest {
    pub tool_name: String,
}

/// Request to search the tools of every server.
#[derive(Debug, Clone)]
pub struct SearchToolsRequest {
    pub query: String,
}

/// A server as listed.
#[derive(Debug, Clone)]
pub struct ServerDto {
    pub name: String,
    pub transport: String,
    pub url: Option<String>,
    pub command: Option<String>,
    pub tools: Option<Vec<String>>,
    pub error: Option<String>,
}

/// The JSON of a listed server: name, transport, and url, command, tools and
/// error where present.
pub open spec fn server_dto_json(d: ServerDto) -> Json {
    Json::Object(seq![("name"@, Json::Str(d.name@)), ("transport"@, Json::Str(d.transport@))]
        + opt_text_entry("url"@, opt_string_view(d.url))
        + opt_text_entry("command"@, opt_string_view(d.command))
        + match d.tools {
            Some(t) => seq![("tools"@, texts_json(views(t@)))],
            None => Seq::empty(),
        }
        + opt_text_entry("error"@, opt_string_view(d.error)))
}

impl ServerDto {
    /// The JSON of the server.
    pub fn to_json(&self) -> (r: JsonValue)
        ensures
            r.model() == server_dto_json(*self),
    {
        let mut e: Vec<(String, JsonValue)> = Vec::new();
        push_entry(&mut e, "name", JsonValue::Str(self.name.clone()));
        push_entry(&mut e, "transport", JsonValue::Str(self.transport.clone()));
        push_opt_text(&mut e, "url", &self.url);
        push_opt_text(&mut e, "command", &self.command);
        let ghost before_tools = entries_model(e@);
        match &self.tools {
            Some(t) => {
                push_entry(&mut e, "tools", strings_to_json(t));
            },
            None => {},
        }
        assert(entries_model(e@) =~= before_tools + match self.tools {
            Some(t) => seq![("tools"@, texts_json(views(t@)))],
            None => Seq::empty(),
        });
        push_opt_text(&mut e, "error", &self.error);
        let r = object(e);
        assert(r.model()->Object_0 =~= server_dto_json(*self)->Object_0);
        r
    }
}

/// The JSON of a list of servers.
pub open spec fn servers_json(s: Seq<ServerDto>) -> Json {
    Json::Array(Seq::new(s.len(), |i: int| server_dto_json(s[i])))
}

/// The listed servers and the configuration files they came from.
#[derive(Debug, Clone)]
pub struct ServerListResponse {
    pub servers: Vec<ServerDto>,
    pub config_files: Vec<String>,
}

impl ServerListResponse {
    /// The JSON of the listing: "configFiles" and "servers", as the usage
    /// guide shows it.
    pub fn to_json(&self) -> (r: JsonValue)
        ensures
            r.model() == Json::Object(seq![
                ("configFiles"@, texts_json(views(self.config_files@))),
                ("servers"@, servers_json(self.servers@)),
            ]),
    {
        let mut items: Vec<JsonValue> = Vec::new();
        let mut i: usize = 0;
        while i < self.servers.len()
            invariant
                i <= self.servers@.len(),
                items@.len() == i,
                forall|j: int| 0 <= j < i ==> #[trigger] items@[j].model() == server_dto_json(self.servers@[j]),
            decreases self.servers@.len() - i,
        {
            items.push(self.servers[i].to_json());
            i = i + 1;
        }
        let servers = JsonValue::Array(items);
        assert forall|j: int| 0 <= j < items@.len() implies #[trigger] servers.model()->Array_0[j] == servers_json(self.servers@)->Array_0[j] by {
            assert(items@[j].model() == server_dto_json(self.servers@[j]));
        }
        assert(servers.model()->Array_0 =~= servers_json(self.servers@)->Array_0);
        let mut e: Vec<(String, JsonValue)> = Vec::new();
        push_entry(&mut e, "configFiles", strings_to_json(&self.config_files));
        push_entry(&mut e, "servers", servers);
        let r = object(e);
        assert(r.model()->Object_0 =~= seq![
            ("configFiles"@, texts_json(views(self.config_files@))),
            ("servers"@, servers_json(self.servers@)),
        ]);
        r
    }
}

/// A tool in a listing.
#[derive(Debug, Clone)]
pub struct ToolSummaryDto {
    pub name: String,
    pub description: Option<String>,
}

/// The JSON of a tool in a listing: name, and description where present.
pub open spec fn tool_summary_json(d: ToolSummaryDto) -> Json {
    Json::Object(seq![("name"@, Json::Str(d.name@))] + opt_text_entry("description"@, opt_string_view(d.description)))
}

impl ToolSummaryDto {
    /// The JSON of the tool.
    pub fn to_json(&self) -> (r: JsonValue)
        ensures
            r.model() == tool_summary_json(*self),
    {
        let mut e: Vec<(String, JsonValue)> = Vec::new();
        push_entry(&mut e, "name", JsonValue::Str(self.name.clone()));
        push_opt_text(&mut e, "description", &self.description);
        let r = object(e);
        assert(r.model()->Object_0 =~= tool_summary_json(*self)->Object_0);
        r
    }
}

/// The tools of a server.
#[derive(Debug, Clone)]
pub struct ToolListResponse {
    pub server: String,
    pub tools: Vec<ToolSummaryDto>,
}

/// The details of a tool.
#[derive(Debug, Clone)]
pub struct ToolDetailDto {
    pub name: String,
    pub description: Option<String>,
    pub required_params: Option<String>,
    pub param_format: Option<String>,
    pub param_example: Option<Vec<String>>,
    pub call_example: Option<String>,
    pub input_schema: Option<JsonValue>,
}

/// The details of a tool on a server.
#[derive(Debug, Clone)]
pub struct ToolInfoResponse {
    pub server: String,
    pub tool: ToolDetailDto,
}

/// The result of a tool call.
#[derive(Debug, Clone)]
pub struct ToolCallResponse {
    pub server: String,
    pub method: String,
    pub result: JsonValue,
}

/// The JSON of a tool call result: server, method and result.
pub open spec fn tool_call_json(d: ToolCallResponse) -> Json {
    Json::Object(seq![("server"@, Json::Str(d.server@)), ("method"@, Json::Str(d.method@)), ("result"@, d.result.model())])
}

impl ToolCallResponse {
    /// The JSON of the call result.
    pub fn to_json(&self) -> (r: JsonValue)
        ensures
            r.model() == tool_call_json(*self),
    {
        let mut e: Vec<(String, JsonValue)> = Vec::new();
        push_entry(&mut e, "server", JsonValue::Str(self.server.clone()));
        push_entry(&mut e, "method", JsonValue::Str(self.method.clone()));
        push_entry(&mut e, "result", self.result.clone());
        let r = object(e);
        assert(r.model()->Object_0 =~= tool_call_json(*self)->Object_0);
        r
    }
}

/// A tool found on a server.
#[derive(Debug, Clone)]
pub struct ToolMatchDto {
    pub server: String,
    pub tool: ToolSummaryDto,
}

/// The JSON of a found tool: server and tool.
pub open spec fn tool_match_json(d: ToolMatchDto) -> Json {
    Json::Object(seq![("server"@, Json::Str(d.server@)), ("tool"@, tool_summary_json(d.tool))])
}

impl ToolMatchDto {
    /// The JSON of the found tool.
    pub fn to_json(&self) -> (r: JsonValue)
        ensures
            r.model() == tool_match_json(*self),
    {
        let mut e: Vec<(String, JsonValue)> = Vec::new();
        push_entry(&mut e, "server", JsonValue::Str(self.server.clone()));
        push_entry(&mut e, "tool", self.tool.to_json());
        let r = object(e);
        assert(r.model()->Object_0 =~= tool_match_json(*self)->Object_0);
        r
    }
}

/// The tools found.
#[derive(Debug, Clone)]
pub struct ToolSearchResponse {
    pub matches: Vec<ToolMatchDto>,
}

/// The JSON of the tools found: "matches".
pub open spec fn tool_search_json(d: ToolSearchResponse) -> Json {
    Json::Object(seq![("matches"@, Json::Array(Seq::new(d.matches@.len(), |i: int| tool_match_json(d.matches@[i]))))])
}

impl ToolSearchResponse {
    /// The JSON of the tools found.
    pub fn to_json(&self) -> (r: JsonValue)
        ensures
            r.model() == tool_search_json(*self),
    {
        let mut items: Vec<JsonValue> = Vec::new();
        let mut i: usize = 0;
        while i < self.matches.len()
            invariant
                i <= self.matches@.len(),
                items@.len() == i,
                forall|j: int| 0 <= j < i ==> #[trigger] items@[j].model() == tool_match_json(self.matches@[j]),
            decreases self.matches@.len() - i,
        {
            items.push(self.matches[i].to_json());
            i = i + 1;
        }
        let arr = JsonValue::Array(items);
        assert forall|j: int| 0 <= j < items@.len() implies #[trigger] arr.model()->Array_0[j] == tool_match_json(self.matches@[j]) by {
            assert(items@[j].model() == tool_match_json(self.matches@[j]));
        }
        let mut e: Vec<(String, JsonValue)> = Vec::new();
        push_entry(&mut e, "matches", arr);
        let r = object(e);
        assert(arr.model()->Array_0 =~= Seq::new(self.matches@.len(), |i: int| tool_match_json(self.matches@[i])));
        assert(r.model()->Object_0 =~= tool_search_json(*self)->Object_0);
        r
    }
}

/// The tools suggested for a task.
#[derive(Debug, Clone)]
pub struct ToolSuggestResponse {
    pub suggestions: Vec<ToolSuggestionDto>,
}

/// A tool suggested for a task, with the reason.
#[derive(Debug, Clone)]
pub struct ToolSuggestionDto {
    pub server: String,
    pub tool: ToolSummaryDto,
    pub reason: String,
}

/// An error as reported.
#[derive(Debug, Clone)]
pub struct ErrorResponse {
    pub code: String,
    pub message: String,
    pub details: Option<Vec<(String, JsonValue)>>,
}

/// A successful response: its data and metadata.
#[derive(Debug, Clone)]
pub struct SuccessResponse<T> {
    pub success: bool,
    pub data: T,
    pub meta: ResponseMeta,
}

/// The metadata of a response: when it was made, and by which version.
#[derive(Debug, Clone)]
pub struct ResponseMeta {
    pub timestamp: String,
    pub version: String,
}

/// The JSON of response metadata: timestamp and version.
pub open spec fn meta_json(m: ResponseMeta) -> Json {
    Json::Object(seq![("timestamp"@, Json::Str(m.timestamp@)), ("version"@, Json::Str(m.version@))])
}

impl ResponseMeta {
    /// The JSON of the metadata.
    pub fn to_json(&self) -> (r: JsonValue)
        ensures
            r.model() == meta_json(*self),
    {
        let mut e: Vec<(String, JsonValue)> = Vec::new();
        push_entry(&mut e, "timestamp", JsonValue::Str(self.timestamp.clone()));
        push_entry(&mut e, "version", JsonValue::Str(self.version.clone()));
        let r = object(e);
        assert(r.model()->Object_0 =~= meta_json(*self)->Object_0);
        r
    }
}

impl SuccessResponse<JsonValue> {
    /// A successful response with the given data.
    pub fn new(data: JsonValue, meta: ResponseMeta) -> (r: Self)
        ensures
            r.success,
            r.data == data,
            r.meta == meta,
    {
        SuccessResponse { success: true, data, meta }
    }

    /// The JSON of the response.
    pub fn to_json(&self) -> (r: JsonValue)
        ensures
            r.model() == Json::Object(seq![
                ("success"@, Json::Bool(self.success)),
                ("data"@, self.data.model()),
                ("meta"@, meta_json(self.meta)),
            ]),
    {
        let mut e: Vec<(String, JsonValue)> = Vec::new();
        push_entry(&mut e, "success", JsonValue::Bool(self.success));
        push_entry(&mut e, "data", self.data.clone());
        push_entry(&mut e, "meta", self.meta.to_json());
        let r = object(e);
        assert(r.model()->Object_0 =~= seq![
            ("success"@, Json::Bool(self.success)),
            ("data"@, self.data.model()),
            ("meta"@, meta_json(self.meta)),
        ]);
        r
    }
}

/// An error response: the error and metadata.
#[derive(Debug, Clone)]
pub struct ErrorResponseWrapper {
    pub success: bool,
    pub error: ErrorResponse,
    pub meta: ResponseMeta,
}

/// CLI output format options.
#[derive(Debug, Clone, Copy, PartialEq, Eq, Structural)]
pub enum OutputFormat {
    Json,
    Yaml,
    Text,
}

/// The output format a lowercased name stands for.
pub open spec fn output_format_named(lower: Seq<char>) -> Option<OutputFormat> {
    if lower == "json"@ {
        Some(OutputFormat::Json)
    } else if lower == "yaml"@ || lower == "yml"@ {
        Some(OutputFormat::Yaml)
    } else if lower == "text"@ {
        Some(OutputFormat::Text)
    } else {
        None
    }
}

impl OutputFormat {
    /// The output format named by `s`, compared after lowercasing: "json",
    /// "yaml" or "yml", "text"; `None` for any other name.
    pub fn from_str(s: &str) -> (r: Option<Self>)
        ensures
            r == output_format_named(lowercase(s@)),
    {
        let lower = to_lowercase(s);
        if str_eq(lower.as_str(), "json") {
            Some(OutputFormat::Json)
        } else if str_eq(lower.as_str(), "yaml") || str_eq(lower.as_str(), "yml") {
            Some(OutputFormat::Yaml)
        } else if str_eq(lower.as_str(), "text") {
            Some(OutputFormat::Text)
        } else {
            None
        }
    }
}

impl Default for OutputFormat {
    fn default() -> (r: Self)
        ensures
            r == OutputFormat::Json,
    {
        OutputFormat::Json
    }
}

/// Information on the configuration: its files and how many servers they
/// configure.
#[derive(Debug, Clone)]
pub struct ConfigInfoDto {
    pub paths: Vec<String>,
    pub server_count: usize,
}

} // verus!
