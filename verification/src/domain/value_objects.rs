//! Value objects: immutable objects defined by their attributes.

use vstd::prelude::*;
use crate::json::JsonValue;
use crate::text::{clone_opt_string, contains, lowercase, opt_str_view, str_contains, str_eq, to_lowercase};

verus! {

/// Transport used to reach an MCP server.
#[derive(Debug, Clone, Copy, PartialEq, Eq, Structural)]
pub enum TransportType {
    Sse,
    Streamable,
    Stdio,
}

/// The transport that a transport name stands for: the lowercased name is
/// searched for "stream", then "sse", then "command" or "stdio"; anything else
/// is streamable.
pub open spec fn transport_from_name(s: Seq<char>) -> TransportType {
    let lower = lowercase(s);
    if contains(lower, "stream"@) {
        TransportType::Streamable
    } else if contains(lower, "sse"@) {
        TransportType::Sse
    } else if contains(lower, "command"@) || contains(lower, "stdio"@) {
        TransportType::Stdio
    } else {
        TransportType::Streamable
    }
}

/// The transport inferred from the hints: an explicit transport name decides;
/// else a non-empty command means stdio; else a URL whose lowercase form holds
/// "sse" means SSE and one holding "stream" means streamable; else streamable.
pub open spec fn infer_transport(
    transport: Option<Seq<char>>,
    url: Option<Seq<char>>,
    command: Option<Seq<char>>,
) -> TransportType {
    if transport is Some {
        transport_from_name(transport->0)
    } else if command is Some && command->0.len() > 0 {
        TransportType::Stdio
    } else if url is Some && contains(lowercase(url->0), "sse"@) {
        TransportType::Sse
    } else {
        TransportType::Streamable
    }
}

/// The name by which a transport is shown.
pub open spec fn transport_name(t: TransportType) -> Seq<char> {
    match t {
        TransportType::Sse => "sse"@,
        TransportType::Streamable => "streamable"@,
        TransportType::Stdio => "stdio"@,
    }
}

impl TransportType {
    /// Infer the transport type from the explicit transport name, the URL and
    /// the command of a server configuration.
    pub fn infer(transport: Option<&str>, url: Option<&str>, command: Option<&str>) -> (r: Self)
        ensures
            r == infer_transport(opt_str_view(transport), opt_str_view(url), opt_str_view(command)),
    {
        if let Some(t) = transport {
            return Self::from_str(t);
        }
        if let Some(c) = command {
            if !c.is_empty() {
                return TransportType::Stdio;
            }
        }
        if let Some(u) = url {
            let u_lower = to_lowercase(u);
            if str_contains(u_lower.as_str(), "sse") {
                return TransportType::Sse;
            }
            if str_contains(u_lower.as_str(), "stream") {
                return TransportType::Streamable;
            }
        }
        TransportType::Streamable
    }

    /// The transport that a transport name stands for.
    pub fn from_str(s: &str) -> (r: Self)
        ensures
            r == transport_from_name(s@),
    {
        let lower = to_lowercase(s);
        if str_contains(lower.as_str(), "stream") {
            TransportType::Streamable
        } else if str_contains(lower.as_str(), "sse") {
            TransportType::Sse
        } else if str_contains(lower.as_str(), "command") || str_contains(lower.as_str(), "stdio") {
            TransportType::Stdio
        } else {
            TransportType::Streamable
        }
    }

    /// The name by which the transport is shown: "sse", "streamable" or "stdio".
    pub fn to_string(&self) -> (r: String)
        ensures
            r@ == transport_name(*self),
    {
        match self {
            TransportType::Sse => "sse".to_owned(),
            TransportType::Streamable => "streamable".to_owned(),
            TransportType::Stdio => "stdio".to_owned(),
        }
    }
}

impl Default for TransportType {
    fn default() -> (r: Self)
        ensures
            r == TransportType::Streamable,
    {
        TransportType::Streamable
    }
}

/// OAuth configuration for authentication.
#[derive(Debug)]
pub struct OAuthConfig {
    pub access_token: Option<String>,
    pub client_id: Option<String>,
    pub client_secret: Option<String>,
    pub authorization_url: Option<String>,
    pub token_url: Option<String>,
    pub scopes: Option<String>,
    pub redirect_url: Option<String>,
    pub client_id_metadata_url: Option<String>,
}

impl Default for OAuthConfig {
    fn default() -> (r: Self)
        ensures
            r.access_token is None && r.client_id is None && r.client_secret is None
                && r.authorization_url is None && r.token_url is None && r.scopes is None
                && r.redirect_url is None && r.client_id_metadata_url is None,
    {
        OAuthConfig {
            access_token: None,
            client_id: None,
            client_secret: None,
            authorization_url: None,
            token_url: None,
            scopes: None,
            redirect_url: None,
            client_id_metadata_url: None,
        }
    }
}

impl Clone for OAuthConfig {
    fn clone(&self) -> (r: Self)
        ensures
            r == *self,
    {
        OAuthConfig {
            access_token: clone_opt_string(&self.access_token),
            client_id: clone_opt_string(&self.client_id),
            client_secret: clone_opt_string(&self.client_secret),
            authorization_url: clone_opt_string(&self.authorization_url),
            token_url: clone_opt_string(&self.token_url),
            scopes: clone_opt_string(&self.scopes),
            redirect_url: clone_opt_string(&self.redirect_url),
            client_id_metadata_url: clone_opt_string(&self.client_id_metadata_url),
        }
    }
}

/// Authentication configuration.
#[derive(Debug)]
pub struct AuthConfig {
    pub oauth: Option<OAuthConfig>,
}

impl Clone for AuthConfig {
    fn clone(&self) -> (r: Self)
        ensures
            r == *self,
    {
        match &self.oauth {
            Some(o) => AuthConfig { oauth: Some(o.clone()) },
            None => AuthConfig { oauth: None },
        }
    }
}

/// A copy of an optional authentication configuration.
pub fn clone_opt_auth(a: &Option<AuthConfig>) -> (r: Option<AuthConfig>)
    ensures
        r == *a,
{
    match a {
        Some(a) => Some(a.clone()),
        None => None,
    }
}

impl Default for AuthConfig {
    fn default() -> (r: Self)
        ensures
            r.oauth is None,
    {
        AuthConfig { oauth: None }
    }
}

/// Parameter information extracted from a tool's input schema.
#[derive(Debug, Clone)]
pub struct ParamInfo {
    pub name: String,
    pub param_type: String,
    pub required: bool,
    pub description: Option<String>,
}

/// What a parameter description says, with texts as character sequences.
pub struct ParamInfoView {
    pub name: Seq<char>,
    pub param_type: Seq<char>,
    pub required: bool,
    pub description: Option<Seq<char>>,
}

impl View for ParamInfo {
    type V = ParamInfoView;

    open spec fn view(&self) -> ParamInfoView {
        ParamInfoView {
            name: self.name@,
            param_type: self.param_type@,
            required: self.required,
            description: crate::text::opt_string_view(self.description),
        }
    }
}

impl ParamInfo {
    /// A parameter that is not required and has no description.
    pub fn new(name: &str, param_type: &str) -> (r: Self)
        ensures
            r.name@ == name@,
            r.param_type@ == param_type@,
            !r.required,
            r.description is None,
    {
        ParamInfo { name: name.to_owned(), param_type: param_type.to_owned(), required: false, description: None }
    }

    /// The same parameter with the given required flag.
    pub fn with_required(self, required: bool) -> (r: Self)
        ensures
            r == (ParamInfo { required, ..self }),
    {
        let mut s = self;
        s.required = required;
        s
    }

    /// The same parameter with the given description.
    pub fn with_description(self, desc: &str) -> (r: Self)
        ensures
            r.name == self.name,
            r.param_type == self.param_type,
            r.required == self.required,
            r.description matches Some(d) && d@ == desc@,
    {
        let mut s = self;
        s.description = Some(desc.to_owned());
        s
    }
}

/// Output format for CLI results.
#[derive(Debug, Clone, Copy, PartialEq, Eq, Structural)]
pub enum OutputFormat {
    Json,
    Yaml,
    Text,
}

/// The output format a lowercased name stands for.
pub open spec fn output_format_of(lower: Seq<char>) -> Option<OutputFormat> {
    if lower == "json"@ {
        Some(OutputFormat::Json)
    } else if lower == "yaml"@ || lower == "yml"@ {
        Some(OutputFormat::Yaml)
    } else if lower == "text"@ {
        Some(OutputFormat::Text)
    } else {
        None
    }
}

/// The name by which an output format is shown.
pub open spec fn output_format_name(f: OutputFormat) -> Seq<char> {
    match f {
        OutputFormat::Json => "json"@,
        OutputFormat::Yaml => "yaml"@,
        OutputFormat::Text => "text"@,
    }
}

impl OutputFormat {
    /// The output format named by `s`, compared after lowercasing: "json",
    /// "yaml" or "yml", "text"; `None` for any other name.
    pub fn from_str(s: &str) -> (r: Option<Self>)
        ensures
            r == output_format_of(lowercase(s@)),
    {
        let lower = to_lowercase(s);
        if str_eq(lower.as_str(), "json") {
            Some(OutputFormat::Json)
        } else if str_eq(lower.as_str(), "yaml") || str_eq(lower.as_str(), "yml") {
            Some(OutputFormat::Yaml)
        } else if str_eq(lower.as_str(), "text") {
            Some(OutputFormat::Text)
        } else {
            None
        }
    }

    /// The name by which the format is shown: "json", "yaml" or "text".
    pub fn to_string(&self) -> (r: String)
        ensures
            r@ == output_format_name(*self),
    {
        match self {
            OutputFormat::Json => "json".to_owned(),
            OutputFormat::Yaml => "yaml".to_owned(),
            OutputFormat::Text => "text".to_owned(),
        }
    }
}

impl Default for OutputFormat {
    fn default() -> (r: Self)
        ensures
            r == OutputFormat::Json,
    {
        OutputFormat::Json
    }
}

/// The result of a tool call, with the server and method it came from.
#[derive(Debug, Clone)]
pub struct ToolCallResult {
    pub server: String,
    pub method: String,
    pub result: JsonValue,
}

/// Summary information on a server.
#[derive(Debug, Clone)]
pub struct ServerInfo {
    pub name: String,
    pub transport: String,
    pub url: Option<String>,
    pub command: Option<String>,
    pub tools: Option<Vec<String>>,
    pub error: Option<String>,
}

/// Information on a tool.
#[derive(Debug, Clone)]
pub struct ToolInfo {
    pub name: String,
    pub description: Option<String>,
    pub input_schema: Option<JsonValue>,
}

/// A tool found on a server.
#[derive(Debug, Clone)]
pub struct ToolMatch {
    pub server_name: String,
    pub tool: ToolInfo,
}

/// A tool suggested for a task, with the reason.
#[derive(Debug, Clone)]
pub struct SuggestMatch {
    pub server_name: String,
    pub tool: ToolInfo,
    pub reason: String,
}

} // verus!
