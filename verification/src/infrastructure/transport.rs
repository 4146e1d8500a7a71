//! Transports: which transport a server configuration calls for, the URL a
//! request goes to, request numbering, and the reading of JSON-RPC results.

use vstd::prelude::*;
use crate::domain::entities::{config_transport, JsonRpcResult, ServerConfig, ServerConfigView};
use crate::domain::errors::{ErrorCode, MCPError};
use crate::domain::services::{env_texts, resolve_refs, EnvResolver};
use crate::domain::value_objects::TransportType;
use crate::strmap::StrMap;
use crate::infrastructure::oauth::pair_views;
use crate::text::{append_str, i64_to_decimal, opt_string_view, signed_decimal, views};
use vstd::utf8::encode_utf8;

verus! {

/// The transport to open for a server, with what it needs.
#[derive(Debug)]
pub enum TransportPlan {
    /// A child process speaking JSON-RPC over its standard input and output.
    Stdio { command: String, args: Vec<String>, env: StrMap<String> },
    /// An HTTP endpoint (streamable or SSE), with headers whose environment
    /// references are resolved.
    Http { endpoint: String, transport_type: TransportType, headers: Option<StrMap<String>> },
}

/// Transport factory.
pub struct TransportFactory;

impl TransportFactory {
    /// The transport for a server configuration: stdio needs the command
    /// (arguments and environment default to empty); SSE and streamable need
    /// the URL, and take the headers with their environment references
    /// resolved in `env`. A missing command or URL is a transport error.
    pub fn create(config: &ServerConfig, env: &StrMap<String>) -> (r: Result<TransportPlan, MCPError>)
        ensures
            match r {
                Ok(TransportPlan::Stdio { command, args, env: child_env }) =>
                    config_transport(config@) == TransportType::Stdio
                    && config@.command == Some(command@)
                    && views(args@) == match config@.args { Some(a) => a, None => Seq::empty() }
                    && child_env.model().map_values(|v: String| v@) == match config@.env { Some(e) => e, None => Map::empty() },
                Ok(TransportPlan::Http { endpoint, transport_type, headers }) =>
                    config_transport(config@) != TransportType::Stdio
                    && transport_type == config_transport(config@)
                    && config@.url == Some(endpoint@)
                    && match (config.headers, headers) {
                        (Some(h), Some(r)) => r.model().dom() == h.model().dom()
                            && forall|k: Seq<char>| #[trigger] r.model().contains_key(k)
                                ==> r.model()[k]@ == resolve_refs(h.model()[k]@, env_texts(*env)),
                        (None, None) => true,
                        _ => false,
                    },
                Err(e) => e.code == ErrorCode::TransportError && e.details is None && if config_transport(config@) == TransportType::Stdio {
                    config@.command is None && e.message@ == "stdio transport requires command"@
                } else {
                    config@.url is None && e.message@ == "HTTP transport requires url"@
                },
            },
    {
        let transport_type = config.get_transport_type();
        match transport_type {
            TransportType::Stdio => {
                let command = match &config.command {
                    Some(c) => c.clone(),
                    None => return Err(MCPError::transport_error("stdio transport requires command")),
                };
                let args = match &config.args {
                    Some(a) => crate::text::clone_strings(a),
                    None => Vec::new(),
                };
                let child_env = match &config.env {
                    Some(e) => e.copy(),
                    None => StrMap::new(),
                };
                proof {
                    assert(views(args@) =~= match config@.args { Some(a) => a, None => Seq::<Seq<char>>::empty() });
                    assert(child_env.model().map_values(|v: String| v@) =~= match config@.env { Some(e) => e, None => Map::<Seq<char>, Seq<char>>::empty() });
                }
                Ok(TransportPlan::Stdio { command, args, env: child_env })
            },
            TransportType::Sse | TransportType::Streamable => {
                let endpoint = match &config.url {
                    Some(u) => u.clone(),
                    None => return Err(MCPError::transport_error("HTTP transport requires url")),
                };
                let headers = match &config.headers {
                    Some(h) => Some(EnvResolver::resolve_headers(h, env)),
                    None => None,
                };
                Ok(TransportPlan::Http { endpoint, transport_type, headers })
            },
        }
    }
}

/// Whether a byte may stand in an HTTP header name: an ASCII letter or digit,
/// or one of `! # $ % & ' * + - . ^ _ ` | ~`.
pub open spec fn is_token_byte(b: u8) -> bool {
    ||| 48 <= b <= 57
    ||| 65 <= b <= 90
    ||| 97 <= b <= 122
    ||| b == 33 || b == 35 || b == 36 || b == 37 || b == 38 || b == 39
    ||| b == 42 || b == 43 || b == 45 || b == 46
    ||| b == 94 || b == 95 || b == 96 || b == 124 || b == 126
}

/// Whether HTTP accepts a header name: 1 to 65535 bytes, each a token byte.
pub open spec fn header_name_valid(bytes: Seq<u8>) -> bool {
    1 <= bytes.len() <= 65535 && forall|i: int| 0 <= i < bytes.len() ==> is_token_byte(#[trigger] bytes[i])
}

/// Whether HTTP accepts a header value: every byte is a tab, or at least 32
/// and not 127.
pub open spec fn header_value_valid(bytes: Seq<u8>) -> bool {
    forall|i: int| 0 <= i < bytes.len() ==> (#[trigger] bytes[i] >= 32 && bytes[i] != 127) || bytes[i] == 9
}

/// `HeaderName::from_str` of the `http` crate, as `reqwest::header` exports
/// it. Its source maps each byte through a table of token characters and
/// refuses an empty name, a name longer than 65535 bytes, or a byte outside
/// the table; the contract states exactly that.
#[verifier::external_body]
fn header_name_accepted(name: &str) -> (r: bool)
    ensures
        r == header_name_valid(encode_utf8(name@)),
{
    name.parse::<reqwest::header::HeaderName>().is_ok()
}

/// `HeaderValue::from_str` of the `http` crate, as `reqwest::header` exports
/// it. Its source refuses a text with a byte below 32 other than a tab, or
/// the byte 127; the contract states exactly that.
#[verifier::external_body]
fn header_value_accepted(value: &str) -> (r: bool)
    ensures
        r == header_value_valid(encode_utf8(value@)),
{
    value.parse::<reqwest::header::HeaderValue>().is_ok()
}

/// The texts of the entries of a string map, in order.
pub open spec fn entry_views(s: Seq<(String, String)>) -> Seq<(Seq<char>, Seq<char>)> {
    Seq::new(s.len(), |i: int| (s[i].0@, s[i].1@))
}

/// The headers that HTTP accepts, in order; the others are left out.
pub open spec fn usable_header_pairs(s: Seq<(Seq<char>, Seq<char>)>) -> Seq<(Seq<char>, Seq<char>)>
    decreases s.len(),
{
    if s.len() == 0 {
        Seq::empty()
    } else {
        let rest = usable_header_pairs(s.drop_last());
        let (k, v) = s.last();
        if header_name_valid(encode_utf8(k)) && header_value_valid(encode_utf8(v)) { rest.push((k, v)) } else { rest }
    }
}

/// The headers an HTTP transport sends: those whose name and value HTTP
/// accepts, in the order of the map.
pub fn usable_headers(headers: &StrMap<String>) -> (r: Vec<(String, String)>)
    ensures
        pair_views(r@) == usable_header_pairs(entry_views(headers.entries())),
{
    let n = headers.len();
    let mut r: Vec<(String, String)> = Vec::new();
    let mut i: usize = 0;
    while i < n
        invariant
            n == headers.entries().len(),
            i <= n,
            pair_views(r@) == usable_header_pairs(entry_views(headers.entries()).take(i as int)),
        decreases n - i,
    {
        let (k, v) = headers.entry_at(i);
        let ghost es = entry_views(headers.entries());
        assert(es.take(i + 1).drop_last() =~= es.take(i as int));
        assert(es.take(i + 1).last() == (k@, v@));
        if header_name_accepted(k.as_str()) && header_value_accepted(v.as_str()) {
            let ghost before = pair_views(r@);
            r.push((k.clone(), v.clone()));
            assert(pair_views(r@) =~= before.push((k@, v@)));
        }
        i = i + 1;
    }
    assert(entry_views(headers.entries()).take(n as int) =~= entry_views(headers.entries()));
    r
}

/// The URL a request goes to: for SSE the endpoint followed by `/message`,
/// else the endpoint.
pub open spec fn request_url_of(endpoint: Seq<char>, transport_type: TransportType) -> Seq<char> {
    if transport_type == TransportType::Sse { endpoint + "/message"@ } else { endpoint }
}

/// The URL a request goes to.
pub fn request_url(endpoint: &str, transport_type: TransportType) -> (r: String)
    ensures
        r@ == request_url_of(endpoint@, transport_type),
{
    if transport_type == TransportType::Sse {
        let mut s = endpoint.to_owned();
        append_str(&mut s, "/message");
        s
    } else {
        endpoint.to_owned()
    }
}

/// Numbers the requests of a transport: 1, 2, 3, ...
#[derive(Debug)]
pub struct RequestCounter {
    request_id: u64,
}

impl RequestCounter {
    /// A counter that has given no number yet.
    pub fn new() -> (r: Self)
        ensures
            r.last_id() == 0,
    {
        RequestCounter { request_id: 0 }
    }

    /// The number given last, 0 before the first.
    pub closed spec fn last_id(&self) -> u64 {
        self.request_id
    }

    /// The next number: one more than the last.
    pub fn next_id(&mut self) -> (r: u64)
        requires
            old(self).last_id() < u64::MAX,
        ensures
            r == old(self).last_id() + 1,
            final(self).last_id() == r,
    {
        self.request_id = self.request_id + 1;
        self.request_id
    }
}

/// The message of a JSON-RPC error: "RPC error <code>: <message>".
pub open spec fn rpc_error_message(code: i64, message: Seq<char>) -> Seq<char> {
    "RPC error "@ + signed_decimal(code as int) + ": "@ + message
}

/// The result of a JSON-RPC response; its error becomes a transport error.
pub fn rpc_outcome<T>(result: JsonRpcResult<T>) -> (r: Result<T, MCPError>)
    ensures
        match result {
            JsonRpcResult::Result(v) => r == Ok::<T, MCPError>(v),
            JsonRpcResult::Error(err) => r matches Err(e) && e.code == ErrorCode::TransportError
                && e.message@ == rpc_error_message(err.code, err.message@) && e.details is None,
        },
{
    match result {
        JsonRpcResult::Result(v) => Ok(v),
        JsonRpcResult::Error(err) => {
            let mut text = "RPC error ".to_owned();
            append_str(&mut text, i64_to_decimal(err.code).as_str());
            append_str(&mut text, ": ");
            append_str(&mut text, err.message.as_str());
            Err(MCPError::transport_error(text.as_str()))
        },
    }
}

} // verus!
