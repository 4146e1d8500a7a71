//! Domain errors: the error codes and the error type of MCP operations.

use vstd::prelude::*;
use crate::json::{Json, JsonValue, entries_model};
use crate::text::{
    append_str, contains, debug_quoted, debug_str, lowercase, str_contains, to_lowercase,
};

verus! {

/// Error codes for MCP operations.
#[derive(Debug, Clone, Copy, PartialEq, Eq, Structural)]
pub enum ErrorCode {
    ConfigNotFound,
    ConnectFailed,
    ServerNotFound,
    MethodNotFound,
    MethodAmbiguous,
    CallFailed,
    ParamInvalid,
    AuthFailed,
    TransportError,
    ParseError,
    InternalError,
}

/// The name by which an error code is shown.
pub open spec fn code_name(c: ErrorCode) -> Seq<char> {
    match c {
        ErrorCode::ConfigNotFound => "MCP_CONFIG_NOT_FOUND"@,
        ErrorCode::ConnectFailed => "MCP_CONNECT_FAILED"@,
        ErrorCode::ServerNotFound => "MCP_SERVER_NOT_FOUND"@,
        ErrorCode::MethodNotFound => "MCP_METHOD_NOT_FOUND"@,
        ErrorCode::MethodAmbiguous => "MCP_METHOD_AMBIGUOUS"@,
        ErrorCode::CallFailed => "MCP_CALL_FAILED"@,
        ErrorCode::ParamInvalid => "MCP_PARAM_INVALID"@,
        ErrorCode::AuthFailed => "MCP_AUTH_FAILED"@,
        ErrorCode::TransportError => "MCP_TRANSPORT_ERROR"@,
        ErrorCode::ParseError => "MCP_PARSE_ERROR"@,
        ErrorCode::InternalError => "MCP_INTERNAL_ERROR"@,
    }
}

impl ErrorCode {
    /// The name by which the code is shown, such as "MCP_CONFIG_NOT_FOUND".
    pub fn to_string(&self) -> (r: String)
        ensures
            r@ == code_name(*self),
    {
        match self {
            ErrorCode::ConfigNotFound => "MCP_CONFIG_NOT_FOUND".to_owned(),
            ErrorCode::ConnectFailed => "MCP_CONNECT_FAILED".to_owned(),
            ErrorCode::ServerNotFound => "MCP_SERVER_NOT_FOUND".to_owned(),
            ErrorCode::MethodNotFound => "MCP_METHOD_NOT_FOUND".to_owned(),
            ErrorCode::MethodAmbiguous => "MCP_METHOD_AMBIGUOUS".to_owned(),
            ErrorCode::CallFailed => "MCP_CALL_FAILED".to_owned(),
            ErrorCode::ParamInvalid => "MCP_PARAM_INVALID".to_owned(),
            ErrorCode::AuthFailed => "MCP_AUTH_FAILED".to_owned(),
            ErrorCode::TransportError => "MCP_TRANSPORT_ERROR".to_owned(),
            ErrorCode::ParseError => "MCP_PARSE_ERROR".to_owned(),
            ErrorCode::InternalError => "MCP_INTERNAL_ERROR".to_owned(),
        }
    }
}

/// The error of MCP operations: a code, a message and optional details.
#[derive(Debug, Clone)]
pub struct MCPError {
    pub code: ErrorCode,
    pub message: String,
    pub details: Option<Vec<(String, JsonValue)>>,
}

/// The model of the optional details of an error.
pub open spec fn details_model(d: Option<Vec<(String, JsonValue)>>) -> Option<Seq<(Seq<char>, Json)>> {
    match d {
        Some(v) => Some(entries_model(v@)),
        None => None,
    }
}

/// The texts that mark a connection or transport error as worth retrying.
pub open spec fn retryable_patterns() -> Seq<Seq<char>> {
    seq![
        "connection refused"@,
        "connection reset"@,
        "connection timed out"@,
        "timeout"@,
        "temporary failure"@,
        "i/o timeout"@,
        "network unreachable"@,
        "no such host"@,
        "use of closed network connection"@,
    ]
}

/// An error is retryable when it is a connection or transport error whose
/// lowercased message holds one of the retryable patterns.
pub open spec fn is_retryable_error(code: ErrorCode, message: Seq<char>) -> bool {
    (code == ErrorCode::ConnectFailed || code == ErrorCode::TransportError)
        && exists|i: int| 0 <= i < retryable_patterns().len()
            && contains(lowercase(message), #[trigger] retryable_patterns()[i])
}

/// The message of a server that is not in the configuration.
pub open spec fn server_not_found_message(server: Seq<char>) -> Seq<char> {
    "Server "@ + debug_quoted(server) + " not found in config"@
}

/// The message of a tool that is not on a server.
pub open spec fn method_not_found_message(method: Seq<char>, server: Seq<char>) -> Seq<char> {
    "Tool "@ + debug_quoted(method) + " not found on server "@ + debug_quoted(server)
}

/// The message of a failed tool call.
pub open spec fn call_failed_message(method: Seq<char>, server: Seq<char>, err: Seq<char>) -> Seq<char> {
    "Failed to call tool "@ + debug_quoted(method) + " on server "@ + debug_quoted(server) + ": "@ + err
}

/// Details naming a server.
pub open spec fn server_details(server: Seq<char>) -> Seq<(Seq<char>, Json)> {
    seq![("server"@, Json::Str(server))]
}

/// Details naming a method and a server.
pub open spec fn method_details(method: Seq<char>, server: Seq<char>) -> Seq<(Seq<char>, Json)> {
    seq![("method"@, Json::Str(method)), ("server"@, Json::Str(server))]
}

impl MCPError {
    /// An error with a code and a message and no details.
    pub fn new(code: ErrorCode, message: &str) -> (r: Self)
        ensures
            r.code == code,
            r.message@ == message@,
            r.details is None,
    {
        MCPError { code, message: message.to_owned(), details: None }
    }

    /// An error with a code, a message and details.
    pub fn with_details(code: ErrorCode, message: &str, details: Vec<(String, JsonValue)>) -> (r: Self)
        ensures
            r.code == code,
            r.message@ == message@,
            r.details == Some(details),
    {
        MCPError { code, message: message.to_owned(), details: Some(details) }
    }

    /// No configuration file was found.
    pub fn config_not_found(message: &str) -> (r: Self)
        ensures
            r.code == ErrorCode::ConfigNotFound,
            r.message@ == message@,
            r.details is None,
    {
        Self::new(ErrorCode::ConfigNotFound, message)
    }

    /// Connecting to a server failed; the details name the server.
    pub fn connect_failed(server: &str, message: &str) -> (r: Self)
        ensures
            r.code == ErrorCode::ConnectFailed,
            r.message@ == message@,
            details_model(r.details) == Some(server_details(server@)),
    {
        let mut details: Vec<(String, JsonValue)> = Vec::new();
        details.push(("server".to_owned(), JsonValue::from_str(server)));
        let r = Self::with_details(ErrorCode::ConnectFailed, message, details);
        assert(entries_model(r.details->0@) =~= server_details(server@));
        r
    }

    /// A server is not in the configuration; the details name the server.
    pub fn server_not_found(server: &str) -> (r: Self)
        ensures
            r.code == ErrorCode::ServerNotFound,
            r.message@ == server_not_found_message(server@),
            details_model(r.details) == Some(server_details(server@)),
    {
        let mut message = "Server ".to_owned();
        append_str(&mut message, debug_str(server).as_str());
        append_str(&mut message, " not found in config");
        let mut details: Vec<(String, JsonValue)> = Vec::new();
        details.push(("server".to_owned(), JsonValue::from_str(server)));
        let r = Self::with_details(ErrorCode::ServerNotFound, message.as_str(), details);
        assert(entries_model(r.details->0@) =~= server_details(server@));
        r
    }

    /// A tool is not on a server; the details name the method and the server.
    pub fn method_not_found(method: &str, server: &str) -> (r: Self)
        ensures
            r.code == ErrorCode::MethodNotFound,
            r.message@ == method_not_found_message(method@, server@),
            details_model(r.details) == Some(method_details(method@, server@)),
    {
        let mut message = "Tool ".to_owned();
        append_str(&mut message, debug_str(method).as_str());
        append_str(&mut message, " not found on server ");
        append_str(&mut message, debug_str(server).as_str());
        let mut details: Vec<(String, JsonValue)> = Vec::new();
        details.push(("method".to_owned(), JsonValue::from_str(method)));
        details.push(("server".to_owned(), JsonValue::from_str(server)));
        let r = Self::with_details(ErrorCode::MethodNotFound, message.as_str(), details);
        assert(entries_model(r.details->0@) =~= method_details(method@, server@));
        r
    }

    /// Calling a tool failed with the error text `err`; the details name the
    /// method and the server.
    pub fn call_failed(method: &str, server: &str, err: &str) -> (r: Self)
        ensures
            r.code == ErrorCode::CallFailed,
            r.message@ == call_failed_message(method@, server@, err@),
            details_model(r.details) == Some(method_details(method@, server@)),
    {
        let mut message = "Failed to call tool ".to_owned();
        append_str(&mut message, debug_str(method).as_str());
        append_str(&mut message, " on server ");
        append_str(&mut message, debug_str(server).as_str());
        append_str(&mut message, ": ");
        append_str(&mut message, err);
        let mut details: Vec<(String, JsonValue)> = Vec::new();
        details.push(("method".to_owned(), JsonValue::from_str(method)));
        details.push(("server".to_owned(), JsonValue::from_str(server)));
        let r = Self::with_details(ErrorCode::CallFailed, message.as_str(), details);
        assert(entries_model(r.details->0@) =~= method_details(method@, server@));
        r
    }

    /// An invalid parameter.
    pub fn param_invalid(message: &str) -> (r: Self)
        ensures
            r.code == ErrorCode::ParamInvalid,
            r.message@ == message@,
            r.details is None,
    {
        Self::new(ErrorCode::ParamInvalid, message)
    }

    /// Authentication failed.
    pub fn auth_failed(message: &str) -> (r: Self)
        ensures
            r.code == ErrorCode::AuthFailed,
            r.message@ == message@,
            r.details is None,
    {
        Self::new(ErrorCode::AuthFailed, message)
    }

    /// A transport error.
    pub fn transport_error(message: &str) -> (r: Self)
        ensures
            r.code == ErrorCode::TransportError,
            r.message@ == message@,
            r.details is None,
    {
        Self::new(ErrorCode::TransportError, message)
    }

    /// A parse error.
    pub fn parse_error(message: &str) -> (r: Self)
        ensures
            r.code == ErrorCode::ParseError,
            r.message@ == message@,
            r.details is None,
    {
        Self::new(ErrorCode::ParseError, message)
    }

    /// An internal error.
    pub fn internal_error(message: &str) -> (r: Self)
        ensures
            r.code == ErrorCode::InternalError,
            r.message@ == message@,
            r.details is None,
    {
        Self::new(ErrorCode::InternalError, message)
    }

    /// Whether the error is worth retrying: a connection or transport error
    /// whose lowercased message holds one of the retryable patterns.
    pub fn is_retryable(&self) -> (r: bool)
        ensures
            r == is_retryable_error(self.code, self.message@),
    {
        match self.code {
            ErrorCode::ConnectFailed | ErrorCode::TransportError => {
                let msg = to_lowercase(self.message.as_str());
                let patterns: [&str; 9] = [
                    "connection refused",
                    "connection reset",
                    "connection timed out",
                    "timeout",
                    "temporary failure",
                    "i/o timeout",
                    "network unreachable",
                    "no such host",
                    "use of closed network connection",
                ];
                proof {
                    reveal_strlit("connection refused");
                }
                let mut i: usize = 0;
                while i < 9
                    invariant
                        i <= 9,
                        self.code == ErrorCode::ConnectFailed || self.code == ErrorCode::TransportError,
                        msg@ == lowercase(self.message@),
                        forall|k: int| 0 <= k < 9 ==> #[trigger] patterns@[k]@ == retryable_patterns()[k],
                        forall|k: int| 0 <= k < i ==> !contains(msg@, #[trigger] retryable_patterns()[k]),
                    decreases 9 - i,
                {
                    if str_contains(msg.as_str(), patterns[i]) {
                        assert(contains(msg@, retryable_patterns()[i as int]));
                        return true;
                    }
                    i = i + 1;
                }
                false
            },
            _ => false,
        }
    }

    /// The error as it is shown: "[CODE] message".
    pub fn to_string(&self) -> (r: String)
        ensures
            r@ == "["@ + code_name(self.code) + "] "@ + self.message@,
    {
        let mut s = "[".to_owned();
        append_str(&mut s, self.code.to_string().as_str());
        append_str(&mut s, "] ");
        append_str(&mut s, self.message.as_str());
        s
    }
}


/// An error is worth retrying exactly when it is a connection or transport
/// error whose lowercase message holds one of "connection refused",
/// "connection reset", "connection timed out", "timeout", "temporary
/// failure", "i/o timeout", "network unreachable", "no such host" or "use of
/// closed network connection".
pub proof fn law_retryable_messages(code: ErrorCode, message: Seq<char>)
    ensures
        is_retryable_error(code, message) <==> (
            (code == ErrorCode::ConnectFailed || code == ErrorCode::TransportError) && {
                let l = lowercase(message);
                ||| contains(l, "connection refused"@)
                ||| contains(l, "connection reset"@)
                ||| contains(l, "connection timed out"@)
                ||| contains(l, "timeout"@)
                ||| contains(l, "temporary failure"@)
                ||| contains(l, "i/o timeout"@)
                ||| contains(l, "network unreachable"@)
                ||| contains(l, "no such host"@)
                ||| contains(l, "use of closed network connection"@)
            }
        ),
{
    let l = lowercase(message);
    let ps = retryable_patterns();
    assert(ps.len() == 9);
    assert(ps[0] == "connection refused"@);
    assert(ps[1] == "connection reset"@);
    assert(ps[2] == "connection timed out"@);
    assert(ps[3] == "timeout"@);
    assert(ps[4] == "temporary failure"@);
    assert(ps[5] == "i/o timeout"@);
    assert(ps[6] == "network unreachable"@);
    assert(ps[7] == "no such host"@);
    assert(ps[8] == "use of closed network connection"@);
    if exists|i: int| 0 <= i < ps.len() && contains(l, #[trigger] ps[i]) {
        let i = choose|i: int| 0 <= i < ps.len() && contains(l, #[trigger] ps[i]);
        assert(i == 0 || i == 1 || i == 2 || i == 3 || i == 4 || i == 5 || i == 6 || i == 7 || i == 8);
    }
}

} // verus!
