//! Tool parameters from the command line: `key=value` arguments, and the
//! checks and errors around YAML that comes from standard input or a file.

use vstd::prelude::*;
use crate::domain::errors::MCPError;
use crate::domain::services::{is_param_error, json_map, kv_parameters, string_views, trim, trimmed, yaml_outcome, ParamParser};
use crate::json::{Json, JsonValue};
use crate::strmap::StrMap;
use crate::text::{append_str, debug_quoted, debug_str};

verus! {

/// The message of standard input that holds nothing but white space.
pub open spec fn empty_stdin_message() -> Seq<char> {
    "empty stdin input"@
}

/// The message of a failed read of standard input.
pub open spec fn stdin_read_message(err: Seq<char>) -> Seq<char> {
    "Failed to read stdin: "@ + err
}

/// The message of a YAML file that could not be read.
pub open spec fn yaml_file_message(path: Seq<char>, err: Seq<char>) -> Seq<char> {
    "Cannot read YAML file "@ + debug_quoted(path) + ": "@ + err
}

/// Parameters from the command line.
pub struct CliParamParser;

impl CliParamParser {
    /// A parameter parser.
    pub fn new() -> (r: Self)
        ensures
            r == CliParamParser,
    {
        CliParamParser
    }

    /// The parameters of `key=value` and `key:type=value` arguments, as
    /// `ParamParser::parse_kv_args` gives them.
    pub fn parse_kv_args(&self, args: &[String]) -> (r: Result<StrMap<JsonValue>, MCPError>)
        ensures
            match r {
                Ok(m) => kv_parameters(string_views(args@)) == Ok::<Map<Seq<char>, Json>, Seq<char>>(json_map(m)),
                Err(e) => kv_parameters(string_views(args@)) is Err
                    && is_param_error(e, kv_parameters(string_views(args@))->Err_0),
            },
    {
        ParamParser::parse_kv_args(args)
    }

    /// The parameters of YAML text, as `ParamParser::parse_yaml` gives them.
    pub fn parse_yaml(&self, yaml_str: &str) -> (r: Result<StrMap<JsonValue>, MCPError>)
        ensures
            match r {
                Ok(m) => yaml_outcome(yaml_str@) == Ok::<Map<Seq<char>, Json>, Seq<char>>(json_map(m)),
                Err(e) => yaml_outcome(yaml_str@) is Err && is_param_error(e, yaml_outcome(yaml_str@)->Err_0),
            },
    {
        ParamParser::parse_yaml(yaml_str)
    }

    /// Standard input that was read whole: a parameter error "empty stdin
    /// input" when it holds nothing but white space, else its text, for the
    /// YAML parser.
    pub fn stdin_text(data: &str) -> (r: Result<String, MCPError>)
        ensures
            match r {
                Ok(t) => t@ == data@ && trimmed(data@).len() > 0,
                Err(e) => trimmed(data@).len() == 0 && is_param_error(e, empty_stdin_message()),
            },
    {
        let t = trim(data);
        if t.as_str().is_empty() {
            Err(MCPError::param_invalid("empty stdin input"))
        } else {
            Ok(data.to_owned())
        }
    }

    /// The parameter error for a read of standard input that failed with the
    /// given error text.
    pub fn stdin_read_error(err: &str) -> (r: MCPError)
        ensures
            is_param_error(r, stdin_read_message(err@)),
    {
        let mut text = "Failed to read stdin: ".to_owned();
        append_str(&mut text, err);
        MCPError::param_invalid(text.as_str())
    }

    /// The parameter error for a YAML file at `path` that could not be read,
    /// with the given error text.
    pub fn yaml_file_error(path: &str, err: &str) -> (r: MCPError)
        ensures
            is_param_error(r, yaml_file_message(path@, err@)),
    {
        let mut text = "Cannot read YAML file ".to_owned();
        let quoted = debug_str(path);
        append_str(&mut text, quoted.as_str());
        append_str(&mut text, ": ");
        append_str(&mut text, err);
        MCPError::param_invalid(text.as_str())
    }
}

impl Default for CliParamParser {
    fn default() -> (r: Self)
        ensures
            r == CliParamParser,
    {
        CliParamParser::new()
    }
}

} // verus!
