//! Command handling: where the parameters of a tool call come from, and the
//! report of an error.

use vstd::prelude::*;
use crate::application::use_cases::error_details;
use crate::domain::errors::{code_name, details_model, MCPError};
use crate::infrastructure::output::{error_envelope_model, error_rendering_of, ConsoleOutput, Rendering};
use crate::json::{Json, JsonValue};
use crate::text::clone_opt_string;

verus! {

/// Where the parameters of a tool call come from.
#[derive(Debug, Clone, PartialEq, Eq)]
pub enum ParamSource {
    /// A YAML file at this path.
    YamlFile(String),
    /// YAML given inline.
    InlineYaml(String),
    /// YAML piped to standard input.
    Stdin,
    /// `key=value` arguments.
    KeyValue,
}

/// The source of a call's parameters, highest priority first: a YAML file,
/// inline YAML, standard input when it is a pipe, and the `key=value`
/// arguments.
pub open spec fn param_source_for(
    yaml_file: Option<String>,
    yaml_params: Option<String>,
    piped: bool,
) -> ParamSource {
    match yaml_file {
        Some(f) => ParamSource::YamlFile(f),
        None => match yaml_params {
            Some(y) => ParamSource::InlineYaml(y),
            None => if piped { ParamSource::Stdin } else { ParamSource::KeyValue },
        },
    }
}

/// Where the parameters of a call come from, given the YAML options and
/// whether standard input is a pipe.
pub fn param_source(yaml_file: &Option<String>, yaml_params: &Option<String>, piped: bool) -> (r: ParamSource)
    ensures
        r == param_source_for(*yaml_file, *yaml_params, piped),
{
    match clone_opt_string(yaml_file) {
        Some(f) => ParamSource::YamlFile(f),
        None => match clone_opt_string(yaml_params) {
            Some(y) => ParamSource::InlineYaml(y),
            None => if piped { ParamSource::Stdin } else { ParamSource::KeyValue },
        },
    }
}

/// The report of an error: how the output renders it, and the report
/// itself, with the error's code, message and details, made at `timestamp`
/// by the program of version `version`.
pub fn handle_error(output: &ConsoleOutput, err: &MCPError, timestamp: &str, version: &str) -> (r: (Rendering, JsonValue))
    ensures
        r.0 == error_rendering_of(output.spec_format()),
        r.1.model() == error_envelope_model(
            code_name(err.code),
            err.message@,
            match details_model(err.details) { Some(d) => Some(Json::Object(d)), None => None },
            timestamp@,
            version@,
        ),
{
    let code = err.code.to_string();
    let details = error_details(err);
    let envelope = ConsoleOutput::error_envelope(code.as_str(), err.message.as_str(), details, timestamp, version);
    (output.error_rendering(), envelope)
}

} // verus!
