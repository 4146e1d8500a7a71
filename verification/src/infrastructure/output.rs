//! Console output: which rendering each output format asks for, and the
//! shape of the error report. Writing the rendered text is left to the
//! program around the library.

use vstd::prelude::*;
use crate::application::dto::OutputFormat;
use crate::json::{entries_model, object, push_entry, Json, JsonValue};

verus! {

/// How a value is turned into text.
#[derive(Debug, Clone, Copy, PartialEq, Eq, Structural)]
pub enum Rendering {
    /// JSON, indented over several lines.
    PrettyJson,
    /// YAML.
    Yaml,
    /// JSON on one line.
    CompactJson,
}

/// The rendering a format asks for when a successful result is shown.
pub open spec fn result_rendering(f: OutputFormat) -> Rendering {
    match f {
        OutputFormat::Json => Rendering::PrettyJson,
        OutputFormat::Yaml => Rendering::Yaml,
        OutputFormat::Text => Rendering::CompactJson,
    }
}

/// The rendering a format asks for when an error is shown: YAML for the YAML
/// format, indented JSON for the others.
pub open spec fn error_rendering_of(f: OutputFormat) -> Rendering {
    match f {
        OutputFormat::Yaml => Rendering::Yaml,
        _ => Rendering::PrettyJson,
    }
}

/// The error report: `success` false, the error's code, message and details
/// (null when there are none), and the time and version it was made at.
pub open spec fn error_envelope_model(code: Seq<char>, message: Seq<char>, details: Option<Json>, timestamp: Seq<char>, version: Seq<char>) -> Json {
    Json::Object(seq![
        ("success"@, Json::Bool(false)),
        ("error"@, Json::Object(seq![
            ("code"@, Json::Str(code)),
            ("message"@, Json::Str(message)),
            ("details"@, match details { Some(d) => d, None => Json::Null }),
        ])),
        ("meta"@, Json::Object(seq![
            ("timestamp"@, Json::Str(timestamp)),
            ("version"@, Json::Str(version)),
        ])),
    ])
}

/// The model of an optional JSON value.
pub open spec fn opt_model(v: Option<JsonValue>) -> Option<Json> {
    match v {
        Some(d) => Some(d.model()),
        None => None,
    }
}

/// Console output in one format.
pub struct ConsoleOutput {
    format: OutputFormat,
}

impl ConsoleOutput {
    /// The format the output was made with.
    pub closed spec fn spec_format(&self) -> OutputFormat {
        self.format
    }

    /// Console output in the given format.
    pub fn new(format: OutputFormat) -> (r: Self)
        ensures
            r.spec_format() == format,
    {
        ConsoleOutput { format }
    }

    /// The same output, now in the given format.
    pub fn with_format(self, format: OutputFormat) -> (r: Self)
        ensures
            r.spec_format() == format,
    {
        let mut s = self;
        s.format = format;
        s
    }

    /// The format of this output.
    pub fn format(&self) -> (r: OutputFormat)
        ensures
            r == self.spec_format(),
    {
        self.format
    }

    /// How a successful result is rendered in this output's format:
    /// indented JSON for JSON, YAML for YAML, one-line JSON for text.
    pub fn result_rendering(&self) -> (r: Rendering)
        ensures
            r == result_rendering(self.spec_format()),
    {
        match self.format {
            OutputFormat::Json => Rendering::PrettyJson,
            OutputFormat::Yaml => Rendering::Yaml,
            OutputFormat::Text => Rendering::CompactJson,
        }
    }

    /// How an error is rendered in this output's format.
    pub fn error_rendering(&self) -> (r: Rendering)
        ensures
            r == error_rendering_of(self.spec_format()),
    {
        match self.format {
            OutputFormat::Yaml => Rendering::Yaml,
            _ => Rendering::PrettyJson,
        }
    }

    /// The error report for a code, a message and optional details, made at
    /// `timestamp` by the program of version `version`.
    pub fn error_envelope(code: &str, message: &str, details: Option<JsonValue>, timestamp: &str, version: &str) -> (r: JsonValue)
        ensures
            r.model() == error_envelope_model(
                code@,
                message@,
                opt_model(details),
                timestamp@,
                version@,
            ),
    {
        let ghost dm: Option<Json> = opt_model(details);
        let mut err: Vec<(String, JsonValue)> = Vec::new();
        push_entry(&mut err, "code", JsonValue::Str(code.to_owned()));
        push_entry(&mut err, "message", JsonValue::Str(message.to_owned()));
        let d = match details {
            Some(v) => v,
            None => JsonValue::Null,
        };
        push_entry(&mut err, "details", d);
        assert(entries_model(err@) =~= seq![
            ("code"@, Json::Str(code@)),
            ("message"@, Json::Str(message@)),
            ("details"@, match dm { Some(x) => x, None => Json::Null }),
        ]);
        let mut meta: Vec<(String, JsonValue)> = Vec::new();
        push_entry(&mut meta, "timestamp", JsonValue::Str(timestamp.to_owned()));
        push_entry(&mut meta, "version", JsonValue::Str(version.to_owned()));
        assert(entries_model(meta@) =~= seq![
            ("timestamp"@, Json::Str(timestamp@)),
            ("version"@, Json::Str(version@)),
        ]);
        let mut top: Vec<(String, JsonValue)> = Vec::new();
        push_entry(&mut top, "success", JsonValue::Bool(false));
        push_entry(&mut top, "error", object(err));
        push_entry(&mut top, "meta", object(meta));
        let r = object(top);
        proof {
            let m = r.model();
            assert(m->Object_0 =~= error_envelope_model(code@, message@, dm, timestamp@, version@)->Object_0);
        }
        r
    }
}

impl Default for ConsoleOutput {
    fn default() -> (r: Self)
        ensures
            r.spec_format() == OutputFormat::Json,
    {
        ConsoleOutput::new(OutputFormat::Json)
    }
}

/// Output that renders results in the format it was made with.
pub struct OutputHandler {
    format: OutputFormat,
}

impl OutputHandler {
    /// The format results are rendered in.
    pub closed spec fn spec_format(&self) -> OutputFormat {
        self.format
    }

    /// An output handler for JSON.
    pub fn new() -> (r: Self)
        ensures
            r.spec_format() == OutputFormat::Json,
    {
        OutputHandler { format: OutputFormat::Json }
    }

    /// Console output in the given format.
    pub fn with_format(format: OutputFormat) -> (r: ConsoleOutput)
        ensures
            r.spec_format() == format,
    {
        ConsoleOutput::new(format)
    }

    /// How a successful result is rendered: indented JSON for JSON, YAML for
    /// YAML, one-line JSON for text.
    pub fn rendering(&self) -> (r: Rendering)
        ensures
            r == result_rendering(self.spec_format()),
    {
        match self.format {
            OutputFormat::Json => Rendering::PrettyJson,
            OutputFormat::Yaml => Rendering::Yaml,
            OutputFormat::Text => Rendering::CompactJson,
        }
    }
}

impl Default for OutputHandler {
    fn default() -> (r: Self)
        ensures
            r.spec_format() == OutputFormat::Json,
    {
        OutputHandler::new()
    }
}

} // verus!
