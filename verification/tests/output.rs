use rmcp::application::dto::OutputFormat;
use rmcp::infrastructure::output::{ConsoleOutput, OutputHandler, Rendering};
use rmcp::json::JsonValue;

fn obj(entries: Vec<(&str, JsonValue)>) -> JsonValue {
    JsonValue::Object(entries.into_iter().map(|(k, v)| (k.to_string(), v)).collect())
}

#[test]
fn test_console_output_new() {
    let output = ConsoleOutput::new(OutputFormat::Json);
    assert_eq!(output.format(), OutputFormat::Json);
}

#[test]
fn renderings() {
    assert_eq!(ConsoleOutput::new(OutputFormat::Yaml).error_rendering(), Rendering::Yaml);
    assert_eq!(ConsoleOutput::new(OutputFormat::Text).error_rendering(), Rendering::PrettyJson);
    assert_eq!(ConsoleOutput::default().with_format(OutputFormat::Yaml).format(), OutputFormat::Yaml);
    assert_eq!(OutputHandler::new().rendering(), Rendering::PrettyJson);
    assert_eq!(OutputHandler::default().rendering(), Rendering::PrettyJson);
    assert_eq!(OutputHandler::with_format(OutputFormat::Text).format(), OutputFormat::Text);
}

#[test]
fn error_envelope_shape() {
    let details = obj(vec![("server", JsonValue::Str("s".to_string()))]);
    let v = ConsoleOutput::error_envelope("MCP_SERVER_NOT_FOUND", "missing", Some(details.clone()), "2024-01-01T00:00:00Z", "0.4.0");
    let expected = obj(vec![
        ("success", JsonValue::Bool(false)),
        ("error", obj(vec![
            ("code", JsonValue::Str("MCP_SERVER_NOT_FOUND".to_string())),
            ("message", JsonValue::Str("missing".to_string())),
            ("details", details),
        ])),
        ("meta", obj(vec![
            ("timestamp", JsonValue::Str("2024-01-01T00:00:00Z".to_string())),
            ("version", JsonValue::Str("0.4.0".to_string())),
        ])),
    ]);
    assert_eq!(v, expected);
    let v = ConsoleOutput::error_envelope("C", "m", None, "t", "v");
    match v {
        JsonValue::Object(top) => match &top[1].1 {
            JsonValue::Object(err) => assert_eq!(err[2], ("details".to_string(), JsonValue::Null)),
            _ => panic!("error is an object"),
        },
        _ => panic!("envelope is an object"),
    }
}

#[test]
fn result_renderings() {
    assert_eq!(ConsoleOutput::new(OutputFormat::Json).result_rendering(), Rendering::PrettyJson);
    assert_eq!(ConsoleOutput::new(OutputFormat::Yaml).result_rendering(), Rendering::Yaml);
    assert_eq!(ConsoleOutput::new(OutputFormat::Text).result_rendering(), Rendering::CompactJson);
}
