use rmcp::application::dto::OutputFormat;
use rmcp::domain::errors::MCPError;
use rmcp::infrastructure::output::{ConsoleOutput, Rendering};
use rmcp::json::JsonValue;
use rmcp::presentation::commands::{handle_error, param_source, ParamSource};

#[test]
fn parameter_sources_in_order() {
    let file = Some("f.yaml".to_string());
    let inline = Some("a: 1".to_string());
    let none: Option<String> = None;
    assert_eq!(param_source(&file, &inline, true), ParamSource::YamlFile("f.yaml".to_string()));
    assert_eq!(param_source(&file, &none, false), ParamSource::YamlFile("f.yaml".to_string()));
    assert_eq!(param_source(&none, &inline, true), ParamSource::InlineYaml("a: 1".to_string()));
    assert_eq!(param_source(&none, &none, true), ParamSource::Stdin);
    assert_eq!(param_source(&none, &none, false), ParamSource::KeyValue);
}

#[test]
fn error_report() {
    let out = ConsoleOutput::new(OutputFormat::Yaml);
    let (rendering, report) = handle_error(&out, &MCPError::server_not_found("s"), "t", "v");
    assert_eq!(rendering, Rendering::Yaml);
    match report {
        JsonValue::Object(top) => {
            assert_eq!(top[0], ("success".to_string(), JsonValue::Bool(false)));
            match &top[1].1 {
                JsonValue::Object(err) => {
                    assert_eq!(err[0].1, JsonValue::Str("MCP_SERVER_NOT_FOUND".to_string()));
                    assert_eq!(err[1].1, JsonValue::Str("Server \"s\" not found in config".to_string()));
                    assert_eq!(
                        err[2].1,
                        JsonValue::Object(vec![("server".to_string(), JsonValue::Str("s".to_string()))])
                    );
                }
                _ => panic!("error is an object"),
            }
        }
        _ => panic!("report is an object"),
    }
}
