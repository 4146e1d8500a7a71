use rmcp::domain::value_objects::{OutputFormat, TransportType};

#[test]
fn test_transport_type_infer() {
    assert_eq!(TransportType::infer(Some("sse"), None, None), TransportType::Sse);
    assert_eq!(TransportType::infer(None, Some("http://example.com/sse"), None), TransportType::Sse);
    assert_eq!(TransportType::infer(None, None, Some("mycommand")), TransportType::Stdio);
    assert_eq!(TransportType::infer(None, Some("http://example.com/stream"), None), TransportType::Streamable);
    assert_eq!(TransportType::infer(None, None, None), TransportType::Streamable);
}

#[test]
fn test_output_format_from_str() {
    assert_eq!(OutputFormat::from_str("json"), Some(OutputFormat::Json));
    assert_eq!(OutputFormat::from_str("yaml"), Some(OutputFormat::Yaml));
    assert_eq!(OutputFormat::from_str("YAML"), Some(OutputFormat::Yaml));
    assert_eq!(OutputFormat::from_str("text"), Some(OutputFormat::Text));
    assert_eq!(OutputFormat::from_str("invalid"), None);
}

#[test]
fn transport_names() {
    assert_eq!(TransportType::from_str("Streamable-HTTP"), TransportType::Streamable);
    assert_eq!(TransportType::from_str("SSE"), TransportType::Sse);
    assert_eq!(TransportType::from_str("command"), TransportType::Stdio);
    assert_eq!(TransportType::from_str("stdio"), TransportType::Stdio);
    assert_eq!(TransportType::from_str("other"), TransportType::Streamable);
    assert_eq!(TransportType::Sse.to_string(), "sse");
    assert_eq!(TransportType::Streamable.to_string(), "streamable");
    assert_eq!(TransportType::Stdio.to_string(), "stdio");
    assert_eq!(TransportType::default(), TransportType::Streamable);
}

#[test]
fn infer_prefers_explicit_then_command() {
    assert_eq!(TransportType::infer(Some("stdio"), Some("http://h/sse"), None), TransportType::Stdio);
    assert_eq!(TransportType::infer(None, Some("http://h/SSE"), Some("run")), TransportType::Stdio);
    assert_eq!(TransportType::infer(None, Some("http://h/SSE"), Some("")), TransportType::Sse);
}

#[test]
fn output_format_names() {
    assert_eq!(OutputFormat::from_str("yml"), Some(OutputFormat::Yaml));
    assert_eq!(OutputFormat::from_str("Text"), Some(OutputFormat::Text));
    assert_eq!(OutputFormat::Json.to_string(), "json");
    assert_eq!(OutputFormat::Yaml.to_string(), "yaml");
    assert_eq!(OutputFormat::Text.to_string(), "text");
    assert_eq!(OutputFormat::default(), OutputFormat::Json);
}
