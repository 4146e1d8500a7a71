use rmcp::domain::entities::{CallToolResult, MCPConfig, ServerConfig, Tool, ToolContent};
use rmcp::domain::value_objects::TransportType;
use rmcp::json::JsonValue;

#[test]
fn test_server_config_builder() {
    let config = ServerConfig::new()
        .with_url("http://example.com")
        .with_timeout(5000);

    assert_eq!(config.url, Some("http://example.com".to_string()));
    assert_eq!(config.timeout, Some(5000));
    assert_eq!(config.get_timeout_ms(), 5000);
}

#[test]
fn test_server_config_default_timeout() {
    let config = ServerConfig::new();
    assert_eq!(config.get_timeout_ms(), 30000);
}

#[test]
fn test_mcp_config_merge() {
    let mut config1 = MCPConfig::new().with_server(
        "server1",
        ServerConfig::new().with_url("http://server1.com"),
    );
    let config2 = MCPConfig::new().with_server(
        "server2",
        ServerConfig::new().with_url("http://server2.com"),
    );

    config1.merge(config2);

    assert!(config1.mcp_servers.contains_key("server1"));
    assert!(config1.mcp_servers.contains_key("server2"));
}

#[test]
fn test_call_tool_result_extract_text() {
    let result = CallToolResult::new()
        .with_content(ToolContent::Text {
            text: "Hello".to_string(),
        })
        .with_content(ToolContent::Text {
            text: "World".to_string(),
        });

    let texts = result.extract_text();
    assert_eq!(texts.len(), 2);
    assert_eq!(texts[0], "Hello");
    assert_eq!(texts[1], "World");
}

#[test]
fn merge_prefers_the_other_configuration() {
    let mut first = MCPConfig::new()
        .with_server("a", ServerConfig::new().with_url("http://first.example"))
        .with_server("b", ServerConfig::new().with_url("http://only-first.example"));
    let other = MCPConfig::new().with_server("a", ServerConfig::new().with_url("http://other.example"));
    first.merge(other);
    assert_eq!(first.mcp_servers.len(), 2);
    assert_eq!(first.get_server("a").unwrap().url, Some("http://other.example".to_string()));
    assert_eq!(first.get_server("b").unwrap().url, Some("http://only-first.example".to_string()));
    assert!(first.get_server("c").is_none());
}

#[test]
fn with_server_replaces_and_keeps_others() {
    let c = MCPConfig::new()
        .with_server("x", ServerConfig::new().with_command("one"))
        .with_server("y", ServerConfig::new().with_command("two"))
        .with_server("x", ServerConfig::new().with_command("three"));
    assert_eq!(c.mcp_servers.len(), 2);
    assert_eq!(c.get_server("x").unwrap().command, Some("three".to_string()));
    assert_eq!(c.get_server("y").unwrap().command, Some("two".to_string()));
}

#[test]
fn transport_type_of_configurations() {
    assert_eq!(ServerConfig::new().with_command("node").get_transport_type(), TransportType::Stdio);
    assert_eq!(ServerConfig::new().with_url("http://h/sse").get_transport_type(), TransportType::Sse);
    assert_eq!(ServerConfig::new().with_url("http://h/mcp").get_transport_type(), TransportType::Streamable);
    let explicit = ServerConfig::new().with_command("node").with_transport("sse");
    assert_eq!(explicit.get_transport_type(), TransportType::Sse);
    let mut typed = ServerConfig::new().with_url("http://h/mcp");
    typed.type_ = Some("stdio".to_string());
    assert_eq!(typed.get_transport_type(), TransportType::Stdio);
}

#[test]
fn command_string_joins_arguments() {
    let c = ServerConfig::new()
        .with_command("npx")
        .with_args(vec!["-y".to_string(), "server".to_string()]);
    assert_eq!(c.build_command_string(), Some("npx -y server".to_string()));
    assert_eq!(ServerConfig::new().with_command("run").build_command_string(), Some("run".to_string()));
    assert_eq!(ServerConfig::new().build_command_string(), None);
}

#[test]
fn extract_text_skips_other_content() {
    let result = CallToolResult::new()
        .with_content(ToolContent::Image { data: "AAAA".to_string(), mime_type: "image/png".to_string() })
        .with_content(ToolContent::Text { text: "only".to_string() });
    assert_eq!(result.extract_text(), vec!["only".to_string()]);
    assert!(CallToolResult::new().extract_text().is_empty());
}

#[test]
fn tool_builders() {
    let t = Tool::new("search").with_description("Find things");
    assert_eq!(t.name, "search");
    assert_eq!(t.description, Some("Find things".to_string()));
    let t = t.with_input_schema(JsonValue::Null);
    assert_eq!(t.input_schema, Some(JsonValue::Null));
}
