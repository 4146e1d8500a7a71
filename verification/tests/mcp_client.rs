use rmcp::domain::entities::{ListToolsResult, ServerConfig, Tool};
use rmcp::domain::errors::ErrorCode;
use rmcp::infrastructure::mcp_client::ClientState;

#[test]
fn test_mcp_client_new() {
    let client = ClientState::new();
    assert!(!client.is_connected());
    assert!(client.current_server().is_none());
}

#[test]
fn connect_and_disconnect() {
    let mut c = ClientState::new();
    assert_eq!(c.get_timeout_ms(), 30000);
    assert!(!c.needs_disconnect());
    c.begin_connect("alpha", &ServerConfig::new().with_timeout(1234));
    assert_eq!(c.current_server(), Some("alpha"));
    assert_eq!(c.get_timeout_ms(), 1234);
    assert!(!c.is_connected());
    c.connected_now();
    assert!(c.is_connected());
    assert!(c.needs_disconnect());
    c.tools_listed(&ListToolsResult { tools: vec![Tool::new("t")], next_cursor: None });
    c.disconnected();
    assert!(!c.is_connected());
    assert!(c.current_server().is_none());
    assert_eq!(c.get_timeout_ms(), 1234);
}

#[test]
fn client_errors() {
    let e = ClientState::not_connected();
    assert_eq!(e.code, ErrorCode::TransportError);
    assert_eq!(e.message, "Not connected to server");
    let e = ClientState::list_tools_timeout();
    assert_eq!(e.message, "List tools timeout");
    let mut c = ClientState::new();
    c.begin_connect("srv", &ServerConfig::new().with_timeout(250));
    let e = c.connect_timeout("srv");
    assert_eq!(e.code, ErrorCode::ConnectFailed);
    assert_eq!(e.message, "Connection timeout after 250ms");
    assert_eq!(c.server_label(), "srv");
    let e = c.call_failure("echo", "Request timeout");
    assert_eq!(e.code, ErrorCode::CallFailed);
    assert_eq!(e.message, "Failed to call tool \"echo\" on server \"srv\": Request timeout");
    assert_eq!(ClientState::new().server_label(), "");
}
