use rmcp::domain::errors::{ErrorCode, MCPError};

#[test]
fn test_error_code_display() {
    assert_eq!(ErrorCode::ConfigNotFound.to_string(), "MCP_CONFIG_NOT_FOUND");
    assert_eq!(ErrorCode::ConnectFailed.to_string(), "MCP_CONNECT_FAILED");
}

#[test]
fn test_mcp_error_format() {
    let err = MCPError::config_not_found("test config");
    assert!(err.to_string().contains("MCP_CONFIG_NOT_FOUND"));
    assert!(err.to_string().contains("test config"));
}

#[test]
fn test_is_retryable() {
    let retryable = MCPError::connect_failed("test", "connection refused");
    assert!(retryable.is_retryable());

    let not_retryable = MCPError::param_invalid("invalid");
    assert!(!not_retryable.is_retryable());
}

#[test]
fn error_shown_with_code_in_brackets() {
    assert_eq!(MCPError::param_invalid("bad").to_string(), "[MCP_PARAM_INVALID] bad");
    assert_eq!(MCPError::internal_error("x").to_string(), "[MCP_INTERNAL_ERROR] x");
}

#[test]
fn every_code_has_its_name() {
    assert_eq!(ErrorCode::ServerNotFound.to_string(), "MCP_SERVER_NOT_FOUND");
    assert_eq!(ErrorCode::MethodNotFound.to_string(), "MCP_METHOD_NOT_FOUND");
    assert_eq!(ErrorCode::MethodAmbiguous.to_string(), "MCP_METHOD_AMBIGUOUS");
    assert_eq!(ErrorCode::CallFailed.to_string(), "MCP_CALL_FAILED");
    assert_eq!(ErrorCode::ParamInvalid.to_string(), "MCP_PARAM_INVALID");
    assert_eq!(ErrorCode::AuthFailed.to_string(), "MCP_AUTH_FAILED");
    assert_eq!(ErrorCode::TransportError.to_string(), "MCP_TRANSPORT_ERROR");
    assert_eq!(ErrorCode::ParseError.to_string(), "MCP_PARSE_ERROR");
    assert_eq!(ErrorCode::InternalError.to_string(), "MCP_INTERNAL_ERROR");
}

#[test]
fn constructors_set_codes_and_details() {
    let e = MCPError::server_not_found("alpha");
    assert_eq!(e.code, ErrorCode::ServerNotFound);
    assert!(e.message.contains("alpha"));
    assert!(e.details.is_some());
    let e = MCPError::method_not_found("tool1", "alpha");
    assert_eq!(e.code, ErrorCode::MethodNotFound);
    assert!(e.details.is_some());
    let e = MCPError::call_failed("tool1", "alpha", "boom");
    assert_eq!(e.code, ErrorCode::CallFailed);
    assert!(e.message.contains("boom"));
    assert_eq!(MCPError::auth_failed("a").code, ErrorCode::AuthFailed);
    assert_eq!(MCPError::transport_error("t").code, ErrorCode::TransportError);
    assert_eq!(MCPError::parse_error("p").code, ErrorCode::ParseError);
    assert!(MCPError::param_invalid("p").details.is_none());
}

#[test]
fn retryable_transport_errors() {
    assert!(MCPError::transport_error("request timeout").is_retryable());
    assert!(MCPError::connect_failed("s", "network unreachable").is_retryable());
    assert!(!MCPError::connect_failed("s", "denied").is_retryable());
    assert!(!MCPError::call_failed("m", "s", "timeout").is_retryable());
}
