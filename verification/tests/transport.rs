use rmcp::domain::entities::{JsonRpcError, JsonRpcRequest, JsonRpcResult, ServerConfig};
use rmcp::domain::errors::ErrorCode;
use rmcp::domain::value_objects::TransportType;
use rmcp::infrastructure::transport::{request_url, rpc_outcome, usable_headers, RequestCounter, TransportFactory, TransportPlan};
use rmcp::strmap::StrMap;

#[test]
fn stdio_plan() {
    let cfg = ServerConfig::new().with_command("node").with_args(vec!["srv.js".to_string()]);
    match TransportFactory::create(&cfg, &StrMap::new()).unwrap() {
        TransportPlan::Stdio { command, args, env } => {
            assert_eq!(command, "node");
            assert_eq!(args, vec!["srv.js".to_string()]);
            assert_eq!(env.len(), 0);
        }
        TransportPlan::Http { .. } => panic!("expected stdio"),
    }
}

#[test]
fn http_plan_resolves_headers() {
    let mut headers = StrMap::new();
    headers.insert("Authorization".to_string(), "Bearer ${TOKEN}".to_string());
    let mut env = StrMap::new();
    env.insert("TOKEN".to_string(), "t0k".to_string());
    let cfg = ServerConfig::new().with_url("http://h/sse").with_headers(headers);
    match TransportFactory::create(&cfg, &env).unwrap() {
        TransportPlan::Http { endpoint, transport_type, headers } => {
            assert_eq!(endpoint, "http://h/sse");
            assert_eq!(transport_type, TransportType::Sse);
            assert_eq!(headers.unwrap().get("Authorization"), Some(&"Bearer t0k".to_string()));
        }
        TransportPlan::Stdio { .. } => panic!("expected http"),
    }
}

#[test]
fn plans_need_command_or_url() {
    let e = TransportFactory::create(&ServerConfig::new().with_transport("stdio"), &StrMap::new()).unwrap_err();
    assert_eq!(e.code, ErrorCode::TransportError);
    assert_eq!(e.message, "stdio transport requires command");
    let e = TransportFactory::create(&ServerConfig::new(), &StrMap::new()).unwrap_err();
    assert_eq!(e.message, "HTTP transport requires url");
}

#[test]
fn urls_and_ids() {
    assert_eq!(request_url("http://h", TransportType::Sse), "http://h/message");
    assert_eq!(request_url("http://h", TransportType::Streamable), "http://h");
    let mut c = RequestCounter::new();
    assert_eq!(c.next_id(), 1);
    assert_eq!(c.next_id(), 2);
    let req = JsonRpcRequest::new(7, "tools/list", 0u8);
    assert_eq!(req.jsonrpc, "2.0");
    assert_eq!(req.id, 7);
    assert_eq!(req.method, "tools/list");
}

#[test]
fn rpc_results() {
    assert_eq!(rpc_outcome(JsonRpcResult::Result(5u8)).unwrap(), 5);
    let err: JsonRpcResult<u8> = JsonRpcResult::Error(JsonRpcError { code: -32601, message: "no method".to_string(), data: None });
    let e = rpc_outcome(err).unwrap_err();
    assert_eq!(e.code, ErrorCode::TransportError);
    assert_eq!(e.message, "RPC error -32601: no method");
}

#[test]
fn only_acceptable_headers_are_sent() {
    let mut h = StrMap::new();
    h.insert("Authorization".to_string(), "Bearer x".to_string());
    h.insert("Bad Name".to_string(), "v".to_string());
    h.insert("X-Tab".to_string(), "a\tb".to_string());
    h.insert("X-Newline".to_string(), "a\nb".to_string());
    h.insert("".to_string(), "empty name".to_string());
    h.insert("X-Del".to_string(), "a\u{7f}".to_string());
    let kept = usable_headers(&h);
    assert_eq!(
        kept,
        vec![
            ("Authorization".to_string(), "Bearer x".to_string()),
            ("X-Tab".to_string(), "a\tb".to_string()),
        ]
    );
}
