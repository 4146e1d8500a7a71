use rmcp::application::dto::{ResponseMeta, SuccessResponse};
use rmcp::application::use_cases::{
    call_tool_response, error_details, find_server_config, find_step, find_tool_matches, format_call_result, list_servers_response,
    search_step, search_tool_matches, server_info_data, tool_info_data,
};
use rmcp::domain::entities::{CallToolResult, MCPConfig, ServerConfig, Tool, ToolContent};
use rmcp::domain::errors::{ErrorCode, MCPError};
use rmcp::json::JsonValue;

fn s(t: &str) -> JsonValue {
    JsonValue::Str(t.to_string())
}

fn obj(entries: Vec<(&str, JsonValue)>) -> JsonValue {
    JsonValue::Object(entries.into_iter().map(|(k, v)| (k.to_string(), v)).collect())
}

fn strs(v: &[&str]) -> JsonValue {
    JsonValue::Array(v.iter().map(|x| s(x)).collect())
}

#[test]
fn server_lookup() {
    let cfg = MCPConfig::new().with_server("a", ServerConfig::new().with_url("http://a"));
    assert_eq!(find_server_config(&cfg, "a").unwrap().url, Some("http://a".to_string()));
    let e = find_server_config(&cfg, "b").unwrap_err();
    assert_eq!(e.code, ErrorCode::ServerNotFound);
    assert_eq!(e.message, "Server \"b\" not found in config");
}

#[test]
fn server_listing_json() {
    let cfg = MCPConfig::new()
        .with_server("web", ServerConfig::new().with_url("http://w/sse"))
        .with_server("local", ServerConfig::new().with_command("node").with_args(vec!["s.js".to_string()]));
    let resp = list_servers_response(&cfg, vec!["./mcp.json".to_string()]);
    let expected = obj(vec![
        ("configFiles", strs(&["./mcp.json"])),
        ("servers", JsonValue::Array(vec![
            obj(vec![("name", s("web")), ("transport", s("sse")), ("url", s("http://w/sse"))]),
            obj(vec![("name", s("local")), ("transport", s("stdio")), ("command", s("node s.js"))]),
        ])),
    ]);
    assert_eq!(resp.to_json(), expected);
}

#[test]
fn server_info_json() {
    let cfg = ServerConfig::new().with_url("http://w");
    let tools = vec![Tool::new("a"), Tool::new("b")];
    let v = server_info_data("web", &cfg, &tools, &vec!["c.json".to_string()]);
    let expected = obj(vec![
        ("configFiles", strs(&["c.json"])),
        ("server", obj(vec![
            ("name", s("web")),
            ("transport", s("streamable")),
            ("url", s("http://w")),
            ("tools", strs(&["a", "b"])),
        ])),
    ]);
    assert_eq!(v, expected);
}

#[test]
fn tool_info_json() {
    let schema = obj(vec![
        ("type", s("object")),
        ("properties", obj(vec![
            ("limit", obj(vec![("type", s("integer")), ("description", s("max items"))])),
            ("owner", obj(vec![("type", s("string"))])),
        ])),
        ("required", strs(&["owner", "limit"])),
    ]);
    let tools = vec![Tool::new("list").with_description("List repos").with_input_schema(schema)];
    let v = tool_info_data("gh", "list", &tools, &vec![]).unwrap();
    let expected = obj(vec![
        ("configFiles", strs(&[])),
        ("server", s("gh")),
        ("tool", obj(vec![
            ("name", s("list")),
            ("description", s("List repos")),
            ("required", s("owner OR limit")),
            ("param_format", s("key:type=value (type: string/number/bool)")),
            ("param_example", strs(&["limit:int={value} // max items", "owner:string={value}"])),
            ("call_example", s("rmcp gh list limit:int={value} owner:string={value}")),
        ])),
    ]);
    assert_eq!(v, expected);
    let e = tool_info_data("gh", "nope", &tools, &vec![]).unwrap_err();
    assert_eq!(e.code, ErrorCode::MethodNotFound);
    assert_eq!(e.message, "Tool \"nope\" not found on server \"gh\"");
}

#[test]
fn tool_info_keeps_unformattable_schema() {
    let schema = obj(vec![("type", s("object"))]);
    let tools = vec![Tool::new("t").with_input_schema(schema.clone())];
    let v = tool_info_data("x", "t", &tools, &vec![]).unwrap();
    let expected = obj(vec![
        ("configFiles", strs(&[])),
        ("server", s("x")),
        ("tool", obj(vec![("name", s("t")), ("inputSchema", schema)])),
    ]);
    assert_eq!(v, expected);
}

#[test]
fn call_results() {
    let r = CallToolResult::new()
        .with_content(ToolContent::Text { text: "hi".to_string() })
        .with_content(ToolContent::Image { data: "d".to_string(), mime_type: "image/png".to_string() });
    assert_eq!(format_call_result(&r), JsonValue::Array(vec![obj(vec![("text", s("hi")), ("type", s("text"))])]));
    let only_image = CallToolResult::new()
        .with_content(ToolContent::Image { data: "d".to_string(), mime_type: "image/png".to_string() });
    let mut with_flag = only_image.clone();
    with_flag.is_error = Some(true);
    assert_eq!(
        format_call_result(&with_flag),
        obj(vec![
            ("content", JsonValue::Array(vec![obj(vec![("data", s("d")), ("mime_type", s("image/png")), ("type", s("image"))])])),
            ("isError", JsonValue::Bool(true)),
        ])
    );
    let resp = call_tool_response("srv", "echo", &r);
    assert_eq!(
        resp.to_json(),
        obj(vec![
            ("server", s("srv")),
            ("method", s("echo")),
            ("result", JsonValue::Array(vec![obj(vec![("text", s("hi")), ("type", s("text"))])])),
        ])
    );
}

#[test]
fn finding_and_searching() {
    let tools = vec![Tool::new("a").with_description("Alpha tool"), Tool::new("b"), Tool::new("a")];
    let found = find_tool_matches("srv", &tools, "a");
    assert_eq!(found.len(), 2);
    assert_eq!(
        found[0].to_json(),
        obj(vec![("server", s("srv")), ("tool", obj(vec![("name", s("a")), ("description", s("Alpha tool"))]))])
    );
    let hits = search_tool_matches("srv", &tools, "ALPHA");
    assert_eq!(hits.len(), 1);
    assert_eq!(hits[0].tool.name, "a");
}

#[test]
fn error_details_and_success_envelope() {
    assert_eq!(error_details(&MCPError::param_invalid("x")), None);
    assert_eq!(
        error_details(&MCPError::method_not_found("m", "s")),
        Some(obj(vec![("method", s("m")), ("server", s("s"))]))
    );
    let meta = ResponseMeta { timestamp: "t".to_string(), version: "v".to_string() };
    let resp = SuccessResponse::new(JsonValue::Int(1), meta);
    assert_eq!(
        resp.to_json(),
        obj(vec![
            ("success", JsonValue::Bool(true)),
            ("data", JsonValue::Int(1)),
            ("meta", obj(vec![("timestamp", s("t")), ("version", s("v"))])),
        ])
    );
}


#[test]
fn search_and_find_across_servers() {
    let a = vec![Tool::new("alpha").with_description("first"), Tool::new("beta")];
    let b = vec![Tool::new("alphabet")];
    let acc = search_step(Vec::new(), "s1", Some(&a), "ALPHA");
    let acc = search_step(acc, "down", None, "alpha");
    let acc = search_step(acc, "s2", Some(&b), "alpha");
    let names: Vec<(String, String)> = acc.iter().map(|m| (m.server.clone(), m.tool.name.clone())).collect();
    assert_eq!(names, vec![("s1".to_string(), "alpha".to_string()), ("s2".to_string(), "alphabet".to_string())]);
    let found = find_step(Vec::new(), "s1", Some(&a), "beta");
    let found = find_step(found, "s2", Some(&b), "beta");
    let found = find_step(found, "down", None, "beta");
    assert_eq!(found.len(), 1);
    assert_eq!(found[0].server, "s1");
}
