use rmcp::domain::entities::Tool;
use rmcp::domain::errors::ErrorCode;
use rmcp::domain::services::{EnvResolver, ParamParser, RetryDecision, RetryService, SchemaFormatter, ToolMatcher};
use rmcp::domain::value_objects::ParamInfo;
use rmcp::json::JsonValue;
use rmcp::strmap::StrMap;

fn obj(entries: Vec<(&str, JsonValue)>) -> JsonValue {
    JsonValue::Object(entries.into_iter().map(|(k, v)| (k.to_string(), v)).collect())
}

fn s(t: &str) -> JsonValue {
    JsonValue::Str(t.to_string())
}

fn env_of(pairs: &[(&str, &str)]) -> StrMap<String> {
    let mut m = StrMap::new();
    for (k, v) in pairs {
        m.insert(k.to_string(), v.to_string());
    }
    m
}

#[test]
fn test_parse_kv_args() {
    let args = vec![
        "name=John".to_string(),
        "age:number=30".to_string(),
        "enabled:bool=true".to_string(),
    ];

    let result = ParamParser::parse_kv_args(&args).unwrap();
    assert_eq!(result.get("name"), Some(&s("John")));
    assert_eq!(result.get("age"), Some(&JsonValue::Int(30)));
    assert_eq!(result.get("enabled"), Some(&JsonValue::Bool(true)));
}

#[test]
fn test_parse_kv_args_invalid() {
    let args = vec!["invalid".to_string()];
    assert!(ParamParser::parse_kv_args(&args).is_err());
}

#[test]
fn services_test_parse_yaml() {
    let yaml = "name: John\nage: 30";
    let result = ParamParser::parse_yaml(yaml).unwrap();
    assert_eq!(result.get("name"), Some(&s("John")));
    assert_eq!(result.get("age"), Some(&JsonValue::Int(30)));
}

#[test]
fn test_schema_formatter() {
    let schema = obj(vec![
        ("type", s("object")),
        ("properties", obj(vec![
            ("name", obj(vec![("type", s("string")), ("description", s("User name"))])),
            ("age", obj(vec![("type", s("integer"))])),
        ])),
        ("required", JsonValue::Array(vec![s("name")])),
    ]);

    let formatted = SchemaFormatter::format_input_schema(&schema);
    assert!(formatted.is_some());
    let formatted = formatted.unwrap();
    assert_eq!(formatted.len(), 2);

    let required = SchemaFormatter::get_required_params(&schema);
    assert_eq!(required, vec!["name"]);

    let params = SchemaFormatter::get_param_info_list(&schema);
    assert_eq!(params.len(), 2);
}

#[test]
fn test_tool_matcher() {
    let tools = vec![
        Tool::new("search").with_description("Search for items"),
        Tool::new("list").with_description("List all items"),
    ];

    let found = ToolMatcher::find_tool_by_name(&tools, "search");
    assert!(found.is_some());
    assert_eq!(found.unwrap().name, "search");

    let search_results = ToolMatcher::search_tools(&tools, "list");
    assert_eq!(search_results.len(), 1);

    let suggestions = ToolMatcher::suggest_tools(&tools, "search items");
    assert!(!suggestions.is_empty());
}

#[test]
fn test_env_resolver() {
    let env = env_of(&[("TEST_VAR", "test_value")]);
    assert_eq!(EnvResolver::resolve("$TEST_VAR", &env), "test_value");
    assert_eq!(EnvResolver::resolve("${TEST_VAR}", &env), "test_value");
    assert_eq!(EnvResolver::resolve("prefix-$TEST_VAR-suffix", &env), "prefix-test_value-suffix");
    assert_eq!(EnvResolver::resolve("$NONEXISTENT", &env), "$NONEXISTENT");
}

#[test]
fn kv_types_convert() {
    let args: Vec<String> = vec![
        "a:int=-7", "b:float=1.5", "c:number=2.25", "d:boolean=YES", "e:bool=no", "f:string=42", "g=x=y",
    ]
    .into_iter()
    .map(String::from)
    .collect();
    let m = ParamParser::parse_kv_args(&args).unwrap();
    assert_eq!(m.get("a"), Some(&JsonValue::Int(-7)));
    assert_eq!(m.get("b"), Some(&JsonValue::Float("1.5".to_string())));
    assert_eq!(m.get("c"), Some(&JsonValue::Float("2.25".to_string())));
    assert_eq!(m.get("d"), Some(&JsonValue::Bool(true)));
    assert_eq!(m.get("e"), Some(&JsonValue::Bool(false)));
    assert_eq!(m.get("f"), Some(&s("42")));
    assert_eq!(m.get("g"), Some(&s("x=y")));
    assert_eq!(m.len(), 7);
}

#[test]
fn kv_later_argument_replaces() {
    let args: Vec<String> = vec!["k=1", "k:int=2"].into_iter().map(String::from).collect();
    let m = ParamParser::parse_kv_args(&args).unwrap();
    assert_eq!(m.len(), 1);
    assert_eq!(m.get("k"), Some(&JsonValue::Int(2)));
}

#[test]
fn kv_errors_are_parameter_errors() {
    let e = ParamParser::parse_kv_args(&vec!["novalue".to_string()]).unwrap_err();
    assert_eq!(e.code, ErrorCode::ParamInvalid);
    assert_eq!(e.message, "invalid argument format: \"novalue\" (expected key=value or key:type=value)");
    let e = ParamParser::parse_kv_args(&vec!["=v".to_string()]).unwrap_err();
    assert_eq!(e.message, "argument key cannot be empty");
    let e = ParamParser::parse_kv_args(&vec![":int=3".to_string()]).unwrap_err();
    assert_eq!(e.message, "argument key cannot be empty");
    let e = ParamParser::parse_kv_args(&vec!["x:date=3".to_string()]).unwrap_err();
    assert_eq!(
        e.message,
        "argument \"x\" uses unsupported type \"date\", supported types: string, number, int, float, bool"
    );
    let e = ParamParser::parse_kv_args(&vec!["x:float=abc".to_string()]).unwrap_err();
    assert_eq!(
        e.message,
        "argument \"x\" value \"abc\" cannot be converted to type \"float\": invalid float literal"
    );
    let e = ParamParser::parse_kv_args(&vec!["x:int=".to_string()]).unwrap_err();
    assert_eq!(
        e.message,
        "argument \"x\" value \"\" cannot be converted to type \"int\": cannot parse float from empty string"
    );
}

#[test]
fn yaml_parse_outcomes() {
    let e = ParamParser::parse_yaml(" \n ").unwrap_err();
    assert_eq!(e.message, "empty YAML input");
    let e = ParamParser::parse_yaml("{}").unwrap_err();
    assert_eq!(e.message, "empty YAML input");
    let e = ParamParser::parse_yaml("- a\n- b").unwrap_err();
    assert_eq!(e.code, ErrorCode::ParamInvalid);
    assert!(e.message.starts_with("invalid YAML: "));
    let m = ParamParser::parse_yaml("ok: true\nratio: 2.5\nitems: [1, x]\nnothing: null").unwrap();
    assert_eq!(m.len(), 4);
    assert_eq!(m.get("ok"), Some(&JsonValue::Bool(true)));
    assert_eq!(m.get("ratio"), Some(&JsonValue::Float("2.5".to_string())));
    assert_eq!(m.get("items"), Some(&JsonValue::Array(vec![JsonValue::Int(1), s("x")])));
    assert_eq!(m.get("nothing"), Some(&JsonValue::Null));
}

#[test]
fn yaml_input_checks() {
    let e = ParamParser::yaml_source("  \n ").unwrap_err();
    assert_eq!(e.code, ErrorCode::ParamInvalid);
    assert_eq!(e.message, "empty YAML input");
    assert_eq!(ParamParser::yaml_source("  a: 1 \n").unwrap(), "a: 1");
    let e = ParamParser::yaml_parameters(Err("bad indent".to_string())).unwrap_err();
    assert_eq!(e.message, "invalid YAML: bad indent");
    let e = ParamParser::yaml_parameters(Ok(StrMap::new())).unwrap_err();
    assert_eq!(e.message, "empty YAML input");
}

#[test]
fn schema_lines_and_example() {
    let schema = obj(vec![
        ("type", s("object")),
        ("properties", obj(vec![
            ("age", obj(vec![("type", s("integer"))])),
            ("name", obj(vec![("type", s("string")), ("description", s("User name"))])),
            ("tags", obj(vec![("type", s("array"))])),
        ])),
        ("required", JsonValue::Array(vec![s("name"), JsonValue::Int(3)])),
    ]);
    let lines = SchemaFormatter::format_input_schema(&schema).unwrap();
    assert_eq!(
        lines,
        vec![
            "age:int={value}".to_string(),
            "name:string={value} // User name".to_string(),
            "tags:array={value}".to_string(),
        ]
    );
    assert_eq!(SchemaFormatter::get_required_params(&schema), vec!["name".to_string()]);
    let infos = SchemaFormatter::get_param_info_list(&schema);
    assert_eq!(infos.len(), 3);
    assert_eq!(infos[0].name, "age");
    assert_eq!(infos[0].param_type, "int");
    assert!(!infos[0].required);
    assert!(infos[1].required);
    assert_eq!(infos[1].description, Some("User name".to_string()));
    assert_eq!(
        SchemaFormatter::build_call_example(&infos),
        "age:int={value} name:string={value} tags:array={value}"
    );
    assert_eq!(SchemaFormatter::build_call_example(&[]), "");
    assert!(SchemaFormatter::format_input_schema(&s("x")).is_none());
    assert!(SchemaFormatter::get_required_params(&JsonValue::Null).is_empty());
}

#[test]
fn type_hints() {
    assert_eq!(SchemaFormatter::json_type_to_type_hint("number"), "number");
    assert_eq!(SchemaFormatter::json_type_to_type_hint("integer"), "int");
    assert_eq!(SchemaFormatter::json_type_to_type_hint("boolean"), "bool");
    assert_eq!(SchemaFormatter::json_type_to_type_hint("object"), "object");
    assert_eq!(SchemaFormatter::json_type_to_type_hint("whatever"), "string");
}

#[test]
fn tool_matching_details() {
    let tools = vec![
        Tool::new("Search").with_description("Find Items"),
        Tool::new("list"),
        Tool::new("search"),
    ];
    assert_eq!(ToolMatcher::find_tool_by_name(&tools, "search").map(|t| t.name.clone()), Some("search".to_string()));
    assert!(ToolMatcher::find_tool_by_name(&tools, "missing").is_none());
    let hits: Vec<String> = ToolMatcher::search_tools(&tools, "ITEMS").iter().map(|t| t.name.clone()).collect();
    assert_eq!(hits, vec!["Search".to_string()]);
    let sugg = ToolMatcher::suggest_tools(&tools, "Find an item to list");
    assert_eq!(sugg.len(), 2);
    assert_eq!(sugg[0].0.name, "Search");
    assert_eq!(sugg[0].1, vec!["find".to_string(), "item".to_string()]);
    assert_eq!(sugg[1].0.name, "list");
    assert_eq!(sugg[1].1, vec!["list".to_string()]);
}

#[test]
fn env_references_resolve() {
    let env = env_of(&[("A", "1"), ("B_2", "two")]);
    assert_eq!(EnvResolver::resolve("x${A}y$B_2-z", &env), "x1ytwo-z");
    assert_eq!(EnvResolver::resolve("$B_2z", &env), "$B_2z");
    assert_eq!(EnvResolver::resolve("${A}$A", &env), "11");
    assert_eq!(EnvResolver::resolve("$", &env), "$");
    assert_eq!(EnvResolver::resolve("${}", &env), "${}");
    assert_eq!(EnvResolver::resolve("$1A", &env), "$1A");
    assert_eq!(EnvResolver::resolve("${MISSING}", &env), "${MISSING}");
    assert_eq!(EnvResolver::resolve("plain text", &env), "plain text");
    let mut headers = StrMap::new();
    headers.insert("Authorization".to_string(), "Bearer $A".to_string());
    headers.insert("X".to_string(), "none".to_string());
    let r = EnvResolver::resolve_headers(&headers, &env);
    assert_eq!(r.len(), 2);
    assert_eq!(r.get("Authorization"), Some(&"Bearer 1".to_string()));
    assert_eq!(r.get("X"), Some(&"none".to_string()));
}

#[test]
fn retry_decisions() {
    let policy = RetryService::new(3, 500);
    assert_eq!(policy.first_attempt(), Some(1));
    let retryable = rmcp::domain::errors::MCPError::transport_error("connection reset by peer");
    match policy.after_failure(1, retryable.clone()) {
        RetryDecision::RetryAfter { delay_ms, next_attempt } => {
            assert_eq!(delay_ms, 500);
            assert_eq!(next_attempt, 2);
        }
        RetryDecision::GiveUp(_) => panic!("expected a retry"),
    }
    match policy.after_failure(2, retryable.clone()) {
        RetryDecision::RetryAfter { delay_ms, .. } => assert_eq!(delay_ms, 1000),
        RetryDecision::GiveUp(_) => panic!("expected a retry"),
    }
    assert!(matches!(policy.after_failure(3, retryable), RetryDecision::GiveUp(_)));
    let fatal = rmcp::domain::errors::MCPError::param_invalid("x");
    assert!(matches!(policy.after_failure(1, fatal), RetryDecision::GiveUp(_)));
    let none = RetryService::new(0, 10);
    assert_eq!(none.first_attempt(), None);
    assert_eq!(none.exhausted().message, "Retry loop exited without result or error");
}

#[test]
fn param_info_builders() {
    let p = ParamInfo::new("n", "int").with_required(true).with_description("count");
    assert_eq!(p.name, "n");
    assert_eq!(p.param_type, "int");
    assert!(p.required);
    assert_eq!(p.description, Some("count".to_string()));
}

#[test]
fn retry_backoff_doubles() {
    let policy = RetryService::new(5, 100);
    let err = rmcp::domain::errors::MCPError::transport_error("timeout");
    let mut delays = Vec::new();
    for attempt in 1..=4u32 {
        match policy.after_failure(attempt, err.clone()) {
            RetryDecision::RetryAfter { delay_ms, next_attempt } => {
                assert_eq!(next_attempt, attempt + 1);
                delays.push(delay_ms);
            }
            RetryDecision::GiveUp(_) => panic!("expected a retry"),
        }
    }
    assert_eq!(delays, vec![100, 200, 400, 800]);
    assert_eq!(policy.backoff_delay(1), 100);
    assert!(matches!(policy.after_failure(5, err), RetryDecision::GiveUp(_)));
}
