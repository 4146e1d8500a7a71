use rmcp::domain::errors::ErrorCode;
use rmcp::infrastructure::param_parser::CliParamParser;
use rmcp::json::JsonValue;

#[test]
fn test_cli_param_parser() {
    let parser = CliParamParser::new();

    let args = vec!["name=John".to_string(), "age:number=30".to_string()];

    let result = parser.parse_kv_args(&args).unwrap();
    assert_eq!(result.get("name"), Some(&JsonValue::Str("John".to_string())));
    assert_eq!(result.get("age"), Some(&JsonValue::Int(30)));
}

#[test]
fn param_parser_test_parse_yaml() {
    let parser = CliParamParser::new();
    let yaml = "name: John\nage: 30";

    let result = parser.parse_yaml(yaml).unwrap();
    assert_eq!(result.get("name"), Some(&JsonValue::Str("John".to_string())));
    assert_eq!(result.get("age"), Some(&JsonValue::Int(30)));
}

#[test]
fn stdin_and_file_errors() {
    let e = CliParamParser::stdin_text(" \n\t").unwrap_err();
    assert_eq!(e.code, ErrorCode::ParamInvalid);
    assert_eq!(e.message, "empty stdin input");
    assert_eq!(CliParamParser::stdin_text(" a: 1\n").unwrap(), " a: 1\n");
    assert_eq!(CliParamParser::stdin_read_error("broken pipe").message, "Failed to read stdin: broken pipe");
    assert_eq!(
        CliParamParser::yaml_file_error("p.yaml", "No such file").message,
        "Cannot read YAML file \"p.yaml\": No such file"
    );
    let _ = CliParamParser::default();
}
