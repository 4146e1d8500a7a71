use rmcp::domain::services::{EnvResolver, ParamParser};
use rmcp::json::JsonValue;
use rmcp::presentation::interactive::parse_input;
use rmcp::strmap::StrMap;

#[test]
fn integer_arguments_read_back() {
    for n in [i64::MIN, -1, 0, 7, i64::MAX] {
        let args = vec![format!("n:number={}", n), format!("m:int={}", n)];
        let m = ParamParser::parse_kv_args(&args).unwrap();
        assert_eq!(m.get("n"), Some(&JsonValue::Int(n)));
        assert_eq!(m.get("m"), Some(&JsonValue::Int(n)));
    }
}

#[test]
fn unknown_references_stay() {
    let empty: StrMap<String> = StrMap::new();
    for text in ["$X and ${Y}", "cost: $5", "${", "a$"] {
        assert_eq!(EnvResolver::resolve(text, &empty), text);
    }
}

#[test]
fn words_hold_no_quotes() {
    for line in [r#"a "b c" d"#, r#""""#, r#"x"y"z"#, r#"" ""#] {
        for w in parse_input(line) {
            assert!(!w.is_empty());
            assert!(!w.contains('"'));
        }
    }
}

#[test]
fn key_value_arguments_read_back() {
    for (k, v) in [("name", "John"), ("path", "a=b:c"), ("empty", "")] {
        let m = ParamParser::parse_kv_args(&vec![format!("{}={}", k, v)]).unwrap();
        assert_eq!(m.len(), 1);
        assert_eq!(m.get(k), Some(&JsonValue::Str(v.to_string())));
    }
}
