use rmcp::application::ports::{EnvPort, EnvSnapshot};
use rmcp::strmap::StrMap;

#[test]
fn env_snapshot_reads_and_resolves() {
    let mut vars = StrMap::new();
    vars.insert("HOST".to_string(), "example.org".to_string());
    let env = EnvSnapshot::new(vars);
    assert_eq!(env.get_var("HOST"), Some("example.org".to_string()));
    assert_eq!(env.get_var("PORT"), None);
    assert_eq!(env.resolve("https://${HOST}/x"), "https://example.org/x");
    let mut headers = StrMap::new();
    headers.insert("Host".to_string(), "$HOST".to_string());
    let resolved = env.resolve_headers(&headers);
    assert_eq!(resolved.get("Host"), Some(&"example.org".to_string()));
}
