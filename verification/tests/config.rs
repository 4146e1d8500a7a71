use rmcp::domain::entities::{MCPConfig, ServerConfig};
use rmcp::domain::errors::ErrorCode;
use rmcp::infrastructure::config::FileConfigRepository;

#[test]
fn test_expand_home() {
    let home = Some("/home/testuser");
    assert_eq!(
        FileConfigRepository::expand_home("~/.config/mcp.json", home),
        "/home/testuser/.config/mcp.json"
    );
    assert_eq!(FileConfigRepository::expand_home("/absolute/path", home), "/absolute/path");
}

#[test]
fn expand_home_edge_cases() {
    assert_eq!(FileConfigRepository::expand_home("~", Some("/h")), "/h");
    assert_eq!(FileConfigRepository::expand_home("~/x", None), "~/x");
    assert_eq!(FileConfigRepository::expand_home("", Some("/h")), "");
    assert_eq!(FileConfigRepository::expand_home("a~", Some("/h")), "a~");
}

#[test]
fn default_search_paths() {
    let paths = FileConfigRepository::get_default_search_paths(Some("/home/u"));
    assert_eq!(
        paths,
        vec![
            "/home/u/.config/modelcontextprotocol/mcp.json".to_string(),
            "/home/u/.config/mcp/config.json".to_string(),
            "./mcp.json".to_string(),
            "./.mcp/config.json".to_string(),
            "/etc/mcp/config.json".to_string(),
        ]
    );
    assert_eq!(FileConfigRepository::get_unix_paths(None).len(), 3);
    let repo = FileConfigRepository::new(Some("/home/u"));
    assert_eq!(repo.get_search_paths(), &paths);
    let repo = FileConfigRepository::with_search_paths(vec!["a.json".to_string()]);
    assert_eq!(repo.get_search_paths(), &vec!["a.json".to_string()]);
}

#[test]
fn windows_search_paths() {
    let paths = FileConfigRepository::get_windows_paths(Some("C:\\AD"), Some("C:\\U"), Some("C:\\PD"));
    assert_eq!(
        paths,
        vec![
            "C:\\AD\\modelcontextprotocol\\mcp.json".to_string(),
            "C:\\AD\\mcp\\config.json".to_string(),
            "C:\\U\\.mcp\\config.json".to_string(),
            ".\\mcp.json".to_string(),
            ".\\.mcp\\config.json".to_string(),
            "C:\\PD\\mcp\\config.json".to_string(),
        ]
    );
    assert_eq!(FileConfigRepository::get_windows_paths(None, None, None).len(), 2);
}

#[test]
fn combining_loaded_files() {
    let first = MCPConfig::new().with_server("s", ServerConfig::new().with_url("http://one"));
    let second = MCPConfig::new()
        .with_server("s", ServerConfig::new().with_url("http://two"))
        .with_server("t", ServerConfig::new().with_command("run"));
    let (cfg, paths) = FileConfigRepository::combine_loaded(vec![
        ("a.json".to_string(), Some(first)),
        ("missing.json".to_string(), None),
        ("b.json".to_string(), Some(second)),
    ])
    .unwrap();
    assert_eq!(paths, vec!["a.json".to_string(), "b.json".to_string()]);
    assert_eq!(cfg.get_server("s").unwrap().url, Some("http://one".to_string()));
    assert!(cfg.get_server("t").is_some());
    let names = FileConfigRepository::list_servers(&cfg);
    assert_eq!(names.len(), 2);
    assert!(names.contains(&"s".to_string()) && names.contains(&"t".to_string()));
    let copy = FileConfigRepository::get_server_config(&cfg, "t").unwrap();
    assert_eq!(copy.command, Some("run".to_string()));
    assert!(FileConfigRepository::get_server_config(&cfg, "zz").is_none());
}

#[test]
fn nothing_loaded_is_config_not_found() {
    let e = FileConfigRepository::combine_loaded(vec![("/nonexistent/path.json".to_string(), None)]).unwrap_err();
    assert_eq!(e.code, ErrorCode::ConfigNotFound);
    assert_eq!(e.message, "no config files found");
    assert!(FileConfigRepository::combine_loaded(vec![]).is_err());
}
