use rmcp::presentation::interactive::{parse_input, ReplAction, ReplState};

fn words(v: &[&str]) -> Vec<String> {
    v.iter().map(|w| w.to_string()).collect()
}

#[test]
fn test_parse_input() {
    let input = "server tool arg1 arg2";
    let parts = parse_input(input);
    assert_eq!(parts.len(), 4);
    assert_eq!(parts[0], "server");

    let input_quoted = r#"server tool "arg with spaces""#;
    let parts = parse_input(input_quoted);
    assert_eq!(parts.len(), 3);
    assert_eq!(parts[2], "arg with spaces");
}

#[test]
fn split_details() {
    assert!(parse_input("").is_empty());
    assert!(parse_input(" \t  ").is_empty());
    assert_eq!(parse_input("  a\t\tb  "), words(&["a", "b"]));
    assert_eq!(parse_input(r#"k="x y"z"#), words(&["k=x yz"]));
    assert_eq!(parse_input(r#""" a"#), words(&["a"]));
    assert_eq!(parse_input(r#"a "b"#), words(&["a", "b"]));
    assert_eq!(parse_input("a\tb"), words(&["a", "b"]));
}

#[test]
fn split_round_trip() {
    let ws = words(&["one", "two=2", "x:int=3"]);
    assert_eq!(parse_input(&ws.join(" ")), ws);
}

#[test]
fn repl_commands() {
    let mut st = ReplState::new();
    assert!(matches!(st.handle_line("   "), ReplAction::Nothing));
    assert!(matches!(st.handle_line("exit"), ReplAction::Exit));
    assert!(matches!(st.handle_line("quit"), ReplAction::Exit));
    assert!(matches!(st.handle_line("q"), ReplAction::Exit));
    assert!(matches!(st.handle_line("?"), ReplAction::Help));
    assert!(matches!(st.handle_line("help"), ReplAction::Help));
    assert!(matches!(st.handle_line("servers"), ReplAction::ListServers));
    assert!(matches!(st.handle_line("list"), ReplAction::ListServers));
    match st.handle_line("use") {
        ReplAction::Say(m) => assert_eq!(m, "Usage: use <server>"),
        _ => panic!("expected the usage"),
    }
    match st.handle_line("tool") {
        ReplAction::Say(m) => assert_eq!(m, "No default server. Use 'use <server>' or 'servers' to list available servers"),
        _ => panic!("expected a message"),
    }
    match st.handle_line("tool x") {
        ReplAction::Say(m) => assert_eq!(m, "No default server. Use 'use <server>' first"),
        _ => panic!("expected a message"),
    }
    match st.handle_line("list_repositories") {
        ReplAction::Say(m) => assert_eq!(m, "Invalid command. Type 'help' for available commands"),
        _ => panic!("expected a message"),
    }
    match st.handle_line("openDeepWiki list_repositories limit=3") {
        ReplAction::CallTool { server, tool, args } => {
            assert_eq!(server, "openDeepWiki");
            assert_eq!(tool, "list_repositories");
            assert_eq!(args, words(&["limit=3"]));
        }
        _ => panic!("expected a call"),
    }
    assert!(st.current_server().is_none());
}

#[test]
fn repl_default_server() {
    let mut st = ReplState::default();
    match st.handle_line(" use openDeepWiki ") {
        ReplAction::Say(m) => assert_eq!(m, "Default server set to: openDeepWiki"),
        _ => panic!("expected a message"),
    }
    assert_eq!(st.current_server(), Some("openDeepWiki".to_string()));
    match st.handle_line("tools") {
        ReplAction::ShowServerInfo(s) => assert_eq!(s, "openDeepWiki"),
        _ => panic!("expected the server"),
    }
    match st.handle_line("tool search") {
        ReplAction::ShowToolInfo(s, t) => assert_eq!((s.as_str(), t.as_str()), ("openDeepWiki", "search")),
        _ => panic!("expected the tool"),
    }
    match st.handle_line("list_repositories repoOwner=github limit=5") {
        ReplAction::CallTool { server, tool, args } => {
            assert_eq!(server, "openDeepWiki");
            assert_eq!(tool, "list_repositories");
            assert_eq!(args, words(&["repoOwner=github", "limit=5"]));
        }
        _ => panic!("expected a call"),
    }
    match st.handle_line("get_repo") {
        ReplAction::CallTool { tool, args, .. } => {
            assert_eq!(tool, "get_repo");
            assert!(args.is_empty());
        }
        _ => panic!("expected a call"),
    }
}
