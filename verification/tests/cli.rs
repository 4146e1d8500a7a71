use rmcp::application::dto::OutputFormat as AppOutputFormat;
use rmcp::presentation::cli::{Cli, Commands, OutputFormat, ParsedCommand};

fn cli_with(args: &[&str]) -> Cli {
    Cli { args: args.iter().map(|a| a.to_string()).collect(), ..Cli::default() }
}

#[test]
fn test_cli_default() {
    let cli = Cli::default();
    assert!(cli.yaml_params.is_none());
    assert!(cli.yaml_file.is_none());
    assert!(!cli.stream);
}

#[test]
fn test_parse_command_list_servers() {
    let cli = Cli::default();
    match cli.parse_command(false) {
        ParsedCommand::ListServers => {}
        _ => panic!("Expected ListServers"),
    }
}

#[test]
fn test_parse_command_show_server() {
    let cli = cli_with(&["myserver"]);
    match cli.parse_command(false) {
        ParsedCommand::ShowServerInfo { server } => {
            assert_eq!(server, "myserver");
        }
        _ => panic!("Expected ShowServerInfo"),
    }
}

#[test]
fn two_arguments_show_tool_or_call() {
    match cli_with(&["s", "t"]).parse_command(false) {
        ParsedCommand::ShowToolInfo { server, tool } => {
            assert_eq!(server, "s");
            assert_eq!(tool, "t");
        }
        _ => panic!("Expected ShowToolInfo"),
    }
    match cli_with(&["s", "t"]).parse_command(true) {
        ParsedCommand::CallTool { server, tool, args } => {
            assert_eq!((server.as_str(), tool.as_str()), ("s", "t"));
            assert!(args.is_empty());
        }
        _ => panic!("Expected CallTool"),
    }
    let mut yaml = cli_with(&["s", "t"]);
    yaml.yaml_params = Some("a: 1".to_string());
    assert!(matches!(yaml.parse_command(false), ParsedCommand::CallTool { .. }));
    let mut file = cli_with(&["s", "t"]);
    file.yaml_file = Some("p.yaml".to_string());
    assert!(matches!(file.parse_command(false), ParsedCommand::CallTool { .. }));
}

#[test]
fn more_arguments_call() {
    match cli_with(&["s", "t", "a=1", "b:int=2"]).parse_command(false) {
        ParsedCommand::CallTool { server, tool, args } => {
            assert_eq!(server, "s");
            assert_eq!(tool, "t");
            assert_eq!(args, vec!["a=1".to_string(), "b:int=2".to_string()]);
        }
        _ => panic!("Expected CallTool"),
    }
}

#[test]
fn interactive_mode() {
    assert!(matches!(cli_with(&["interactive"]).parse_command(false), ParsedCommand::Interactive));
    let mut sub = cli_with(&["x", "y", "z"]);
    sub.command = Some(Commands::Interactive);
    assert!(matches!(sub.parse_command(true), ParsedCommand::Interactive));
    assert!(matches!(cli_with(&["interactive", "x"]).parse_command(false), ParsedCommand::ShowToolInfo { .. }));
}

#[test]
fn output_format_option() {
    assert_eq!(OutputFormat::Json.to_app(), AppOutputFormat::Json);
    assert_eq!(OutputFormat::Yaml.to_app(), AppOutputFormat::Yaml);
    assert_eq!(OutputFormat::Text.to_app(), AppOutputFormat::Text);
}
