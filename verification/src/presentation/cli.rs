//! The command line: its options, and the command that its positional
//! arguments ask for.

use vstd::prelude::*;
use crate::application::dto::OutputFormat as AppOutputFormat;
use crate::text::views;

verus! {

/// Output format options of the command line.
#[derive(Debug, Clone, Copy, PartialEq, Eq, Structural)]
pub enum OutputFormat {
    Json,
    Yaml,
    Text,
}

impl OutputFormat {
    /// The output format of the application that this option selects.
    pub fn to_app(self) -> (r: AppOutputFormat)
        ensures
            r == match self {
                OutputFormat::Json => AppOutputFormat::Json,
                OutputFormat::Yaml => AppOutputFormat::Yaml,
                OutputFormat::Text => AppOutputFormat::Text,
            },
    {
        match self {
            OutputFormat::Json => AppOutputFormat::Json,
            OutputFormat::Yaml => AppOutputFormat::Yaml,
            OutputFormat::Text => AppOutputFormat::Text,
        }
    }
}

/// Subcommands.
#[derive(Debug, Clone, Copy, PartialEq, Eq, Structural)]
pub enum Commands {
    /// The interactive mode.
    Interactive,
}

/// The options and arguments of one invocation.
#[derive(Debug)]
pub struct Cli {
    /// Output format (json, yaml, text).
    pub output: OutputFormat,
    /// Streaming output.
    pub stream: bool,
    /// YAML parameters given inline.
    pub yaml_params: Option<String>,
    /// A YAML file with the parameters.
    pub yaml_file: Option<String>,
    /// The subcommand, if one was given.
    pub command: Option<Commands>,
    /// Positional arguments: server, tool, parameters.
    pub args: Vec<String>,
}

/// The command an invocation asks for.
#[derive(Debug)]
pub enum ParsedCommand {
    /// List all servers.
    ListServers,
    /// Show a server and its tools.
    ShowServerInfo { server: String },
    /// Show one tool.
    ShowToolInfo { server: String, tool: String },
    /// Call a tool.
    CallTool { server: String, tool: String, args: Vec<String> },
    /// The interactive mode.
    Interactive,
}

/// A parsed command, with its texts as character sequences.
pub enum CommandView {
    ListServers,
    ShowServerInfo(Seq<char>),
    ShowToolInfo(Seq<char>, Seq<char>),
    CallTool(Seq<char>, Seq<char>, Seq<Seq<char>>),
    Interactive,
}

impl View for ParsedCommand {
    type V = CommandView;

    open spec fn view(&self) -> CommandView {
        match self {
            ParsedCommand::ListServers => CommandView::ListServers,
            ParsedCommand::ShowServerInfo { server } => CommandView::ShowServerInfo(server@),
            ParsedCommand::ShowToolInfo { server, tool } => CommandView::ShowToolInfo(server@, tool@),
            ParsedCommand::CallTool { server, tool, args } => CommandView::CallTool(server@, tool@, views(args@)),
            ParsedCommand::Interactive => CommandView::Interactive,
        }
    }
}

/// The command for an invocation: the interactive mode for the subcommand or
/// for the single argument "interactive"; with no argument, the server list;
/// with one, that server; with two, a call without `key=value` parameters
/// when parameters come as YAML (inline, from a file, or piped to standard
/// input), else the tool's description; with more, a call with the rest as
/// parameters.
pub open spec fn command_for(
    interactive: bool,
    args: Seq<Seq<char>>,
    has_yaml: bool,
    has_file: bool,
    piped: bool,
) -> CommandView {
    if interactive || (args.len() == 1 && args[0] == "interactive"@) {
        CommandView::Interactive
    } else if args.len() == 0 {
        CommandView::ListServers
    } else if args.len() == 1 {
        CommandView::ShowServerInfo(args[0])
    } else if args.len() == 2 {
        if has_yaml || has_file || piped {
            CommandView::CallTool(args[0], args[1], Seq::empty())
        } else {
            CommandView::ShowToolInfo(args[0], args[1])
        }
    } else {
        CommandView::CallTool(args[0], args[1], args.skip(2))
    }
}

impl Cli {
    /// The command this invocation asks for, where `piped` tells whether
    /// standard input is a pipe rather than a terminal.
    pub fn parse_command(&self, piped: bool) -> (r: ParsedCommand)
        ensures
            r@ == command_for(
                self.command is Some,
                views(self.args@),
                self.yaml_params is Some,
                self.yaml_file is Some,
                piped,
            ),
    {
        let n = self.args.len();
        if self.command.is_some() {
            return ParsedCommand::Interactive;
        }
        if n == 1 && crate::text::str_eq(self.args[0].as_str(), "interactive") {
            return ParsedCommand::Interactive;
        }
        if n == 0 {
            ParsedCommand::ListServers
        } else if n == 1 {
            ParsedCommand::ShowServerInfo { server: self.args[0].clone() }
        } else if n == 2 {
            let has_yaml_input = self.yaml_params.is_some() || self.yaml_file.is_some() || piped;
            if has_yaml_input {
                let none: Vec<String> = Vec::new();
                assert(views(none@) =~= Seq::<Seq<char>>::empty());
                ParsedCommand::CallTool {
                    server: self.args[0].clone(),
                    tool: self.args[1].clone(),
                    args: none,
                }
            } else {
                ParsedCommand::ShowToolInfo {
                    server: self.args[0].clone(),
                    tool: self.args[1].clone(),
                }
            }
        } else {
            let mut rest: Vec<String> = Vec::new();
            let mut i: usize = 2;
            while i < n
                invariant
                    n == self.args@.len(),
                    2 <= i <= n,
                    rest@ == self.args@.subrange(2, i as int),
                decreases n - i,
            {
                rest.push(self.args[i].clone());
                i = i + 1;
            }
            let r = ParsedCommand::CallTool {
                server: self.args[0].clone(),
                tool: self.args[1].clone(),
                args: rest,
            };
            assert(views(rest@) =~= views(self.args@).skip(2));
            r
        }
    }
}

impl Default for Cli {
    /// The invocation with no option and no argument.
    fn default() -> (r: Self)
        ensures
            r.output == OutputFormat::Json,
            !r.stream,
            r.yaml_params is None,
            r.yaml_file is None,
            r.command is None,
            r.args@.len() == 0,
    {
        Cli {
            output: OutputFormat::Json,
            stream: false,
            yaml_params: None,
            yaml_file: None,
            command: None,
            args: Vec::new(),
        }
    }
}

} // verus!
