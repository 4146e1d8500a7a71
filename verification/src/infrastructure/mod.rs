//! Infrastructure: configuration files, OAuth, transports, the MCP client
//! state, output and parameter input, each as the decisions the program makes
//! around its input and output.

pub mod config;
pub mod mcp_client;
pub mod oauth;
pub mod output;
pub mod param_parser;
pub mod transport;
