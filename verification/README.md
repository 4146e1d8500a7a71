# rmcp

A command-line client for MCP (Model Context Protocol) servers that loads tool
schemas on demand, with its logic verified by Verus.

- `src/` is the verified library: configuration search and merging, server
  configurations and transport selection, `key=value` parameter parsing,
  tool schema formatting, tool matching, `${VAR}` / `$VAR` resolution, the
  JSON responses the commands print, the OAuth PKCE parameters and callback
  handling, the MCP client state, the command line and the interactive mode's
  decisions. Each function states its result in `ensures`; the `law_*` proof
  functions state properties that relate several functions.
- `app/` is the program around it: argument parsing with clap, file, network
  and process I/O, the HTTP and stdio transports, the OAuth callback server,
  printing as JSON or YAML, and the interactive line editor.
- `tests/` runs the library on concrete values.
