//! What the use cases compute between their input and output: the server
//! listing, the server and tool information, the formatted call result, and
//! the matches of a tool search.

use vstd::prelude::*;
use crate::application::dto::{
    server_dto_json, tool_match_json, tool_summary_json, ServerDto, ServerListResponse, ToolCallResponse,
    ToolMatchDto, ToolSummaryDto,
};
use crate::domain::entities::{
    call_result_json, command_string, config_transport, CallToolResult, MCPConfig, ServerConfig,
    ServerConfigView, Tool, ToolContent,
};
use crate::domain::errors::{ErrorCode, MCPError, method_not_found_message, server_not_found_message};
use crate::domain::services::{
    call_example, first_named, formatted_schema, info_views, required_names, schema_param_infos, search_hits,
    tool_matches, SchemaFormatter, ToolMatcher,
};
use crate::domain::value_objects::transport_name;
use crate::json::{entries_model, object, opt_text_entry, push_entry, strings_to_json, texts_json, Json, JsonValue};
use crate::text::{append_str, join, join_strings, lowercase, opt_string_view, str_eq, to_lowercase, views};

verus! {

/// The configuration of the server `name`; a server-not-found error when the
/// configuration has none.
pub fn find_server_config<'a>(config: &'a MCPConfig, name: &str) -> (r: Result<&'a ServerConfig, MCPError>)
    ensures
        match r {
            Ok(c) => config.mcp_servers.model().contains_key(name@) && *c == config.mcp_servers.model()[name@],
            Err(e) => !config.mcp_servers.model().contains_key(name@) && e.code == ErrorCode::ServerNotFound
                && e.message@ == server_not_found_message(name@),
        },
{
    match config.get_server(name) {
        Some(c) => Ok(c),
        None => Err(MCPError::server_not_found(name)),
    }
}

/// The listing entry of a server.
pub open spec fn server_entry(name: Seq<char>, c: ServerConfigView, tools: Option<Seq<Seq<char>>>) -> Json {
    Json::Object(seq![("name"@, Json::Str(name)), ("transport"@, Json::Str(transport_name(config_transport(c))))]
        + opt_text_entry("url"@, c.url)
        + opt_text_entry("command"@, command_string(c))
        + match tools {
            Some(t) => seq![("tools"@, texts_json(t))],
            None => Seq::empty(),
        })
}

/// The listing entry of a server: its name, transport, URL and command line,
/// and its tools when they are known.
pub fn server_dto(name: &str, config: &ServerConfig, tools: Option<Vec<String>>) -> (r: ServerDto)
    ensures
        server_dto_json(r) == server_entry(name@, config@, match tools { Some(t) => Some(views(t@)), None => None }),
{
    let transport = config.get_transport_type().to_string();
    let url = crate::text::clone_opt_string(&config.url);
    let command = config.build_command_string();
    let r = ServerDto { name: name.to_owned(), transport, url, command, tools, error: None };
    assert(server_dto_json(r)->Object_0 =~= server_entry(name@, config@, match tools { Some(t) => Some(views(t@)), None => None })->Object_0);
    r
}

/// The listing of the configured servers, in the order of the configuration,
/// with the files the configuration came from.
pub fn list_servers_response(config: &MCPConfig, loaded_paths: Vec<String>) -> (r: ServerListResponse)
    ensures
        r.config_files == loaded_paths,
        r.servers@.len() == config.mcp_servers.key_seq().len(),
        forall|i: int| 0 <= i < r.servers@.len() ==> #[trigger] server_dto_json(r.servers@[i]) == server_entry(
            config.mcp_servers.key_seq()[i],
            config.mcp_servers.model()[config.mcp_servers.key_seq()[i]]@,
            None,
        ),
{
    let servers_map = &config.mcp_servers;
    servers_map.check_distinct();
    proof {
        crate::strmap::lemma_map_of(servers_map.entries());
    }
    let mut servers: Vec<ServerDto> = Vec::new();
    let mut i: usize = 0;
    while i < servers_map.len()
        invariant
            i <= servers_map.entries().len(),
            servers@.len() == i,
            crate::strmap::distinct_keys(servers_map.entries()),
            forall|j: int| 0 <= j < servers_map.entries().len() ==> #[trigger] servers_map.model()[servers_map.entries()[j].0@] == servers_map.entries()[j].1,
            forall|j: int| 0 <= j < i ==> #[trigger] server_dto_json(servers@[j]) == server_entry(
                servers_map.key_seq()[j],
                servers_map.model()[servers_map.key_seq()[j]]@,
                None,
            ),
        decreases servers_map.entries().len() - i,
    {
        let (name, cfg) = servers_map.entry_at(i);
        let dto = server_dto(name.as_str(), cfg, None);
        servers.push(dto);
        i = i + 1;
    }
    ServerListResponse { servers, config_files: loaded_paths }
}

/// The names of a list of tools, in order.
pub open spec fn tool_names(tools: Seq<Tool>) -> Seq<Seq<char>> {
    Seq::new(tools.len(), |i: int| tools[i].name@)
}

/// The names of the tools, in order.
pub fn names_of(tools: &Vec<Tool>) -> (r: Vec<String>)
    ensures
        views(r@) == tool_names(tools@),
{
    let mut r: Vec<String> = Vec::new();
    let mut i: usize = 0;
    while i < tools.len()
        invariant
            i <= tools@.len(),
            r@.len() == i,
            forall|j: int| 0 <= j < i ==> #[trigger] r@[j]@ == tools@[j].name@,
        decreases tools@.len() - i,
    {
        r.push(tools[i].name.clone());
        i = i + 1;
    }
    assert(views(r@) =~= tool_names(tools@));
    r
}

/// The data of the server information: "configFiles" and "server" (its
/// listing entry with its tools).
pub fn server_info_data(server_name: &str, config: &ServerConfig, tools: &Vec<Tool>, loaded_paths: &Vec<String>) -> (r: JsonValue)
    ensures
        r.model() == Json::Object(seq![
            ("configFiles"@, texts_json(views(loaded_paths@))),
            ("server"@, server_entry(server_name@, config@, Some(tool_names(tools@)))),
        ]),
{
    let names = names_of(tools);
    let ghost nv = views(names@);
    let dto = server_dto(server_name, config, Some(names));
    let mut e: Vec<(String, JsonValue)> = Vec::new();
    push_entry(&mut e, "configFiles", strings_to_json(loaded_paths));
    push_entry(&mut e, "server", dto.to_json());
    let r = object(e);
    assert(r.model()->Object_0 =~= seq![
        ("configFiles"@, texts_json(views(loaded_paths@))),
        ("server"@, server_entry(server_name@, config@, Some(tool_names(tools@)))),
    ]);
    r
}

/// The parameter format shown with formatted parameters.
pub open spec fn param_format_text() -> Seq<char> {
    "key:type=value (type: string/number/bool)"@
}

/// The entries describing a tool: name; description; "required" (the
/// required parameters joined by " OR ") when there are any; then, when the
/// schema formats, "param_format", "param_example" and "call_example"; else
/// the schema itself as "inputSchema" when there is one.
pub open spec fn tool_data(server_name: Seq<char>, t: Tool) -> Seq<(Seq<char>, Json)> {
    let schema = t.input_schema;
    let required = match schema { Some(s) => required_names(s.model()), None => Seq::empty() };
    let formatted = match schema { Some(s) => formatted_schema(s.model()), None => None };
    let infos = match schema { Some(s) => schema_param_infos(s.model()), None => Seq::empty() };
    seq![("name"@, Json::Str(t.name@))]
        + opt_text_entry("description"@, opt_string_view(t.description))
        + (if required.len() > 0 { seq![("required"@, Json::Str(join(required, " OR "@)))] } else { Seq::empty() })
        + match formatted {
            Some(lines) => seq![
                ("param_format"@, Json::Str(param_format_text())),
                ("param_example"@, texts_json(lines)),
                ("call_example"@, Json::Str("rmcp "@ + server_name + " "@ + t.name@ + " "@ + call_example(infos))),
            ],
            None => match schema {
                Some(s) => seq![("inputSchema"@, s.model())],
                None => Seq::empty(),
            },
        }
}

/// The data of the tool information: "configFiles", "server" and "tool";
/// a method-not-found error when the server has no tool of that name.
pub fn tool_info_data(server_name: &str, tool_name: &str, tools: &Vec<Tool>, loaded_paths: &Vec<String>) -> (r: Result<JsonValue, MCPError>)
    ensures
        match r {
            Ok(v) => first_named(tools@, tool_name@) matches Some(i) && v.model() == Json::Object(seq![
                ("configFiles"@, texts_json(views(loaded_paths@))),
                ("server"@, Json::Str(server_name@)),
                ("tool"@, Json::Object(tool_data(server_name@, tools@[i]))),
            ]),
            Err(e) => first_named(tools@, tool_name@) is None && e.code == ErrorCode::MethodNotFound
                && e.message@ == method_not_found_message(tool_name@, server_name@),
        },
{
    let tool = match ToolMatcher::find_tool_by_name(tools.as_slice(), tool_name) {
        Some(t) => t,
        None => return Err(MCPError::method_not_found(tool_name, server_name)),
    };
    let mut e: Vec<(String, JsonValue)> = Vec::new();
    push_entry(&mut e, "name", JsonValue::Str(tool.name.clone()));
    crate::json::push_opt_text(&mut e, "description", &tool.description);
    let required: Vec<String> = match &tool.input_schema {
        Some(s) => SchemaFormatter::get_required_params(s),
        None => Vec::new(),
    };
    let ghost e1 = entries_model(e@);
    if required.len() > 0 {
        push_entry(&mut e, "required", JsonValue::Str(join_strings(&required, " OR ")));
    }
    let ghost e2 = entries_model(e@);
    let formatted: Option<Vec<String>> = match &tool.input_schema {
        Some(s) => SchemaFormatter::format_input_schema(s),
        None => None,
    };
    match formatted {
        Some(lines) => {
            let infos = match &tool.input_schema {
                Some(s) => SchemaFormatter::get_param_info_list(s),
                None => Vec::new(),
            };
            push_entry(&mut e, "param_format", JsonValue::Str("key:type=value (type: string/number/bool)".to_owned()));
            push_entry(&mut e, "param_example", strings_to_json(&lines));
            let mut example = "rmcp ".to_owned();
            append_str(&mut example, server_name);
            append_str(&mut example, " ");
            append_str(&mut example, tool.name.as_str());
            append_str(&mut example, " ");
            append_str(&mut example, SchemaFormatter::build_call_example(infos.as_slice()).as_str());
            push_entry(&mut e, "call_example", JsonValue::Str(example));
        },
        None => {
            match &tool.input_schema {
                Some(s) => push_entry(&mut e, "inputSchema", s.clone()),
                None => {},
            }
        },
    }
    let ghost i = first_named(tools@, tool_name@)->0;
    assert(entries_model(e@) =~= tool_data(server_name@, tools@[i]));
    let tool_obj = object(e);
    let mut top: Vec<(String, JsonValue)> = Vec::new();
    push_entry(&mut top, "configFiles", strings_to_json(loaded_paths));
    push_entry(&mut top, "server", JsonValue::Str(server_name.to_owned()));
    push_entry(&mut top, "tool", tool_obj);
    let r = object(top);
    assert(r.model()->Object_0 =~= seq![
        ("configFiles"@, texts_json(views(loaded_paths@))),
        ("server"@, Json::Str(server_name@)),
        ("tool"@, Json::Object(tool_data(server_name@, tools@[i]))),
    ]);
    Ok(r)
}

/// The text contents of a result as JSON items {"text": ..., "type": "text"}.
pub open spec fn text_items(content: Seq<ToolContent>) -> Seq<Json>
    decreases content.len(),
{
    if content.len() == 0 {
        Seq::empty()
    } else {
        let rest = text_items(content.drop_last());
        match content.last() {
            ToolContent::Text { text } => rest.push(Json::Object(seq![("text"@, Json::Str(text@)), ("type"@, Json::Str("text"@))])),
            _ => rest,
        }
    }
}

/// The result of a tool call as shown: its text contents as a list of
/// {"text", "type": "text"} objects when there is text; else the whole result.
pub open spec fn formatted_call_result(r: CallToolResult) -> Json {
    if text_items(r.content@).len() > 0 {
        Json::Array(text_items(r.content@))
    } else {
        call_result_json(r)
    }
}

/// The result of a tool call as shown.
pub fn format_call_result(result: &CallToolResult) -> (r: JsonValue)
    ensures
        r.model() == formatted_call_result(*result),
{
    let mut items: Vec<JsonValue> = Vec::new();
    let mut i: usize = 0;
    while i < result.content.len()
        invariant
            i <= result.content@.len(),
            Seq::new(items@.len(), |j: int| items@[j].model()) == text_items(result.content@.take(i as int)),
        decreases result.content@.len() - i,
    {
        assert(result.content@.take(i + 1).drop_last() =~= result.content@.take(i as int));
        let ghost before = items@;
        match &result.content[i] {
            ToolContent::Text { text } => {
                let mut e: Vec<(String, JsonValue)> = Vec::new();
                push_entry(&mut e, "text", JsonValue::Str(text.clone()));
                push_entry(&mut e, "type", JsonValue::Str("text".to_owned()));
                let item = object(e);
                assert(item.model()->Object_0 =~= seq![("text"@, Json::Str(text@)), ("type"@, Json::Str("text"@))]);
                items.push(item);
                assert(Seq::new(items@.len(), |j: int| items@[j].model())
                    =~= Seq::new(before.len(), |j: int| before[j].model()).push(item.model()));
            },
            _ => {},
        }
        i = i + 1;
    }
    assert(result.content@.take(i as int) =~= result.content@);
    if items.len() > 0 {
        let r = JsonValue::Array(items);
        assert(r.model()->Array_0 =~= Seq::new(items@.len(), |j: int| items@[j].model()));
        r
    } else {
        result.to_json()
    }
}

/// The response of a tool call.
pub fn call_tool_response(server: &str, method: &str, result: &CallToolResult) -> (r: ToolCallResponse)
    ensures
        r.server@ == server@,
        r.method@ == method@,
        r.result.model() == formatted_call_result(*result),
{
    ToolCallResponse { server: server.to_owned(), method: method.to_owned(), result: format_call_result(result) }
}

/// The JSON of a found tool on a server.
pub open spec fn found_tool_json(server: Seq<char>, t: Tool) -> Json {
    Json::Object(seq![
        ("server"@, Json::Str(server)),
        ("tool"@, Json::Object(seq![("name"@, Json::Str(t.name@))] + opt_text_entry("description"@, opt_string_view(t.description)))),
    ])
}

/// The tools of a list that have the given name, in order.
pub open spec fn tools_named(tools: Seq<Tool>, name: Seq<char>) -> Seq<Tool>
    decreases tools.len(),
{
    if tools.len() == 0 {
        Seq::empty()
    } else {
        let rest = tools_named(tools.drop_last(), name);
        if tools.last().name@ == name { rest.push(tools.last()) } else { rest }
    }
}

/// The match entry of a tool on a server.
fn match_dto(server: &str, t: &Tool) -> (r: ToolMatchDto)
    ensures
        tool_match_json(r) == found_tool_json(server@, *t),
{
    let r = ToolMatchDto {
        server: server.to_owned(),
        tool: ToolSummaryDto { name: t.name.clone(), description: crate::text::clone_opt_string(&t.description) },
    };
    assert(tool_summary_json(r.tool)->Object_0 =~= (seq![("name"@, Json::Str(t.name@))] + opt_text_entry("description"@, opt_string_view(t.description))));
    r
}

/// The tools of a server that have the given name, as match entries.
pub fn find_tool_matches(server: &str, tools: &Vec<Tool>, tool_name: &str) -> (r: Vec<ToolMatchDto>)
    ensures
        r@.len() == tools_named(tools@, tool_name@).len(),
        forall|i: int| 0 <= i < r@.len() ==> #[trigger] tool_match_json(r@[i]) == found_tool_json(server@, tools_named(tools@, tool_name@)[i]),
{
    let mut r: Vec<ToolMatchDto> = Vec::new();
    let mut i: usize = 0;
    while i < tools.len()
        invariant
            i <= tools@.len(),
            r@.len() == tools_named(tools@.take(i as int), tool_name@).len(),
            forall|j: int| 0 <= j < r@.len() ==> #[trigger] tool_match_json(r@[j]) == found_tool_json(server@, tools_named(tools@.take(i as int), tool_name@)[j]),
        decreases tools@.len() - i,
    {
        assert(tools@.take(i + 1).drop_last() =~= tools@.take(i as int));
        assert(tools@.take(i + 1).last() == tools@[i as int]);
        if str_eq(tools[i].name.as_str(), tool_name) {
            let ghost r0 = r@;
            r.push(match_dto(server, &tools[i]));
            assert forall|j: int| 0 <= j < r@.len() implies #[trigger] tool_match_json(r@[j]) == found_tool_json(server@, tools_named(tools@.take(i + 1), tool_name@)[j]) by {
                if j < r0.len() { assert(r@[j] == r0[j]); }
            }
        }
        i = i + 1;
    }
    assert(tools@.take(i as int) =~= tools@);
    r
}

/// The tools of a server whose lowercased name or description holds the
/// lowercased query, as match entries.
pub fn search_tool_matches(server: &str, tools: &Vec<Tool>, query: &str) -> (r: Vec<ToolMatchDto>)
    ensures
        r@.len() == search_hits(tools@, lowercase(query@)).len(),
        forall|i: int| 0 <= i < r@.len() ==> #[trigger] tool_match_json(r@[i]) == found_tool_json(server@, search_hits(tools@, lowercase(query@))[i]),
{
    let hits = ToolMatcher::search_tools(tools.as_slice(), query);
    let mut r: Vec<ToolMatchDto> = Vec::new();
    let mut i: usize = 0;
    while i < hits.len()
        invariant
            i <= hits@.len(),
            hits@.len() == search_hits(tools@, lowercase(query@)).len(),
            forall|j: int| 0 <= j < hits@.len() ==> *hits@[j] == search_hits(tools@, lowercase(query@))[j],
            r@.len() == i,
            forall|j: int| 0 <= j < i ==> #[trigger] tool_match_json(r@[j]) == found_tool_json(server@, search_hits(tools@, lowercase(query@))[j]),
        decreases hits@.len() - i,
    {
        r.push(match_dto(server, hits[i]));
        i = i + 1;
    }
    r
}

/// The details of an error as JSON, when it has any.
pub fn error_details(e: &MCPError) -> (r: Option<JsonValue>)
    ensures
        match e.details {
            Some(d) => r matches Some(v) && v.model() == Json::Object(entries_model(d@)),
            None => r is None,
        },
{
    match &e.details {
        Some(d) => {
            let mut out: Vec<(String, JsonValue)> = Vec::new();
            let mut i: usize = 0;
            while i < d.len()
                invariant
                    i <= d.len(),
                    entries_model(out@) == entries_model(d@.subrange(0, i as int)),
                decreases d.len() - i,
            {
                let c = crate::json::json_clone(&d[i].1);
                crate::json::push_entry(&mut out, d[i].0.as_str(), c);
                assert(entries_model(d@.subrange(0, i + 1)) =~= entries_model(d@.subrange(0, i as int)).push((d@[i as int].0@, d@[i as int].1.model())));
                i = i + 1;
            }
            assert(d@.subrange(0, d@.len() as int) =~= d@);
            Some(crate::json::object(out))
        },
        None => None,
    }
}

} // verus!

verus! {

/// Appends `more` to `acc`.
fn append_matches(acc: Vec<ToolMatchDto>, more: Vec<ToolMatchDto>) -> (r: Vec<ToolMatchDto>)
    ensures
        r@ == acc@ + more@,
{
    let mut r = acc;
    let mut rest = more;
    let ghost a = r@;
    let ghost m = rest@;
    let mut i: usize = 0;
    let n = rest.len();
    while i < n
        invariant
            n == m.len(),
            i <= n,
            r@ == a + m.take(i as int),
            rest@ == m.skip(i as int),
        decreases n - i,
    {
        let x = rest.remove(0);
        assert(m.take(i + 1) =~= m.take(i as int).push(x));
        assert(rest@ =~= m.skip(i + 1));
        r.push(x);
        i = i + 1;
    }
    assert(m.take(n as int) =~= m);
    r
}

/// One server's part of a search over every server: the matches so far,
/// then the matches among the server's tools when they could be listed; a
/// server that could not be reached or listed adds nothing.
pub fn search_step(acc: Vec<ToolMatchDto>, server: &str, listed: Option<&Vec<Tool>>, query: &str) -> (r: Vec<ToolMatchDto>)
    ensures
        match listed {
            None => r@ == acc@,
            Some(tools) => r@.len() == acc@.len() + search_hits(tools@, lowercase(query@)).len()
                && r@.take(acc@.len() as int) == acc@
                && forall|i: int| 0 <= i < search_hits(tools@, lowercase(query@)).len()
                    ==> #[trigger] tool_match_json(r@[acc@.len() + i]) == found_tool_json(server@, search_hits(tools@, lowercase(query@))[i]),
        },
{
    match listed {
        None => acc,
        Some(tools) => {
            let more = search_tool_matches(server, tools, query);
            let ghost a = acc@;
            let r = append_matches(acc, more);
            assert(r@.take(a.len() as int) =~= a);
            assert forall|i: int| 0 <= i < more@.len() implies r@[a.len() + i] == more@[i] by {}
            r
        },
    }
}

/// One server's part of finding a tool by name on every server: the matches
/// so far, then the server's tools of that name when they could be listed; a
/// server that could not be reached or listed adds nothing.
pub fn find_step(acc: Vec<ToolMatchDto>, server: &str, listed: Option<&Vec<Tool>>, tool_name: &str) -> (r: Vec<ToolMatchDto>)
    ensures
        match listed {
            None => r@ == acc@,
            Some(tools) => r@.len() == acc@.len() + tools_named(tools@, tool_name@).len()
                && r@.take(acc@.len() as int) == acc@
                && forall|i: int| 0 <= i < tools_named(tools@, tool_name@).len()
                    ==> #[trigger] tool_match_json(r@[acc@.len() + i]) == found_tool_json(server@, tools_named(tools@, tool_name@)[i]),
        },
{
    match listed {
        None => acc,
        Some(tools) => {
            let more = find_tool_matches(server, tools, tool_name);
            let ghost a = acc@;
            let r = append_matches(acc, more);
            assert(r@.take(a.len() as int) =~= a);
            assert forall|i: int| 0 <= i < more@.len() implies r@[a.len() + i] == more@[i] by {}
            r
        },
    }
}

} // verus!
