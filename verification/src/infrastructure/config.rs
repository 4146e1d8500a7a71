//! The configuration repository: where configuration files are searched and
//! how the files that were read combine into one configuration.

use vstd::prelude::*;
use crate::domain::entities::{MCPConfig, ServerConfig};
use crate::domain::errors::{ErrorCode, MCPError};
use crate::text::{append_str, chars_of, concat, opt_str_view, substring, views};

verus! {

/// The default search paths on Unix-like platforms: two under the home
/// directory when it is known, then `./mcp.json`, `./.mcp/config.json` and
/// `/etc/mcp/config.json`.
pub open spec fn unix_paths(home: Option<Seq<char>>) -> Seq<Seq<char>> {
    let fixed = seq!["./mcp.json"@, "./.mcp/config.json"@, "/etc/mcp/config.json"@];
    match home {
        Some(h) => seq![h + "/.config/modelcontextprotocol/mcp.json"@, h + "/.config/mcp/config.json"@] + fixed,
        None => fixed,
    }
}

/// The default search paths on Windows: two under `APPDATA`, one under
/// `USERPROFILE`, then `.\mcp.json` and `.\.mcp\config.json`, then one under
/// `ProgramData`, each where the variable is known.
pub open spec fn windows_paths(
    app_data: Option<Seq<char>>,
    user_profile: Option<Seq<char>>,
    program_data: Option<Seq<char>>,
) -> Seq<Seq<char>> {
    let a = match app_data {
        Some(d) => seq![d + "\\modelcontextprotocol\\mcp.json"@, d + "\\mcp\\config.json"@],
        None => Seq::empty(),
    };
    let u = match user_profile {
        Some(p) => seq![p + "\\.mcp\\config.json"@],
        None => Seq::empty(),
    };
    let p = match program_data {
        Some(d) => seq![d + "\\mcp\\config.json"@],
        None => Seq::empty(),
    };
    a + u + seq![".\\mcp.json"@, ".\\.mcp\\config.json"@] + p
}

/// A path with a leading `~` replaced by the home directory when it is known.
pub open spec fn expanded_path(path: Seq<char>, home: Option<Seq<char>>) -> Seq<char> {
    if path.len() == 0 || path[0] != '~' {
        path
    } else {
        match home {
            None => path,
            Some(h) => if path.len() == 1 { h } else { h + path.skip(1) },
        }
    }
}

/// The servers of the files that were read, in the order of priority: a
/// server configured in several files keeps the configuration of the first.
pub open spec fn loaded_servers(loaded: Seq<(String, Option<MCPConfig>)>) -> Map<Seq<char>, ServerConfig>
    decreases loaded.len(),
{
    if loaded.len() == 0 {
        Map::empty()
    } else {
        let rest = loaded_servers(loaded.drop_last());
        match loaded.last().1 {
            Some(c) => c.mcp_servers.model().union_prefer_right(rest),
            None => rest,
        }
    }
}

/// The paths of the files that were read, in order.
pub open spec fn loaded_paths(loaded: Seq<(String, Option<MCPConfig>)>) -> Seq<Seq<char>>
    decreases loaded.len(),
{
    if loaded.len() == 0 {
        Seq::empty()
    } else {
        let rest = loaded_paths(loaded.drop_last());
        match loaded.last().1 {
            Some(_) => rest.push(loaded.last().0@),
            None => rest,
        }
    }
}

/// A string holding a text followed by a literal.
fn with_suffix(prefix: &str, suffix: &str) -> (r: String)
    ensures
        r@ == prefix@ + suffix@,
{
    concat(prefix, suffix)
}

/// Configuration repository backed by files.
pub struct FileConfigRepository {
    search_paths: Vec<String>,
}

impl FileConfigRepository {
    /// A repository that searches the default paths of a Unix-like platform,
    /// given the home directory.
    pub fn new(home: Option<&str>) -> (r: Self)
        ensures
            views(r.search_paths()@) == unix_paths(opt_str_view(home)),
    {
        FileConfigRepository { search_paths: Self::get_unix_paths(home) }
    }

    /// A repository that searches the given paths.
    pub fn with_search_paths(paths: Vec<String>) -> (r: Self)
        ensures
            r.search_paths() == paths,
    {
        FileConfigRepository { search_paths: paths }
    }

    /// The paths searched, in order.
    pub closed spec fn search_paths(&self) -> Vec<String> {
        self.search_paths
    }

    /// The paths searched, in order.
    pub fn get_search_paths(&self) -> (r: &Vec<String>)
        ensures
            *r == self.search_paths(),
    {
        &self.search_paths
    }

    /// The default search paths of a Unix-like platform.
    pub fn get_default_search_paths(home: Option<&str>) -> (r: Vec<String>)
        ensures
            views(r@) == unix_paths(opt_str_view(home)),
    {
        Self::get_unix_paths(home)
    }

    /// The default search paths of a Unix-like platform.
    pub fn get_unix_paths(home: Option<&str>) -> (r: Vec<String>)
        ensures
            views(r@) == unix_paths(opt_str_view(home)),
    {
        let mut paths: Vec<String> = Vec::new();
        if let Some(h) = home {
            paths.push(with_suffix(h, "/.config/modelcontextprotocol/mcp.json"));
            paths.push(with_suffix(h, "/.config/mcp/config.json"));
        }
        paths.push("./mcp.json".to_owned());
        paths.push("./.mcp/config.json".to_owned());
        paths.push("/etc/mcp/config.json".to_owned());
        assert(views(paths@) =~= unix_paths(opt_str_view(home)));
        paths
    }

    /// The default search paths of Windows, given `APPDATA`, `USERPROFILE`
    /// and `ProgramData`.
    pub fn get_windows_paths(app_data: Option<&str>, user_profile: Option<&str>, program_data: Option<&str>) -> (r: Vec<String>)
        ensures
            views(r@) == windows_paths(opt_str_view(app_data), opt_str_view(user_profile), opt_str_view(program_data)),
    {
        let mut paths: Vec<String> = Vec::new();
        if let Some(d) = app_data {
            paths.push(with_suffix(d, "\\modelcontextprotocol\\mcp.json"));
            paths.push(with_suffix(d, "\\mcp\\config.json"));
        }
        if let Some(p) = user_profile {
            paths.push(with_suffix(p, "\\.mcp\\config.json"));
        }
        paths.push(".\\mcp.json".to_owned());
        paths.push(".\\.mcp\\config.json".to_owned());
        if let Some(d) = program_data {
            paths.push(with_suffix(d, "\\mcp\\config.json"));
        }
        assert(views(paths@) =~= windows_paths(opt_str_view(app_data), opt_str_view(user_profile), opt_str_view(program_data)));
        paths
    }

    /// A path with a leading `~` replaced by the home directory.
    pub fn expand_home(path: &str, home: Option<&str>) -> (r: String)
        ensures
            r@ == expanded_path(path@, opt_str_view(home)),
    {
        let chars = chars_of(path);
        if chars.len() == 0 || chars[0] != '~' {
            return path.to_owned();
        }
        match home {
            None => path.to_owned(),
            Some(h) => {
                if chars.len() == 1 {
                    h.to_owned()
                } else {
                    let rest = substring(&chars, 1, chars.len());
                    assert(rest@ =~= path@.skip(1));
                    concat(h, rest.as_str())
                }
            },
        }
    }

    /// One configuration from the files that were read, in the order of the
    /// search paths: each entry is a path and what was read from it (`None`
    /// when the file is missing or unreadable). The search paths are in order
    /// of priority, so a server configured in several files keeps the
    /// configuration of the first; the paths are those of the files read.
    /// When no file was read the configuration is not found.
    pub fn combine_loaded(loaded: Vec<(String, Option<MCPConfig>)>) -> (r: Result<(MCPConfig, Vec<String>), MCPError>)
        ensures
            match r {
                Ok((cfg, paths)) => loaded_paths(loaded@).len() > 0
                    && cfg.mcp_servers.model() == loaded_servers(loaded@)
                    && views(paths@) == loaded_paths(loaded@),
                Err(e) => loaded_paths(loaded@).len() == 0
                    && e.code == ErrorCode::ConfigNotFound
                    && e.message@ == "no config files found"@
                    && e.details is None,
            },
    {
        let ghost all = loaded@;
        let mut rest = loaded;
        let mut result = MCPConfig::new();
        let mut paths: Vec<String> = Vec::new();
        let ghost mut done: int = 0;
        assert(all.take(0) =~= Seq::<(String, Option<MCPConfig>)>::empty());
        while rest.len() > 0
            invariant
                0 <= done <= all.len(),
                rest@ == all.skip(done),
                result.mcp_servers.model() == loaded_servers(all.take(done)),
                views(paths@) == loaded_paths(all.take(done)),
            decreases rest@.len(),
        {
            let (path, cfg) = rest.remove(0);
            proof {
                assert(all[done] == (path, cfg));
                assert(all.take(done + 1).drop_last() =~= all.take(done));
                assert(all.take(done + 1).last() == (path, cfg));
            }
            match cfg {
                Some(c) => {
                    let mut c = c;
                    c.merge(result);
                    result = c;
                    let ghost p0 = paths@;
                    paths.push(path);
                    assert(views(paths@) =~= views(p0).push(all[done].0@));
                },
                None => {},
            }
            proof {
                assert(rest@ =~= all.skip(done + 1));
                done = done + 1;
            }
        }
        assert(all.take(done) =~= all);
        if paths.len() == 0 {
            return Err(MCPError::config_not_found("no config files found"));
        }
        Ok((result, paths))
    }

    /// A copy of the configuration of the server `name`.
    pub fn get_server_config(config: &MCPConfig, name: &str) -> (r: Option<ServerConfig>)
        ensures
            match r {
                Some(c) => config.mcp_servers.model().contains_key(name@) && c@ == config.mcp_servers.model()[name@]@,
                None => !config.mcp_servers.model().contains_key(name@),
            },
    {
        match config.get_server(name) {
            Some(c) => Some(c.clone()),
            None => None,
        }
    }

    /// The names of the configured servers.
    pub fn list_servers(config: &MCPConfig) -> (r: Vec<String>)
        ensures
            views(r@) == config.mcp_servers.key_seq(),
    {
        config.mcp_servers.keys()
    }
}

/// A path that does not start with `~` is searched as it is.
pub proof fn law_expand_leaves_other_paths(path: Seq<char>, home: Option<Seq<char>>)
    requires
        path.len() == 0 || path[0] != '~',
    ensures
        expanded_path(path, home) == path,
{
}

/// `~` alone is the home directory, and `~/rest` is the home directory
/// followed by `/rest`.
pub proof fn law_expand_home_prefix(rest: Seq<char>, home: Seq<char>)
    ensures
        expanded_path(seq!['~'], Some(home)) == home,
        expanded_path(seq!['~'] + rest, Some(home)) == if rest.len() == 0 { home } else { home + rest },
{
    assert((seq!['~'] + rest).skip(1) =~= rest);
    if rest.len() == 0 {
        assert(seq!['~'] + rest =~= seq!['~']);
    }
}

/// A file that was read configures the server `name`.
pub open spec fn file_configures(entry: (String, Option<MCPConfig>), name: Seq<char>) -> bool {
    entry.1 matches Some(c) && c.mcp_servers.model().contains_key(name)
}

/// Combining files keeps every server that some file configures.
pub proof fn law_combined_servers(loaded: Seq<(String, Option<MCPConfig>)>, name: Seq<char>)
    ensures
        loaded_servers(loaded).contains_key(name) <==> exists|i: int| 0 <= i < loaded.len() && #[trigger] file_configures(loaded[i], name),
    decreases loaded.len(),
{
    if loaded.len() > 0 {
        let init = loaded.drop_last();
        law_combined_servers(init, name);
        if loaded_servers(loaded).contains_key(name) {
            if loaded_servers(init).contains_key(name) {
                let i = choose|i: int| 0 <= i < init.len() && #[trigger] file_configures(init[i], name);
                assert(loaded[i] == init[i]);
            } else {
                assert(loaded[loaded.len() - 1] == loaded.last());
                assert(file_configures(loaded[loaded.len() - 1], name));
            }
        }
        if exists|i: int| 0 <= i < loaded.len() && #[trigger] file_configures(loaded[i], name) {
            let i = choose|i: int| 0 <= i < loaded.len() && #[trigger] file_configures(loaded[i], name);
            if i < init.len() {
                assert(init[i] == loaded[i]);
            }
        }
    }
}


/// A server takes its configuration from the first file, in the order of
/// priority, that configures it.
pub proof fn law_first_file_wins(loaded: Seq<(String, Option<MCPConfig>)>, name: Seq<char>, i: int)
    requires
        0 <= i < loaded.len(),
        file_configures(loaded[i], name),
        forall|j: int| 0 <= j < i ==> !file_configures(#[trigger] loaded[j], name),
    ensures
        loaded_servers(loaded).contains_key(name),
        loaded_servers(loaded)[name] == loaded[i].1->0.mcp_servers.model()[name],
    decreases loaded.len(),
{
    let init = loaded.drop_last();
    if i == loaded.len() - 1 {
        law_combined_servers(init, name);
        if loaded_servers(init).contains_key(name) {
            let j = choose|j: int| 0 <= j < init.len() && #[trigger] file_configures(init[j], name);
            assert(init[j] == loaded[j]);
        }
    } else {
        assert forall|j: int| 0 <= j < i implies !file_configures(#[trigger] init[j], name) by {
            assert(init[j] == loaded[j]);
        }
        assert(init[i] == loaded[i]);
        law_first_file_wins(init, name, i);
    }
}

} // verus!
