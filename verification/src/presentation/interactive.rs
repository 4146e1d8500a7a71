//! The interactive mode: how an input line splits into words, and what each
//! line asks the program to do.

use vstd::prelude::*;
use crate::domain::services::{trim, trimmed};
use crate::text::{chars_of, concat, join, push_char, str_eq, views};

verus! {

/// Whether a character separates words outside quotes.
pub open spec fn is_blank(c: char) -> bool {
    c == ' ' || c == '\t'
}

/// The state of the split after some characters: the words finished so far,
/// the word being read, and whether a quote is open.
pub type SplitState = (Seq<Seq<char>>, Seq<char>, bool);

/// One character read: a double quote opens or closes a quote and is
/// dropped; a blank outside quotes ends the current word, if there is one;
/// every other character, and a blank inside quotes, joins the current word.
pub open spec fn split_step(st: SplitState, c: char) -> SplitState {
    if c == '"' {
        (st.0, st.1, !st.2)
    } else if is_blank(c) && !st.2 {
        if st.1.len() > 0 { (st.0.push(st.1), Seq::empty(), false) } else { st }
    } else {
        (st.0, st.1.push(c), st.2)
    }
}

/// The state after reading `s` from state `st`.
pub open spec fn split_from(st: SplitState, s: Seq<char>) -> SplitState
    decreases s.len(),
{
    if s.len() == 0 { st } else { split_step(split_from(st, s.drop_last()), s.last()) }
}

/// The state before any character.
pub open spec fn split_start() -> SplitState {
    (Seq::empty(), Seq::empty(), false)
}

/// The words of an input line: split at blanks outside double quotes, with
/// the quotes dropped and no empty word.
pub open spec fn input_words(s: Seq<char>) -> Seq<Seq<char>> {
    let st = split_from(split_start(), s);
    if st.1.len() > 0 { st.0.push(st.1) } else { st.0 }
}

/// The words of an input line, split at spaces and tabs outside double
/// quotes; the quotes themselves are dropped.
pub fn parse_input(input: &str) -> (r: Vec<String>)
    ensures
        views(r@) == input_words(input@),
{
    let chars = chars_of(input);
    let n = chars.len();
    let mut result: Vec<String> = Vec::new();
    let mut current = String::new();
    let mut in_quote = false;
    let mut i: usize = 0;
    while i < n
        invariant
            n == chars@.len(),
            chars@ == input@,
            i <= n,
            (views(result@), current@, in_quote) == split_from(split_start(), chars@.take(i as int)),
        decreases n - i,
    {
        let ch = chars[i];
        let ghost before = (views(result@), current@, in_quote);
        assert(chars@.take(i + 1).drop_last() =~= chars@.take(i as int));
        if ch == '"' {
            in_quote = !in_quote;
        } else if (ch == ' ' || ch == '\t') && !in_quote {
            if !current.as_str().is_empty() {
                let ghost rv = views(result@);
                result.push(current);
                current = String::new();
                assert(views(result@) =~= rv.push(before.1));
            }
        } else {
            push_char(&mut current, ch);
        }
        i = i + 1;
    }
    assert(chars@.take(n as int) =~= chars@);
    if !current.as_str().is_empty() {
        let ghost rv = views(result@);
        let ghost cv = current@;
        result.push(current);
        assert(views(result@) =~= rv.push(cv));
    }
    result
}

/// A word that the split gives back as it is: not empty, with no blank and
/// no double quote.
pub open spec fn plain_word(w: Seq<char>) -> bool {
    w.len() > 0 && forall|i: int| 0 <= i < w.len() ==> !is_blank(#[trigger] w[i]) && w[i] != '"'
}

/// Reading `a` and then `b` is reading `a + b`.
proof fn lemma_split_append(st: SplitState, a: Seq<char>, b: Seq<char>)
    ensures
        split_from(st, a + b) == split_from(split_from(st, a), b),
    decreases b.len(),
{
    if b.len() == 0 {
        assert(a + b =~= a);
    } else {
        assert((a + b).drop_last() =~= a + b.drop_last());
        lemma_split_append(st, a, b.drop_last());
    }
}

/// Outside quotes, characters that are neither blank nor quote join the
/// current word.
proof fn lemma_split_plain(st: SplitState, w: Seq<char>)
    requires
        !st.2,
        forall|i: int| 0 <= i < w.len() ==> !is_blank(#[trigger] w[i]) && w[i] != '"',
    ensures
        split_from(st, w) == (st.0, st.1 + w, false),
    decreases w.len(),
{
    if w.len() == 0 {
        assert(st.1 + w =~= st.1);
    } else {
        assert(w.drop_last().len() < w.len());
        lemma_split_plain(st, w.drop_last());
        assert(w.last() == w[w.len() - 1]);
        assert(st.1 + w =~= (st.1 + w.drop_last()).push(w.last()));
    }
}

/// The state after plain words joined by single spaces: all but the last
/// word finished, the last one being read.
proof fn lemma_split_joined(ws: Seq<Seq<char>>)
    requires
        ws.len() >= 1,
        forall|i: int| 0 <= i < ws.len() ==> plain_word(#[trigger] ws[i]),
    ensures
        split_from(split_start(), join(ws, " "@)) == (ws.drop_last(), ws.last(), false),
    decreases ws.len(),
{
    let e: Seq<char> = Seq::empty();
    if ws.len() == 1 {
        assert(plain_word(ws[0]));
        lemma_split_plain(split_start(), ws[0]);
        assert(e + ws[0] =~= ws[0]);
        assert(ws.drop_last() =~= Seq::<Seq<char>>::empty());
    } else {
        let p = ws.drop_last();
        assert forall|i: int| 0 <= i < p.len() implies plain_word(#[trigger] p[i]) by {
            assert(p[i] == ws[i]);
        }
        lemma_split_joined(p);
        let jp = join(p, " "@);
        lemma_split_append(split_start(), jp + " "@, ws.last());
        lemma_split_append(split_start(), jp, " "@);
        reveal_strlit(" ");
        let s0: SplitState = (p.drop_last(), p.last(), false);
        assert(plain_word(p[p.len() - 1]));
        assert(" "@.len() == 1);
        assert(" "@[0] == ' ');
        assert(" "@.last() == ' ');
        assert(" "@.drop_last() =~= e);
        assert(split_from(s0, e) == s0);
        assert(split_from(s0, " "@) == split_step(s0, ' '));
        assert(p.drop_last().push(p.last()) =~= p);
        assert(split_from(s0, " "@) == (p, e, false));
        assert(plain_word(ws[ws.len() - 1]));
        lemma_split_plain((p, e, false), ws.last());
        assert(e + ws.last() =~= ws.last());
    }
}

/// Plain words joined by single spaces split back into the same words.
pub proof fn law_parse_input_round_trip(ws: Seq<Seq<char>>)
    requires
        forall|i: int| 0 <= i < ws.len() ==> plain_word(#[trigger] ws[i]),
    ensures
        input_words(join(ws, " "@)) == ws,
{
    if ws.len() == 0 {
    } else {
        lemma_split_joined(ws);
        assert(plain_word(ws[ws.len() - 1]));
        assert(ws.drop_last().push(ws.last()) =~= ws);
    }
}

/// The state keeps finished words non-empty and free of quotes, and the
/// current word free of quotes.
pub open spec fn split_clean(st: SplitState) -> bool {
    &&& forall|i: int| 0 <= i < st.0.len() ==> (#[trigger] st.0[i]).len() > 0 && !st.0[i].contains('"')
    &&& !st.1.contains('"')
}

proof fn lemma_split_clean(s: Seq<char>)
    ensures
        split_clean(split_from(split_start(), s)),
    decreases s.len(),
{
    if s.len() > 0 {
        lemma_split_clean(s.drop_last());
        let st = split_from(split_start(), s.drop_last());
        let c = s.last();
        let nx = split_step(st, c);
        if c != '"' && !(is_blank(c) && !st.2) {
            assert forall|j: int| 0 <= j < nx.1.len() implies nx.1[j] != '"' by {
                if j < st.1.len() {
                    assert(nx.1[j] == st.1[j]);
                    assert(!st.1.contains('"'));
                }
            }
        }
        if is_blank(c) && !st.2 && st.1.len() > 0 {
            assert forall|i: int| 0 <= i < nx.0.len() implies (#[trigger] nx.0[i]).len() > 0 && !nx.0[i].contains('"') by {
                if i < st.0.len() {
                    assert(nx.0[i] == st.0[i]);
                }
            }
        }
    }
}

/// No word of a line is empty, and no word holds a double quote.
pub proof fn law_input_words_clean(s: Seq<char>)
    ensures
        forall|i: int| 0 <= i < input_words(s).len() ==>
            (#[trigger] input_words(s)[i]).len() > 0 && !input_words(s)[i].contains('"'),
{
    lemma_split_clean(s);
    let st = split_from(split_start(), s);
    assert forall|i: int| 0 <= i < input_words(s).len() implies
        (#[trigger] input_words(s)[i]).len() > 0 && !input_words(s)[i].contains('"') by {
        if i < st.0.len() {
            assert(input_words(s)[i] == st.0[i]);
        }
    }
}

// ---------------------------------------------------------------------------
// What an input line asks for
// ---------------------------------------------------------------------------

/// What the program does for one line of the interactive mode.
#[derive(Debug)]
pub enum ReplAction {
    /// Nothing: the line held no word.
    Nothing,
    /// Say goodbye and leave.
    Exit,
    /// Show the help text.
    Help,
    /// List the servers.
    ListServers,
    /// Show this message.
    Say(String),
    /// Show a server and its tools.
    ShowServerInfo(String),
    /// Show one tool of a server.
    ShowToolInfo(String, String),
    /// Call a tool of a server with `key=value` arguments.
    CallTool { server: String, tool: String, args: Vec<String> },
}

/// An action, with its texts as character sequences.
pub enum ActionView {
    Nothing,
    Exit,
    Help,
    ListServers,
    Say(Seq<char>),
    ShowServerInfo(Seq<char>),
    ShowToolInfo(Seq<char>, Seq<char>),
    CallTool(Seq<char>, Seq<char>, Seq<Seq<char>>),
}

impl View for ReplAction {
    type V = ActionView;

    open spec fn view(&self) -> ActionView {
        match self {
            ReplAction::Nothing => ActionView::Nothing,
            ReplAction::Exit => ActionView::Exit,
            ReplAction::Help => ActionView::Help,
            ReplAction::ListServers => ActionView::ListServers,
            ReplAction::Say(m) => ActionView::Say(m@),
            ReplAction::ShowServerInfo(s) => ActionView::ShowServerInfo(s@),
            ReplAction::ShowToolInfo(s, t) => ActionView::ShowToolInfo(s@, t@),
            ReplAction::CallTool { server, tool, args } => ActionView::CallTool(server@, tool@, views(args@)),
        }
    }
}

/// The message for `use` without a server.
pub open spec fn use_usage_message() -> Seq<char> {
    "Usage: use <server>"@
}

/// The message after the default server was set.
pub open spec fn server_set_message(server: Seq<char>) -> Seq<char> {
    "Default server set to: "@ + server
}

/// The message for `tool` without a default server.
pub open spec fn no_server_for_list_message() -> Seq<char> {
    "No default server. Use 'use <server>' or 'servers' to list available servers"@
}

/// The message for `tool <name>` without a default server.
pub open spec fn no_server_message() -> Seq<char> {
    "No default server. Use 'use <server>' first"@
}

/// The message for a line that is no command.
pub open spec fn invalid_command_message() -> Seq<char> {
    "Invalid command. Type 'help' for available commands"@
}

/// The default server after the words `w` were read with default server
/// `current`: only `use <server>` changes it.
pub open spec fn server_after(current: Option<Seq<char>>, w: Seq<Seq<char>>) -> Option<Seq<char>> {
    if w.len() >= 2 && w[0] == "use"@ { Some(w[1]) } else { current }
}

/// What the words `w` of a line ask for, with default server `current`.
/// A call names its tool first when a default server is set, and its server
/// and tool first when none is.
pub open spec fn action_for(current: Option<Seq<char>>, w: Seq<Seq<char>>) -> ActionView {
    if w.len() == 0 {
        ActionView::Nothing
    } else if w[0] == "exit"@ || w[0] == "quit"@ || w[0] == "q"@ {
        ActionView::Exit
    } else if w[0] == "help"@ || w[0] == "?"@ {
        ActionView::Help
    } else if w[0] == "servers"@ || w[0] == "list"@ {
        ActionView::ListServers
    } else if w[0] == "use"@ {
        if w.len() < 2 { ActionView::Say(use_usage_message()) } else { ActionView::Say(server_set_message(w[1])) }
    } else if w[0] == "tool"@ || w[0] == "tools"@ {
        match current {
            Some(s) => if w.len() < 2 { ActionView::ShowServerInfo(s) } else { ActionView::ShowToolInfo(s, w[1]) },
            None => if w.len() < 2 {
                ActionView::Say(no_server_for_list_message())
            } else {
                ActionView::Say(no_server_message())
            },
        }
    } else {
        match current {
            Some(s) => ActionView::CallTool(s, w[0], w.skip(1)),
            None => if w.len() >= 2 {
                ActionView::CallTool(w[0], w[1], w.skip(2))
            } else {
                ActionView::Say(invalid_command_message())
            },
        }
    }
}

/// The state of the interactive mode: the default server, if one was set.
pub struct ReplState {
    current_server: Option<String>,
}

/// The texts of an optional string.
pub open spec fn opt_view(o: Option<String>) -> Option<Seq<char>> {
    match o {
        Some(s) => Some(s@),
        None => None,
    }
}

/// A copy of the strings of `v` from index `from` on.
fn strings_from(v: &Vec<String>, from: usize) -> (r: Vec<String>)
    requires
        from <= v@.len(),
    ensures
        views(r@) == views(v@).skip(from as int),
{
    let mut r: Vec<String> = Vec::new();
    let mut i: usize = from;
    while i < v.len()
        invariant
            from <= i <= v@.len(),
            r@ == v@.subrange(from as int, i as int),
        decreases v.len() - i,
    {
        r.push(v[i].clone());
        i = i + 1;
    }
    assert(views(r@) =~= views(v@).skip(from as int));
    r
}

impl ReplState {
    /// The default server, as text.
    pub closed spec fn spec_server(&self) -> Option<Seq<char>> {
        opt_view(self.current_server)
    }

    /// The state at the start: no default server.
    pub fn new() -> (r: Self)
        ensures
            r.spec_server() is None,
    {
        ReplState { current_server: None }
    }

    /// The default server.
    pub fn current_server(&self) -> (r: Option<String>)
        ensures
            opt_view(r) == self.spec_server(),
    {
        crate::text::clone_opt_string(&self.current_server)
    }

    /// Reads one line: its words without surrounding white space decide the
    /// action, and `use <server>` sets the default server.
    pub fn handle_line(&mut self, line: &str) -> (r: ReplAction)
        ensures
            r@ == action_for(old(self).spec_server(), input_words(trimmed(line@))),
            final(self).spec_server() == server_after(old(self).spec_server(), input_words(trimmed(line@))),
    {
        let t = trim(line);
        let parts = parse_input(t.as_str());
        self.process_words(&parts)
    }

    /// The action for the words of a line, which sets the default server for
    /// `use <server>`.
    pub fn process_words(&mut self, parts: &Vec<String>) -> (r: ReplAction)
        ensures
            r@ == action_for(old(self).spec_server(), views(parts@)),
            final(self).spec_server() == server_after(old(self).spec_server(), views(parts@)),
    {
        let ghost w = views(parts@);
        let n = parts.len();
        if n == 0 {
            return ReplAction::Nothing;
        }
        let head = parts[0].as_str();
        assert(head@ == w[0]);
        proof {
            reveal_strlit("use");
            reveal_strlit("exit");
            reveal_strlit("quit");
            reveal_strlit("q");
            reveal_strlit("help");
            reveal_strlit("?");
            reveal_strlit("servers");
            reveal_strlit("list");
        }
        if str_eq(head, "exit") || str_eq(head, "quit") || str_eq(head, "q") {
            ReplAction::Exit
        } else if str_eq(head, "help") || str_eq(head, "?") {
            ReplAction::Help
        } else if str_eq(head, "servers") || str_eq(head, "list") {
            ReplAction::ListServers
        } else if str_eq(head, "use") {
            if n < 2 {
                ReplAction::Say("Usage: use <server>".to_owned())
            } else {
                let s = parts[1].clone();
                let msg = concat("Default server set to: ", s.as_str());
                self.current_server = Some(s);
                ReplAction::Say(msg)
            }
        } else if str_eq(head, "tool") || str_eq(head, "tools") {
            match &self.current_server {
                Some(s) => if n < 2 {
                    ReplAction::ShowServerInfo(s.clone())
                } else {
                    ReplAction::ShowToolInfo(s.clone(), parts[1].clone())
                },
                None => if n < 2 {
                    ReplAction::Say("No default server. Use 'use <server>' or 'servers' to list available servers".to_owned())
                } else {
                    ReplAction::Say("No default server. Use 'use <server>' first".to_owned())
                },
            }
        } else {
            match &self.current_server {
                Some(s) => ReplAction::CallTool {
                    server: s.clone(),
                    tool: parts[0].clone(),
                    args: strings_from(parts, 1),
                },
                None => if n >= 2 {
                    ReplAction::CallTool {
                        server: parts[0].clone(),
                        tool: parts[1].clone(),
                        args: strings_from(parts, 2),
                    }
                } else {
                    ReplAction::Say("Invalid command. Type 'help' for available commands".to_owned())
                },
            }
        }
    }
}

impl Default for ReplState {
    fn default() -> (r: Self)
        ensures
            r.spec_server() is None,
    {
        ReplState::new()
    }
}

} // verus!
