//! Agents: the `herdr agent` commands and the `agent.*` socket requests.

use vstd::prelude::*;
use crate::client::{CommandLine, HerdrClient, runs};
use crate::json::{includes, lemma_run_at_end, lemma_includes_extend, Json, JsonMember, JsonValue, strs, opt_view, json_members, opt_text_member, opt_bool_member, opt_uint_member, env_member, lemma_json_members_empty, insert_opt, insert_opt_bool, insert_opt_uint, insert_env, push_member, text};
use crate::pane::{Direction, direction_name};
use crate::socket::{SocketRequest, is_request, request0, request1, request2, members2, opt_text, text_or_null, texts, text_array};
use crate::text::{passes_flag, passes_focus, passes_switch, lemma_flag_passed_at_end, lemma_focus_passed_at_end, lemma_switch_passed_at_end, lemma_passes_flag_extend, lemma_passes_focus_extend, lemma_passes_switch_extend, opt_flag, focus_args, env_args, switch, decimal, push_opt_flag, push_focus, push_env, push_switch, push_str, push_arg, args2, args3, args4, u64_to_decimal};

verus! {

/// Which part of an agent's pane to read.
#[derive(Clone, Copy, Debug, Eq, PartialEq, Structural)]
pub enum AgentReadSource {
    Visible,
    Recent,
    RecentUnwrapped,
    Detection,
}

/// How read text is formatted.
#[derive(Clone, Copy, Debug, Eq, PartialEq, Structural)]
pub enum ReadFormat {
    Text,
    Ansi,
}

/// The agent status to wait for.
#[derive(Clone, Copy, Debug, Eq, PartialEq, Structural)]
pub enum AgentWaitStatus {
    Idle,
    Working,
    Blocked,
    Unknown,
}

/// The command-line name of a read source.
pub open spec fn read_source_name(s: AgentReadSource) -> Seq<char> {
    match s {
        AgentReadSource::Visible => "visible"@,
        AgentReadSource::Recent => "recent"@,
        AgentReadSource::RecentUnwrapped => "recent-unwrapped"@,
        AgentReadSource::Detection => "detection"@,
    }
}

/// The command-line name of a read format.
pub open spec fn read_format_name(f: ReadFormat) -> Seq<char> {
    match f {
        ReadFormat::Text => "text"@,
        ReadFormat::Ansi => "ansi"@,
    }
}

/// The command-line name of an agent status to wait for.
pub open spec fn wait_status_name(s: AgentWaitStatus) -> Seq<char> {
    match s {
        AgentWaitStatus::Idle => "idle"@,
        AgentWaitStatus::Working => "working"@,
        AgentWaitStatus::Blocked => "blocked"@,
        AgentWaitStatus::Unknown => "unknown"@,
    }
}

impl AgentReadSource {
    /// The name Herdr uses for this source.
    pub fn as_str(self) -> (s: &'static str)
        ensures
            s@ == read_source_name(self),
    {
        match self {
            AgentReadSource::Visible => "visible",
            AgentReadSource::Recent => "recent",
            AgentReadSource::RecentUnwrapped => "recent-unwrapped",
            AgentReadSource::Detection => "detection",
        }
    }
}

impl ReadFormat {
    /// The name Herdr uses for this format.
    pub fn as_str(self) -> (s: &'static str)
        ensures
            s@ == read_format_name(self),
    {
        match self {
            ReadFormat::Text => "text",
            ReadFormat::Ansi => "ansi",
        }
    }
}

impl AgentWaitStatus {
    /// The name Herdr uses for this status.
    pub fn as_str(self) -> (s: &'static str)
        ensures
            s@ == wait_status_name(self),
    {
        match self {
            AgentWaitStatus::Idle => "idle",
            AgentWaitStatus::Working => "working",
            AgentWaitStatus::Blocked => "blocked",
            AgentWaitStatus::Unknown => "unknown",
        }
    }
}

/// Options of `agent read`.
#[derive(Clone, Debug, Default, Eq, PartialEq)]
pub struct AgentReadOptions {
    pub source: Option<AgentReadSource>,
    pub lines: Option<u64>,
    pub format: Option<ReadFormat>,
    pub ansi: bool,
}

/// Options of `agent start`. `cwd` is a path.
#[derive(Clone, Debug, Eq, PartialEq)]
pub struct AgentStartOptions {
    pub name: String,
    pub cwd: Option<String>,
    pub workspace_id: Option<String>,
    pub tab_id: Option<String>,
    pub split: Option<Direction>,
    pub env: Vec<(String, String)>,
    pub focus: Option<bool>,
    pub argv: Vec<String>,
}

/// What `agent explain` explains: a running agent, or a captured file. `path` is a path.
#[derive(Clone, Debug, Eq, PartialEq)]
pub enum AgentExplainOptions {
    Target { target: String, json: bool, verbose: bool },
    File { path: String, agent: String, json: bool, verbose: bool },
}

/// The name of the read source, when one is set.
pub open spec fn opt_source_name(s: Option<AgentReadSource>) -> Option<Seq<char>> {
    match s {
        Some(v) => Some(read_source_name(v)),
        None => None,
    }
}

/// The name of the read format, when one is set.
pub open spec fn opt_format_name(f: Option<ReadFormat>) -> Option<Seq<char>> {
    match f {
        Some(v) => Some(read_format_name(v)),
        None => None,
    }
}

/// The decimal text of the number, when one is set.
pub open spec fn opt_decimal(n: Option<u64>) -> Option<Seq<char>> {
    match n {
        Some(v) => Some(decimal(v as nat)),
        None => None,
    }
}

/// The name of the direction, when one is set.
pub open spec fn opt_direction_name(d: Option<Direction>) -> Option<Seq<char>> {
    match d {
        Some(v) => Some(direction_name(v)),
        None => None,
    }
}

/// The arguments of `agent read`.
pub open spec fn agent_read_args(target: Seq<char>, o: AgentReadOptions) -> Seq<Seq<char>> {
    seq!["agent"@, "read"@, target] + opt_flag("--source"@, opt_source_name(o.source)) + opt_flag(
        "--lines"@,
        opt_decimal(o.lines),
    ) + opt_flag("--format"@, opt_format_name(o.format)) + switch("--ansi"@, o.ansi)
}

/// `agent read` hands every option that is set to its flag: the source's name
/// to `--source`, the line count to `--lines`, the format's name to
/// `--format`; and it asks for colours with `--ansi`.
pub proof fn lemma_agent_read_args_pass_options(target: Seq<char>, o: AgentReadOptions)
    ensures
        passes_flag(agent_read_args(target, o), "--source"@, opt_source_name(o.source)),
        passes_flag(agent_read_args(target, o), "--lines"@, opt_decimal(o.lines)),
        passes_flag(agent_read_args(target, o), "--format"@, opt_format_name(o.format)),
        passes_switch(agent_read_args(target, o), "--ansi"@, o.ansi),
{
    let args = agent_read_args(target, o);
    let s0 = seq!["agent"@, "read"@, target];
    let s1 = opt_flag("--source"@, opt_source_name(o.source));
    let s2 = opt_flag("--lines"@, opt_decimal(o.lines));
    let s3 = opt_flag("--format"@, opt_format_name(o.format));
    let s4 = switch("--ansi"@, o.ansi);
    assert(s0 + s1 + s2 + s3 + s4 == args);
    assert(passes_flag(args, "--source"@, opt_source_name(o.source))) by {
        lemma_flag_passed_at_end(s0, "--source"@, opt_source_name(o.source));
        lemma_passes_flag_extend(s0 + s1, s2, "--source"@, opt_source_name(o.source));
        lemma_passes_flag_extend(s0 + s1 + s2, s3, "--source"@, opt_source_name(o.source));
        lemma_passes_flag_extend(s0 + s1 + s2 + s3, s4, "--source"@, opt_source_name(o.source));
    }
    assert(passes_flag(args, "--lines"@, opt_decimal(o.lines))) by {
        lemma_flag_passed_at_end(s0 + s1, "--lines"@, opt_decimal(o.lines));
        lemma_passes_flag_extend(s0 + s1 + s2, s3, "--lines"@, opt_decimal(o.lines));
        lemma_passes_flag_extend(s0 + s1 + s2 + s3, s4, "--lines"@, opt_decimal(o.lines));
    }
    assert(passes_flag(args, "--format"@, opt_format_name(o.format))) by {
        lemma_flag_passed_at_end(s0 + s1 + s2, "--format"@, opt_format_name(o.format));
        lemma_passes_flag_extend(s0 + s1 + s2 + s3, s4, "--format"@, opt_format_name(o.format));
    }
    assert(passes_switch(args, "--ansi"@, o.ansi)) by {
        lemma_switch_passed_at_end(s0 + s1 + s2 + s3, "--ansi"@, o.ansi);
    }
}

/// The arguments of `agent rename`: the new name, or `--clear`.
pub open spec fn agent_rename_args(target: Seq<char>, name: Option<Seq<char>>) -> Seq<Seq<char>> {
    seq!["agent"@, "rename"@, target] + match name {
        Some(n) => seq![n],
        None => seq!["--clear"@],
    }
}

/// The arguments of `agent wait`.
pub open spec fn agent_wait_args(target: Seq<char>, status: AgentWaitStatus, timeout_ms: Option<u64>) -> Seq<Seq<char>> {
    seq!["agent"@, "wait"@, target, "--status"@, wait_status_name(status)] + opt_flag(
        "--timeout"@,
        opt_decimal(timeout_ms),
    )
}

/// `agent wait` hands the status's name to `--status`, and the timeout, when
/// one is set, to `--timeout`.
pub proof fn lemma_agent_wait_args_pass_options(target: Seq<char>, status: AgentWaitStatus, timeout_ms: Option<u64>)
    ensures
        passes_flag(agent_wait_args(target, status, timeout_ms), "--status"@, Some(wait_status_name(status))),
        passes_flag(agent_wait_args(target, status, timeout_ms), "--timeout"@, opt_decimal(timeout_ms)),
{
    let args = agent_wait_args(target, status, timeout_ms);
    let s0 = seq!["agent"@, "wait"@, target];
    let s1 = opt_flag("--status"@, Some(wait_status_name(status)));
    let s2 = opt_flag("--timeout"@, opt_decimal(timeout_ms));
    assert(s0 + s1 + s2 == args);
    assert(passes_flag(args, "--status"@, Some(wait_status_name(status)))) by {
        lemma_flag_passed_at_end(s0, "--status"@, Some(wait_status_name(status)));
        lemma_passes_flag_extend(s0 + s1, s2, "--status"@, Some(wait_status_name(status)));
    }
    assert(passes_flag(args, "--timeout"@, opt_decimal(timeout_ms))) by {
        lemma_flag_passed_at_end(s0 + s1, "--timeout"@, opt_decimal(timeout_ms));
    }
}

/// The arguments of `agent start`; the command to run follows `--`.
pub open spec fn agent_start_args(o: AgentStartOptions) -> Seq<Seq<char>> {
    seq!["agent"@, "start"@, o.name@] + opt_flag("--cwd"@, opt_view(o.cwd)) + opt_flag(
        "--workspace"@,
        opt_view(o.workspace_id),
    ) + opt_flag("--tab"@, opt_view(o.tab_id)) + opt_flag("--split"@, opt_direction_name(o.split))
        + env_args(o.env@) + focus_args(o.focus) + seq!["--"@] + strs(o.argv@)
}

/// `agent start` hands every option that is set to its flag: the directory to
/// `--cwd`, the workspace to `--workspace`, the tab to `--tab`, the split
/// direction's name to `--split`; it asks for focus with `--focus` or refuses
/// it with `--no-focus`; and it ends with `--` and the command to run.
pub proof fn lemma_agent_start_args_pass_options(o: AgentStartOptions)
    ensures
        passes_flag(agent_start_args(o), "--cwd"@, opt_view(o.cwd)),
        passes_flag(agent_start_args(o), "--workspace"@, opt_view(o.workspace_id)),
        passes_flag(agent_start_args(o), "--tab"@, opt_view(o.tab_id)),
        passes_flag(agent_start_args(o), "--split"@, opt_direction_name(o.split)),
        passes_focus(agent_start_args(o), o.focus),
        agent_start_args(o).len() > o.argv@.len(),
        agent_start_args(o)[agent_start_args(o).len() - o.argv@.len() - 1] == "--"@,
        agent_start_args(o).skip(agent_start_args(o).len() - o.argv@.len()) == strs(o.argv@),
{
    let args = agent_start_args(o);
    let s0 = seq!["agent"@, "start"@, o.name@];
    let s1 = opt_flag("--cwd"@, opt_view(o.cwd));
    let s2 = opt_flag("--workspace"@, opt_view(o.workspace_id));
    let s3 = opt_flag("--tab"@, opt_view(o.tab_id));
    let s4 = opt_flag("--split"@, opt_direction_name(o.split));
    let s5 = env_args(o.env@);
    let s6 = focus_args(o.focus);
    let s7 = seq!["--"@];
    let s8 = strs(o.argv@);
    assert(s0 + s1 + s2 + s3 + s4 + s5 + s6 + s7 + s8 == args);
    assert(passes_flag(args, "--cwd"@, opt_view(o.cwd))) by {
        lemma_flag_passed_at_end(s0, "--cwd"@, opt_view(o.cwd));
        lemma_passes_flag_extend(s0 + s1, s2, "--cwd"@, opt_view(o.cwd));
        lemma_passes_flag_extend(s0 + s1 + s2, s3, "--cwd"@, opt_view(o.cwd));
        lemma_passes_flag_extend(s0 + s1 + s2 + s3, s4, "--cwd"@, opt_view(o.cwd));
        lemma_passes_flag_extend(s0 + s1 + s2 + s3 + s4, s5, "--cwd"@, opt_view(o.cwd));
        lemma_passes_flag_extend(s0 + s1 + s2 + s3 + s4 + s5, s6, "--cwd"@, opt_view(o.cwd));
        lemma_passes_flag_extend(s0 + s1 + s2 + s3 + s4 + s5 + s6, s7, "--cwd"@, opt_view(o.cwd));
        lemma_passes_flag_extend(s0 + s1 + s2 + s3 + s4 + s5 + s6 + s7, s8, "--cwd"@, opt_view(o.cwd));
    }
    assert(passes_flag(args, "--workspace"@, opt_view(o.workspace_id))) by {
        lemma_flag_passed_at_end(s0 + s1, "--workspace"@, opt_view(o.workspace_id));
        lemma_passes_flag_extend(s0 + s1 + s2, s3, "--workspace"@, opt_view(o.workspace_id));
        lemma_passes_flag_extend(s0 + s1 + s2 + s3, s4, "--workspace"@, opt_view(o.workspace_id));
        lemma_passes_flag_extend(s0 + s1 + s2 + s3 + s4, s5, "--workspace"@, opt_view(o.workspace_id));
        lemma_passes_flag_extend(s0 + s1 + s2 + s3 + s4 + s5, s6, "--workspace"@, opt_view(o.workspace_id));
        lemma_passes_flag_extend(s0 + s1 + s2 + s3 + s4 + s5 + s6, s7, "--workspace"@, opt_view(o.workspace_id));
        lemma_passes_flag_extend(s0 + s1 + s2 + s3 + s4 + s5 + s6 + s7, s8, "--workspace"@, opt_view(o.workspace_id));
    }
    assert(passes_flag(args, "--tab"@, opt_view(o.tab_id))) by {
        lemma_flag_passed_at_end(s0 + s1 + s2, "--tab"@, opt_view(o.tab_id));
        lemma_passes_flag_extend(s0 + s1 + s2 + s3, s4, "--tab"@, opt_view(o.tab_id));
        lemma_passes_flag_extend(s0 + s1 + s2 + s3 + s4, s5, "--tab"@, opt_view(o.tab_id));
        lemma_passes_flag_extend(s0 + s1 + s2 + s3 + s4 + s5, s6, "--tab"@, opt_view(o.tab_id));
        lemma_passes_flag_extend(s0 + s1 + s2 + s3 + s4 + s5 + s6, s7, "--tab"@, opt_view(o.tab_id));
        lemma_passes_flag_extend(s0 + s1 + s2 + s3 + s4 + s5 + s6 + s7, s8, "--tab"@, opt_view(o.tab_id));
    }
    assert(passes_flag(args, "--split"@, opt_direction_name(o.split))) by {
        lemma_flag_passed_at_end(s0 + s1 + s2 + s3, "--split"@, opt_direction_name(o.split));
        lemma_passes_flag_extend(s0 + s1 + s2 + s3 + s4, s5, "--split"@, opt_direction_name(o.split));
        lemma_passes_flag_extend(s0 + s1 + s2 + s3 + s4 + s5, s6, "--split"@, opt_direction_name(o.split));
        lemma_passes_flag_extend(s0 + s1 + s2 + s3 + s4 + s5 + s6, s7, "--split"@, opt_direction_name(o.split));
        lemma_passes_flag_extend(s0 + s1 + s2 + s3 + s4 + s5 + s6 + s7, s8, "--split"@, opt_direction_name(o.split));
    }
    assert(passes_focus(args, o.focus)) by {
        lemma_focus_passed_at_end(s0 + s1 + s2 + s3 + s4 + s5, o.focus);
        lemma_passes_focus_extend(s0 + s1 + s2 + s3 + s4 + s5 + s6, s7, o.focus);
        lemma_passes_focus_extend(s0 + s1 + s2 + s3 + s4 + s5 + s6 + s7, s8, o.focus);
    }
    assert(args.skip(args.len() - o.argv@.len()) =~= strs(o.argv@));
}

/// The arguments of `agent explain`, for a target or for a file.
pub open spec fn agent_explain_args(o: AgentExplainOptions) -> Seq<Seq<char>> {
    seq!["agent"@, "explain"@] + match o {
        AgentExplainOptions::Target { target, json, verbose } => seq![target@] + switch("--json"@, json)
            + switch("--verbose"@, verbose),
        AgentExplainOptions::File { path, agent, json, verbose } => seq![
            "--file"@,
            path@,
            "--agent"@,
            agent@,
        ] + switch("--json"@, json) + switch("--verbose"@, verbose),
    }
}

/// `agent explain` names what it explains — the target right after
/// `agent explain`, or the file handed to `--file` with the agent handed to
/// `--agent` — and asks for JSON with `--json` and for detail with
/// `--verbose`.
pub proof fn lemma_agent_explain_args_pass_options(o: AgentExplainOptions)
    ensures
        match o {
            AgentExplainOptions::Target { target, json, verbose } => {
                &&& agent_explain_args(o).len() > 2
                &&& agent_explain_args(o)[2] == target@
                &&& passes_switch(agent_explain_args(o), "--json"@, json)
                &&& passes_switch(agent_explain_args(o), "--verbose"@, verbose)
            },
            AgentExplainOptions::File { path, agent, json, verbose } => {
                &&& passes_flag(agent_explain_args(o), "--file"@, Some(path@))
                &&& passes_flag(agent_explain_args(o), "--agent"@, Some(agent@))
                &&& passes_switch(agent_explain_args(o), "--json"@, json)
                &&& passes_switch(agent_explain_args(o), "--verbose"@, verbose)
            },
        },
{
    let args = agent_explain_args(o);
    let h = seq!["agent"@, "explain"@];
    match o {
        AgentExplainOptions::Target { target, json, verbose } => {
            let t = seq![target@];
            let j = switch("--json"@, json);
            let v = switch("--verbose"@, verbose);
            assert(h + t + j + v =~= args);
            assert(args[2] == target@);
            lemma_switch_passed_at_end(h + t, "--json"@, json);
            lemma_passes_switch_extend(h + t + j, v, "--json"@, json);
            lemma_switch_passed_at_end(h + t + j, "--verbose"@, verbose);
        },
        AgentExplainOptions::File { path, agent, json, verbose } => {
            let p = opt_flag("--file"@, Some(path@));
            let a = opt_flag("--agent"@, Some(agent@));
            let j = switch("--json"@, json);
            let v = switch("--verbose"@, verbose);
            assert(h + p + a + j + v =~= args);
            assert(passes_flag(args, "--file"@, Some(path@))) by {
                lemma_flag_passed_at_end(h, "--file"@, Some(path@));
                lemma_passes_flag_extend(h + p, a, "--file"@, Some(path@));
                lemma_passes_flag_extend(h + p + a, j, "--file"@, Some(path@));
                lemma_passes_flag_extend(h + p + a + j, v, "--file"@, Some(path@));
            }
            assert(passes_flag(args, "--agent"@, Some(agent@))) by {
                lemma_flag_passed_at_end(h + p, "--agent"@, Some(agent@));
                lemma_passes_flag_extend(h + p + a, j, "--agent"@, Some(agent@));
                lemma_passes_flag_extend(h + p + a + j, v, "--agent"@, Some(agent@));
            }
            lemma_switch_passed_at_end(h + p + a, "--json"@, json);
            lemma_passes_switch_extend(h + p + a + j, v, "--json"@, json);
            lemma_switch_passed_at_end(h + p + a + j, "--verbose"@, verbose);
        },
    }
}

/// The agent commands of a client.
#[derive(Clone, Copy, Debug)]
pub struct AgentClient<'a> {
    client: &'a HerdrClient,
}

impl HerdrClient {
    /// The agent commands of this client.
    pub fn agent(&self) -> (a: AgentClient<'_>)
        ensures
            a.binary() == self.spec_binary(),
    {
        AgentClient::new(self)
    }
}

/// Appends `flag` and the decimal text of `value` when it is set.
fn push_opt_decimal(args: &mut Vec<String>, flag: &str, value: Option<u64>)
    ensures
        strs(final(args)@) == strs(old(args)@) + opt_flag(flag@, opt_decimal(value)),
{
    let text = match value {
        Some(n) => Some(u64_to_decimal(n)),
        None => None,
    };
    assert(opt_view(text) == opt_decimal(value));
    push_opt_flag(args, flag, text);
}

/// Appends every string of `items`, in order.
fn push_all(args: &mut Vec<String>, items: Vec<String>)
    ensures
        strs(final(args)@) == strs(old(args)@) + strs(items@),
{
    let ghost start = strs(args@);
    let n = items.len();
    let mut i: usize = 0;
    while i < n
        invariant
            n == items.len(),
            i <= n,
            strs(args@) == start + strs(items@.subrange(0, i as int)),
        decreases n - i,
    {
        push_arg(args, items[i].clone());
        assert(strs(items@.subrange(0, i + 1)) =~= strs(items@.subrange(0, i as int)).push(items@[i as int]@));
        i += 1;
    }
    assert(items@.subrange(0, n as int) =~= items@);
}

impl<'a> AgentClient<'a> {
    /// The binary the commands run.
    pub closed spec fn binary(&self) -> Seq<char> {
        self.client.spec_binary()
    }

    /// The sub-client that builds its commands for `client`.
    pub fn new(client: &'a HerdrClient) -> (a: Self)
        ensures
            a.binary() == client.spec_binary(),
    {
        AgentClient { client }
    }

    /// `agent list`.
    pub fn list_command(&self) -> (c: CommandLine)
        ensures
            runs(c, self.binary(), seq!["agent"@, "list"@]),
    {
        self.client.command(args2("agent", "list"))
    }

    /// `agent get TARGET`.
    pub fn get_command(&self, target: &str) -> (c: CommandLine)
        ensures
            runs(c, self.binary(), seq!["agent"@, "get"@, target@]),
    {
        self.client.command(args3("agent", "get", target))
    }

    /// `agent read TARGET`, with `--source`, `--lines`, `--format` when set
    /// and `--ansi` when asked for.
    pub fn read_command(&self, target: &str, options: AgentReadOptions) -> (c: CommandLine)
        ensures
            runs(c, self.binary(), agent_read_args(target@, options)),
    {
        let mut args = args3("agent", "read", target);
        let source = match options.source {
            Some(s) => Some(s.as_str().to_owned()),
            None => None,
        };
        assert(opt_view(source) == opt_source_name(options.source));
        push_opt_flag(&mut args, "--source", source);
        push_opt_decimal(&mut args, "--lines", options.lines);
        let format = match options.format {
            Some(f) => Some(f.as_str().to_owned()),
            None => None,
        };
        assert(opt_view(format) == opt_format_name(options.format));
        push_opt_flag(&mut args, "--format", format);
        push_switch(&mut args, "--ansi", options.ansi);
        assert(strs(args@) =~= agent_read_args(target@, options));
        self.client.command(args)
    }

    /// `agent send TARGET TEXT`.
    pub fn send_command(&self, target: &str, text: &str) -> (c: CommandLine)
        ensures
            runs(c, self.binary(), seq!["agent"@, "send"@, target@, text@]),
    {
        self.client.command(args4("agent", "send", target, text))
    }

    /// `agent rename TARGET NAME`, or `--clear` without a name.
    pub fn rename_command(&self, target: &str, name: Option<&str>) -> (c: CommandLine)
        ensures
            runs(c, self.binary(), agent_rename_args(target@, match name {
                Some(n) => Some(n@),
                None => None,
            })),
    {
        let mut args = args3("agent", "rename", target);
        match name {
            Some(n) => push_str(&mut args, n),
            None => push_str(&mut args, "--clear"),
        }
        assert(strs(args@) =~= agent_rename_args(target@, match name {
            Some(n) => Some(n@),
            None => None,
        }));
        self.client.command(args)
    }

    /// `agent focus TARGET`.
    pub fn focus_command(&self, target: &str) -> (c: CommandLine)
        ensures
            runs(c, self.binary(), seq!["agent"@, "focus"@, target@]),
    {
        self.client.command(args3("agent", "focus", target))
    }

    /// `agent wait TARGET --status STATUS [--timeout MS]`.
    pub fn wait_command(&self, target: &str, status: AgentWaitStatus, timeout_ms: Option<u64>) -> (c: CommandLine)
        ensures
            runs(c, self.binary(), agent_wait_args(target@, status, timeout_ms)),
    {
        let mut args = args3("agent", "wait", target);
        push_str(&mut args, "--status");
        push_str(&mut args, status.as_str());
        push_opt_decimal(&mut args, "--timeout", timeout_ms);
        assert(strs(args@) =~= agent_wait_args(target@, status, timeout_ms));
        self.client.command(args)
    }

    /// `agent attach TARGET [--takeover]`.
    pub fn attach_command(&self, target: &str, takeover: bool) -> (c: CommandLine)
        ensures
            runs(c, self.binary(), seq!["agent"@, "attach"@, target@] + switch("--takeover"@, takeover)),
    {
        let mut args = args3("agent", "attach", target);
        push_switch(&mut args, "--takeover", takeover);
        self.client.command(args)
    }

    /// `agent start NAME`, with `--cwd`, `--workspace`, `--tab`, `--split`,
    /// one `--env KEY=VALUE` per entry and the focus flag when set, then `--`
    /// and the command's argv.
    pub fn start_command(&self, options: AgentStartOptions) -> (c: CommandLine)
        ensures
            runs(c, self.binary(), agent_start_args(options)),
    {
        let ghost o = options;
        let mut args = args2("agent", "start");
        push_arg(&mut args, options.name);
        push_opt_flag(&mut args, "--cwd", options.cwd);
        push_opt_flag(&mut args, "--workspace", options.workspace_id);
        push_opt_flag(&mut args, "--tab", options.tab_id);
        let split = match options.split {
            Some(d) => Some(d.as_str().to_owned()),
            None => None,
        };
        assert(opt_view(split) == opt_direction_name(o.split));
        push_opt_flag(&mut args, "--split", split);
        push_env(&mut args, &options.env);
        push_focus(&mut args, options.focus);
        push_str(&mut args, "--");
        push_all(&mut args, options.argv);
        assert(strs(args@) =~= agent_start_args(o));
        self.client.command(args)
    }

    /// `agent explain TARGET` or `agent explain --file PATH --agent AGENT`,
    /// then `--json` and `--verbose` when asked for.
    pub fn explain_command(&self, options: AgentExplainOptions) -> (c: CommandLine)
        ensures
            runs(c, self.binary(), agent_explain_args(options)),
    {
        let ghost o = options;
        let mut args = args2("agent", "explain");
        match options {
            AgentExplainOptions::Target { target, json, verbose } => {
                push_arg(&mut args, target);
                push_switch(&mut args, "--json", json);
                push_switch(&mut args, "--verbose", verbose);
            },
            AgentExplainOptions::File { path, agent, json, verbose } => {
                push_str(&mut args, "--file");
                push_arg(&mut args, path);
                push_str(&mut args, "--agent");
                push_arg(&mut args, agent);
                push_switch(&mut args, "--json", json);
                push_switch(&mut args, "--verbose", verbose);
            },
        }
        assert(strs(args@) =~= agent_explain_args(o));
        self.client.command(args)
    }
}

/// The members of a read request after its subject: `source`, `lines` and
/// `format` when set, then `strip_ansi`.
pub open spec fn read_members(o: AgentReadOptions) -> Seq<(Seq<char>, Json)> {
    opt_text_member("source"@, opt_source_name(o.source)) + opt_uint_member("lines"@, o.lines)
        + opt_text_member("format"@, opt_format_name(o.format)) + seq![("strip_ansi"@, Json::Bool(!o.ansi))]
}

/// A read request carries every option that is set: the source's name, the
/// line count and the format's name; and whether to strip colours.
pub proof fn lemma_read_members_carry_options(o: AgentReadOptions)
    ensures
        includes(read_members(o), opt_text_member("source"@, opt_source_name(o.source))),
        includes(read_members(o), opt_uint_member("lines"@, o.lines)),
        includes(read_members(o), opt_text_member("format"@, opt_format_name(o.format))),
        includes(read_members(o), seq![("strip_ansi"@, Json::Bool(!o.ansi))]),
{
    let params = read_members(o);
    let s0 = opt_text_member("source"@, opt_source_name(o.source));
    let s1 = opt_uint_member("lines"@, o.lines);
    let s2 = opt_text_member("format"@, opt_format_name(o.format));
    let s3 = seq![("strip_ansi"@, Json::Bool(!o.ansi))];
    assert(s0 + s1 + s2 + s3 == params);
    assert(includes(params, s0)) by {
        lemma_run_at_end(Seq::empty(), s0);
        assert(Seq::<(Seq<char>, Json)>::empty() + s0 =~= s0);
        lemma_includes_extend(s0, s1, s0);
        lemma_includes_extend(s0 + s1, s2, s0);
        lemma_includes_extend(s0 + s1 + s2, s3, s0);
    }
    assert(includes(params, s1)) by {
        lemma_run_at_end(s0, s1);
        lemma_includes_extend(s0 + s1, s2, s1);
        lemma_includes_extend(s0 + s1 + s2, s3, s1);
    }
    assert(includes(params, s2)) by {
        lemma_run_at_end(s0 + s1, s2);
        lemma_includes_extend(s0 + s1 + s2, s3, s2);
    }
    assert(includes(params, s3)) by {
        lemma_run_at_end(s0 + s1 + s2, s3);
    }
}

/// Appends the members of a read request after its subject.
pub fn push_read_members(m: &mut Vec<JsonMember>, options: AgentReadOptions)
    ensures
        json_members(final(m)@) == json_members(old(m)@) + read_members(options),
{
    let ghost before = json_members(m@);
    let source = match options.source {
        Some(s) => Some(s.as_str().to_owned()),
        None => None,
    };
    assert(opt_view(source) == opt_source_name(options.source));
    insert_opt(m, "source", source);
    insert_opt_uint(m, "lines", options.lines);
    let format = match options.format {
        Some(f) => Some(f.as_str().to_owned()),
        None => None,
    };
    assert(opt_view(format) == opt_format_name(options.format));
    insert_opt(m, "format", format);
    push_member(m, "strip_ansi", JsonValue::Bool(!options.ansi));
    assert(json_members(m@) =~= before + read_members(options));
}

/// The parameters of `agent.start`.
pub open spec fn agent_start_params(o: AgentStartOptions) -> Seq<(Seq<char>, Json)> {
    seq![("name"@, Json::Text(o.name@))] + opt_text_member("cwd"@, opt_view(o.cwd)) + opt_text_member(
        "workspace_id"@,
        opt_view(o.workspace_id),
    ) + opt_text_member("tab_id"@, opt_view(o.tab_id)) + opt_text_member(
        "split"@,
        opt_direction_name(o.split),
    ) + opt_bool_member("focus"@, o.focus) + seq![("argv"@, text_array(o.argv@))] + env_member(o.env@)
}

/// The parameters of `agent.start` carry the name, the command to run, and
/// every option that is set: the directory, the workspace, the tab, the split
/// direction's name, the focus choice and the environment, each under its name.
pub proof fn lemma_agent_start_params_carry_options(o: AgentStartOptions)
    ensures
        includes(agent_start_params(o), seq![("name"@, Json::Text(o.name@))]),
        includes(agent_start_params(o), opt_text_member("cwd"@, opt_view(o.cwd))),
        includes(agent_start_params(o), opt_text_member("workspace_id"@, opt_view(o.workspace_id))),
        includes(agent_start_params(o), opt_text_member("tab_id"@, opt_view(o.tab_id))),
        includes(agent_start_params(o), opt_text_member("split"@, opt_direction_name(o.split))),
        includes(agent_start_params(o), opt_bool_member("focus"@, o.focus)),
        includes(agent_start_params(o), seq![("argv"@, text_array(o.argv@))]),
        includes(agent_start_params(o), env_member(o.env@)),
{
    let params = agent_start_params(o);
    let s0 = seq![("name"@, Json::Text(o.name@))];
    let s1 = opt_text_member("cwd"@, opt_view(o.cwd));
    let s2 = opt_text_member("workspace_id"@, opt_view(o.workspace_id));
    let s3 = opt_text_member("tab_id"@, opt_view(o.tab_id));
    let s4 = opt_text_member("split"@, opt_direction_name(o.split));
    let s5 = opt_bool_member("focus"@, o.focus);
    let s6 = seq![("argv"@, text_array(o.argv@))];
    let s7 = env_member(o.env@);
    assert(s0 + s1 + s2 + s3 + s4 + s5 + s6 + s7 == params);
    assert(includes(params, s0)) by {
        lemma_run_at_end(Seq::empty(), s0);
        assert(Seq::<(Seq<char>, Json)>::empty() + s0 =~= s0);
        lemma_includes_extend(s0, s1, s0);
        lemma_includes_extend(s0 + s1, s2, s0);
        lemma_includes_extend(s0 + s1 + s2, s3, s0);
        lemma_includes_extend(s0 + s1 + s2 + s3, s4, s0);
        lemma_includes_extend(s0 + s1 + s2 + s3 + s4, s5, s0);
        lemma_includes_extend(s0 + s1 + s2 + s3 + s4 + s5, s6, s0);
        lemma_includes_extend(s0 + s1 + s2 + s3 + s4 + s5 + s6, s7, s0);
    }
    assert(includes(params, s1)) by {
        lemma_run_at_end(s0, s1);
        lemma_includes_extend(s0 + s1, s2, s1);
        lemma_includes_extend(s0 + s1 + s2, s3, s1);
        lemma_includes_extend(s0 + s1 + s2 + s3, s4, s1);
        lemma_includes_extend(s0 + s1 + s2 + s3 + s4, s5, s1);
        lemma_includes_extend(s0 + s1 + s2 + s3 + s4 + s5, s6, s1);
        lemma_includes_extend(s0 + s1 + s2 + s3 + s4 + s5 + s6, s7, s1);
    }
    assert(includes(params, s2)) by {
        lemma_run_at_end(s0 + s1, s2);
        lemma_includes_extend(s0 + s1 + s2, s3, s2);
        lemma_includes_extend(s0 + s1 + s2 + s3, s4, s2);
        lemma_includes_extend(s0 + s1 + s2 + s3 + s4, s5, s2);
        lemma_includes_extend(s0 + s1 + s2 + s3 + s4 + s5, s6, s2);
        lemma_includes_extend(s0 + s1 + s2 + s3 + s4 + s5 + s6, s7, s2);
    }
    assert(includes(params, s3)) by {
        lemma_run_at_end(s0 + s1 + s2, s3);
        lemma_includes_extend(s0 + s1 + s2 + s3, s4, s3);
        lemma_includes_extend(s0 + s1 + s2 + s3 + s4, s5, s3);
        lemma_includes_extend(s0 + s1 + s2 + s3 + s4 + s5, s6, s3);
        lemma_includes_extend(s0 + s1 + s2 + s3 + s4 + s5 + s6, s7, s3);
    }
    assert(includes(params, s4)) by {
        lemma_run_at_end(s0 + s1 + s2 + s3, s4);
        lemma_includes_extend(s0 + s1 + s2 + s3 + s4, s5, s4);
        lemma_includes_extend(s0 + s1 + s2 + s3 + s4 + s5, s6, s4);
        lemma_includes_extend(s0 + s1 + s2 + s3 + s4 + s5 + s6, s7, s4);
    }
    assert(includes(params, s5)) by {
        lemma_run_at_end(s0 + s1 + s2 + s3 + s4, s5);
        lemma_includes_extend(s0 + s1 + s2 + s3 + s4 + s5, s6, s5);
        lemma_includes_extend(s0 + s1 + s2 + s3 + s4 + s5 + s6, s7, s5);
    }
    assert(includes(params, s6)) by {
        lemma_run_at_end(s0 + s1 + s2 + s3 + s4 + s5, s6);
        lemma_includes_extend(s0 + s1 + s2 + s3 + s4 + s5 + s6, s7, s6);
    }
    assert(includes(params, s7)) by {
        lemma_run_at_end(s0 + s1 + s2 + s3 + s4 + s5 + s6, s7);
    }
}

/// `agent.list {}`.
pub fn socket_list() -> (r: SocketRequest)
    ensures
        is_request(r, "herdr-plugin:agent:list"@, "agent.list"@, Seq::empty()),
{
    request0("herdr-plugin:agent:list", "agent.list")
}

/// `agent.get { target }`.
pub fn socket_get(target: &str) -> (r: SocketRequest)
    ensures
        is_request(r, "herdr-plugin:agent:get"@, "agent.get"@, seq![("target"@, Json::Text(target@))]),
{
    request1("herdr-plugin:agent:get", "agent.get", "target", target)
}

/// `agent.read { target, ... }`.
pub fn socket_read(target: &str, options: AgentReadOptions) -> (r: SocketRequest)
    ensures
        is_request(
            r,
            "herdr-plugin:agent:read"@,
            "agent.read"@,
            seq![("target"@, Json::Text(target@))] + read_members(options),
        ),
{
    let mut m = crate::socket::members1("target", text(target));
    push_read_members(&mut m, options);
    SocketRequest::with_members("herdr-plugin:agent:read", "agent.read", m)
}

/// `agent.explain { target }`.
pub fn socket_explain(target: &str) -> (r: SocketRequest)
    ensures
        is_request(r, "herdr-plugin:agent:explain"@, "agent.explain"@, seq![("target"@, Json::Text(target@))]),
{
    request1("herdr-plugin:agent:explain", "agent.explain", "target", target)
}

/// `agent.send { target, text }`.
pub fn socket_send(target: &str, text_value: &str) -> (r: SocketRequest)
    ensures
        is_request(
            r,
            "herdr-plugin:agent:send"@,
            "agent.send"@,
            seq![("target"@, Json::Text(target@)), ("text"@, Json::Text(text_value@))],
        ),
{
    request2("herdr-plugin:agent:send", "agent.send", "target", target, "text", text_value)
}

/// `agent.rename { target, name }`, `name` being `null` to clear it.
pub fn socket_rename(target: &str, name: Option<&str>) -> (r: SocketRequest)
    ensures
        is_request(
            r,
            "herdr-plugin:agent:rename"@,
            "agent.rename"@,
            seq![("target"@, Json::Text(target@)), ("name"@, text_or_null(match name {
                Some(n) => Some(n@),
                None => None,
            }))],
        ),
{
    let m = members2("target", text(target), "name", opt_text(name));
    assert(json_members(m@) =~= seq![("target"@, Json::Text(target@)), ("name"@, text_or_null(match name {
        Some(n) => Some(n@),
        None => None,
    }))]);
    SocketRequest::with_members("herdr-plugin:agent:rename", "agent.rename", m)
}

/// `agent.focus { target }`.
pub fn socket_focus(target: &str) -> (r: SocketRequest)
    ensures
        is_request(r, "herdr-plugin:agent:focus"@, "agent.focus"@, seq![("target"@, Json::Text(target@))]),
{
    request1("herdr-plugin:agent:focus", "agent.focus", "target", target)
}

/// `agent.start` with the name, the options that are set, the argv, and
/// `env` when not empty.
pub fn socket_start(options: AgentStartOptions) -> (r: SocketRequest)
    ensures
        is_request(r, "herdr-plugin:agent:start"@, "agent.start"@, agent_start_params(options)),
{
    let ghost o = options;
    let mut m = crate::socket::members1("name", JsonValue::Text(options.name));
    insert_opt(&mut m, "cwd", options.cwd);
    insert_opt(&mut m, "workspace_id", options.workspace_id);
    insert_opt(&mut m, "tab_id", options.tab_id);
    let split = match options.split {
        Some(d) => Some(d.as_str().to_owned()),
        None => None,
    };
    assert(opt_view(split) == opt_direction_name(o.split));
    insert_opt(&mut m, "split", split);
    insert_opt_bool(&mut m, "focus", options.focus);
    push_member(&mut m, "argv", texts(options.argv));
    insert_env(&mut m, options.env);
    assert(json_members(m@) =~= agent_start_params(o));
    SocketRequest::with_members("herdr-plugin:agent:start", "agent.start", m)
}

} // verus!
