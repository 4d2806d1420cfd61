//! Git worktrees: the `herdr worktree` commands and the `worktree.*` socket requests.

use vstd::prelude::*;
use crate::client::{CommandLine, HerdrClient, runs};
use crate::json::{includes, lemma_run_at_end, lemma_includes_extend, Json, JsonMember, JsonValue, strs, opt_view, json_members, opt_text_member, opt_bool_member, lemma_json_members_empty, insert_opt, insert_opt_bool, push_member, text};
use crate::socket::{SocketRequest, is_request, members2};
use crate::text::{passes_flag, passes_focus, passes_switch, lemma_flag_passed_at_end, lemma_focus_passed_at_end, lemma_switch_passed_at_end, lemma_passes_flag_extend, lemma_passes_focus_extend, lemma_passes_switch_extend, opt_flag, focus_args, switch, push_opt_flag, push_focus, push_switch, push_str, push_arg, args2, args4};

verus! {

/// Which repository a worktree command starts from: a workspace, or a directory.
#[derive(Clone, Debug, Eq, PartialEq)]
pub enum WorktreeSource {
    Workspace(String),
    Cwd(String),
}

/// What `worktree open` opens: a checkout path, or a branch.
#[derive(Clone, Debug, Eq, PartialEq)]
pub enum WorktreeOpenTarget {
    Path(String),
    Branch(String),
}

/// Options of `worktree list`.
#[derive(Clone, Debug, Default, Eq, PartialEq)]
pub struct WorktreeListOptions {
    pub source: Option<WorktreeSource>,
}

/// Options of `worktree create`. `path` is a path.
#[derive(Clone, Debug, Default, Eq, PartialEq)]
pub struct WorktreeCreateOptions {
    pub source: Option<WorktreeSource>,
    pub branch: Option<String>,
    pub base: Option<String>,
    pub path: Option<String>,
    pub label: Option<String>,
    pub focus: Option<bool>,
}

/// Options of `worktree open`.
#[derive(Clone, Debug, Eq, PartialEq)]
pub struct WorktreeOpenOptions {
    pub source: Option<WorktreeSource>,
    pub target: WorktreeOpenTarget,
    pub label: Option<String>,
    pub focus: Option<bool>,
}

/// The worktree commands of a client.
#[derive(Clone, Copy, Debug)]
pub struct WorktreeClient<'a> {
    client: &'a HerdrClient,
}

/// `--workspace ID`, `--cwd DIR` or nothing.
pub open spec fn source_args(source: Option<WorktreeSource>) -> Seq<Seq<char>> {
    match source {
        Some(WorktreeSource::Workspace(id)) => seq!["--workspace"@, id@],
        Some(WorktreeSource::Cwd(cwd)) => seq!["--cwd"@, cwd@],
        None => Seq::empty(),
    }
}

/// `--path PATH` or `--branch BRANCH`.
pub open spec fn target_args(target: WorktreeOpenTarget) -> Seq<Seq<char>> {
    match target {
        WorktreeOpenTarget::Path(p) => seq!["--path"@, p@],
        WorktreeOpenTarget::Branch(b) => seq!["--branch"@, b@],
    }
}

/// The arguments of `worktree list`.
pub open spec fn worktree_list_args(o: WorktreeListOptions) -> Seq<Seq<char>> {
    seq!["worktree"@, "list"@] + source_args(o.source) + seq!["--json"@]
}

/// The arguments of `worktree create`.
pub open spec fn worktree_create_args(o: WorktreeCreateOptions) -> Seq<Seq<char>> {
    seq!["worktree"@, "create"@] + source_args(o.source) + opt_flag("--branch"@, opt_view(o.branch))
        + opt_flag("--base"@, opt_view(o.base)) + opt_flag("--path"@, opt_view(o.path)) + opt_flag(
        "--label"@,
        opt_view(o.label),
    ) + focus_args(o.focus) + seq!["--json"@]
}

/// `worktree create` hands every option that is set to its flag: the branch
/// to `--branch`, the base to `--base`, the path to `--path`, the label to
/// `--label`; and it asks for focus with `--focus` or refuses it with
/// `--no-focus`.
pub proof fn lemma_worktree_create_args_pass_options(o: WorktreeCreateOptions)
    ensures
        passes_flag(worktree_create_args(o), "--branch"@, opt_view(o.branch)),
        passes_flag(worktree_create_args(o), "--base"@, opt_view(o.base)),
        passes_flag(worktree_create_args(o), "--path"@, opt_view(o.path)),
        passes_flag(worktree_create_args(o), "--label"@, opt_view(o.label)),
        passes_focus(worktree_create_args(o), o.focus),
{
    let args = worktree_create_args(o);
    let s0 = seq!["worktree"@, "create"@];
    let s1 = source_args(o.source);
    let s2 = opt_flag("--branch"@, opt_view(o.branch));
    let s3 = opt_flag("--base"@, opt_view(o.base));
    let s4 = opt_flag("--path"@, opt_view(o.path));
    let s5 = opt_flag("--label"@, opt_view(o.label));
    let s6 = focus_args(o.focus);
    let s7 = seq!["--json"@];
    assert(s0 + s1 + s2 + s3 + s4 + s5 + s6 + s7 == args);
    assert(passes_flag(args, "--branch"@, opt_view(o.branch))) by {
        lemma_flag_passed_at_end(s0 + s1, "--branch"@, opt_view(o.branch));
        lemma_passes_flag_extend(s0 + s1 + s2, s3, "--branch"@, opt_view(o.branch));
        lemma_passes_flag_extend(s0 + s1 + s2 + s3, s4, "--branch"@, opt_view(o.branch));
        lemma_passes_flag_extend(s0 + s1 + s2 + s3 + s4, s5, "--branch"@, opt_view(o.branch));
        lemma_passes_flag_extend(s0 + s1 + s2 + s3 + s4 + s5, s6, "--branch"@, opt_view(o.branch));
        lemma_passes_flag_extend(s0 + s1 + s2 + s3 + s4 + s5 + s6, s7, "--branch"@, opt_view(o.branch));
    }
    assert(passes_flag(args, "--base"@, opt_view(o.base))) by {
        lemma_flag_passed_at_end(s0 + s1 + s2, "--base"@, opt_view(o.base));
        lemma_passes_flag_extend(s0 + s1 + s2 + s3, s4, "--base"@, opt_view(o.base));
        lemma_passes_flag_extend(s0 + s1 + s2 + s3 + s4, s5, "--base"@, opt_view(o.base));
        lemma_passes_flag_extend(s0 + s1 + s2 + s3 + s4 + s5, s6, "--base"@, opt_view(o.base));
        lemma_passes_flag_extend(s0 + s1 + s2 + s3 + s4 + s5 + s6, s7, "--base"@, opt_view(o.base));
    }
    assert(passes_flag(args, "--path"@, opt_view(o.path))) by {
        lemma_flag_passed_at_end(s0 + s1 + s2 + s3, "--path"@, opt_view(o.path));
        lemma_passes_flag_extend(s0 + s1 + s2 + s3 + s4, s5, "--path"@, opt_view(o.path));
        lemma_passes_flag_extend(s0 + s1 + s2 + s3 + s4 + s5, s6, "--path"@, opt_view(o.path));
        lemma_passes_flag_extend(s0 + s1 + s2 + s3 + s4 + s5 + s6, s7, "--path"@, opt_view(o.path));
    }
    assert(passes_flag(args, "--label"@, opt_view(o.label))) by {
        lemma_flag_passed_at_end(s0 + s1 + s2 + s3 + s4, "--label"@, opt_view(o.label));
        lemma_passes_flag_extend(s0 + s1 + s2 + s3 + s4 + s5, s6, "--label"@, opt_view(o.label));
        lemma_passes_flag_extend(s0 + s1 + s2 + s3 + s4 + s5 + s6, s7, "--label"@, opt_view(o.label));
    }
    assert(passes_focus(args, o.focus)) by {
        lemma_focus_passed_at_end(s0 + s1 + s2 + s3 + s4 + s5, o.focus);
        lemma_passes_focus_extend(s0 + s1 + s2 + s3 + s4 + s5 + s6, s7, o.focus);
    }
}

/// The arguments of `worktree open`.
pub open spec fn worktree_open_args(o: WorktreeOpenOptions) -> Seq<Seq<char>> {
    seq!["worktree"@, "open"@] + source_args(o.source) + target_args(o.target) + opt_flag(
        "--label"@,
        opt_view(o.label),
    ) + focus_args(o.focus) + seq!["--json"@]
}

/// `worktree open` hands the label, when one is set, to `--label`, and asks
/// for focus with `--focus` or refuses it with `--no-focus`.
pub proof fn lemma_worktree_open_args_pass_options(o: WorktreeOpenOptions)
    ensures
        passes_flag(worktree_open_args(o), "--label"@, opt_view(o.label)),
        passes_focus(worktree_open_args(o), o.focus),
{
    let args = worktree_open_args(o);
    let s0 = seq!["worktree"@, "open"@];
    let s1 = source_args(o.source);
    let s2 = target_args(o.target);
    let s3 = opt_flag("--label"@, opt_view(o.label));
    let s4 = focus_args(o.focus);
    let s5 = seq!["--json"@];
    assert(s0 + s1 + s2 + s3 + s4 + s5 == args);
    assert(passes_flag(args, "--label"@, opt_view(o.label))) by {
        lemma_flag_passed_at_end(s0 + s1 + s2, "--label"@, opt_view(o.label));
        lemma_passes_flag_extend(s0 + s1 + s2 + s3, s4, "--label"@, opt_view(o.label));
        lemma_passes_flag_extend(s0 + s1 + s2 + s3 + s4, s5, "--label"@, opt_view(o.label));
    }
    assert(passes_focus(args, o.focus)) by {
        lemma_focus_passed_at_end(s0 + s1 + s2 + s3, o.focus);
        lemma_passes_focus_extend(s0 + s1 + s2 + s3 + s4, s5, o.focus);
    }
}

/// The arguments of `worktree remove`.
pub open spec fn worktree_remove_args(workspace_id: Seq<char>, force: bool) -> Seq<Seq<char>> {
    seq!["worktree"@, "remove"@, "--workspace"@, workspace_id] + switch("--force"@, force) + seq![
        "--json"@,
    ]
}

/// Appends `--workspace ID`, `--cwd DIR` or nothing.
pub fn push_source(args: &mut Vec<String>, source: Option<WorktreeSource>)
    ensures
        strs(final(args)@) == strs(old(args)@) + source_args(source),
{
    let ghost before = strs(args@);
    let ghost s = source;
    match source {
        Some(WorktreeSource::Workspace(id)) => {
            push_str(args, "--workspace");
            push_arg(args, id);
        },
        Some(WorktreeSource::Cwd(cwd)) => {
            push_str(args, "--cwd");
            push_arg(args, cwd);
        },
        None => {},
    }
    assert(strs(args@) =~= before + source_args(s));
}

/// Appends `--path PATH` or `--branch BRANCH`.
fn push_target(args: &mut Vec<String>, target: WorktreeOpenTarget)
    ensures
        strs(final(args)@) == strs(old(args)@) + target_args(target),
{
    let ghost before = strs(args@);
    let ghost t = target;
    match target {
        WorktreeOpenTarget::Path(p) => {
            push_str(args, "--path");
            push_arg(args, p);
        },
        WorktreeOpenTarget::Branch(b) => {
            push_str(args, "--branch");
            push_arg(args, b);
        },
    }
    assert(strs(args@) =~= before + target_args(t));
}

impl HerdrClient {
    /// The worktree commands of this client.
    pub fn worktree(&self) -> (w: WorktreeClient<'_>)
        ensures
            w.binary() == self.spec_binary(),
    {
        WorktreeClient::new(self)
    }
}

impl<'a> WorktreeClient<'a> {
    /// The binary the commands run.
    pub closed spec fn binary(&self) -> Seq<char> {
        self.client.spec_binary()
    }

    /// The sub-client that builds its commands for `client`.
    pub fn new(client: &'a HerdrClient) -> (w: Self)
        ensures
            w.binary() == client.spec_binary(),
    {
        WorktreeClient { client }
    }

    /// `worktree list [SOURCE] --json`.
    pub fn list_command(&self, options: WorktreeListOptions) -> (c: CommandLine)
        ensures
            runs(c, self.binary(), worktree_list_args(options)),
    {
        let ghost o = options;
        let mut args = args2("worktree", "list");
        push_source(&mut args, options.source);
        push_str(&mut args, "--json");
        assert(strs(args@) =~= worktree_list_args(o));
        self.client.command(args)
    }

    /// `worktree create [SOURCE]`, with `--branch`, `--base`, `--path`,
    /// `--label` and the focus flag when set, then `--json`.
    pub fn create_command(&self, options: WorktreeCreateOptions) -> (c: CommandLine)
        ensures
            runs(c, self.binary(), worktree_create_args(options)),
    {
        let ghost o = options;
        let mut args = args2("worktree", "create");
        push_source(&mut args, options.source);
        push_opt_flag(&mut args, "--branch", options.branch);
        push_opt_flag(&mut args, "--base", options.base);
        push_opt_flag(&mut args, "--path", options.path);
        push_opt_flag(&mut args, "--label", options.label);
        push_focus(&mut args, options.focus);
        push_str(&mut args, "--json");
        assert(strs(args@) =~= worktree_create_args(o));
        self.client.command(args)
    }

    /// `worktree open [SOURCE] TARGET`, with `--label` and the focus flag
    /// when set, then `--json`.
    pub fn open_command(&self, options: WorktreeOpenOptions) -> (c: CommandLine)
        ensures
            runs(c, self.binary(), worktree_open_args(options)),
    {
        let ghost o = options;
        let mut args = args2("worktree", "open");
        push_source(&mut args, options.source);
        push_target(&mut args, options.target);
        push_opt_flag(&mut args, "--label", options.label);
        push_focus(&mut args, options.focus);
        push_str(&mut args, "--json");
        assert(strs(args@) =~= worktree_open_args(o));
        self.client.command(args)
    }

    /// `worktree remove --workspace ID [--force] --json`.
    pub fn remove_command(&self, workspace_id: &str, force: bool) -> (c: CommandLine)
        ensures
            runs(c, self.binary(), worktree_remove_args(workspace_id@, force)),
    {
        let mut args = args4("worktree", "remove", "--workspace", workspace_id);
        push_switch(&mut args, "--force", force);
        push_str(&mut args, "--json");
        assert(strs(args@) =~= worktree_remove_args(workspace_id@, force));
        self.client.command(args)
    }
}

/// `workspace_id`, `cwd` or no member.
pub open spec fn source_members(source: Option<WorktreeSource>) -> Seq<(Seq<char>, Json)> {
    match source {
        Some(WorktreeSource::Workspace(id)) => seq![("workspace_id"@, Json::Text(id@))],
        Some(WorktreeSource::Cwd(cwd)) => seq![("cwd"@, Json::Text(cwd@))],
        None => Seq::empty(),
    }
}

/// The members that name the source repository.
pub fn source_map(source: Option<WorktreeSource>) -> (m: Vec<JsonMember>)
    ensures
        json_members(m@) == source_members(source),
{
    let mut m: Vec<JsonMember> = Vec::new();
    proof {
        lemma_json_members_empty(m@);
    }
    let ghost s = source;
    match source {
        Some(WorktreeSource::Workspace(id)) => push_member(&mut m, "workspace_id", JsonValue::Text(id)),
        Some(WorktreeSource::Cwd(cwd)) => push_member(&mut m, "cwd", JsonValue::Text(cwd)),
        None => {},
    }
    assert(json_members(m@) =~= source_members(s));
    m
}

/// The parameters of `worktree.create`.
pub open spec fn worktree_create_params(o: WorktreeCreateOptions) -> Seq<(Seq<char>, Json)> {
    source_members(o.source) + opt_text_member("branch"@, opt_view(o.branch)) + opt_text_member(
        "base"@,
        opt_view(o.base),
    ) + opt_text_member("path"@, opt_view(o.path)) + opt_text_member("label"@, opt_view(o.label))
        + opt_bool_member("focus"@, o.focus)
}

/// The parameters of `worktree.create` carry the source repository and every
/// option that is set: the branch, the base, the path, the label and the focus
/// choice, each under its name.
pub proof fn lemma_worktree_create_params_carry_options(o: WorktreeCreateOptions)
    ensures
        includes(worktree_create_params(o), source_members(o.source)),
        includes(worktree_create_params(o), opt_text_member("branch"@, opt_view(o.branch))),
        includes(worktree_create_params(o), opt_text_member("base"@, opt_view(o.base))),
        includes(worktree_create_params(o), opt_text_member("path"@, opt_view(o.path))),
        includes(worktree_create_params(o), opt_text_member("label"@, opt_view(o.label))),
        includes(worktree_create_params(o), opt_bool_member("focus"@, o.focus)),
{
    let params = worktree_create_params(o);
    let s0 = source_members(o.source);
    let s1 = opt_text_member("branch"@, opt_view(o.branch));
    let s2 = opt_text_member("base"@, opt_view(o.base));
    let s3 = opt_text_member("path"@, opt_view(o.path));
    let s4 = opt_text_member("label"@, opt_view(o.label));
    let s5 = opt_bool_member("focus"@, o.focus);
    assert(s0 + s1 + s2 + s3 + s4 + s5 == params);
    assert(includes(params, s0)) by {
        lemma_run_at_end(Seq::empty(), s0);
        assert(Seq::<(Seq<char>, Json)>::empty() + s0 =~= s0);
        lemma_includes_extend(s0, s1, s0);
        lemma_includes_extend(s0 + s1, s2, s0);
        lemma_includes_extend(s0 + s1 + s2, s3, s0);
        lemma_includes_extend(s0 + s1 + s2 + s3, s4, s0);
        lemma_includes_extend(s0 + s1 + s2 + s3 + s4, s5, s0);
    }
    assert(includes(params, s1)) by {
        lemma_run_at_end(s0, s1);
        lemma_includes_extend(s0 + s1, s2, s1);
        lemma_includes_extend(s0 + s1 + s2, s3, s1);
        lemma_includes_extend(s0 + s1 + s2 + s3, s4, s1);
        lemma_includes_extend(s0 + s1 + s2 + s3 + s4, s5, s1);
    }
    assert(includes(params, s2)) by {
        lemma_run_at_end(s0 + s1, s2);
        lemma_includes_extend(s0 + s1 + s2, s3, s2);
        lemma_includes_extend(s0 + s1 + s2 + s3, s4, s2);
        lemma_includes_extend(s0 + s1 + s2 + s3 + s4, s5, s2);
    }
    assert(includes(params, s3)) by {
        lemma_run_at_end(s0 + s1 + s2, s3);
        lemma_includes_extend(s0 + s1 + s2 + s3, s4, s3);
        lemma_includes_extend(s0 + s1 + s2 + s3 + s4, s5, s3);
    }
    assert(includes(params, s4)) by {
        lemma_run_at_end(s0 + s1 + s2 + s3, s4);
        lemma_includes_extend(s0 + s1 + s2 + s3 + s4, s5, s4);
    }
    assert(includes(params, s5)) by {
        lemma_run_at_end(s0 + s1 + s2 + s3 + s4, s5);
    }
}

/// `path` or `branch`.
pub open spec fn target_members(target: WorktreeOpenTarget) -> Seq<(Seq<char>, Json)> {
    match target {
        WorktreeOpenTarget::Path(p) => seq![("path"@, Json::Text(p@))],
        WorktreeOpenTarget::Branch(b) => seq![("branch"@, Json::Text(b@))],
    }
}

/// The parameters of `worktree.open`.
pub open spec fn worktree_open_params(o: WorktreeOpenOptions) -> Seq<(Seq<char>, Json)> {
    source_members(o.source) + target_members(o.target) + opt_text_member("label"@, opt_view(o.label))
        + opt_bool_member("focus"@, o.focus)
}

/// The parameters of `worktree.open` carry the source repository, the target,
/// and the label and focus choice when they are set, each under its name.
pub proof fn lemma_worktree_open_params_carry_options(o: WorktreeOpenOptions)
    ensures
        includes(worktree_open_params(o), source_members(o.source)),
        includes(worktree_open_params(o), target_members(o.target)),
        includes(worktree_open_params(o), opt_text_member("label"@, opt_view(o.label))),
        includes(worktree_open_params(o), opt_bool_member("focus"@, o.focus)),
{
    let params = worktree_open_params(o);
    let s0 = source_members(o.source);
    let s1 = target_members(o.target);
    let s2 = opt_text_member("label"@, opt_view(o.label));
    let s3 = opt_bool_member("focus"@, o.focus);
    assert(s0 + s1 + s2 + s3 == params);
    assert(includes(params, s0)) by {
        lemma_run_at_end(Seq::empty(), s0);
        assert(Seq::<(Seq<char>, Json)>::empty() + s0 =~= s0);
        lemma_includes_extend(s0, s1, s0);
        lemma_includes_extend(s0 + s1, s2, s0);
        lemma_includes_extend(s0 + s1 + s2, s3, s0);
    }
    assert(includes(params, s1)) by {
        lemma_run_at_end(s0, s1);
        lemma_includes_extend(s0 + s1, s2, s1);
        lemma_includes_extend(s0 + s1 + s2, s3, s1);
    }
    assert(includes(params, s2)) by {
        lemma_run_at_end(s0 + s1, s2);
        lemma_includes_extend(s0 + s1 + s2, s3, s2);
    }
    assert(includes(params, s3)) by {
        lemma_run_at_end(s0 + s1 + s2, s3);
    }
}

/// `worktree.list` with the source, when one is set.
pub fn socket_list(options: WorktreeListOptions) -> (r: SocketRequest)
    ensures
        is_request(r, "herdr-plugin:worktree:list"@, "worktree.list"@, source_members(options.source)),
{
    SocketRequest::with_members("herdr-plugin:worktree:list", "worktree.list", source_map(options.source))
}

/// `worktree.create` with the options that are set.
pub fn socket_create(options: WorktreeCreateOptions) -> (r: SocketRequest)
    ensures
        is_request(r, "herdr-plugin:worktree:create"@, "worktree.create"@, worktree_create_params(options)),
{
    let ghost o = options;
    let mut m = source_map(options.source);
    insert_opt(&mut m, "branch", options.branch);
    insert_opt(&mut m, "base", options.base);
    insert_opt(&mut m, "path", options.path);
    insert_opt(&mut m, "label", options.label);
    insert_opt_bool(&mut m, "focus", options.focus);
    assert(json_members(m@) =~= worktree_create_params(o));
    SocketRequest::with_members("herdr-plugin:worktree:create", "worktree.create", m)
}

/// `worktree.open` with the source, the target and the options that are set.
pub fn socket_open(options: WorktreeOpenOptions) -> (r: SocketRequest)
    ensures
        is_request(r, "herdr-plugin:worktree:open"@, "worktree.open"@, worktree_open_params(options)),
{
    let ghost o = options;
    let mut m = source_map(options.source);
    let ghost before = json_members(m@);
    match options.target {
        WorktreeOpenTarget::Path(p) => push_member(&mut m, "path", JsonValue::Text(p)),
        WorktreeOpenTarget::Branch(b) => push_member(&mut m, "branch", JsonValue::Text(b)),
    }
    assert(json_members(m@) =~= before + target_members(o.target));
    insert_opt(&mut m, "label", options.label);
    insert_opt_bool(&mut m, "focus", options.focus);
    assert(json_members(m@) =~= worktree_open_params(o));
    SocketRequest::with_members("herdr-plugin:worktree:open", "worktree.open", m)
}

/// `worktree.remove { workspace_id, force }`.
pub fn socket_remove(workspace_id: &str, force: bool) -> (r: SocketRequest)
    ensures
        is_request(
            r,
            "herdr-plugin:worktree:remove"@,
            "worktree.remove"@,
            seq![("workspace_id"@, Json::Text(workspace_id@)), ("force"@, Json::Bool(force))],
        ),
{
    SocketRequest::with_members(
        "herdr-plugin:worktree:remove",
        "worktree.remove",
        members2("workspace_id", text(workspace_id), "force", JsonValue::Bool(force)),
    )
}

} // verus!
