//! Workspaces: the `herdr workspace` commands and the `workspace.*` socket requests.

use vstd::prelude::*;
use crate::client::{CommandLine, HerdrClient, runs};
use crate::json::{Json, JsonMember, json_get, member_lookup, text_object, opt_text_json, opt_bool_json, lemma_lookup_concat, lemma_lookup_opt_members, lemma_lookup_env_member, strs, opt_view, json_members, opt_text_member, opt_bool_member, env_member, lemma_json_members_empty, insert_opt, insert_opt_bool, insert_env};
use crate::socket::{SocketRequest, is_request, request0, request1, request2};
use crate::text::{passes_flag, passes_focus, passes_switch, lemma_flag_passed_at_end, lemma_focus_passed_at_end, lemma_switch_passed_at_end, lemma_passes_flag_extend, lemma_passes_focus_extend, lemma_passes_switch_extend, opt_flag, focus_args, env_args, push_opt_flag, push_focus, push_env, args2, args3, args4};

verus! {

/// Options of `workspace create`. `cwd` is a path.
#[derive(Clone, Debug, Default, Eq, PartialEq)]
pub struct WorkspaceCreateOptions {
    pub cwd: Option<String>,
    pub label: Option<String>,
    pub env: Vec<(String, String)>,
    pub focus: Option<bool>,
}

/// The workspace commands of a client.
#[derive(Clone, Copy, Debug)]
pub struct WorkspaceClient<'a> {
    client: &'a HerdrClient,
}

/// The arguments of `workspace create`.
pub open spec fn workspace_create_args(o: WorkspaceCreateOptions) -> Seq<Seq<char>> {
    seq!["workspace"@, "create"@] + opt_flag("--cwd"@, opt_view(o.cwd)) + opt_flag(
        "--label"@,
        opt_view(o.label),
    ) + env_args(o.env@) + focus_args(o.focus)
}

/// `workspace create` hands every option that is set to its flag: the
/// directory to `--cwd`, the label to `--label`; and it asks for focus with
/// `--focus` or refuses it with `--no-focus`.
pub proof fn lemma_workspace_create_args_pass_options(o: WorkspaceCreateOptions)
    ensures
        passes_flag(workspace_create_args(o), "--cwd"@, opt_view(o.cwd)),
        passes_flag(workspace_create_args(o), "--label"@, opt_view(o.label)),
        passes_focus(workspace_create_args(o), o.focus),
{
    let args = workspace_create_args(o);
    let s0 = seq!["workspace"@, "create"@];
    let s1 = opt_flag("--cwd"@, opt_view(o.cwd));
    let s2 = opt_flag("--label"@, opt_view(o.label));
    let s3 = env_args(o.env@);
    let s4 = focus_args(o.focus);
    assert(s0 + s1 + s2 + s3 + s4 == args);
    assert(passes_flag(args, "--cwd"@, opt_view(o.cwd))) by {
        lemma_flag_passed_at_end(s0, "--cwd"@, opt_view(o.cwd));
        lemma_passes_flag_extend(s0 + s1, s2, "--cwd"@, opt_view(o.cwd));
        lemma_passes_flag_extend(s0 + s1 + s2, s3, "--cwd"@, opt_view(o.cwd));
        lemma_passes_flag_extend(s0 + s1 + s2 + s3, s4, "--cwd"@, opt_view(o.cwd));
    }
    assert(passes_flag(args, "--label"@, opt_view(o.label))) by {
        lemma_flag_passed_at_end(s0 + s1, "--label"@, opt_view(o.label));
        lemma_passes_flag_extend(s0 + s1 + s2, s3, "--label"@, opt_view(o.label));
        lemma_passes_flag_extend(s0 + s1 + s2 + s3, s4, "--label"@, opt_view(o.label));
    }
    assert(passes_focus(args, o.focus)) by {
        lemma_focus_passed_at_end(s0 + s1 + s2 + s3, o.focus);
    }
}

impl HerdrClient {
    /// The workspace commands of this client.
    pub fn workspace(&self) -> (w: WorkspaceClient<'_>)
        ensures
            w.binary() == self.spec_binary(),
    {
        WorkspaceClient::new(self)
    }
}

impl<'a> WorkspaceClient<'a> {
    /// The binary the commands run.
    pub closed spec fn binary(&self) -> Seq<char> {
        self.client.spec_binary()
    }

    /// The sub-client that builds its commands for `client`.
    pub fn new(client: &'a HerdrClient) -> (w: Self)
        ensures
            w.binary() == client.spec_binary(),
    {
        WorkspaceClient { client }
    }

    /// `workspace list`.
    pub fn list_command(&self) -> (c: CommandLine)
        ensures
            runs(c, self.binary(), seq!["workspace"@, "list"@]),
    {
        self.client.command(args2("workspace", "list"))
    }

    /// `workspace create`, with `--cwd`, `--label`, one `--env KEY=VALUE` per
    /// entry, and `--focus` or `--no-focus`, each only when set.
    pub fn create_command(&self, options: WorkspaceCreateOptions) -> (c: CommandLine)
        ensures
            runs(c, self.binary(), workspace_create_args(options)),
    {
        let ghost o = options;
        let mut args = args2("workspace", "create");
        push_opt_flag(&mut args, "--cwd", options.cwd);
        push_opt_flag(&mut args, "--label", options.label);
        push_env(&mut args, &options.env);
        push_focus(&mut args, options.focus);
        assert(strs(args@) =~= workspace_create_args(o));
        self.client.command(args)
    }

    /// `workspace get ID`.
    pub fn get_command(&self, workspace_id: &str) -> (c: CommandLine)
        ensures
            runs(c, self.binary(), seq!["workspace"@, "get"@, workspace_id@]),
    {
        self.client.command(args3("workspace", "get", workspace_id))
    }

    /// `workspace focus ID`.
    pub fn focus_command(&self, workspace_id: &str) -> (c: CommandLine)
        ensures
            runs(c, self.binary(), seq!["workspace"@, "focus"@, workspace_id@]),
    {
        self.client.command(args3("workspace", "focus", workspace_id))
    }

    /// `workspace rename ID LABEL`.
    pub fn rename_command(&self, workspace_id: &str, label: &str) -> (c: CommandLine)
        ensures
            runs(c, self.binary(), seq!["workspace"@, "rename"@, workspace_id@, label@]),
    {
        self.client.command(args4("workspace", "rename", workspace_id, label))
    }

    /// `workspace close ID`.
    pub fn close_command(&self, workspace_id: &str) -> (c: CommandLine)
        ensures
            runs(c, self.binary(), seq!["workspace"@, "close"@, workspace_id@]),
    {
        self.client.command(args3("workspace", "close", workspace_id))
    }
}

/// The parameters of `workspace.create`.
pub open spec fn workspace_create_params(o: WorkspaceCreateOptions) -> Seq<(Seq<char>, Json)> {
    opt_text_member("cwd"@, opt_view(o.cwd)) + opt_text_member("label"@, opt_view(o.label))
        + env_member(o.env@) + opt_bool_member("focus"@, o.focus)
}

/// `o` is carried by `params`: every option that is set is the member of
/// its name, with its value, and every option that is not set is absent.
pub open spec fn carries_workspace_create(params: Json, o: WorkspaceCreateOptions) -> bool {
    &&& json_get(params, "cwd"@) == opt_text_json(o.cwd)
    &&& json_get(params, "label"@) == opt_text_json(o.label)
    &&& json_get(params, "focus"@) == opt_bool_json(o.focus)
    &&& json_get(params, "env"@) == (if o.env@.len() > 0 {
        Some(Json::Object(text_object(o.env@)))
    } else {
        None
    })
}

/// What the parameters of `workspace.create` hold under `key`, member by member.
proof fn lemma_workspace_create_lookup(o: WorkspaceCreateOptions, key: Seq<char>)
    ensures
        member_lookup(workspace_create_params(o), key) == (if key == "focus"@ && o.focus is Some {
            Some(Json::Bool(o.focus->0))
        } else if key == "env"@ && o.env@.len() > 0 {
            Some(Json::Object(text_object(o.env@)))
        } else if key == "label"@ && o.label is Some {
            Some(Json::Text(o.label->0@))
        } else if key == "cwd"@ && o.cwd is Some {
            Some(Json::Text(o.cwd->0@))
        } else {
            None
        }),
{
    let b = opt_text_member("cwd"@, opt_view(o.cwd));
    let c = opt_text_member("label"@, opt_view(o.label));
    let d = env_member(o.env@);
    let e = opt_bool_member("focus"@, o.focus);
    lemma_lookup_concat(b + c + d, e, key);
    lemma_lookup_concat(b + c, d, key);
    lemma_lookup_concat(b, c, key);
    lemma_lookup_opt_members("cwd"@, key, opt_view(o.cwd), None);
    lemma_lookup_opt_members("label"@, key, opt_view(o.label), None);
    lemma_lookup_opt_members("focus"@, key, None, o.focus);
    lemma_lookup_env_member(o.env@, key);
}

/// The parameters of `workspace.create` carry every option that is set,
/// under its name, and nothing for an option that is not.
pub proof fn lemma_workspace_create_params_carry_options(o: WorkspaceCreateOptions)
    ensures
        carries_workspace_create(Json::Object(workspace_create_params(o)), o),
{
    reveal_strlit("cwd");
    reveal_strlit("label");
    reveal_strlit("env");
    reveal_strlit("focus");
    assert("cwd"@[0] != "env"@[0]);
    assert("label"@[0] != "focus"@[0]);
    lemma_workspace_create_lookup(o, "cwd"@);
    lemma_workspace_create_lookup(o, "label"@);
    lemma_workspace_create_lookup(o, "focus"@);
    lemma_workspace_create_lookup(o, "env"@);
}

/// `workspace.list {}`.
pub fn socket_list() -> (r: SocketRequest)
    ensures
        is_request(r, "herdr-plugin:workspace:list"@, "workspace.list"@, Seq::empty()),
{
    request0("herdr-plugin:workspace:list", "workspace.list")
}

/// `workspace.create` with the options that are set; `env` only when not empty.
pub fn socket_create(options: WorkspaceCreateOptions) -> (r: SocketRequest)
    ensures
        is_request(r, "herdr-plugin:workspace:create"@, "workspace.create"@, workspace_create_params(options)),
        carries_workspace_create(r.params.model(), options),
{
    proof {
        lemma_workspace_create_params_carry_options(options);
    }
    let ghost o = options;
    let mut m: Vec<JsonMember> = Vec::new();
    proof {
        lemma_json_members_empty(m@);
    }
    insert_opt(&mut m, "cwd", options.cwd);
    insert_opt(&mut m, "label", options.label);
    insert_env(&mut m, options.env);
    insert_opt_bool(&mut m, "focus", options.focus);
    assert(json_members(m@) =~= workspace_create_params(o));
    SocketRequest::with_members("herdr-plugin:workspace:create", "workspace.create", m)
}

/// `workspace.get { workspace_id }`.
pub fn socket_get(workspace_id: &str) -> (r: SocketRequest)
    ensures
        is_request(r, "herdr-plugin:workspace:get"@, "workspace.get"@, seq![("workspace_id"@, Json::Text(workspace_id@))]),
{
    request1("herdr-plugin:workspace:get", "workspace.get", "workspace_id", workspace_id)
}

/// `workspace.focus { workspace_id }`.
pub fn socket_focus(workspace_id: &str) -> (r: SocketRequest)
    ensures
        is_request(r, "herdr-plugin:workspace:focus"@, "workspace.focus"@, seq![("workspace_id"@, Json::Text(workspace_id@))]),
{
    request1("herdr-plugin:workspace:focus", "workspace.focus", "workspace_id", workspace_id)
}

/// `workspace.rename { workspace_id, label }`.
pub fn socket_rename(workspace_id: &str, label: &str) -> (r: SocketRequest)
    ensures
        is_request(
            r,
            "herdr-plugin:workspace:rename"@,
            "workspace.rename"@,
            seq![("workspace_id"@, Json::Text(workspace_id@)), ("label"@, Json::Text(label@))],
        ),
{
    request2("herdr-plugin:workspace:rename", "workspace.rename", "workspace_id", workspace_id, "label", label)
}

/// `workspace.close { workspace_id }`.
pub fn socket_close(workspace_id: &str) -> (r: SocketRequest)
    ensures
        is_request(r, "herdr-plugin:workspace:close"@, "workspace.close"@, seq![("workspace_id"@, Json::Text(workspace_id@))]),
{
    request1("herdr-plugin:workspace:close", "workspace.close", "workspace_id", workspace_id)
}

} // verus!
