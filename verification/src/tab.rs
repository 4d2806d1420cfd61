//! Tabs: the `herdr tab` commands and the `tab.*` socket requests.

use vstd::prelude::*;
use crate::client::{CommandLine, HerdrClient, runs};
use crate::json::{Json, JsonMember, json_get, opt_text_json, opt_bool_json, member_lookup, text_object, lemma_lookup_concat, lemma_lookup_opt_members, lemma_lookup_env_member, strs, opt_view, json_members, opt_text_member, opt_bool_member, env_member, lemma_json_members_empty, insert_opt, insert_opt_bool, insert_env, push_member, text};
use crate::socket::{SocketRequest, is_request, request1, request2};
use crate::text::{opt_flag, focus_args, env_args, push_opt_flag, push_focus, push_env, args2, args3, args4, passes_flag, passes_focus, passes_switch, lemma_flag_passed_at_end, lemma_focus_passed_at_end, lemma_switch_passed_at_end, lemma_passes_flag_extend, lemma_passes_focus_extend, lemma_passes_switch_extend};

verus! {

/// Options of `tab list`.
#[derive(Clone, Debug, Default, Eq, PartialEq)]
pub struct TabListOptions {
    pub workspace_id: Option<String>,
}

/// Options of `tab create`. `cwd` is a path.
#[derive(Clone, Debug, Default, Eq, PartialEq)]
pub struct TabCreateOptions {
    pub workspace_id: Option<String>,
    pub cwd: Option<String>,
    pub label: Option<String>,
    pub env: Vec<(String, String)>,
    pub focus: Option<bool>,
}

/// The tab commands of a client.
#[derive(Clone, Copy, Debug)]
pub struct TabClient<'a> {
    client: &'a HerdrClient,
}

/// The arguments of `tab list`.
pub open spec fn tab_list_args(o: TabListOptions) -> Seq<Seq<char>> {
    seq!["tab"@, "list"@] + opt_flag("--workspace"@, opt_view(o.workspace_id))
}

/// `tab list` hands the workspace, when one is set, to `--workspace`.
pub proof fn lemma_tab_list_args_pass_options(o: TabListOptions)
    ensures
        passes_flag(tab_list_args(o), "--workspace"@, opt_view(o.workspace_id)),
{
    let args = tab_list_args(o);
    let s0 = seq!["tab"@, "list"@];
    let s1 = opt_flag("--workspace"@, opt_view(o.workspace_id));
    assert(s0 + s1 == args);
    assert(passes_flag(args, "--workspace"@, opt_view(o.workspace_id))) by {
        lemma_flag_passed_at_end(s0, "--workspace"@, opt_view(o.workspace_id));
    }
}

/// The arguments of `tab create`.
pub open spec fn tab_create_args(o: TabCreateOptions) -> Seq<Seq<char>> {
    seq!["tab"@, "create"@] + opt_flag("--workspace"@, opt_view(o.workspace_id)) + opt_flag(
        "--cwd"@,
        opt_view(o.cwd),
    ) + opt_flag("--label"@, opt_view(o.label)) + env_args(o.env@) + focus_args(o.focus)
}

/// `tab create` hands every option that is set to its flag: the workspace
/// to `--workspace`, the directory to `--cwd`, the label to `--label`; and it
/// asks for focus with `--focus` or refuses it with `--no-focus`.
pub proof fn lemma_tab_create_args_pass_options(o: TabCreateOptions)
    ensures
        passes_flag(tab_create_args(o), "--workspace"@, opt_view(o.workspace_id)),
        passes_flag(tab_create_args(o), "--cwd"@, opt_view(o.cwd)),
        passes_flag(tab_create_args(o), "--label"@, opt_view(o.label)),
        passes_focus(tab_create_args(o), o.focus),
{
    let args = tab_create_args(o);
    let s0 = seq!["tab"@, "create"@];
    let s1 = opt_flag("--workspace"@, opt_view(o.workspace_id));
    let s2 = opt_flag("--cwd"@, opt_view(o.cwd));
    let s3 = opt_flag("--label"@, opt_view(o.label));
    let s4 = env_args(o.env@);
    let s5 = focus_args(o.focus);
    assert(s0 + s1 + s2 + s3 + s4 + s5 == args);
    assert(passes_flag(args, "--workspace"@, opt_view(o.workspace_id))) by {
        lemma_flag_passed_at_end(s0, "--workspace"@, opt_view(o.workspace_id));
        lemma_passes_flag_extend(s0 + s1, s2, "--workspace"@, opt_view(o.workspace_id));
        lemma_passes_flag_extend(s0 + s1 + s2, s3, "--workspace"@, opt_view(o.workspace_id));
        lemma_passes_flag_extend(s0 + s1 + s2 + s3, s4, "--workspace"@, opt_view(o.workspace_id));
        lemma_passes_flag_extend(s0 + s1 + s2 + s3 + s4, s5, "--workspace"@, opt_view(o.workspace_id));
    }
    assert(passes_flag(args, "--cwd"@, opt_view(o.cwd))) by {
        lemma_flag_passed_at_end(s0 + s1, "--cwd"@, opt_view(o.cwd));
        lemma_passes_flag_extend(s0 + s1 + s2, s3, "--cwd"@, opt_view(o.cwd));
        lemma_passes_flag_extend(s0 + s1 + s2 + s3, s4, "--cwd"@, opt_view(o.cwd));
        lemma_passes_flag_extend(s0 + s1 + s2 + s3 + s4, s5, "--cwd"@, opt_view(o.cwd));
    }
    assert(passes_flag(args, "--label"@, opt_view(o.label))) by {
        lemma_flag_passed_at_end(s0 + s1 + s2, "--label"@, opt_view(o.label));
        lemma_passes_flag_extend(s0 + s1 + s2 + s3, s4, "--label"@, opt_view(o.label));
        lemma_passes_flag_extend(s0 + s1 + s2 + s3 + s4, s5, "--label"@, opt_view(o.label));
    }
    assert(passes_focus(args, o.focus)) by {
        lemma_focus_passed_at_end(s0 + s1 + s2 + s3 + s4, o.focus);
    }
}

impl HerdrClient {
    /// The tab commands of this client.
    pub fn tab(&self) -> (t: TabClient<'_>)
        ensures
            t.binary() == self.spec_binary(),
    {
        TabClient::new(self)
    }
}

impl<'a> TabClient<'a> {
    /// The binary the commands run.
    pub closed spec fn binary(&self) -> Seq<char> {
        self.client.spec_binary()
    }

    /// The sub-client that builds its commands for `client`.
    pub fn new(client: &'a HerdrClient) -> (t: Self)
        ensures
            t.binary() == client.spec_binary(),
    {
        TabClient { client }
    }

    /// `tab list [--workspace ID]`.
    pub fn list_command(&self, options: TabListOptions) -> (c: CommandLine)
        ensures
            runs(c, self.binary(), tab_list_args(options)),
    {
        let mut args = args2("tab", "list");
        push_opt_flag(&mut args, "--workspace", options.workspace_id);
        self.client.command(args)
    }

    /// `tab create`, with `--workspace`, `--cwd`, `--label`, one `--env KEY=VALUE`
    /// per entry, and `--focus` or `--no-focus`, each only when set.
    pub fn create_command(&self, options: TabCreateOptions) -> (c: CommandLine)
        ensures
            runs(c, self.binary(), tab_create_args(options)),
    {
        let ghost o = options;
        let mut args = args2("tab", "create");
        push_opt_flag(&mut args, "--workspace", options.workspace_id);
        push_opt_flag(&mut args, "--cwd", options.cwd);
        push_opt_flag(&mut args, "--label", options.label);
        push_env(&mut args, &options.env);
        push_focus(&mut args, options.focus);
        assert(strs(args@) =~= tab_create_args(o));
        self.client.command(args)
    }

    /// `tab get ID`.
    pub fn get_command(&self, tab_id: &str) -> (c: CommandLine)
        ensures
            runs(c, self.binary(), seq!["tab"@, "get"@, tab_id@]),
    {
        self.client.command(args3("tab", "get", tab_id))
    }

    /// `tab focus ID`.
    pub fn focus_command(&self, tab_id: &str) -> (c: CommandLine)
        ensures
            runs(c, self.binary(), seq!["tab"@, "focus"@, tab_id@]),
    {
        self.client.command(args3("tab", "focus", tab_id))
    }

    /// `tab rename ID LABEL`.
    pub fn rename_command(&self, tab_id: &str, label: &str) -> (c: CommandLine)
        ensures
            runs(c, self.binary(), seq!["tab"@, "rename"@, tab_id@, label@]),
    {
        self.client.command(args4("tab", "rename", tab_id, label))
    }

    /// `tab close ID`.
    pub fn close_command(&self, tab_id: &str) -> (c: CommandLine)
        ensures
            runs(c, self.binary(), seq!["tab"@, "close"@, tab_id@]),
    {
        self.client.command(args3("tab", "close", tab_id))
    }
}

/// The parameters of `tab.create`.
pub open spec fn tab_create_params(o: TabCreateOptions) -> Seq<(Seq<char>, Json)> {
    opt_text_member("workspace_id"@, opt_view(o.workspace_id)) + opt_text_member(
        "cwd"@,
        opt_view(o.cwd),
    ) + opt_text_member("label"@, opt_view(o.label)) + env_member(o.env@) + opt_bool_member(
        "focus"@,
        o.focus,
    )
}

/// `tab.list`, filtered to a workspace when one is set.
pub fn socket_list(options: TabListOptions) -> (r: SocketRequest)
    ensures
        is_request(r, "herdr-plugin:tab:list"@, "tab.list"@, opt_text_member("workspace_id"@, opt_view(options.workspace_id))),
{
    let mut m: Vec<JsonMember> = Vec::new();
    proof {
        lemma_json_members_empty(m@);
    }
    insert_opt(&mut m, "workspace_id", options.workspace_id);
    assert(json_members(m@) =~= opt_text_member("workspace_id"@, opt_view(options.workspace_id)));
    SocketRequest::with_members("herdr-plugin:tab:list", "tab.list", m)
}

/// `o` is carried by `params`: every option that is set is the member of
/// its name, with its value, and every option that is not set is absent.
pub open spec fn carries_tab_create(params: Json, o: TabCreateOptions) -> bool {
    &&& json_get(params, "workspace_id"@) == opt_text_json(o.workspace_id)
    &&& json_get(params, "cwd"@) == opt_text_json(o.cwd)
    &&& json_get(params, "label"@) == opt_text_json(o.label)
    &&& json_get(params, "focus"@) == opt_bool_json(o.focus)
    &&& json_get(params, "env"@) == (if o.env@.len() > 0 {
        Some(Json::Object(text_object(o.env@)))
    } else {
        None
    })
}

/// What the parameters of `tab.create` hold under `key`, member by member.
proof fn lemma_tab_create_lookup(o: TabCreateOptions, key: Seq<char>)
    ensures
        member_lookup(tab_create_params(o), key) == (if key == "focus"@ && o.focus is Some {
            Some(Json::Bool(o.focus->0))
        } else if key == "env"@ && o.env@.len() > 0 {
            Some(Json::Object(text_object(o.env@)))
        } else if key == "label"@ && o.label is Some {
            Some(Json::Text(o.label->0@))
        } else if key == "cwd"@ && o.cwd is Some {
            Some(Json::Text(o.cwd->0@))
        } else if key == "workspace_id"@ && o.workspace_id is Some {
            Some(Json::Text(o.workspace_id->0@))
        } else {
            None
        }),
{
    let a = opt_text_member("workspace_id"@, opt_view(o.workspace_id));
    let b = opt_text_member("cwd"@, opt_view(o.cwd));
    let c = opt_text_member("label"@, opt_view(o.label));
    let d = env_member(o.env@);
    let e = opt_bool_member("focus"@, o.focus);
    lemma_lookup_concat(a + b + c + d, e, key);
    lemma_lookup_concat(a + b + c, d, key);
    lemma_lookup_concat(a + b, c, key);
    lemma_lookup_concat(a, b, key);
    lemma_lookup_opt_members("workspace_id"@, key, opt_view(o.workspace_id), None);
    lemma_lookup_opt_members("cwd"@, key, opt_view(o.cwd), None);
    lemma_lookup_opt_members("label"@, key, opt_view(o.label), None);
    lemma_lookup_opt_members("focus"@, key, None, o.focus);
    lemma_lookup_env_member(o.env@, key);
}

/// The parameters of `tab.create` carry every option that is set, under its
/// name, and nothing for an option that is not.
pub proof fn lemma_tab_create_params_carry_options(o: TabCreateOptions)
    ensures
        carries_tab_create(Json::Object(tab_create_params(o)), o),
{
    reveal_strlit("workspace_id");
    reveal_strlit("cwd");
    reveal_strlit("label");
    reveal_strlit("env");
    reveal_strlit("focus");
    assert("cwd"@[0] != "env"@[0]);
    assert("label"@[0] != "focus"@[0]);
    assert("workspace_id"@.len() != "cwd"@.len());
    lemma_tab_create_lookup(o, "workspace_id"@);
    lemma_tab_create_lookup(o, "cwd"@);
    lemma_tab_create_lookup(o, "label"@);
    lemma_tab_create_lookup(o, "focus"@);
    lemma_tab_create_lookup(o, "env"@);
}

/// `tab.create` with the options that are set; `env` only when not empty.
pub fn socket_create(options: TabCreateOptions) -> (r: SocketRequest)
    ensures
        is_request(r, "herdr-plugin:tab:create"@, "tab.create"@, tab_create_params(options)),
        carries_tab_create(r.params.model(), options),
{
    proof {
        lemma_tab_create_params_carry_options(options);
    }
    let ghost o = options;
    let mut m: Vec<JsonMember> = Vec::new();
    proof {
        lemma_json_members_empty(m@);
    }
    insert_opt(&mut m, "workspace_id", options.workspace_id);
    insert_opt(&mut m, "cwd", options.cwd);
    insert_opt(&mut m, "label", options.label);
    insert_env(&mut m, options.env);
    insert_opt_bool(&mut m, "focus", options.focus);
    assert(json_members(m@) =~= tab_create_params(o));
    SocketRequest::with_members("herdr-plugin:tab:create", "tab.create", m)
}

/// `tab.get { tab_id }`.
pub fn socket_get(tab_id: &str) -> (r: SocketRequest)
    ensures
        is_request(r, "herdr-plugin:tab:get"@, "tab.get"@, seq![("tab_id"@, Json::Text(tab_id@))]),
{
    request1("herdr-plugin:tab:get", "tab.get", "tab_id", tab_id)
}

/// `tab.focus { tab_id }`.
pub fn socket_focus(tab_id: &str) -> (r: SocketRequest)
    ensures
        is_request(r, "herdr-plugin:tab:focus"@, "tab.focus"@, seq![("tab_id"@, Json::Text(tab_id@))]),
{
    request1("herdr-plugin:tab:focus", "tab.focus", "tab_id", tab_id)
}

/// `tab.rename { tab_id, label }`.
pub fn socket_rename(tab_id: &str, label: &str) -> (r: SocketRequest)
    ensures
        is_request(
            r,
            "herdr-plugin:tab:rename"@,
            "tab.rename"@,
            seq![("tab_id"@, Json::Text(tab_id@)), ("label"@, Json::Text(label@))],
        ),
{
    request2("herdr-plugin:tab:rename", "tab.rename", "tab_id", tab_id, "label", label)
}

/// `tab.move { tab_id, insert_index }`.
pub fn socket_move_tab(tab_id: &str, insert_index: usize) -> (r: SocketRequest)
    ensures
        is_request(
            r,
            "herdr-plugin:tab:move"@,
            "tab.move"@,
            seq![("tab_id"@, Json::Text(tab_id@)), ("insert_index"@, Json::UInt(insert_index as u64))],
        ),
{
    let m = crate::socket::members2("tab_id", text(tab_id), "insert_index", crate::json::JsonValue::UInt(insert_index as u64));
    SocketRequest::with_members("herdr-plugin:tab:move", "tab.move", m)
}

/// `tab.close { tab_id }`.
pub fn socket_close(tab_id: &str) -> (r: SocketRequest)
    ensures
        is_request(r, "herdr-plugin:tab:close"@, "tab.close"@, seq![("tab_id"@, Json::Text(tab_id@))]),
{
    request1("herdr-plugin:tab:close", "tab.close", "tab_id", tab_id)
}

} // verus!
