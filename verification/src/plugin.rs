//! Plugins: the `herdr plugin` commands and the `plugin.*` socket requests.

use vstd::prelude::*;
use crate::client::{CommandLine, HerdrClient, runs};
use crate::json::{Json, JsonMember, JsonValue, strs, opt_view, json_members, opt_text_member, opt_uint_member, opt_value_member, lemma_json_members_empty, insert_opt, insert_opt_uint, insert_opt_value, push_member};
use crate::socket::{SocketRequest, is_request, request1, members1, members2};
use crate::text::{passes_flag, passes_focus, passes_switch, lemma_flag_passed_at_end, lemma_focus_passed_at_end, lemma_switch_passed_at_end, lemma_passes_flag_extend, lemma_passes_focus_extend, lemma_passes_switch_extend, opt_flag, switch, push_opt_flag, push_switch, push_str, push_arg, args2, args3};

verus! {

/// Options of `plugin install`.
#[derive(Clone, Debug, Eq, PartialEq)]
pub struct PluginInstallOptions {
    pub source: String,
    pub requested_ref: Option<String>,
    pub yes: bool,
}

/// Options of `plugin list`.
#[derive(Clone, Debug, Default, Eq, PartialEq)]
pub struct PluginListOptions {
    pub plugin_id: Option<String>,
}

/// Options of `plugin.link`.
pub struct PluginLinkOptions {
    pub path: String,
    pub enabled: bool,
    pub source: Option<JsonValue>,
}

/// Options of `plugin.action.list`.
#[derive(Clone, Debug, Default, Eq, PartialEq)]
pub struct PluginActionListOptions {
    pub plugin_id: Option<String>,
}

/// Options of `plugin.log.list`.
#[derive(Clone, Debug, Default, Eq, PartialEq)]
pub struct PluginLogListOptions {
    pub plugin_id: Option<String>,
    pub limit: Option<usize>,
}

/// Options of `plugin.action.invoke`.
pub struct PluginActionInvokeOptions {
    pub action_id: String,
    pub plugin_id: Option<String>,
    pub context: Option<JsonValue>,
}

/// The plugin commands of a client.
#[derive(Clone, Copy, Debug)]
pub struct PluginClient<'a> {
    client: &'a HerdrClient,
}

impl HerdrClient {
    /// The plugin commands of this client.
    pub fn plugin(&self) -> (p: PluginClient<'_>)
        ensures
            p.binary() == self.spec_binary(),
    {
        PluginClient::new(self)
    }
}

/// The arguments of `plugin install`.
pub open spec fn plugin_install_args(o: PluginInstallOptions) -> Seq<Seq<char>> {
    seq!["plugin"@, "install"@, o.source@] + opt_flag("--ref"@, opt_view(o.requested_ref)) + switch("--yes"@, o.yes)
}

/// `plugin install` hands the requested ref, when one is set, to `--ref`, and
/// answers yes with `--yes` when asked to.
pub proof fn lemma_plugin_install_args_pass_options(o: PluginInstallOptions)
    ensures
        passes_flag(plugin_install_args(o), "--ref"@, opt_view(o.requested_ref)),
        passes_switch(plugin_install_args(o), "--yes"@, o.yes),
{
    let args = plugin_install_args(o);
    let s0 = seq!["plugin"@, "install"@, o.source@];
    let s1 = opt_flag("--ref"@, opt_view(o.requested_ref));
    let s2 = switch("--yes"@, o.yes);
    assert(s0 + s1 + s2 == args);
    assert(passes_flag(args, "--ref"@, opt_view(o.requested_ref))) by {
        lemma_flag_passed_at_end(s0, "--ref"@, opt_view(o.requested_ref));
        lemma_passes_flag_extend(s0 + s1, s2, "--ref"@, opt_view(o.requested_ref));
    }
    assert(passes_switch(args, "--yes"@, o.yes)) by {
        lemma_switch_passed_at_end(s0 + s1, "--yes"@, o.yes);
    }
}

impl<'a> PluginClient<'a> {
    /// The binary the commands run.
    pub closed spec fn binary(&self) -> Seq<char> {
        self.client.spec_binary()
    }

    /// The sub-client that builds its commands for `client`.
    pub fn new(client: &'a HerdrClient) -> (p: Self)
        ensures
            p.binary() == client.spec_binary(),
    {
        PluginClient { client }
    }

    /// `plugin install SOURCE [--ref REF] [--yes]`.
    pub fn install_command(&self, options: PluginInstallOptions) -> (c: CommandLine)
        ensures
            runs(c, self.binary(), plugin_install_args(options)),
    {
        let ghost o = options;
        let mut args = args2("plugin", "install");
        push_arg(&mut args, options.source);
        push_opt_flag(&mut args, "--ref", options.requested_ref);
        push_switch(&mut args, "--yes", options.yes);
        assert(strs(args@) =~= plugin_install_args(o));
        self.client.command(args)
    }

    /// `plugin list --json [--plugin ID]`.
    pub fn list_command(&self, options: PluginListOptions) -> (c: CommandLine)
        ensures
            runs(c, self.binary(), seq!["plugin"@, "list"@, "--json"@] + opt_flag("--plugin"@, opt_view(options.plugin_id))),
    {
        let mut args = args3("plugin", "list", "--json");
        push_opt_flag(&mut args, "--plugin", options.plugin_id);
        self.client.command(args)
    }

    /// `plugin uninstall TARGET`.
    pub fn uninstall_command(&self, target: &str) -> (c: CommandLine)
        ensures
            runs(c, self.binary(), seq!["plugin"@, "uninstall"@, target@]),
    {
        self.client.command(args3("plugin", "uninstall", target))
    }

    /// `plugin enable ID`.
    pub fn enable_command(&self, plugin_id: &str) -> (c: CommandLine)
        ensures
            runs(c, self.binary(), seq!["plugin"@, "enable"@, plugin_id@]),
    {
        self.client.command(args3("plugin", "enable", plugin_id))
    }

    /// `plugin disable ID`.
    pub fn disable_command(&self, plugin_id: &str) -> (c: CommandLine)
        ensures
            runs(c, self.binary(), seq!["plugin"@, "disable"@, plugin_id@]),
    {
        self.client.command(args3("plugin", "disable", plugin_id))
    }
}

/// `plugin.link { path, enabled, source? }`.
pub fn socket_link(options: PluginLinkOptions) -> (r: SocketRequest)
    ensures
        is_request(r, "herdr-plugin:plugin:link"@, "plugin.link"@, seq![
            ("path"@, Json::Text(options.path@)),
            ("enabled"@, Json::Bool(options.enabled)),
        ] + opt_value_member("source"@, options.source)),
{
    let ghost o = options;
    let mut m = members2("path", JsonValue::Text(options.path), "enabled", JsonValue::Bool(options.enabled));
    insert_opt_value(&mut m, "source", options.source);
    assert(json_members(m@) =~= seq![
        ("path"@, Json::Text(o.path@)),
        ("enabled"@, Json::Bool(o.enabled)),
    ] + opt_value_member("source"@, o.source));
    SocketRequest::with_members("herdr-plugin:plugin:link", "plugin.link", m)
}

/// A request whose only possible member is `plugin_id`.
fn plugin_id_request(id: &str, method: &str, plugin_id: Option<String>) -> (r: SocketRequest)
    ensures
        is_request(r, id@, method@, opt_text_member("plugin_id"@, opt_view(plugin_id))),
{
    let mut m: Vec<JsonMember> = Vec::new();
    proof {
        lemma_json_members_empty(m@);
    }
    let ghost p = plugin_id;
    insert_opt(&mut m, "plugin_id", plugin_id);
    assert(json_members(m@) =~= opt_text_member("plugin_id"@, opt_view(p)));
    SocketRequest::with_members(id, method, m)
}

/// `plugin.list { plugin_id? }`.
pub fn socket_list(options: PluginListOptions) -> (r: SocketRequest)
    ensures
        is_request(r, "herdr-plugin:plugin:list"@, "plugin.list"@, opt_text_member("plugin_id"@, opt_view(options.plugin_id))),
{
    plugin_id_request("herdr-plugin:plugin:list", "plugin.list", options.plugin_id)
}

/// `plugin.unlink { plugin_id }`.
pub fn socket_unlink(plugin_id: &str) -> (r: SocketRequest)
    ensures
        is_request(r, "herdr-plugin:plugin:unlink"@, "plugin.unlink"@, seq![("plugin_id"@, Json::Text(plugin_id@))]),
{
    request1("herdr-plugin:plugin:unlink", "plugin.unlink", "plugin_id", plugin_id)
}

/// `plugin.enable { plugin_id }`.
pub fn socket_enable(plugin_id: &str) -> (r: SocketRequest)
    ensures
        is_request(r, "herdr-plugin:plugin:enable"@, "plugin.enable"@, seq![("plugin_id"@, Json::Text(plugin_id@))]),
{
    request1("herdr-plugin:plugin:enable", "plugin.enable", "plugin_id", plugin_id)
}

/// `plugin.disable { plugin_id }`.
pub fn socket_disable(plugin_id: &str) -> (r: SocketRequest)
    ensures
        is_request(r, "herdr-plugin:plugin:disable"@, "plugin.disable"@, seq![("plugin_id"@, Json::Text(plugin_id@))]),
{
    request1("herdr-plugin:plugin:disable", "plugin.disable", "plugin_id", plugin_id)
}

/// `plugin.action.list { plugin_id? }`.
pub fn socket_action_list(options: PluginActionListOptions) -> (r: SocketRequest)
    ensures
        is_request(r, "herdr-plugin:plugin:action:list"@, "plugin.action.list"@, opt_text_member("plugin_id"@, opt_view(options.plugin_id))),
{
    plugin_id_request("herdr-plugin:plugin:action:list", "plugin.action.list", options.plugin_id)
}

/// `plugin.action.invoke { action_id, plugin_id?, context? }`.
pub fn socket_action_invoke(options: PluginActionInvokeOptions) -> (r: SocketRequest)
    ensures
        is_request(r, "herdr-plugin:plugin:action:invoke"@, "plugin.action.invoke"@, seq![("action_id"@, Json::Text(options.action_id@))]
            + opt_text_member("plugin_id"@, opt_view(options.plugin_id)) + opt_value_member("context"@, options.context)),
{
    let ghost o = options;
    let mut m = members1("action_id", JsonValue::Text(options.action_id));
    insert_opt(&mut m, "plugin_id", options.plugin_id);
    insert_opt_value(&mut m, "context", options.context);
    assert(json_members(m@) =~= seq![("action_id"@, Json::Text(o.action_id@))]
        + opt_text_member("plugin_id"@, opt_view(o.plugin_id)) + opt_value_member("context"@, o.context));
    SocketRequest::with_members("herdr-plugin:plugin:action:invoke", "plugin.action.invoke", m)
}

/// The count as a 64-bit number, when one is set.
pub open spec fn opt_usize_as_u64(n: Option<usize>) -> Option<u64> {
    match n {
        Some(v) => Some(v as u64),
        None => None,
    }
}

/// `plugin.log.list { plugin_id?, limit? }`.
pub fn socket_log_list(options: PluginLogListOptions) -> (r: SocketRequest)
    ensures
        is_request(r, "herdr-plugin:plugin:log:list"@, "plugin.log.list"@, opt_text_member("plugin_id"@, opt_view(options.plugin_id))
            + opt_uint_member("limit"@, opt_usize_as_u64(options.limit))),
{
    let ghost o = options;
    let mut m: Vec<JsonMember> = Vec::new();
    proof {
        lemma_json_members_empty(m@);
    }
    insert_opt(&mut m, "plugin_id", options.plugin_id);
    let limit = match options.limit {
        Some(n) => Some(n as u64),
        None => None,
    };
    insert_opt_uint(&mut m, "limit", limit);
    assert(json_members(m@) =~= opt_text_member("plugin_id"@, opt_view(o.plugin_id))
        + opt_uint_member("limit"@, opt_usize_as_u64(o.limit)));
    SocketRequest::with_members("herdr-plugin:plugin:log:list", "plugin.log.list", m)
}

} // verus!
