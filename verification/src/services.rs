//! The socket requests about the server, notifications, the client window,
//! the session, layouts, events and integrations.

use vstd::prelude::*;
use crate::json::{includes, lemma_run_at_end, lemma_includes_extend, Json, JsonMember, JsonValue, opt_view, json_members, opt_text_member, opt_uint_member, lemma_json_members_empty, insert_opt, insert_opt_uint, push_member};
use crate::socket::{SocketRequest, is_request, request0, request1, bools, bool_array};

verus! {

/// Options of `server.live_handoff`.
#[derive(Clone, Debug, Default, Eq, PartialEq)]
pub struct ServerLiveHandoffOptions {
    pub import_exe: Option<String>,
    pub expected_protocol: Option<u32>,
    pub expected_version: Option<String>,
}

/// The sound a notification plays.
#[derive(Clone, Copy, Debug, Eq, PartialEq, Structural)]
pub enum NotificationSound {
    Silent,
    Done,
    Request,
}

/// The name of a notification sound.
pub open spec fn sound_name(s: NotificationSound) -> Seq<char> {
    match s {
        NotificationSound::Silent => "none"@,
        NotificationSound::Done => "done"@,
        NotificationSound::Request => "request"@,
    }
}

impl NotificationSound {
    /// The name Herdr uses for this sound.
    pub fn as_str(self) -> (s: &'static str)
        ensures
            s@ == sound_name(self),
    {
        match self {
            NotificationSound::Silent => "none",
            NotificationSound::Done => "done",
            NotificationSound::Request => "request",
        }
    }
}

/// Options of `notification.show`.
#[derive(Clone, Debug, Default, Eq, PartialEq)]
pub struct NotificationShowOptions {
    pub title: String,
    pub body: Option<String>,
    pub position: Option<String>,
    pub sound: Option<NotificationSound>,
}

/// Options of `layout.export`.
#[derive(Clone, Debug, Default, Eq, PartialEq)]
pub struct LayoutExportOptions {
    pub tab_id: Option<String>,
    pub pane_id: Option<String>,
}

/// Options of `layout.apply`.
pub struct LayoutApplyOptions {
    pub workspace_id: Option<String>,
    pub tab_id: Option<String>,
    pub tab_label: Option<String>,
    pub focus: bool,
    pub root: JsonValue,
}

/// Options of `layout.set_split_ratio`. `ratio` is the decimal text of the ratio.
pub struct LayoutSetSplitRatioOptions {
    pub tab_id: Option<String>,
    pub pane_id: Option<String>,
    pub path: Vec<bool>,
    pub ratio: String,
}

/// The target of an integration request.
#[derive(Clone, Debug, Eq, PartialEq)]
pub struct IntegrationTarget {
    pub target: String,
}

/// `ping {}`.
pub fn socket_ping() -> (r: SocketRequest)
    ensures
        is_request(r, "herdr-plugin:ping"@, "ping"@, Seq::empty()),
{
    request0("herdr-plugin:ping", "ping")
}

/// `server.stop {}`.
pub fn socket_server_stop() -> (r: SocketRequest)
    ensures
        is_request(r, "herdr-plugin:server:stop"@, "server.stop"@, Seq::empty()),
{
    request0("herdr-plugin:server:stop", "server.stop")
}

/// The number as a 64-bit number, when one is set.
pub open spec fn opt_u32_as_u64(n: Option<u32>) -> Option<u64> {
    match n {
        Some(v) => Some(v as u64),
        None => None,
    }
}

/// The parameters of `server.live_handoff`.
pub open spec fn live_handoff_params(o: ServerLiveHandoffOptions) -> Seq<(Seq<char>, Json)> {
    opt_text_member("import_exe"@, opt_view(o.import_exe)) + opt_uint_member(
        "expected_protocol"@,
        opt_u32_as_u64(o.expected_protocol),
    ) + opt_text_member("expected_version"@, opt_view(o.expected_version))
}

/// The parameters of `server.live_handoff` carry every option that is set,
/// each under its name.
pub proof fn lemma_live_handoff_params_carry_options(o: ServerLiveHandoffOptions)
    ensures
        includes(live_handoff_params(o), opt_text_member("import_exe"@, opt_view(o.import_exe))),
        includes(live_handoff_params(o), opt_uint_member("expected_protocol"@, opt_u32_as_u64(o.expected_protocol))),
        includes(live_handoff_params(o), opt_text_member("expected_version"@, opt_view(o.expected_version))),
{
    let params = live_handoff_params(o);
    let s0 = opt_text_member("import_exe"@, opt_view(o.import_exe));
    let s1 = opt_uint_member("expected_protocol"@, opt_u32_as_u64(o.expected_protocol));
    let s2 = opt_text_member("expected_version"@, opt_view(o.expected_version));
    assert(s0 + s1 + s2 == params);
    assert(includes(params, s0)) by {
        lemma_run_at_end(Seq::empty(), s0);
        assert(Seq::<(Seq<char>, Json)>::empty() + s0 =~= s0);
        lemma_includes_extend(s0, s1, s0);
        lemma_includes_extend(s0 + s1, s2, s0);
    }
    assert(includes(params, s1)) by {
        lemma_run_at_end(s0, s1);
        lemma_includes_extend(s0 + s1, s2, s1);
    }
    assert(includes(params, s2)) by {
        lemma_run_at_end(s0 + s1, s2);
    }
}

/// `server.live_handoff` with the options that are set.
pub fn socket_live_handoff(options: ServerLiveHandoffOptions) -> (r: SocketRequest)
    ensures
        is_request(r, "herdr-plugin:server:live_handoff"@, "server.live_handoff"@, live_handoff_params(options)),
{
    let ghost o = options;
    let mut m: Vec<JsonMember> = Vec::new();
    proof {
        lemma_json_members_empty(m@);
    }
    insert_opt(&mut m, "import_exe", options.import_exe);
    let protocol = match options.expected_protocol {
        Some(p) => Some(p as u64),
        None => None,
    };
    insert_opt_uint(&mut m, "expected_protocol", protocol);
    insert_opt(&mut m, "expected_version", options.expected_version);
    assert(json_members(m@) =~= live_handoff_params(o));
    SocketRequest::with_members("herdr-plugin:server:live_handoff", "server.live_handoff", m)
}

/// `server.reload_config {}`.
pub fn socket_reload_config() -> (r: SocketRequest)
    ensures
        is_request(r, "herdr-plugin:server:reload_config"@, "server.reload_config"@, Seq::empty()),
{
    request0("herdr-plugin:server:reload_config", "server.reload_config")
}

/// `server.agent_manifests {}`.
pub fn socket_agent_manifests() -> (r: SocketRequest)
    ensures
        is_request(r, "herdr-plugin:server:agent_manifests"@, "server.agent_manifests"@, Seq::empty()),
{
    request0("herdr-plugin:server:agent_manifests", "server.agent_manifests")
}

/// `server.reload_agent_manifests {}`.
pub fn socket_reload_agent_manifests() -> (r: SocketRequest)
    ensures
        is_request(r, "herdr-plugin:server:reload_agent_manifests"@, "server.reload_agent_manifests"@, Seq::empty()),
{
    request0("herdr-plugin:server:reload_agent_manifests", "server.reload_agent_manifests")
}

/// The name of the sound, when one is set.
pub open spec fn opt_sound_name(s: Option<NotificationSound>) -> Option<Seq<char>> {
    match s {
        Some(v) => Some(sound_name(v)),
        None => None,
    }
}

/// The parameters of `notification.show`.
pub open spec fn notification_params(o: NotificationShowOptions) -> Seq<(Seq<char>, Json)> {
    seq![("title"@, Json::Text(o.title@))] + opt_text_member("body"@, opt_view(o.body)) + opt_text_member(
        "position"@,
        opt_view(o.position),
    ) + opt_text_member("sound"@, opt_sound_name(o.sound))
}

/// The parameters of `notification.show` carry the title, and the body, the
/// position and the sound's name when they are set, each under its name.
pub proof fn lemma_notification_params_carry_options(o: NotificationShowOptions)
    ensures
        includes(notification_params(o), seq![("title"@, Json::Text(o.title@))]),
        includes(notification_params(o), opt_text_member("body"@, opt_view(o.body))),
        includes(notification_params(o), opt_text_member("position"@, opt_view(o.position))),
        includes(notification_params(o), opt_text_member("sound"@, opt_sound_name(o.sound))),
{
    let params = notification_params(o);
    let s0 = seq![("title"@, Json::Text(o.title@))];
    let s1 = opt_text_member("body"@, opt_view(o.body));
    let s2 = opt_text_member("position"@, opt_view(o.position));
    let s3 = opt_text_member("sound"@, opt_sound_name(o.sound));
    assert(s0 + s1 + s2 + s3 == params);
    assert(includes(params, s0)) by {
        lemma_run_at_end(Seq::empty(), s0);
        assert(Seq::<(Seq<char>, Json)>::empty() + s0 =~= s0);
        lemma_includes_extend(s0, s1, s0);
        lemma_includes_extend(s0 + s1, s2, s0);
        lemma_includes_extend(s0 + s1 + s2, s3, s0);
    }
    assert(includes(params, s1)) by {
        lemma_run_at_end(s0, s1);
        lemma_includes_extend(s0 + s1, s2, s1);
        lemma_includes_extend(s0 + s1 + s2, s3, s1);
    }
    assert(includes(params, s2)) by {
        lemma_run_at_end(s0 + s1, s2);
        lemma_includes_extend(s0 + s1 + s2, s3, s2);
    }
    assert(includes(params, s3)) by {
        lemma_run_at_end(s0 + s1 + s2, s3);
    }
}

/// `notification.show { title, body?, position?, sound? }`.
pub fn socket_notification_show(options: NotificationShowOptions) -> (r: SocketRequest)
    ensures
        is_request(r, "herdr-plugin:notification:show"@, "notification.show"@, notification_params(options)),
{
    let ghost o = options;
    let mut m = crate::socket::members1("title", JsonValue::Text(options.title));
    insert_opt(&mut m, "body", options.body);
    insert_opt(&mut m, "position", options.position);
    let sound = match options.sound {
        Some(s) => Some(s.as_str().to_owned()),
        None => None,
    };
    assert(opt_view(sound) == opt_sound_name(o.sound));
    insert_opt(&mut m, "sound", sound);
    assert(json_members(m@) =~= notification_params(o));
    SocketRequest::with_members("herdr-plugin:notification:show", "notification.show", m)
}

/// `client.window_title.set { title }`.
pub fn socket_set_window_title(title: &str) -> (r: SocketRequest)
    ensures
        is_request(r, "herdr-plugin:client:window_title:set"@, "client.window_title.set"@, seq![("title"@, Json::Text(title@))]),
{
    request1("herdr-plugin:client:window_title:set", "client.window_title.set", "title", title)
}

/// `client.window_title.clear {}`.
pub fn socket_clear_window_title() -> (r: SocketRequest)
    ensures
        is_request(r, "herdr-plugin:client:window_title:clear"@, "client.window_title.clear"@, Seq::empty()),
{
    request0("herdr-plugin:client:window_title:clear", "client.window_title.clear")
}

/// `session.snapshot {}`.
pub fn socket_session_snapshot() -> (r: SocketRequest)
    ensures
        is_request(r, "herdr-plugin:session:snapshot"@, "session.snapshot"@, Seq::empty()),
{
    request0("herdr-plugin:session:snapshot", "session.snapshot")
}

/// `layout.export { tab_id?, pane_id? }`.
pub fn socket_layout_export(options: LayoutExportOptions) -> (r: SocketRequest)
    ensures
        is_request(r, "herdr-plugin:layout:export"@, "layout.export"@, opt_text_member("tab_id"@, opt_view(options.tab_id))
            + opt_text_member("pane_id"@, opt_view(options.pane_id))),
{
    let ghost o = options;
    let mut m: Vec<JsonMember> = Vec::new();
    proof {
        lemma_json_members_empty(m@);
    }
    insert_opt(&mut m, "tab_id", options.tab_id);
    insert_opt(&mut m, "pane_id", options.pane_id);
    assert(json_members(m@) =~= opt_text_member("tab_id"@, opt_view(o.tab_id))
        + opt_text_member("pane_id"@, opt_view(o.pane_id)));
    SocketRequest::with_members("herdr-plugin:layout:export", "layout.export", m)
}

/// The parameters of `layout.apply`.
pub open spec fn layout_apply_params(o: LayoutApplyOptions) -> Seq<(Seq<char>, Json)> {
    opt_text_member("workspace_id"@, opt_view(o.workspace_id)) + opt_text_member("tab_id"@, opt_view(o.tab_id))
        + opt_text_member("tab_label"@, opt_view(o.tab_label)) + seq![
        ("focus"@, Json::Bool(o.focus)),
        ("root"@, o.root.model()),
    ]
}

/// The parameters of `layout.apply` carry the focus choice and the layout,
/// and the workspace, the tab and the tab label when they are set, each under
/// its name.
pub proof fn lemma_layout_apply_params_carry_options(o: LayoutApplyOptions)
    ensures
        includes(layout_apply_params(o), opt_text_member("workspace_id"@, opt_view(o.workspace_id))),
        includes(layout_apply_params(o), opt_text_member("tab_id"@, opt_view(o.tab_id))),
        includes(layout_apply_params(o), opt_text_member("tab_label"@, opt_view(o.tab_label))),
        includes(layout_apply_params(o), seq![("focus"@, Json::Bool(o.focus)), ("root"@, o.root.model())]),
{
    let params = layout_apply_params(o);
    let s0 = opt_text_member("workspace_id"@, opt_view(o.workspace_id));
    let s1 = opt_text_member("tab_id"@, opt_view(o.tab_id));
    let s2 = opt_text_member("tab_label"@, opt_view(o.tab_label));
    let s3 = seq![("focus"@, Json::Bool(o.focus)), ("root"@, o.root.model())];
    assert(s0 + s1 + s2 + s3 == params);
    assert(includes(params, s0)) by {
        lemma_run_at_end(Seq::empty(), s0);
        assert(Seq::<(Seq<char>, Json)>::empty() + s0 =~= s0);
        lemma_includes_extend(s0, s1, s0);
        lemma_includes_extend(s0 + s1, s2, s0);
        lemma_includes_extend(s0 + s1 + s2, s3, s0);
    }
    assert(includes(params, s1)) by {
        lemma_run_at_end(s0, s1);
        lemma_includes_extend(s0 + s1, s2, s1);
        lemma_includes_extend(s0 + s1 + s2, s3, s1);
    }
    assert(includes(params, s2)) by {
        lemma_run_at_end(s0 + s1, s2);
        lemma_includes_extend(s0 + s1 + s2, s3, s2);
    }
    assert(includes(params, s3)) by {
        lemma_run_at_end(s0 + s1 + s2, s3);
    }
}

/// `layout.apply { workspace_id?, tab_id?, tab_label?, focus, root }`.
pub fn socket_layout_apply(options: LayoutApplyOptions) -> (r: SocketRequest)
    ensures
        is_request(r, "herdr-plugin:layout:apply"@, "layout.apply"@, layout_apply_params(options)),
{
    let ghost o = options;
    let mut m: Vec<JsonMember> = Vec::new();
    proof {
        lemma_json_members_empty(m@);
    }
    insert_opt(&mut m, "workspace_id", options.workspace_id);
    insert_opt(&mut m, "tab_id", options.tab_id);
    insert_opt(&mut m, "tab_label", options.tab_label);
    push_member(&mut m, "focus", JsonValue::Bool(options.focus));
    push_member(&mut m, "root", options.root);
    assert(json_members(m@) =~= layout_apply_params(o));
    SocketRequest::with_members("herdr-plugin:layout:apply", "layout.apply", m)
}

/// The parameters of `layout.set_split_ratio`.
pub open spec fn split_ratio_params(o: LayoutSetSplitRatioOptions) -> Seq<(Seq<char>, Json)> {
    opt_text_member("tab_id"@, opt_view(o.tab_id)) + opt_text_member("pane_id"@, opt_view(o.pane_id)) + seq![
        ("path"@, bool_array(o.path@)),
        ("ratio"@, Json::Decimal(o.ratio@)),
    ]
}

/// The parameters of `layout.set_split_ratio` carry the path and the ratio,
/// and the tab and the pane when they are set, each under its name.
pub proof fn lemma_split_ratio_params_carry_options(o: LayoutSetSplitRatioOptions)
    ensures
        includes(split_ratio_params(o), opt_text_member("tab_id"@, opt_view(o.tab_id))),
        includes(split_ratio_params(o), opt_text_member("pane_id"@, opt_view(o.pane_id))),
        includes(split_ratio_params(o), seq![("path"@, bool_array(o.path@)), ("ratio"@, Json::Decimal(o.ratio@))]),
{
    let params = split_ratio_params(o);
    let s0 = opt_text_member("tab_id"@, opt_view(o.tab_id));
    let s1 = opt_text_member("pane_id"@, opt_view(o.pane_id));
    let s2 = seq![("path"@, bool_array(o.path@)), ("ratio"@, Json::Decimal(o.ratio@))];
    assert(s0 + s1 + s2 == params);
    assert(includes(params, s0)) by {
        lemma_run_at_end(Seq::empty(), s0);
        assert(Seq::<(Seq<char>, Json)>::empty() + s0 =~= s0);
        lemma_includes_extend(s0, s1, s0);
        lemma_includes_extend(s0 + s1, s2, s0);
    }
    assert(includes(params, s1)) by {
        lemma_run_at_end(s0, s1);
        lemma_includes_extend(s0 + s1, s2, s1);
    }
    assert(includes(params, s2)) by {
        lemma_run_at_end(s0 + s1, s2);
    }
}

/// `layout.set_split_ratio { tab_id?, pane_id?, path, ratio }`.
pub fn socket_layout_set_split_ratio(options: LayoutSetSplitRatioOptions) -> (r: SocketRequest)
    ensures
        is_request(r, "herdr-plugin:layout:set_split_ratio"@, "layout.set_split_ratio"@, split_ratio_params(options)),
{
    let ghost o = options;
    let mut m: Vec<JsonMember> = Vec::new();
    proof {
        lemma_json_members_empty(m@);
    }
    insert_opt(&mut m, "tab_id", options.tab_id);
    insert_opt(&mut m, "pane_id", options.pane_id);
    push_member(&mut m, "path", bools(options.path));
    push_member(&mut m, "ratio", JsonValue::Decimal(options.ratio));
    assert(json_members(m@) =~= split_ratio_params(o));
    SocketRequest::with_members("herdr-plugin:layout:set_split_ratio", "layout.set_split_ratio", m)
}

/// `events.subscribe` with caller-given parameters.
pub fn socket_events_subscribe(params: JsonValue) -> (r: SocketRequest)
    ensures
        r.id@ == "herdr-plugin:events:subscribe"@,
        r.method@ == "events.subscribe"@,
        r.params == params,
{
    SocketRequest::new("herdr-plugin:events:subscribe", "events.subscribe", params)
}

/// `events.wait` with caller-given parameters.
pub fn socket_events_wait(params: JsonValue) -> (r: SocketRequest)
    ensures
        r.id@ == "herdr-plugin:events:wait"@,
        r.method@ == "events.wait"@,
        r.params == params,
{
    SocketRequest::new("herdr-plugin:events:wait", "events.wait", params)
}

/// `integration.install { target }`.
pub fn socket_integration_install(target: IntegrationTarget) -> (r: SocketRequest)
    ensures
        is_request(r, "herdr-plugin:integration:install"@, "integration.install"@, seq![("target"@, Json::Text(target.target@))]),
{
    request1("herdr-plugin:integration:install", "integration.install", "target", target.target.as_str())
}

/// `integration.uninstall { target }`.
pub fn socket_integration_uninstall(target: IntegrationTarget) -> (r: SocketRequest)
    ensures
        is_request(r, "herdr-plugin:integration:uninstall"@, "integration.uninstall"@, seq![("target"@, Json::Text(target.target@))]),
{
    request1("herdr-plugin:integration:uninstall", "integration.uninstall", "target", target.target.as_str())
}

} // verus!
