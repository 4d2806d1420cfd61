//! The Herdr environment a plugin runs in, and the event it was invoked for.

use vstd::prelude::*;
use crate::events::{AgentStatus, EventEnvelope, EventKind, RuntimeEvent, WorkspaceWorktreeInfo, event_data_of, lemma_runtime_event_kind, same_data};
use crate::error::RuntimeError;
use crate::json::opt_view;
use crate::paths::{join_path, joined};

verus! {

/// What Herdr tells a plugin through its environment. Paths are held as text.
#[derive(Debug, Clone, PartialEq)]
pub struct HerdrEnv {
    pub is_herdr: bool,
    pub socket_path: Option<String>,
    pub bin_path: Option<String>,
    pub plugin_id: Option<String>,
    pub plugin_root: Option<String>,
    pub plugin_config_dir: Option<String>,
    pub plugin_state_dir: Option<String>,
    pub plugin_context_json: Option<String>,
    pub plugin_context: Option<PluginInvocationContext>,
    pub workspace_id: Option<String>,
    pub tab_id: Option<String>,
    pub pane_id: Option<String>,
    pub plugin_action_id: Option<String>,
    pub plugin_event: Option<String>,
    pub plugin_event_json_raw: Option<String>,
    pub plugin_event_json: Option<EventEnvelope>,
    pub plugin_entrypoint_id: Option<String>,
    pub plugin_clicked_url: Option<String>,
    pub plugin_link_handler_id: Option<String>,
}

/// Where and how a plugin action was invoked.
#[derive(Debug, Clone, PartialEq, Eq)]
pub struct PluginInvocationContext {
    pub workspace_id: Option<String>,
    pub workspace_label: Option<String>,
    pub workspace_cwd: Option<String>,
    pub worktree: Option<WorkspaceWorktreeInfo>,
    pub tab_id: Option<String>,
    pub tab_label: Option<String>,
    pub focused_pane_id: Option<String>,
    pub focused_pane_cwd: Option<String>,
    pub focused_pane_agent: Option<String>,
    pub focused_pane_status: Option<AgentStatus>,
    pub selected_text: Option<String>,
    pub invocation_source: Option<String>,
    pub correlation_id: Option<String>,
    pub clicked_url: Option<String>,
    pub link_handler_id: Option<String>,
}

/// The raw values of the Herdr environment variables, as read.
#[derive(Debug, Clone, Default, PartialEq, Eq)]
pub struct HerdrEnvVars {
    pub herdr_env: Option<String>,
    pub socket_path: Option<String>,
    pub bin_path: Option<String>,
    pub plugin_id: Option<String>,
    pub plugin_root: Option<String>,
    pub plugin_config_dir: Option<String>,
    pub plugin_state_dir: Option<String>,
    pub plugin_context_json: Option<String>,
    pub workspace_id: Option<String>,
    pub tab_id: Option<String>,
    pub pane_id: Option<String>,
    pub plugin_action_id: Option<String>,
    pub plugin_event: Option<String>,
    pub plugin_event_json: Option<String>,
    pub plugin_entrypoint_id: Option<String>,
    pub plugin_clicked_url: Option<String>,
    pub plugin_link_handler_id: Option<String>,
}

/// An unset or empty variable counts as absent.
pub open spec fn present(value: Option<String>) -> Option<Seq<char>> {
    match value {
        Some(v) => if v@.len() == 0 { None } else { Some(v@) },
        None => None,
    }
}

/// The value of a variable, absent when it is unset or empty.
pub fn non_empty(value: Option<String>) -> (r: Option<String>)
    ensures
        opt_view(r) == present(value),
{
    match value {
        Some(v) => {
            if v.as_str().is_empty() {
                None
            } else {
                Some(v)
            }
        },
        None => None,
    }
}

/// The value of a path variable, absent when it is unset or empty.
pub fn path_var(value: Option<String>) -> (r: Option<String>)
    ensures
        opt_view(r) == present(value),
{
    non_empty(value)
}

impl HerdrEnv {
    /// The environment that the variables `vars` describe.
    ///
    /// `plugin_context` is what the text of `HERDR_PLUGIN_CONTEXT_JSON`
    /// parses to, and `plugin_event_json` what the text of
    /// `HERDR_PLUGIN_EVENT_JSON` parses to; each is kept only when its
    /// variable is set and not empty.
    pub fn from_vars(
        vars: HerdrEnvVars,
        plugin_context: Option<PluginInvocationContext>,
        plugin_event_json: Option<EventEnvelope>,
    ) -> (env: HerdrEnv)
        ensures
            env.is_herdr == (present(vars.herdr_env) == Some("1"@)),
            opt_view(env.socket_path) == present(vars.socket_path),
            opt_view(env.bin_path) == present(vars.bin_path),
            opt_view(env.plugin_id) == present(vars.plugin_id),
            opt_view(env.plugin_root) == present(vars.plugin_root),
            opt_view(env.plugin_config_dir) == present(vars.plugin_config_dir),
            opt_view(env.plugin_state_dir) == present(vars.plugin_state_dir),
            opt_view(env.plugin_context_json) == present(vars.plugin_context_json),
            env.plugin_context == (if present(vars.plugin_context_json) is Some {
                plugin_context
            } else {
                None
            }),
            opt_view(env.workspace_id) == present(vars.workspace_id),
            opt_view(env.tab_id) == present(vars.tab_id),
            opt_view(env.pane_id) == present(vars.pane_id),
            opt_view(env.plugin_action_id) == present(vars.plugin_action_id),
            opt_view(env.plugin_event) == present(vars.plugin_event),
            opt_view(env.plugin_event_json_raw) == present(vars.plugin_event_json),
            env.plugin_event_json == (if present(vars.plugin_event_json) is Some {
                plugin_event_json
            } else {
                None
            }),
            opt_view(env.plugin_entrypoint_id) == present(vars.plugin_entrypoint_id),
            opt_view(env.plugin_clicked_url) == present(vars.plugin_clicked_url),
            opt_view(env.plugin_link_handler_id) == present(vars.plugin_link_handler_id),
    {
        let herdr_env = non_empty(vars.herdr_env);
        let is_herdr = match &herdr_env {
            Some(v) => *v == "1".to_owned(),
            None => false,
        };
        let plugin_context_json = non_empty(vars.plugin_context_json);
        let plugin_context = if plugin_context_json.is_some() {
            plugin_context
        } else {
            None
        };
        let plugin_event_json_raw = non_empty(vars.plugin_event_json);
        let plugin_event_json = if plugin_event_json_raw.is_some() {
            plugin_event_json
        } else {
            None
        };
        HerdrEnv {
            is_herdr,
            socket_path: path_var(vars.socket_path),
            bin_path: path_var(vars.bin_path),
            plugin_id: non_empty(vars.plugin_id),
            plugin_root: path_var(vars.plugin_root),
            plugin_config_dir: path_var(vars.plugin_config_dir),
            plugin_state_dir: path_var(vars.plugin_state_dir),
            plugin_context_json,
            plugin_context,
            workspace_id: non_empty(vars.workspace_id),
            tab_id: non_empty(vars.tab_id),
            pane_id: non_empty(vars.pane_id),
            plugin_action_id: non_empty(vars.plugin_action_id),
            plugin_event: non_empty(vars.plugin_event),
            plugin_event_json_raw,
            plugin_event_json,
            plugin_entrypoint_id: non_empty(vars.plugin_entrypoint_id),
            plugin_clicked_url: non_empty(vars.plugin_clicked_url),
            plugin_link_handler_id: non_empty(vars.plugin_link_handler_id),
        }
    }

    /// Whether the plugin was invoked for an event.
    pub fn is_event(&self) -> (r: bool)
        ensures
            r == self.plugin_event_json is Some,
    {
        self.plugin_event_json.is_some()
    }

    /// Whether the plugin was invoked for an action.
    pub fn is_action(&self) -> (r: bool)
        ensures
            r == self.plugin_action_id is Some,
    {
        self.plugin_action_id.is_some()
    }

    /// The kind of the event the plugin was invoked for.
    pub fn event_kind(&self) -> (r: Option<EventKind>)
        ensures
            r == (match self.plugin_event_json {
                Some(e) => Some(e.event),
                None => None,
            }),
    {
        match &self.plugin_event_json {
            Some(e) => Some(e.event),
            None => None,
        }
    }

    /// `path` under the plugin's config directory, when there is one.
    pub fn config_path(&self, path: &str) -> (r: Option<String>)
        ensures
            opt_view(r) == (match self.plugin_config_dir {
                Some(dir) => Some(joined(dir@, path@)),
                None => None,
            }),
    {
        match &self.plugin_config_dir {
            Some(dir) => Some(join_path(dir.as_str(), path)),
            None => None,
        }
    }

    /// `path` under the plugin's state directory, when there is one.
    pub fn state_path(&self, path: &str) -> (r: Option<String>)
        ensures
            opt_view(r) == (match self.plugin_state_dir {
                Some(dir) => Some(joined(dir@, path@)),
                None => None,
            }),
    {
        match &self.plugin_state_dir {
            Some(dir) => Some(join_path(dir.as_str(), path)),
            None => None,
        }
    }
}

/// The environment a plugin runs in and the event it was invoked for.
#[derive(Debug, Clone)]
pub struct EventSourceOutput {
    pub env: HerdrEnv,
    pub event: Option<RuntimeEvent>,
}

/// Reads the invocation's event from the Herdr environment.
pub struct EnvEventSource;

impl EnvEventSource {
    /// The invocation described by `env`, given what the text of
    /// `HERDR_PLUGIN_EVENT_JSON` parses to: an envelope, or the parser's
    /// message.
    ///
    /// Without event JSON there is no event. JSON that does not parse is an
    /// `InvalidEventJson` error that carries the text. Otherwise the envelope
    /// is recorded in the environment, and a copy of its payload becomes the
    /// typed event.
    pub fn from_parsed(env: HerdrEnv, parsed: Result<EventEnvelope, String>) -> (r: Result<
        EventSourceOutput,
        RuntimeError,
    >)
        ensures
            env.plugin_event_json_raw is None ==> r == Ok::<EventSourceOutput, RuntimeError>(
                EventSourceOutput { env, event: None },
            ),
            env.plugin_event_json_raw is Some ==> match parsed {
                Err(message) => r matches Err(RuntimeError::InvalidEventJson { json, detail })
                    && json@ == env.plugin_event_json_raw->0@ && detail@ == message@,
                Ok(envelope) => r matches Ok(out)
                    && out.env == (HerdrEnv { plugin_event_json: Some(envelope), ..env })
                    && (out.event matches Some(event) && same_data(event_data_of(event), envelope.data)
                    && event.spec_kind() == envelope.data.spec_kind()),
            },
    {
        match &env.plugin_event_json_raw {
            None => Ok(EventSourceOutput { env, event: None }),
            Some(raw) => match parsed {
                Err(message) => Err(RuntimeError::InvalidEventJson { json: raw.clone(), detail: message }),
                Ok(envelope) => {
                    let data = envelope.data.copy();
                    let event = RuntimeEvent::from_envelope(EventEnvelope { event: envelope.event, data });
                    proof {
                        lemma_runtime_event_kind(data);
                    }
                    Ok(EventSourceOutput {
                        env: HerdrEnv { plugin_event_json: Some(envelope), ..env },
                        event: Some(event),
                    })
                },
            },
        }
    }
}

} // verus!
