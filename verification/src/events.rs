//! Herdr events: their kinds, wire payloads and the typed events handed to handlers.

use vstd::prelude::*;
use std::collections::HashMap;

verus! {

/// The kind of a Herdr event.
#[derive(Debug, Clone, Copy, PartialEq, Eq, Structural)]
pub enum EventKind {
    WorkspaceCreated,
    WorkspaceUpdated,
    WorkspaceClosed,
    WorkspaceRenamed,
    WorkspaceMoved,
    WorkspaceFocused,
    TabCreated,
    TabClosed,
    TabRenamed,
    TabMoved,
    TabFocused,
    PaneCreated,
    PaneClosed,
    PaneFocused,
    PaneMoved,
    PaneOutputChanged,
    PaneExited,
    PaneAgentDetected,
    PaneAgentStatusChanged,
}

/// The dotted name of an event kind, as Herdr's event schema spells it.
pub open spec fn kind_dot_name(kind: EventKind) -> Seq<char> {
    match kind {
        EventKind::WorkspaceCreated => "workspace.created"@,
        EventKind::WorkspaceUpdated => "workspace.updated"@,
        EventKind::WorkspaceClosed => "workspace.closed"@,
        EventKind::WorkspaceRenamed => "workspace.renamed"@,
        EventKind::WorkspaceMoved => "workspace.moved"@,
        EventKind::WorkspaceFocused => "workspace.focused"@,
        EventKind::TabCreated => "tab.created"@,
        EventKind::TabClosed => "tab.closed"@,
        EventKind::TabRenamed => "tab.renamed"@,
        EventKind::TabMoved => "tab.moved"@,
        EventKind::TabFocused => "tab.focused"@,
        EventKind::PaneCreated => "pane.created"@,
        EventKind::PaneClosed => "pane.closed"@,
        EventKind::PaneFocused => "pane.focused"@,
        EventKind::PaneMoved => "pane.moved"@,
        EventKind::PaneOutputChanged => "pane.output_changed"@,
        EventKind::PaneExited => "pane.exited"@,
        EventKind::PaneAgentDetected => "pane.agent_detected"@,
        EventKind::PaneAgentStatusChanged => "pane.agent_status_changed"@,
    }
}

/// The number that identifies an event kind: its position among the kinds.
pub open spec fn kind_key(kind: EventKind) -> u64 {
    match kind {
        EventKind::WorkspaceCreated => 0,
        EventKind::WorkspaceUpdated => 1,
        EventKind::WorkspaceClosed => 2,
        EventKind::WorkspaceRenamed => 3,
        EventKind::WorkspaceMoved => 4,
        EventKind::WorkspaceFocused => 5,
        EventKind::TabCreated => 6,
        EventKind::TabClosed => 7,
        EventKind::TabRenamed => 8,
        EventKind::TabMoved => 9,
        EventKind::TabFocused => 10,
        EventKind::PaneCreated => 11,
        EventKind::PaneClosed => 12,
        EventKind::PaneFocused => 13,
        EventKind::PaneMoved => 14,
        EventKind::PaneOutputChanged => 15,
        EventKind::PaneExited => 16,
        EventKind::PaneAgentDetected => 17,
        EventKind::PaneAgentStatusChanged => 18,
    }
}

impl EventKind {
    /// The dotted name of this kind, such as `tab.renamed`.
    pub fn dot_name(self) -> (name: &'static str)
        ensures
            name@ == kind_dot_name(self),
    {
        match self {
            EventKind::WorkspaceCreated => "workspace.created",
            EventKind::WorkspaceUpdated => "workspace.updated",
            EventKind::WorkspaceClosed => "workspace.closed",
            EventKind::WorkspaceRenamed => "workspace.renamed",
            EventKind::WorkspaceMoved => "workspace.moved",
            EventKind::WorkspaceFocused => "workspace.focused",
            EventKind::TabCreated => "tab.created",
            EventKind::TabClosed => "tab.closed",
            EventKind::TabRenamed => "tab.renamed",
            EventKind::TabMoved => "tab.moved",
            EventKind::TabFocused => "tab.focused",
            EventKind::PaneCreated => "pane.created",
            EventKind::PaneClosed => "pane.closed",
            EventKind::PaneFocused => "pane.focused",
            EventKind::PaneMoved => "pane.moved",
            EventKind::PaneOutputChanged => "pane.output_changed",
            EventKind::PaneExited => "pane.exited",
            EventKind::PaneAgentDetected => "pane.agent_detected",
            EventKind::PaneAgentStatusChanged => "pane.agent_status_changed",
        }
    }

    /// The number that identifies this kind, under which handlers for it
    /// are registered.
    pub fn key(self) -> (k: u64)
        ensures
            k == kind_key(self),
    {
        match self {
            EventKind::WorkspaceCreated => 0,
            EventKind::WorkspaceUpdated => 1,
            EventKind::WorkspaceClosed => 2,
            EventKind::WorkspaceRenamed => 3,
            EventKind::WorkspaceMoved => 4,
            EventKind::WorkspaceFocused => 5,
            EventKind::TabCreated => 6,
            EventKind::TabClosed => 7,
            EventKind::TabRenamed => 8,
            EventKind::TabMoved => 9,
            EventKind::TabFocused => 10,
            EventKind::PaneCreated => 11,
            EventKind::PaneClosed => 12,
            EventKind::PaneFocused => 13,
            EventKind::PaneMoved => 14,
            EventKind::PaneOutputChanged => 15,
            EventKind::PaneExited => 16,
            EventKind::PaneAgentDetected => 17,
            EventKind::PaneAgentStatusChanged => 18,
        }
    }
}

/// The event kind whose dotted name is `name`, if any.
pub open spec fn kind_of_dot_name(name: Seq<char>) -> Option<EventKind> {
    if name == "workspace.created"@ {
        Some(EventKind::WorkspaceCreated)
    } else
    if name == "workspace.updated"@ {
        Some(EventKind::WorkspaceUpdated)
    } else
    if name == "workspace.closed"@ {
        Some(EventKind::WorkspaceClosed)
    } else
    if name == "workspace.renamed"@ {
        Some(EventKind::WorkspaceRenamed)
    } else
    if name == "workspace.moved"@ {
        Some(EventKind::WorkspaceMoved)
    } else
    if name == "workspace.focused"@ {
        Some(EventKind::WorkspaceFocused)
    } else
    if name == "tab.created"@ {
        Some(EventKind::TabCreated)
    } else
    if name == "tab.closed"@ {
        Some(EventKind::TabClosed)
    } else
    if name == "tab.renamed"@ {
        Some(EventKind::TabRenamed)
    } else
    if name == "tab.moved"@ {
        Some(EventKind::TabMoved)
    } else
    if name == "tab.focused"@ {
        Some(EventKind::TabFocused)
    } else
    if name == "pane.created"@ {
        Some(EventKind::PaneCreated)
    } else
    if name == "pane.closed"@ {
        Some(EventKind::PaneClosed)
    } else
    if name == "pane.focused"@ {
        Some(EventKind::PaneFocused)
    } else
    if name == "pane.moved"@ {
        Some(EventKind::PaneMoved)
    } else
    if name == "pane.output_changed"@ {
        Some(EventKind::PaneOutputChanged)
    } else
    if name == "pane.exited"@ {
        Some(EventKind::PaneExited)
    } else
    if name == "pane.agent_detected"@ {
        Some(EventKind::PaneAgentDetected)
    } else
    if name == "pane.agent_status_changed"@ {
        Some(EventKind::PaneAgentStatusChanged)
    } else {
        None
    }
}

/// Every kind's dotted name leads back to that kind, so different kinds
/// have different dotted names; and every dotted name is the kind's
/// subject, `workspace`, `tab` or `pane`, a dot, and what happened.
pub proof fn lemma_dot_names_distinct(a: EventKind, b: EventKind)
    ensures
        kind_of_dot_name(kind_dot_name(a)) == Some(a),
        a != b ==> kind_dot_name(a) != kind_dot_name(b),
        "workspace."@.is_prefix_of(kind_dot_name(a)) || "tab."@.is_prefix_of(kind_dot_name(a))
            || "pane."@.is_prefix_of(kind_dot_name(a)),
{
    reveal_strlit("workspace.created");
    reveal_strlit("workspace.updated");
    reveal_strlit("workspace.closed");
    reveal_strlit("workspace.renamed");
    reveal_strlit("workspace.moved");
    reveal_strlit("workspace.focused");
    reveal_strlit("tab.created");
    reveal_strlit("tab.closed");
    reveal_strlit("tab.renamed");
    reveal_strlit("tab.moved");
    reveal_strlit("tab.focused");
    reveal_strlit("pane.created");
    reveal_strlit("pane.closed");
    reveal_strlit("pane.focused");
    reveal_strlit("pane.moved");
    reveal_strlit("pane.output_changed");
    reveal_strlit("pane.exited");
    reveal_strlit("pane.agent_detected");
    reveal_strlit("pane.agent_status_changed");
    reveal_strlit("workspace.");
    reveal_strlit("tab.");
    reveal_strlit("pane.");
    assert("workspace.created"@[10] != "workspace.updated"@[10]);
    assert("workspace.created"@.len() != "workspace.closed"@.len());
    assert("workspace.created"@[10] != "workspace.renamed"@[10]);
    assert("workspace.created"@.len() != "workspace.moved"@.len());
    assert("workspace.created"@[10] != "workspace.focused"@[10]);
    assert("workspace.created"@.len() != "tab.created"@.len());
    assert("workspace.created"@.len() != "tab.closed"@.len());
    assert("workspace.created"@.len() != "tab.renamed"@.len());
    assert("workspace.created"@.len() != "tab.moved"@.len());
    assert("workspace.created"@.len() != "tab.focused"@.len());
    assert("workspace.created"@.len() != "pane.created"@.len());
    assert("workspace.created"@.len() != "pane.closed"@.len());
    assert("workspace.created"@.len() != "pane.focused"@.len());
    assert("workspace.created"@.len() != "pane.moved"@.len());
    assert("workspace.created"@.len() != "pane.output_changed"@.len());
    assert("workspace.created"@.len() != "pane.exited"@.len());
    assert("workspace.created"@.len() != "pane.agent_detected"@.len());
    assert("workspace.created"@.len() != "pane.agent_status_changed"@.len());
    assert("workspace.updated"@.len() != "workspace.closed"@.len());
    assert("workspace.updated"@[10] != "workspace.renamed"@[10]);
    assert("workspace.updated"@.len() != "workspace.moved"@.len());
    assert("workspace.updated"@[10] != "workspace.focused"@[10]);
    assert("workspace.updated"@.len() != "tab.created"@.len());
    assert("workspace.updated"@.len() != "tab.closed"@.len());
    assert("workspace.updated"@.len() != "tab.renamed"@.len());
    assert("workspace.updated"@.len() != "tab.moved"@.len());
    assert("workspace.updated"@.len() != "tab.focused"@.len());
    assert("workspace.updated"@.len() != "pane.created"@.len());
    assert("workspace.updated"@.len() != "pane.closed"@.len());
    assert("workspace.updated"@.len() != "pane.focused"@.len());
    assert("workspace.updated"@.len() != "pane.moved"@.len());
    assert("workspace.updated"@.len() != "pane.output_changed"@.len());
    assert("workspace.updated"@.len() != "pane.exited"@.len());
    assert("workspace.updated"@.len() != "pane.agent_detected"@.len());
    assert("workspace.updated"@.len() != "pane.agent_status_changed"@.len());
    assert("workspace.closed"@.len() != "workspace.renamed"@.len());
    assert("workspace.closed"@.len() != "workspace.moved"@.len());
    assert("workspace.closed"@.len() != "workspace.focused"@.len());
    assert("workspace.closed"@.len() != "tab.created"@.len());
    assert("workspace.closed"@.len() != "tab.closed"@.len());
    assert("workspace.closed"@.len() != "tab.renamed"@.len());
    assert("workspace.closed"@.len() != "tab.moved"@.len());
    assert("workspace.closed"@.len() != "tab.focused"@.len());
    assert("workspace.closed"@.len() != "pane.created"@.len());
    assert("workspace.closed"@.len() != "pane.closed"@.len());
    assert("workspace.closed"@.len() != "pane.focused"@.len());
    assert("workspace.closed"@.len() != "pane.moved"@.len());
    assert("workspace.closed"@.len() != "pane.output_changed"@.len());
    assert("workspace.closed"@.len() != "pane.exited"@.len());
    assert("workspace.closed"@.len() != "pane.agent_detected"@.len());
    assert("workspace.closed"@.len() != "pane.agent_status_changed"@.len());
    assert("workspace.renamed"@.len() != "workspace.moved"@.len());
    assert("workspace.renamed"@[10] != "workspace.focused"@[10]);
    assert("workspace.renamed"@.len() != "tab.created"@.len());
    assert("workspace.renamed"@.len() != "tab.closed"@.len());
    assert("workspace.renamed"@.len() != "tab.renamed"@.len());
    assert("workspace.renamed"@.len() != "tab.moved"@.len());
    assert("workspace.renamed"@.len() != "tab.focused"@.len());
    assert("workspace.renamed"@.len() != "pane.created"@.len());
    assert("workspace.renamed"@.len() != "pane.closed"@.len());
    assert("workspace.renamed"@.len() != "pane.focused"@.len());
    assert("workspace.renamed"@.len() != "pane.moved"@.len());
    assert("workspace.renamed"@.len() != "pane.output_changed"@.len());
    assert("workspace.renamed"@.len() != "pane.exited"@.len());
    assert("workspace.renamed"@.len() != "pane.agent_detected"@.len());
    assert("workspace.renamed"@.len() != "pane.agent_status_changed"@.len());
    assert("workspace.moved"@.len() != "workspace.focused"@.len());
    assert("workspace.moved"@.len() != "tab.created"@.len());
    assert("workspace.moved"@.len() != "tab.closed"@.len());
    assert("workspace.moved"@.len() != "tab.renamed"@.len());
    assert("workspace.moved"@.len() != "tab.moved"@.len());
    assert("workspace.moved"@.len() != "tab.focused"@.len());
    assert("workspace.moved"@.len() != "pane.created"@.len());
    assert("workspace.moved"@.len() != "pane.closed"@.len());
    assert("workspace.moved"@.len() != "pane.focused"@.len());
    assert("workspace.moved"@.len() != "pane.moved"@.len());
    assert("workspace.moved"@.len() != "pane.output_changed"@.len());
    assert("workspace.moved"@.len() != "pane.exited"@.len());
    assert("workspace.moved"@.len() != "pane.agent_detected"@.len());
    assert("workspace.moved"@.len() != "pane.agent_status_changed"@.len());
    assert("workspace.focused"@.len() != "tab.created"@.len());
    assert("workspace.focused"@.len() != "tab.closed"@.len());
    assert("workspace.focused"@.len() != "tab.renamed"@.len());
    assert("workspace.focused"@.len() != "tab.moved"@.len());
    assert("workspace.focused"@.len() != "tab.focused"@.len());
    assert("workspace.focused"@.len() != "pane.created"@.len());
    assert("workspace.focused"@.len() != "pane.closed"@.len());
    assert("workspace.focused"@.len() != "pane.focused"@.len());
    assert("workspace.focused"@.len() != "pane.moved"@.len());
    assert("workspace.focused"@.len() != "pane.output_changed"@.len());
    assert("workspace.focused"@.len() != "pane.exited"@.len());
    assert("workspace.focused"@.len() != "pane.agent_detected"@.len());
    assert("workspace.focused"@.len() != "pane.agent_status_changed"@.len());
    assert("tab.created"@.len() != "tab.closed"@.len());
    assert("tab.created"@[4] != "tab.renamed"@[4]);
    assert("tab.created"@.len() != "tab.moved"@.len());
    assert("tab.created"@[4] != "tab.focused"@[4]);
    assert("tab.created"@.len() != "pane.created"@.len());
    assert("tab.created"@[0] != "pane.closed"@[0]);
    assert("tab.created"@.len() != "pane.focused"@.len());
    assert("tab.created"@.len() != "pane.moved"@.len());
    assert("tab.created"@.len() != "pane.output_changed"@.len());
    assert("tab.created"@[0] != "pane.exited"@[0]);
    assert("tab.created"@.len() != "pane.agent_detected"@.len());
    assert("tab.created"@.len() != "pane.agent_status_changed"@.len());
    assert("tab.closed"@.len() != "tab.renamed"@.len());
    assert("tab.closed"@.len() != "tab.moved"@.len());
    assert("tab.closed"@.len() != "tab.focused"@.len());
    assert("tab.closed"@.len() != "pane.created"@.len());
    assert("tab.closed"@.len() != "pane.closed"@.len());
    assert("tab.closed"@.len() != "pane.focused"@.len());
    assert("tab.closed"@[0] != "pane.moved"@[0]);
    assert("tab.closed"@.len() != "pane.output_changed"@.len());
    assert("tab.closed"@.len() != "pane.exited"@.len());
    assert("tab.closed"@.len() != "pane.agent_detected"@.len());
    assert("tab.closed"@.len() != "pane.agent_status_changed"@.len());
    assert("tab.renamed"@.len() != "tab.moved"@.len());
    assert("tab.renamed"@[4] != "tab.focused"@[4]);
    assert("tab.renamed"@.len() != "pane.created"@.len());
    assert("tab.renamed"@[0] != "pane.closed"@[0]);
    assert("tab.renamed"@.len() != "pane.focused"@.len());
    assert("tab.renamed"@.len() != "pane.moved"@.len());
    assert("tab.renamed"@.len() != "pane.output_changed"@.len());
    assert("tab.renamed"@[0] != "pane.exited"@[0]);
    assert("tab.renamed"@.len() != "pane.agent_detected"@.len());
    assert("tab.renamed"@.len() != "pane.agent_status_changed"@.len());
    assert("tab.moved"@.len() != "tab.focused"@.len());
    assert("tab.moved"@.len() != "pane.created"@.len());
    assert("tab.moved"@.len() != "pane.closed"@.len());
    assert("tab.moved"@.len() != "pane.focused"@.len());
    assert("tab.moved"@.len() != "pane.moved"@.len());
    assert("tab.moved"@.len() != "pane.output_changed"@.len());
    assert("tab.moved"@.len() != "pane.exited"@.len());
    assert("tab.moved"@.len() != "pane.agent_detected"@.len());
    assert("tab.moved"@.len() != "pane.agent_status_changed"@.len());
    assert("tab.focused"@.len() != "pane.created"@.len());
    assert("tab.focused"@[0] != "pane.closed"@[0]);
    assert("tab.focused"@.len() != "pane.focused"@.len());
    assert("tab.focused"@.len() != "pane.moved"@.len());
    assert("tab.focused"@.len() != "pane.output_changed"@.len());
    assert("tab.focused"@[0] != "pane.exited"@[0]);
    assert("tab.focused"@.len() != "pane.agent_detected"@.len());
    assert("tab.focused"@.len() != "pane.agent_status_changed"@.len());
    assert("pane.created"@.len() != "pane.closed"@.len());
    assert("pane.created"@[5] != "pane.focused"@[5]);
    assert("pane.created"@.len() != "pane.moved"@.len());
    assert("pane.created"@.len() != "pane.output_changed"@.len());
    assert("pane.created"@.len() != "pane.exited"@.len());
    assert("pane.created"@.len() != "pane.agent_detected"@.len());
    assert("pane.created"@.len() != "pane.agent_status_changed"@.len());
    assert("pane.closed"@.len() != "pane.focused"@.len());
    assert("pane.closed"@.len() != "pane.moved"@.len());
    assert("pane.closed"@.len() != "pane.output_changed"@.len());
    assert("pane.closed"@[5] != "pane.exited"@[5]);
    assert("pane.closed"@.len() != "pane.agent_detected"@.len());
    assert("pane.closed"@.len() != "pane.agent_status_changed"@.len());
    assert("pane.focused"@.len() != "pane.moved"@.len());
    assert("pane.focused"@.len() != "pane.output_changed"@.len());
    assert("pane.focused"@.len() != "pane.exited"@.len());
    assert("pane.focused"@.len() != "pane.agent_detected"@.len());
    assert("pane.focused"@.len() != "pane.agent_status_changed"@.len());
    assert("pane.moved"@.len() != "pane.output_changed"@.len());
    assert("pane.moved"@.len() != "pane.exited"@.len());
    assert("pane.moved"@.len() != "pane.agent_detected"@.len());
    assert("pane.moved"@.len() != "pane.agent_status_changed"@.len());
    assert("pane.output_changed"@.len() != "pane.exited"@.len());
    assert("pane.output_changed"@[5] != "pane.agent_detected"@[5]);
    assert("pane.output_changed"@.len() != "pane.agent_status_changed"@.len());
    assert("pane.exited"@.len() != "pane.agent_detected"@.len());
    assert("pane.exited"@.len() != "pane.agent_status_changed"@.len());
    assert("pane.agent_detected"@.len() != "pane.agent_status_changed"@.len());
    assert(kind_of_dot_name(kind_dot_name(b)) == Some(b));
}

/// The kind that the payload type carried by `event` stands for, as its
/// `HerdrEvent` implementation says.
pub open spec fn payload_kind(event: RuntimeEvent) -> EventKind {
    match event {
        RuntimeEvent::WorkspaceCreated(_) => <WorkspaceCreated as HerdrEvent>::spec_kind(),
        RuntimeEvent::WorkspaceUpdated(_) => <WorkspaceUpdated as HerdrEvent>::spec_kind(),
        RuntimeEvent::WorkspaceClosed(_) => <WorkspaceClosed as HerdrEvent>::spec_kind(),
        RuntimeEvent::WorkspaceRenamed(_) => <WorkspaceRenamed as HerdrEvent>::spec_kind(),
        RuntimeEvent::WorkspaceMoved(_) => <WorkspaceMoved as HerdrEvent>::spec_kind(),
        RuntimeEvent::WorkspaceFocused(_) => <WorkspaceFocused as HerdrEvent>::spec_kind(),
        RuntimeEvent::TabCreated(_) => <TabCreated as HerdrEvent>::spec_kind(),
        RuntimeEvent::TabClosed(_) => <TabClosed as HerdrEvent>::spec_kind(),
        RuntimeEvent::TabRenamed(_) => <TabRenamed as HerdrEvent>::spec_kind(),
        RuntimeEvent::TabMoved(_) => <TabMoved as HerdrEvent>::spec_kind(),
        RuntimeEvent::TabFocused(_) => <TabFocused as HerdrEvent>::spec_kind(),
        RuntimeEvent::PaneCreated(_) => <PaneCreated as HerdrEvent>::spec_kind(),
        RuntimeEvent::PaneClosed(_) => <PaneClosed as HerdrEvent>::spec_kind(),
        RuntimeEvent::PaneFocused(_) => <PaneFocused as HerdrEvent>::spec_kind(),
        RuntimeEvent::PaneMoved(_) => <PaneMoved as HerdrEvent>::spec_kind(),
        RuntimeEvent::PaneOutputChanged(_) => <PaneOutputChanged as HerdrEvent>::spec_kind(),
        RuntimeEvent::PaneExited(_) => <PaneExited as HerdrEvent>::spec_kind(),
        RuntimeEvent::PaneAgentDetected(_) => <PaneAgentDetected as HerdrEvent>::spec_kind(),
        RuntimeEvent::PaneAgentStatusChanged(_) => <PaneAgentStatusChanged as HerdrEvent>::spec_kind(),
    }
}

/// A typed event has the kind of the payload type it carries, so it is
/// dispatched to the handlers registered for that type; and a payload read
/// from an envelope has the kind of the typed event it becomes.
pub proof fn lemma_event_kind_is_payload_kind(event: RuntimeEvent, data: EventData)
    ensures
        event.spec_kind() == payload_kind(event),
        kind_key(event.spec_kind()) == kind_key(payload_kind(event)),
        data.spec_kind() == payload_kind(runtime_event_of(data)),
{
}

/// Different kinds have different keys, so handlers registered for one kind
/// never run for another.
pub proof fn lemma_kind_key_injective(a: EventKind, b: EventKind)
    ensures
        kind_key(a) == kind_key(b) ==> a == b,
{
}

/// The status of the agent running in a pane.
#[derive(Debug, Clone, Copy, PartialEq, Eq, Structural)]
pub enum AgentStatus {
    Idle,
    Working,
    Blocked,
    Done,
    Unknown,
}

/// A workspace as events describe it.
#[derive(Debug, Clone, PartialEq, Eq)]
pub struct WorkspaceInfo {
    pub workspace_id: String,
    pub number: usize,
    pub label: String,
    pub focused: bool,
    pub pane_count: usize,
    pub tab_count: usize,
    pub active_tab_id: String,
    pub agent_status: AgentStatus,
    pub worktree: Option<WorkspaceWorktreeInfo>,
}

/// The git worktree a workspace is attached to.
#[derive(Debug, Clone, PartialEq, Eq)]
pub struct WorkspaceWorktreeInfo {
    pub repo_key: String,
    pub repo_name: String,
    pub repo_root: String,
    pub checkout_path: String,
    pub is_linked_worktree: bool,
}

/// A tab as events describe it.
#[derive(Debug, Clone, PartialEq, Eq)]
pub struct TabInfo {
    pub tab_id: String,
    pub workspace_id: String,
    pub number: usize,
    pub label: String,
    pub focused: bool,
    pub pane_count: usize,
    pub agent_status: AgentStatus,
}

/// The session an agent reported for a pane.
#[derive(Debug, Clone, PartialEq, Eq)]
pub struct AgentSessionInfo {
    pub source: String,
    pub agent: String,
    pub kind: String,
    pub value: String,
}

/// A pane as events describe it.
#[derive(Debug, Clone, PartialEq, Eq)]
pub struct PaneInfo {
    pub pane_id: String,
    pub terminal_id: String,
    pub workspace_id: String,
    pub tab_id: String,
    pub focused: bool,
    pub cwd: Option<String>,
    pub foreground_cwd: Option<String>,
    pub label: Option<String>,
    pub agent: Option<String>,
    pub title: Option<String>,
    pub display_agent: Option<String>,
    pub agent_status: AgentStatus,
    pub custom_status: Option<String>,
    pub state_labels: HashMap<String, String>,
    pub agent_session: Option<AgentSessionInfo>,
    pub revision: u64,
}

/// The payload of an event envelope, tagged by its `type`.
#[derive(Debug, Clone, PartialEq)]
pub enum EventData {
    WorkspaceCreated {
        workspace: WorkspaceInfo,
    },
    WorkspaceUpdated {
        workspace: WorkspaceInfo,
    },
    WorkspaceClosed {
        workspace_id: String,
        workspace: Option<WorkspaceInfo>,
    },
    WorkspaceRenamed {
        workspace_id: String,
        label: String,
    },
    WorkspaceMoved {
        workspace_id: String,
        insert_index: usize,
        workspaces: Vec<WorkspaceInfo>,
    },
    WorkspaceFocused {
        workspace_id: String,
    },
    TabCreated {
        tab: TabInfo,
    },
    TabClosed {
        tab_id: String,
        workspace_id: String,
    },
    TabRenamed {
        tab_id: String,
        workspace_id: String,
        label: String,
    },
    TabMoved {
        tab_id: String,
        workspace_id: String,
        insert_index: usize,
        tabs: Vec<TabInfo>,
    },
    TabFocused {
        tab_id: String,
        workspace_id: String,
    },
    PaneCreated {
        pane: PaneInfo,
    },
    PaneClosed {
        pane_id: String,
        workspace_id: String,
    },
    PaneFocused {
        pane_id: String,
        workspace_id: String,
    },
    PaneMoved {
        previous_pane_id: String,
        previous_workspace_id: String,
        previous_tab_id: String,
        pane: Box<PaneInfo>,
        created_workspace: Option<WorkspaceInfo>,
        created_tab: Option<TabInfo>,
        closed_workspace_id: Option<String>,
        closed_tab_id: Option<String>,
    },
    PaneOutputChanged {
        pane_id: String,
        workspace_id: String,
        revision: u64,
    },
    PaneExited {
        pane_id: String,
        workspace_id: String,
    },
    PaneAgentDetected {
        pane_id: String,
        workspace_id: String,
        agent: Option<String>,
    },
    PaneAgentStatusChanged {
        pane_id: String,
        workspace_id: String,
        agent_status: AgentStatus,
        agent: Option<String>,
        title: Option<String>,
        display_agent: Option<String>,
        custom_status: Option<String>,
        state_labels: HashMap<String, String>,
    },
}

impl EventData {
    /// The kind of event this payload belongs to.
    pub open spec fn spec_kind(self) -> EventKind {
        match self {
            EventData::WorkspaceCreated { .. } => EventKind::WorkspaceCreated,
            EventData::WorkspaceUpdated { .. } => EventKind::WorkspaceUpdated,
            EventData::WorkspaceClosed { .. } => EventKind::WorkspaceClosed,
            EventData::WorkspaceRenamed { .. } => EventKind::WorkspaceRenamed,
            EventData::WorkspaceMoved { .. } => EventKind::WorkspaceMoved,
            EventData::WorkspaceFocused { .. } => EventKind::WorkspaceFocused,
            EventData::TabCreated { .. } => EventKind::TabCreated,
            EventData::TabClosed { .. } => EventKind::TabClosed,
            EventData::TabRenamed { .. } => EventKind::TabRenamed,
            EventData::TabMoved { .. } => EventKind::TabMoved,
            EventData::TabFocused { .. } => EventKind::TabFocused,
            EventData::PaneCreated { .. } => EventKind::PaneCreated,
            EventData::PaneClosed { .. } => EventKind::PaneClosed,
            EventData::PaneFocused { .. } => EventKind::PaneFocused,
            EventData::PaneMoved { .. } => EventKind::PaneMoved,
            EventData::PaneOutputChanged { .. } => EventKind::PaneOutputChanged,
            EventData::PaneExited { .. } => EventKind::PaneExited,
            EventData::PaneAgentDetected { .. } => EventKind::PaneAgentDetected,
            EventData::PaneAgentStatusChanged { .. } => EventKind::PaneAgentStatusChanged,
        }
    }

    /// The kind of event this payload belongs to.
    pub fn kind(&self) -> (kind: EventKind)
        ensures
            kind == self.spec_kind(),
            kind == payload_kind(runtime_event_of(*self)),
    {
        match self {
            EventData::WorkspaceCreated { .. } => EventKind::WorkspaceCreated,
            EventData::WorkspaceUpdated { .. } => EventKind::WorkspaceUpdated,
            EventData::WorkspaceClosed { .. } => EventKind::WorkspaceClosed,
            EventData::WorkspaceRenamed { .. } => EventKind::WorkspaceRenamed,
            EventData::WorkspaceMoved { .. } => EventKind::WorkspaceMoved,
            EventData::WorkspaceFocused { .. } => EventKind::WorkspaceFocused,
            EventData::TabCreated { .. } => EventKind::TabCreated,
            EventData::TabClosed { .. } => EventKind::TabClosed,
            EventData::TabRenamed { .. } => EventKind::TabRenamed,
            EventData::TabMoved { .. } => EventKind::TabMoved,
            EventData::TabFocused { .. } => EventKind::TabFocused,
            EventData::PaneCreated { .. } => EventKind::PaneCreated,
            EventData::PaneClosed { .. } => EventKind::PaneClosed,
            EventData::PaneFocused { .. } => EventKind::PaneFocused,
            EventData::PaneMoved { .. } => EventKind::PaneMoved,
            EventData::PaneOutputChanged { .. } => EventKind::PaneOutputChanged,
            EventData::PaneExited { .. } => EventKind::PaneExited,
            EventData::PaneAgentDetected { .. } => EventKind::PaneAgentDetected,
            EventData::PaneAgentStatusChanged { .. } => EventKind::PaneAgentStatusChanged,
        }
    }
}

/// An event as Herdr delivers it: its kind and its payload.
#[derive(Debug, Clone, PartialEq)]
pub struct EventEnvelope {
    pub event: EventKind,
    pub data: EventData,
}

/// A typed Herdr event, handed to the handlers registered for its type.
pub trait HerdrEvent {
    /// The kind of event this type stands for.
    spec fn spec_kind() -> EventKind;

    /// The kind of event this type stands for.
    fn kind() -> (k: EventKind)
        ensures
            k == Self::spec_kind(),
    ;

    /// The dotted name of the event kind.
    fn dot_name() -> (name: &'static str)
        ensures
            name@ == kind_dot_name(Self::spec_kind()),
    ;
}

/// The payload of a `WorkspaceCreated` event.
#[derive(Debug, Clone, PartialEq)]
pub struct WorkspaceCreated {
    pub workspace: WorkspaceInfo,
}

impl HerdrEvent for WorkspaceCreated {
    open spec fn spec_kind() -> EventKind {
        EventKind::WorkspaceCreated
    }

    fn kind() -> EventKind {
        EventKind::WorkspaceCreated
    }

    fn dot_name() -> &'static str {
        EventKind::WorkspaceCreated.dot_name()
    }
}

/// The payload of a `WorkspaceUpdated` event.
#[derive(Debug, Clone, PartialEq)]
pub struct WorkspaceUpdated {
    pub workspace: WorkspaceInfo,
}

impl HerdrEvent for WorkspaceUpdated {
    open spec fn spec_kind() -> EventKind {
        EventKind::WorkspaceUpdated
    }

    fn kind() -> EventKind {
        EventKind::WorkspaceUpdated
    }

    fn dot_name() -> &'static str {
        EventKind::WorkspaceUpdated.dot_name()
    }
}

/// The payload of a `WorkspaceClosed` event.
#[derive(Debug, Clone, PartialEq)]
pub struct WorkspaceClosed {
    pub workspace_id: String,
    pub workspace: Option<WorkspaceInfo>,
}

impl HerdrEvent for WorkspaceClosed {
    open spec fn spec_kind() -> EventKind {
        EventKind::WorkspaceClosed
    }

    fn kind() -> EventKind {
        EventKind::WorkspaceClosed
    }

    fn dot_name() -> &'static str {
        EventKind::WorkspaceClosed.dot_name()
    }
}

/// The payload of a `WorkspaceRenamed` event.
#[derive(Debug, Clone, PartialEq)]
pub struct WorkspaceRenamed {
    pub workspace_id: String,
    pub label: String,
}

impl HerdrEvent for WorkspaceRenamed {
    open spec fn spec_kind() -> EventKind {
        EventKind::WorkspaceRenamed
    }

    fn kind() -> EventKind {
        EventKind::WorkspaceRenamed
    }

    fn dot_name() -> &'static str {
        EventKind::WorkspaceRenamed.dot_name()
    }
}

/// The payload of a `WorkspaceMoved` event.
#[derive(Debug, Clone, PartialEq)]
pub struct WorkspaceMoved {
    pub workspace_id: String,
    pub insert_index: usize,
    pub workspaces: Vec<WorkspaceInfo>,
}

impl HerdrEvent for WorkspaceMoved {
    open spec fn spec_kind() -> EventKind {
        EventKind::WorkspaceMoved
    }

    fn kind() -> EventKind {
        EventKind::WorkspaceMoved
    }

    fn dot_name() -> &'static str {
        EventKind::WorkspaceMoved.dot_name()
    }
}

/// The payload of a `WorkspaceFocused` event.
#[derive(Debug, Clone, PartialEq)]
pub struct WorkspaceFocused {
    pub workspace_id: String,
}

impl HerdrEvent for WorkspaceFocused {
    open spec fn spec_kind() -> EventKind {
        EventKind::WorkspaceFocused
    }

    fn kind() -> EventKind {
        EventKind::WorkspaceFocused
    }

    fn dot_name() -> &'static str {
        EventKind::WorkspaceFocused.dot_name()
    }
}

/// The payload of a `TabCreated` event.
#[derive(Debug, Clone, PartialEq)]
pub struct TabCreated {
    pub tab: TabInfo,
}

impl HerdrEvent for TabCreated {
    open spec fn spec_kind() -> EventKind {
        EventKind::TabCreated
    }

    fn kind() -> EventKind {
        EventKind::TabCreated
    }

    fn dot_name() -> &'static str {
        EventKind::TabCreated.dot_name()
    }
}

/// The payload of a `TabClosed` event.
#[derive(Debug, Clone, PartialEq)]
pub struct TabClosed {
    pub tab_id: String,
    pub workspace_id: String,
}

impl HerdrEvent for TabClosed {
    open spec fn spec_kind() -> EventKind {
        EventKind::TabClosed
    }

    fn kind() -> EventKind {
        EventKind::TabClosed
    }

    fn dot_name() -> &'static str {
        EventKind::TabClosed.dot_name()
    }
}

/// The payload of a `TabRenamed` event.
#[derive(Debug, Clone, PartialEq)]
pub struct TabRenamed {
    pub tab_id: String,
    pub workspace_id: String,
    pub label: String,
}

impl HerdrEvent for TabRenamed {
    open spec fn spec_kind() -> EventKind {
        EventKind::TabRenamed
    }

    fn kind() -> EventKind {
        EventKind::TabRenamed
    }

    fn dot_name() -> &'static str {
        EventKind::TabRenamed.dot_name()
    }
}

/// The payload of a `TabMoved` event.
#[derive(Debug, Clone, PartialEq)]
pub struct TabMoved {
    pub tab_id: String,
    pub workspace_id: String,
    pub insert_index: usize,
    pub tabs: Vec<TabInfo>,
}

impl HerdrEvent for TabMoved {
    open spec fn spec_kind() -> EventKind {
        EventKind::TabMoved
    }

    fn kind() -> EventKind {
        EventKind::TabMoved
    }

    fn dot_name() -> &'static str {
        EventKind::TabMoved.dot_name()
    }
}

/// The payload of a `TabFocused` event.
#[derive(Debug, Clone, PartialEq)]
pub struct TabFocused {
    pub tab_id: String,
    pub workspace_id: String,
}

impl HerdrEvent for TabFocused {
    open spec fn spec_kind() -> EventKind {
        EventKind::TabFocused
    }

    fn kind() -> EventKind {
        EventKind::TabFocused
    }

    fn dot_name() -> &'static str {
        EventKind::TabFocused.dot_name()
    }
}

/// The payload of a `PaneCreated` event.
#[derive(Debug, Clone, PartialEq)]
pub struct PaneCreated {
    pub pane: PaneInfo,
}

impl HerdrEvent for PaneCreated {
    open spec fn spec_kind() -> EventKind {
        EventKind::PaneCreated
    }

    fn kind() -> EventKind {
        EventKind::PaneCreated
    }

    fn dot_name() -> &'static str {
        EventKind::PaneCreated.dot_name()
    }
}

/// The payload of a `PaneClosed` event.
#[derive(Debug, Clone, PartialEq)]
pub struct PaneClosed {
    pub pane_id: String,
    pub workspace_id: String,
}

impl HerdrEvent for PaneClosed {
    open spec fn spec_kind() -> EventKind {
        EventKind::PaneClosed
    }

    fn kind() -> EventKind {
        EventKind::PaneClosed
    }

    fn dot_name() -> &'static str {
        EventKind::PaneClosed.dot_name()
    }
}

/// The payload of a `PaneFocused` event.
#[derive(Debug, Clone, PartialEq)]
pub struct PaneFocused {
    pub pane_id: String,
    pub workspace_id: String,
}

impl HerdrEvent for PaneFocused {
    open spec fn spec_kind() -> EventKind {
        EventKind::PaneFocused
    }

    fn kind() -> EventKind {
        EventKind::PaneFocused
    }

    fn dot_name() -> &'static str {
        EventKind::PaneFocused.dot_name()
    }
}

/// The payload of a `PaneMoved` event.
#[derive(Debug, Clone, PartialEq)]
pub struct PaneMoved {
    pub previous_pane_id: String,
    pub previous_workspace_id: String,
    pub previous_tab_id: String,
    pub pane: PaneInfo,
    pub created_workspace: Option<WorkspaceInfo>,
    pub created_tab: Option<TabInfo>,
    pub closed_workspace_id: Option<String>,
    pub closed_tab_id: Option<String>,
}

impl HerdrEvent for PaneMoved {
    open spec fn spec_kind() -> EventKind {
        EventKind::PaneMoved
    }

    fn kind() -> EventKind {
        EventKind::PaneMoved
    }

    fn dot_name() -> &'static str {
        EventKind::PaneMoved.dot_name()
    }
}

/// The payload of a `PaneOutputChanged` event.
#[derive(Debug, Clone, PartialEq)]
pub struct PaneOutputChanged {
    pub pane_id: String,
    pub workspace_id: String,
    pub revision: u64,
}

impl HerdrEvent for PaneOutputChanged {
    open spec fn spec_kind() -> EventKind {
        EventKind::PaneOutputChanged
    }

    fn kind() -> EventKind {
        EventKind::PaneOutputChanged
    }

    fn dot_name() -> &'static str {
        EventKind::PaneOutputChanged.dot_name()
    }
}

/// The payload of a `PaneExited` event.
#[derive(Debug, Clone, PartialEq)]
pub struct PaneExited {
    pub pane_id: String,
    pub workspace_id: String,
}

impl HerdrEvent for PaneExited {
    open spec fn spec_kind() -> EventKind {
        EventKind::PaneExited
    }

    fn kind() -> EventKind {
        EventKind::PaneExited
    }

    fn dot_name() -> &'static str {
        EventKind::PaneExited.dot_name()
    }
}

/// The payload of a `PaneAgentDetected` event.
#[derive(Debug, Clone, PartialEq)]
pub struct PaneAgentDetected {
    pub pane_id: String,
    pub workspace_id: String,
    pub agent: Option<String>,
}

impl HerdrEvent for PaneAgentDetected {
    open spec fn spec_kind() -> EventKind {
        EventKind::PaneAgentDetected
    }

    fn kind() -> EventKind {
        EventKind::PaneAgentDetected
    }

    fn dot_name() -> &'static str {
        EventKind::PaneAgentDetected.dot_name()
    }
}

/// The payload of a `PaneAgentStatusChanged` event.
#[derive(Debug, Clone, PartialEq)]
pub struct PaneAgentStatusChanged {
    pub pane_id: String,
    pub workspace_id: String,
    pub agent_status: AgentStatus,
    pub agent: Option<String>,
    pub title: Option<String>,
    pub display_agent: Option<String>,
    pub custom_status: Option<String>,
    pub state_labels: HashMap<String, String>,
}

impl HerdrEvent for PaneAgentStatusChanged {
    open spec fn spec_kind() -> EventKind {
        EventKind::PaneAgentStatusChanged
    }

    fn kind() -> EventKind {
        EventKind::PaneAgentStatusChanged
    }

    fn dot_name() -> &'static str {
        EventKind::PaneAgentStatusChanged.dot_name()
    }
}

/// A typed event, one variant per event kind.
#[derive(Debug, Clone, PartialEq)]
pub enum RuntimeEvent {
    WorkspaceCreated(WorkspaceCreated),
    WorkspaceUpdated(WorkspaceUpdated),
    WorkspaceClosed(WorkspaceClosed),
    WorkspaceRenamed(WorkspaceRenamed),
    WorkspaceMoved(WorkspaceMoved),
    WorkspaceFocused(WorkspaceFocused),
    TabCreated(TabCreated),
    TabClosed(TabClosed),
    TabRenamed(TabRenamed),
    TabMoved(TabMoved),
    TabFocused(TabFocused),
    PaneCreated(PaneCreated),
    PaneClosed(PaneClosed),
    PaneFocused(PaneFocused),
    PaneMoved(PaneMoved),
    PaneOutputChanged(PaneOutputChanged),
    PaneExited(PaneExited),
    PaneAgentDetected(PaneAgentDetected),
    PaneAgentStatusChanged(PaneAgentStatusChanged),
}

/// The typed event that carries exactly the fields of `data`.
pub open spec fn runtime_event_of(data: EventData) -> RuntimeEvent {
    match data {
        EventData::WorkspaceCreated { workspace } => RuntimeEvent::WorkspaceCreated(WorkspaceCreated { workspace }),
        EventData::WorkspaceUpdated { workspace } => RuntimeEvent::WorkspaceUpdated(WorkspaceUpdated { workspace }),
        EventData::WorkspaceClosed { workspace_id, workspace } => RuntimeEvent::WorkspaceClosed(WorkspaceClosed { workspace_id, workspace }),
        EventData::WorkspaceRenamed { workspace_id, label } => RuntimeEvent::WorkspaceRenamed(WorkspaceRenamed { workspace_id, label }),
        EventData::WorkspaceMoved { workspace_id, insert_index, workspaces } => RuntimeEvent::WorkspaceMoved(WorkspaceMoved { workspace_id, insert_index, workspaces }),
        EventData::WorkspaceFocused { workspace_id } => RuntimeEvent::WorkspaceFocused(WorkspaceFocused { workspace_id }),
        EventData::TabCreated { tab } => RuntimeEvent::TabCreated(TabCreated { tab }),
        EventData::TabClosed { tab_id, workspace_id } => RuntimeEvent::TabClosed(TabClosed { tab_id, workspace_id }),
        EventData::TabRenamed { tab_id, workspace_id, label } => RuntimeEvent::TabRenamed(TabRenamed { tab_id, workspace_id, label }),
        EventData::TabMoved { tab_id, workspace_id, insert_index, tabs } => RuntimeEvent::TabMoved(TabMoved { tab_id, workspace_id, insert_index, tabs }),
        EventData::TabFocused { tab_id, workspace_id } => RuntimeEvent::TabFocused(TabFocused { tab_id, workspace_id }),
        EventData::PaneCreated { pane } => RuntimeEvent::PaneCreated(PaneCreated { pane }),
        EventData::PaneClosed { pane_id, workspace_id } => RuntimeEvent::PaneClosed(PaneClosed { pane_id, workspace_id }),
        EventData::PaneFocused { pane_id, workspace_id } => RuntimeEvent::PaneFocused(PaneFocused { pane_id, workspace_id }),
        EventData::PaneMoved { previous_pane_id, previous_workspace_id, previous_tab_id, pane, created_workspace, created_tab, closed_workspace_id, closed_tab_id } => RuntimeEvent::PaneMoved(PaneMoved { previous_pane_id, previous_workspace_id, previous_tab_id, pane: *pane, created_workspace, created_tab, closed_workspace_id, closed_tab_id }),
        EventData::PaneOutputChanged { pane_id, workspace_id, revision } => RuntimeEvent::PaneOutputChanged(PaneOutputChanged { pane_id, workspace_id, revision }),
        EventData::PaneExited { pane_id, workspace_id } => RuntimeEvent::PaneExited(PaneExited { pane_id, workspace_id }),
        EventData::PaneAgentDetected { pane_id, workspace_id, agent } => RuntimeEvent::PaneAgentDetected(PaneAgentDetected { pane_id, workspace_id, agent }),
        EventData::PaneAgentStatusChanged { pane_id, workspace_id, agent_status, agent, title, display_agent, custom_status, state_labels } => RuntimeEvent::PaneAgentStatusChanged(PaneAgentStatusChanged { pane_id, workspace_id, agent_status, agent, title, display_agent, custom_status, state_labels }),
    }
}

impl RuntimeEvent {
    /// The kind of this event.
    pub open spec fn spec_kind(self) -> EventKind {
        match self {
            RuntimeEvent::WorkspaceCreated(_) => EventKind::WorkspaceCreated,
            RuntimeEvent::WorkspaceUpdated(_) => EventKind::WorkspaceUpdated,
            RuntimeEvent::WorkspaceClosed(_) => EventKind::WorkspaceClosed,
            RuntimeEvent::WorkspaceRenamed(_) => EventKind::WorkspaceRenamed,
            RuntimeEvent::WorkspaceMoved(_) => EventKind::WorkspaceMoved,
            RuntimeEvent::WorkspaceFocused(_) => EventKind::WorkspaceFocused,
            RuntimeEvent::TabCreated(_) => EventKind::TabCreated,
            RuntimeEvent::TabClosed(_) => EventKind::TabClosed,
            RuntimeEvent::TabRenamed(_) => EventKind::TabRenamed,
            RuntimeEvent::TabMoved(_) => EventKind::TabMoved,
            RuntimeEvent::TabFocused(_) => EventKind::TabFocused,
            RuntimeEvent::PaneCreated(_) => EventKind::PaneCreated,
            RuntimeEvent::PaneClosed(_) => EventKind::PaneClosed,
            RuntimeEvent::PaneFocused(_) => EventKind::PaneFocused,
            RuntimeEvent::PaneMoved(_) => EventKind::PaneMoved,
            RuntimeEvent::PaneOutputChanged(_) => EventKind::PaneOutputChanged,
            RuntimeEvent::PaneExited(_) => EventKind::PaneExited,
            RuntimeEvent::PaneAgentDetected(_) => EventKind::PaneAgentDetected,
            RuntimeEvent::PaneAgentStatusChanged(_) => EventKind::PaneAgentStatusChanged,
        }
    }

    /// The kind of this event.
    pub fn kind(&self) -> (kind: EventKind)
        ensures
            kind == self.spec_kind(),
            kind == payload_kind(*self),
    {
        match self {
            RuntimeEvent::WorkspaceCreated(_) => EventKind::WorkspaceCreated,
            RuntimeEvent::WorkspaceUpdated(_) => EventKind::WorkspaceUpdated,
            RuntimeEvent::WorkspaceClosed(_) => EventKind::WorkspaceClosed,
            RuntimeEvent::WorkspaceRenamed(_) => EventKind::WorkspaceRenamed,
            RuntimeEvent::WorkspaceMoved(_) => EventKind::WorkspaceMoved,
            RuntimeEvent::WorkspaceFocused(_) => EventKind::WorkspaceFocused,
            RuntimeEvent::TabCreated(_) => EventKind::TabCreated,
            RuntimeEvent::TabClosed(_) => EventKind::TabClosed,
            RuntimeEvent::TabRenamed(_) => EventKind::TabRenamed,
            RuntimeEvent::TabMoved(_) => EventKind::TabMoved,
            RuntimeEvent::TabFocused(_) => EventKind::TabFocused,
            RuntimeEvent::PaneCreated(_) => EventKind::PaneCreated,
            RuntimeEvent::PaneClosed(_) => EventKind::PaneClosed,
            RuntimeEvent::PaneFocused(_) => EventKind::PaneFocused,
            RuntimeEvent::PaneMoved(_) => EventKind::PaneMoved,
            RuntimeEvent::PaneOutputChanged(_) => EventKind::PaneOutputChanged,
            RuntimeEvent::PaneExited(_) => EventKind::PaneExited,
            RuntimeEvent::PaneAgentDetected(_) => EventKind::PaneAgentDetected,
            RuntimeEvent::PaneAgentStatusChanged(_) => EventKind::PaneAgentStatusChanged,
        }
    }

    /// The typed event for the payload of `envelope`.
    pub fn from_envelope(envelope: EventEnvelope) -> (event: RuntimeEvent)
        ensures
            event == runtime_event_of(envelope.data),
            event_data_of(event) == envelope.data,
    {
        proof {
            lemma_event_payload_round_trip(envelope.data, runtime_event_of(envelope.data));
        }
        match envelope.data {
            EventData::WorkspaceCreated { workspace } => RuntimeEvent::WorkspaceCreated(WorkspaceCreated { workspace }),
            EventData::WorkspaceUpdated { workspace } => RuntimeEvent::WorkspaceUpdated(WorkspaceUpdated { workspace }),
            EventData::WorkspaceClosed { workspace_id, workspace } => RuntimeEvent::WorkspaceClosed(WorkspaceClosed { workspace_id, workspace }),
            EventData::WorkspaceRenamed { workspace_id, label } => RuntimeEvent::WorkspaceRenamed(WorkspaceRenamed { workspace_id, label }),
            EventData::WorkspaceMoved { workspace_id, insert_index, workspaces } => RuntimeEvent::WorkspaceMoved(WorkspaceMoved { workspace_id, insert_index, workspaces }),
            EventData::WorkspaceFocused { workspace_id } => RuntimeEvent::WorkspaceFocused(WorkspaceFocused { workspace_id }),
            EventData::TabCreated { tab } => RuntimeEvent::TabCreated(TabCreated { tab }),
            EventData::TabClosed { tab_id, workspace_id } => RuntimeEvent::TabClosed(TabClosed { tab_id, workspace_id }),
            EventData::TabRenamed { tab_id, workspace_id, label } => RuntimeEvent::TabRenamed(TabRenamed { tab_id, workspace_id, label }),
            EventData::TabMoved { tab_id, workspace_id, insert_index, tabs } => RuntimeEvent::TabMoved(TabMoved { tab_id, workspace_id, insert_index, tabs }),
            EventData::TabFocused { tab_id, workspace_id } => RuntimeEvent::TabFocused(TabFocused { tab_id, workspace_id }),
            EventData::PaneCreated { pane } => RuntimeEvent::PaneCreated(PaneCreated { pane }),
            EventData::PaneClosed { pane_id, workspace_id } => RuntimeEvent::PaneClosed(PaneClosed { pane_id, workspace_id }),
            EventData::PaneFocused { pane_id, workspace_id } => RuntimeEvent::PaneFocused(PaneFocused { pane_id, workspace_id }),
            EventData::PaneMoved { previous_pane_id, previous_workspace_id, previous_tab_id, pane, created_workspace, created_tab, closed_workspace_id, closed_tab_id } => RuntimeEvent::PaneMoved(PaneMoved { previous_pane_id, previous_workspace_id, previous_tab_id, pane: *pane, created_workspace, created_tab, closed_workspace_id, closed_tab_id }),
            EventData::PaneOutputChanged { pane_id, workspace_id, revision } => RuntimeEvent::PaneOutputChanged(PaneOutputChanged { pane_id, workspace_id, revision }),
            EventData::PaneExited { pane_id, workspace_id } => RuntimeEvent::PaneExited(PaneExited { pane_id, workspace_id }),
            EventData::PaneAgentDetected { pane_id, workspace_id, agent } => RuntimeEvent::PaneAgentDetected(PaneAgentDetected { pane_id, workspace_id, agent }),
            EventData::PaneAgentStatusChanged { pane_id, workspace_id, agent_status, agent, title, display_agent, custom_status, state_labels } => RuntimeEvent::PaneAgentStatusChanged(PaneAgentStatusChanged { pane_id, workspace_id, agent_status, agent, title, display_agent, custom_status, state_labels }),
        }
    }
}

impl From<EventEnvelope> for RuntimeEvent {
    fn from(envelope: EventEnvelope) -> (event: RuntimeEvent) {
        RuntimeEvent::from_envelope(envelope)
    }
}

impl vstd::std_specs::convert::FromSpecImpl<EventEnvelope> for RuntimeEvent {
    open spec fn obeys_from_spec() -> bool {
        true
    }

    open spec fn from_spec(envelope: EventEnvelope) -> RuntimeEvent {
        runtime_event_of(envelope.data)
    }
}

/// A typed event and its payload determine each other: the event made from
/// a payload carries exactly that payload, and every typed event is the one
/// made from the payload it carries.
pub proof fn lemma_event_payload_round_trip(data: EventData, event: RuntimeEvent)
    ensures
        event_data_of(runtime_event_of(data)) == data,
        runtime_event_of(event_data_of(event)) == event,
{
}

/// The typed event keeps the kind of the payload it was made from.
pub proof fn lemma_runtime_event_kind(data: EventData)
    ensures
        runtime_event_of(data).spec_kind() == data.spec_kind(),
{
}

/// A copy of optional text.
fn copy_opt_text(v: &Option<String>) -> (r: Option<String>)
    ensures
        r == *v,
{
    match v {
        Some(t) => Some(t.clone()),
        None => None,
    }
}

impl WorkspaceWorktreeInfo {
    /// A copy of this value.
    pub fn copy(&self) -> (r: Self)
        ensures
            r == *self,
    {
        WorkspaceWorktreeInfo {
            repo_key: self.repo_key.clone(),
            repo_name: self.repo_name.clone(),
            repo_root: self.repo_root.clone(),
            checkout_path: self.checkout_path.clone(),
            is_linked_worktree: self.is_linked_worktree,
        }
    }
}

impl WorkspaceInfo {
    /// A copy of this value.
    pub fn copy(&self) -> (r: Self)
        ensures
            r == *self,
    {
        WorkspaceInfo {
            workspace_id: self.workspace_id.clone(),
            number: self.number,
            label: self.label.clone(),
            focused: self.focused,
            pane_count: self.pane_count,
            tab_count: self.tab_count,
            active_tab_id: self.active_tab_id.clone(),
            agent_status: self.agent_status,
            worktree: copy_opt_worktree(&self.worktree),
        }
    }
}

impl TabInfo {
    /// A copy of this value.
    pub fn copy(&self) -> (r: Self)
        ensures
            r == *self,
    {
        TabInfo {
            tab_id: self.tab_id.clone(),
            workspace_id: self.workspace_id.clone(),
            number: self.number,
            label: self.label.clone(),
            focused: self.focused,
            pane_count: self.pane_count,
            agent_status: self.agent_status,
        }
    }
}

impl AgentSessionInfo {
    /// A copy of this value.
    pub fn copy(&self) -> (r: Self)
        ensures
            r == *self,
    {
        AgentSessionInfo {
            source: self.source.clone(),
            agent: self.agent.clone(),
            kind: self.kind.clone(),
            value: self.value.clone(),
        }
    }
}

/// A copy of an optional `WorkspaceInfo`.
fn copy_opt_workspace(v: &Option<WorkspaceInfo>) -> (r: Option<WorkspaceInfo>)
    ensures
        r == *v,
{
    match v {
        Some(t) => Some(t.copy()),
        None => None,
    }
}

/// A copy of an optional `TabInfo`.
fn copy_opt_tab(v: &Option<TabInfo>) -> (r: Option<TabInfo>)
    ensures
        r == *v,
{
    match v {
        Some(t) => Some(t.copy()),
        None => None,
    }
}

/// A copy of an optional `WorkspaceWorktreeInfo`.
fn copy_opt_worktree(v: &Option<WorkspaceWorktreeInfo>) -> (r: Option<WorkspaceWorktreeInfo>)
    ensures
        r == *v,
{
    match v {
        Some(t) => Some(t.copy()),
        None => None,
    }
}

/// A copy of an optional `AgentSessionInfo`.
fn copy_opt_session(v: &Option<AgentSessionInfo>) -> (r: Option<AgentSessionInfo>)
    ensures
        r == *v,
{
    match v {
        Some(t) => Some(t.copy()),
        None => None,
    }
}

/// A copy of a list of `WorkspaceInfo`, item for item.
fn copy_workspaces(v: &Vec<WorkspaceInfo>) -> (r: Vec<WorkspaceInfo>)
    ensures
        r@ == v@,
{
    let mut r: Vec<WorkspaceInfo> = Vec::new();
    let n = v.len();
    let mut i: usize = 0;
    while i < n
        invariant
            n == v.len(),
            i <= n,
            r@ == v@.subrange(0, i as int),
        decreases n - i,
    {
        r.push(v[i].copy());
        assert(r@ =~= v@.subrange(0, i + 1));
        i += 1;
    }
    assert(v@.subrange(0, n as int) =~= v@);
    r
}

/// A copy of a list of `TabInfo`, item for item.
fn copy_tabs(v: &Vec<TabInfo>) -> (r: Vec<TabInfo>)
    ensures
        r@ == v@,
{
    let mut r: Vec<TabInfo> = Vec::new();
    let n = v.len();
    let mut i: usize = 0;
    while i < n
        invariant
            n == v.len(),
            i <= n,
            r@ == v@.subrange(0, i as int),
        decreases n - i,
    {
        r.push(v[i].copy());
        assert(r@ =~= v@.subrange(0, i + 1));
        i += 1;
    }
    assert(v@.subrange(0, n as int) =~= v@);
    r
}

/// `a` and `b` are the same pane: equal fields, and state labels that map
/// the same keys to the same values.
pub open spec fn same_pane(a: PaneInfo, b: PaneInfo) -> bool {
    &&& a.pane_id == b.pane_id
    &&& a.terminal_id == b.terminal_id
    &&& a.workspace_id == b.workspace_id
    &&& a.tab_id == b.tab_id
    &&& a.focused == b.focused
    &&& a.cwd == b.cwd
    &&& a.foreground_cwd == b.foreground_cwd
    &&& a.label == b.label
    &&& a.agent == b.agent
    &&& a.title == b.title
    &&& a.display_agent == b.display_agent
    &&& a.agent_status == b.agent_status
    &&& a.custom_status == b.custom_status
    &&& a.state_labels@ == b.state_labels@
    &&& a.agent_session == b.agent_session
    &&& a.revision == b.revision
}

impl PaneInfo {
    /// A copy of this pane.
    pub fn copy(&self) -> (r: Self)
        ensures
            same_pane(r, *self),
    {
        PaneInfo {
            pane_id: self.pane_id.clone(),
            terminal_id: self.terminal_id.clone(),
            workspace_id: self.workspace_id.clone(),
            tab_id: self.tab_id.clone(),
            focused: self.focused,
            cwd: copy_opt_text(&self.cwd),
            foreground_cwd: copy_opt_text(&self.foreground_cwd),
            label: copy_opt_text(&self.label),
            agent: copy_opt_text(&self.agent),
            title: copy_opt_text(&self.title),
            display_agent: copy_opt_text(&self.display_agent),
            agent_status: self.agent_status,
            custom_status: copy_opt_text(&self.custom_status),
            state_labels: self.state_labels.clone(),
            agent_session: copy_opt_session(&self.agent_session),
            revision: self.revision,
        }
    }
}

/// `a` and `b` are the same payload: the same kind and equal fields, with
/// lists holding the same items in the same order and label maps holding
/// the same entries.
pub open spec fn same_data(a: EventData, b: EventData) -> bool {
    match a {
        EventData::WorkspaceCreated { workspace: a_workspace } => match b {
            EventData::WorkspaceCreated { workspace: b_workspace } => a_workspace == b_workspace,
            _ => false,
        },
        EventData::WorkspaceUpdated { workspace: a_workspace } => match b {
            EventData::WorkspaceUpdated { workspace: b_workspace } => a_workspace == b_workspace,
            _ => false,
        },
        EventData::WorkspaceClosed { workspace_id: a_workspace_id, workspace: a_workspace } => match b {
            EventData::WorkspaceClosed { workspace_id: b_workspace_id, workspace: b_workspace } => a_workspace_id == b_workspace_id && a_workspace == b_workspace,
            _ => false,
        },
        EventData::WorkspaceRenamed { workspace_id: a_workspace_id, label: a_label } => match b {
            EventData::WorkspaceRenamed { workspace_id: b_workspace_id, label: b_label } => a_workspace_id == b_workspace_id && a_label == b_label,
            _ => false,
        },
        EventData::WorkspaceMoved { workspace_id: a_workspace_id, insert_index: a_insert_index, workspaces: a_workspaces } => match b {
            EventData::WorkspaceMoved { workspace_id: b_workspace_id, insert_index: b_insert_index, workspaces: b_workspaces } => a_workspace_id == b_workspace_id && a_insert_index == b_insert_index && a_workspaces@ == b_workspaces@,
            _ => false,
        },
        EventData::WorkspaceFocused { workspace_id: a_workspace_id } => match b {
            EventData::WorkspaceFocused { workspace_id: b_workspace_id } => a_workspace_id == b_workspace_id,
            _ => false,
        },
        EventData::TabCreated { tab: a_tab } => match b {
            EventData::TabCreated { tab: b_tab } => a_tab == b_tab,
            _ => false,
        },
        EventData::TabClosed { tab_id: a_tab_id, workspace_id: a_workspace_id } => match b {
            EventData::TabClosed { tab_id: b_tab_id, workspace_id: b_workspace_id } => a_tab_id == b_tab_id && a_workspace_id == b_workspace_id,
            _ => false,
        },
        EventData::TabRenamed { tab_id: a_tab_id, workspace_id: a_workspace_id, label: a_label } => match b {
            EventData::TabRenamed { tab_id: b_tab_id, workspace_id: b_workspace_id, label: b_label } => a_tab_id == b_tab_id && a_workspace_id == b_workspace_id && a_label == b_label,
            _ => false,
        },
        EventData::TabMoved { tab_id: a_tab_id, workspace_id: a_workspace_id, insert_index: a_insert_index, tabs: a_tabs } => match b {
            EventData::TabMoved { tab_id: b_tab_id, workspace_id: b_workspace_id, insert_index: b_insert_index, tabs: b_tabs } => a_tab_id == b_tab_id && a_workspace_id == b_workspace_id && a_insert_index == b_insert_index && a_tabs@ == b_tabs@,
            _ => false,
        },
        EventData::TabFocused { tab_id: a_tab_id, workspace_id: a_workspace_id } => match b {
            EventData::TabFocused { tab_id: b_tab_id, workspace_id: b_workspace_id } => a_tab_id == b_tab_id && a_workspace_id == b_workspace_id,
            _ => false,
        },
        EventData::PaneCreated { pane: a_pane } => match b {
            EventData::PaneCreated { pane: b_pane } => same_pane(a_pane, b_pane),
            _ => false,
        },
        EventData::PaneClosed { pane_id: a_pane_id, workspace_id: a_workspace_id } => match b {
            EventData::PaneClosed { pane_id: b_pane_id, workspace_id: b_workspace_id } => a_pane_id == b_pane_id && a_workspace_id == b_workspace_id,
            _ => false,
        },
        EventData::PaneFocused { pane_id: a_pane_id, workspace_id: a_workspace_id } => match b {
            EventData::PaneFocused { pane_id: b_pane_id, workspace_id: b_workspace_id } => a_pane_id == b_pane_id && a_workspace_id == b_workspace_id,
            _ => false,
        },
        EventData::PaneMoved { previous_pane_id: a_previous_pane_id, previous_workspace_id: a_previous_workspace_id, previous_tab_id: a_previous_tab_id, pane: a_pane, created_workspace: a_created_workspace, created_tab: a_created_tab, closed_workspace_id: a_closed_workspace_id, closed_tab_id: a_closed_tab_id } => match b {
            EventData::PaneMoved { previous_pane_id: b_previous_pane_id, previous_workspace_id: b_previous_workspace_id, previous_tab_id: b_previous_tab_id, pane: b_pane, created_workspace: b_created_workspace, created_tab: b_created_tab, closed_workspace_id: b_closed_workspace_id, closed_tab_id: b_closed_tab_id } => a_previous_pane_id == b_previous_pane_id && a_previous_workspace_id == b_previous_workspace_id && a_previous_tab_id == b_previous_tab_id && same_pane(*a_pane, *b_pane) && a_created_workspace == b_created_workspace && a_created_tab == b_created_tab && a_closed_workspace_id == b_closed_workspace_id && a_closed_tab_id == b_closed_tab_id,
            _ => false,
        },
        EventData::PaneOutputChanged { pane_id: a_pane_id, workspace_id: a_workspace_id, revision: a_revision } => match b {
            EventData::PaneOutputChanged { pane_id: b_pane_id, workspace_id: b_workspace_id, revision: b_revision } => a_pane_id == b_pane_id && a_workspace_id == b_workspace_id && a_revision == b_revision,
            _ => false,
        },
        EventData::PaneExited { pane_id: a_pane_id, workspace_id: a_workspace_id } => match b {
            EventData::PaneExited { pane_id: b_pane_id, workspace_id: b_workspace_id } => a_pane_id == b_pane_id && a_workspace_id == b_workspace_id,
            _ => false,
        },
        EventData::PaneAgentDetected { pane_id: a_pane_id, workspace_id: a_workspace_id, agent: a_agent } => match b {
            EventData::PaneAgentDetected { pane_id: b_pane_id, workspace_id: b_workspace_id, agent: b_agent } => a_pane_id == b_pane_id && a_workspace_id == b_workspace_id && a_agent == b_agent,
            _ => false,
        },
        EventData::PaneAgentStatusChanged { pane_id: a_pane_id, workspace_id: a_workspace_id, agent_status: a_agent_status, agent: a_agent, title: a_title, display_agent: a_display_agent, custom_status: a_custom_status, state_labels: a_state_labels } => match b {
            EventData::PaneAgentStatusChanged { pane_id: b_pane_id, workspace_id: b_workspace_id, agent_status: b_agent_status, agent: b_agent, title: b_title, display_agent: b_display_agent, custom_status: b_custom_status, state_labels: b_state_labels } => a_pane_id == b_pane_id && a_workspace_id == b_workspace_id && a_agent_status == b_agent_status && a_agent == b_agent && a_title == b_title && a_display_agent == b_display_agent && a_custom_status == b_custom_status && a_state_labels@ == b_state_labels@,
            _ => false,
        },
    }
}

impl EventData {
    /// A copy of this payload.
    pub fn copy(&self) -> (r: Self)
        ensures
            same_data(r, *self),
    {
        match self {
            EventData::WorkspaceCreated { workspace } => EventData::WorkspaceCreated {
                workspace: workspace.copy(),
            },
            EventData::WorkspaceUpdated { workspace } => EventData::WorkspaceUpdated {
                workspace: workspace.copy(),
            },
            EventData::WorkspaceClosed { workspace_id, workspace } => EventData::WorkspaceClosed {
                workspace_id: workspace_id.clone(),
                workspace: copy_opt_workspace(workspace),
            },
            EventData::WorkspaceRenamed { workspace_id, label } => EventData::WorkspaceRenamed {
                workspace_id: workspace_id.clone(),
                label: label.clone(),
            },
            EventData::WorkspaceMoved { workspace_id, insert_index, workspaces } => EventData::WorkspaceMoved {
                workspace_id: workspace_id.clone(),
                insert_index: *insert_index,
                workspaces: copy_workspaces(workspaces),
            },
            EventData::WorkspaceFocused { workspace_id } => EventData::WorkspaceFocused {
                workspace_id: workspace_id.clone(),
            },
            EventData::TabCreated { tab } => EventData::TabCreated {
                tab: tab.copy(),
            },
            EventData::TabClosed { tab_id, workspace_id } => EventData::TabClosed {
                tab_id: tab_id.clone(),
                workspace_id: workspace_id.clone(),
            },
            EventData::TabRenamed { tab_id, workspace_id, label } => EventData::TabRenamed {
                tab_id: tab_id.clone(),
                workspace_id: workspace_id.clone(),
                label: label.clone(),
            },
            EventData::TabMoved { tab_id, workspace_id, insert_index, tabs } => EventData::TabMoved {
                tab_id: tab_id.clone(),
                workspace_id: workspace_id.clone(),
                insert_index: *insert_index,
                tabs: copy_tabs(tabs),
            },
            EventData::TabFocused { tab_id, workspace_id } => EventData::TabFocused {
                tab_id: tab_id.clone(),
                workspace_id: workspace_id.clone(),
            },
            EventData::PaneCreated { pane } => EventData::PaneCreated {
                pane: pane.copy(),
            },
            EventData::PaneClosed { pane_id, workspace_id } => EventData::PaneClosed {
                pane_id: pane_id.clone(),
                workspace_id: workspace_id.clone(),
            },
            EventData::PaneFocused { pane_id, workspace_id } => EventData::PaneFocused {
                pane_id: pane_id.clone(),
                workspace_id: workspace_id.clone(),
            },
            EventData::PaneMoved { previous_pane_id, previous_workspace_id, previous_tab_id, pane, created_workspace, created_tab, closed_workspace_id, closed_tab_id } => EventData::PaneMoved {
                previous_pane_id: previous_pane_id.clone(),
                previous_workspace_id: previous_workspace_id.clone(),
                previous_tab_id: previous_tab_id.clone(),
                pane: Box::new(pane.copy()),
                created_workspace: copy_opt_workspace(created_workspace),
                created_tab: copy_opt_tab(created_tab),
                closed_workspace_id: copy_opt_text(closed_workspace_id),
                closed_tab_id: copy_opt_text(closed_tab_id),
            },
            EventData::PaneOutputChanged { pane_id, workspace_id, revision } => EventData::PaneOutputChanged {
                pane_id: pane_id.clone(),
                workspace_id: workspace_id.clone(),
                revision: *revision,
            },
            EventData::PaneExited { pane_id, workspace_id } => EventData::PaneExited {
                pane_id: pane_id.clone(),
                workspace_id: workspace_id.clone(),
            },
            EventData::PaneAgentDetected { pane_id, workspace_id, agent } => EventData::PaneAgentDetected {
                pane_id: pane_id.clone(),
                workspace_id: workspace_id.clone(),
                agent: copy_opt_text(agent),
            },
            EventData::PaneAgentStatusChanged { pane_id, workspace_id, agent_status, agent, title, display_agent, custom_status, state_labels } => EventData::PaneAgentStatusChanged {
                pane_id: pane_id.clone(),
                workspace_id: workspace_id.clone(),
                agent_status: *agent_status,
                agent: copy_opt_text(agent),
                title: copy_opt_text(title),
                display_agent: copy_opt_text(display_agent),
                custom_status: copy_opt_text(custom_status),
                state_labels: state_labels.clone(),
            },
        }
    }
}

/// The payload that a typed event carries.
pub open spec fn event_data_of(event: RuntimeEvent) -> EventData {
    match event {
        RuntimeEvent::WorkspaceCreated(e) => EventData::WorkspaceCreated { workspace: e.workspace },
        RuntimeEvent::WorkspaceUpdated(e) => EventData::WorkspaceUpdated { workspace: e.workspace },
        RuntimeEvent::WorkspaceClosed(e) => EventData::WorkspaceClosed { workspace_id: e.workspace_id, workspace: e.workspace },
        RuntimeEvent::WorkspaceRenamed(e) => EventData::WorkspaceRenamed { workspace_id: e.workspace_id, label: e.label },
        RuntimeEvent::WorkspaceMoved(e) => EventData::WorkspaceMoved { workspace_id: e.workspace_id, insert_index: e.insert_index, workspaces: e.workspaces },
        RuntimeEvent::WorkspaceFocused(e) => EventData::WorkspaceFocused { workspace_id: e.workspace_id },
        RuntimeEvent::TabCreated(e) => EventData::TabCreated { tab: e.tab },
        RuntimeEvent::TabClosed(e) => EventData::TabClosed { tab_id: e.tab_id, workspace_id: e.workspace_id },
        RuntimeEvent::TabRenamed(e) => EventData::TabRenamed { tab_id: e.tab_id, workspace_id: e.workspace_id, label: e.label },
        RuntimeEvent::TabMoved(e) => EventData::TabMoved { tab_id: e.tab_id, workspace_id: e.workspace_id, insert_index: e.insert_index, tabs: e.tabs },
        RuntimeEvent::TabFocused(e) => EventData::TabFocused { tab_id: e.tab_id, workspace_id: e.workspace_id },
        RuntimeEvent::PaneCreated(e) => EventData::PaneCreated { pane: e.pane },
        RuntimeEvent::PaneClosed(e) => EventData::PaneClosed { pane_id: e.pane_id, workspace_id: e.workspace_id },
        RuntimeEvent::PaneFocused(e) => EventData::PaneFocused { pane_id: e.pane_id, workspace_id: e.workspace_id },
        RuntimeEvent::PaneMoved(e) => EventData::PaneMoved { previous_pane_id: e.previous_pane_id, previous_workspace_id: e.previous_workspace_id, previous_tab_id: e.previous_tab_id, pane: Box::new(e.pane), created_workspace: e.created_workspace, created_tab: e.created_tab, closed_workspace_id: e.closed_workspace_id, closed_tab_id: e.closed_tab_id },
        RuntimeEvent::PaneOutputChanged(e) => EventData::PaneOutputChanged { pane_id: e.pane_id, workspace_id: e.workspace_id, revision: e.revision },
        RuntimeEvent::PaneExited(e) => EventData::PaneExited { pane_id: e.pane_id, workspace_id: e.workspace_id },
        RuntimeEvent::PaneAgentDetected(e) => EventData::PaneAgentDetected { pane_id: e.pane_id, workspace_id: e.workspace_id, agent: e.agent },
        RuntimeEvent::PaneAgentStatusChanged(e) => EventData::PaneAgentStatusChanged { pane_id: e.pane_id, workspace_id: e.workspace_id, agent_status: e.agent_status, agent: e.agent, title: e.title, display_agent: e.display_agent, custom_status: e.custom_status, state_labels: e.state_labels },
    }
}

} // verus!
