//! The data that Herdr answers commands with. Paths are held as text.

use vstd::prelude::*;

verus! {

/// The Herdr sessions.
#[derive(Clone, Debug, PartialEq, Eq)]
pub struct SessionList {
    pub sessions: Vec<Session>,
}

/// A Herdr session. `is_default` is the JSON field `default`.
#[derive(Clone, Debug, PartialEq, Eq)]
pub struct Session {
    pub is_default: bool,
    pub name: String,
    pub running: bool,
    pub session_dir: String,
    pub socket_path: String,
}

/// What stopping a session answers.
#[derive(Clone, Debug, PartialEq, Eq)]
pub struct StopSessionResponse {
    pub stopped: bool,
    pub session: Session,
}

/// What deleting a session answers.
#[derive(Clone, Debug, PartialEq, Eq)]
pub struct DeleteSessionResponse {
    pub deleted: bool,
    pub session: Session,
}

/// The workspaces. `response_type` is the JSON field `type`, here and below.
#[derive(Clone, Debug, PartialEq, Eq)]
pub struct WorkspaceList {
    pub response_type: String,
    pub workspaces: Vec<Workspace>,
}

/// One workspace.
#[derive(Clone, Debug, PartialEq, Eq)]
pub struct WorkspaceInfoResponse {
    pub response_type: String,
    pub workspace: Workspace,
}

/// A created workspace, with its first tab and pane.
#[derive(Clone, Debug, PartialEq, Eq)]
pub struct WorkspaceCreateResponse {
    pub response_type: String,
    pub workspace: Workspace,
    pub tab: WorkspaceTab,
    pub root_pane: WorkspacePane,
}

/// What closing a workspace answers.
#[derive(Clone, Debug, PartialEq, Eq)]
pub struct WorkspaceCloseResponse {
    pub response_type: String,
}

/// A workspace.
#[derive(Clone, Debug, PartialEq, Eq)]
pub struct Workspace {
    pub workspace_id: String,
    pub active_tab_id: Option<String>,
    pub agent_status: String,
    pub focused: bool,
    pub label: String,
    pub number: u64,
    pub pane_count: u64,
    pub tab_count: u64,
    pub worktree: Option<WorkspaceWorktree>,
}

/// A tab of a workspace.
#[derive(Clone, Debug, PartialEq, Eq)]
pub struct WorkspaceTab {
    pub workspace_id: String,
    pub tab_id: String,
    pub agent_status: String,
    pub focused: bool,
    pub label: String,
    pub number: u64,
    pub pane_count: u64,
}

/// A pane of a workspace.
#[derive(Clone, Debug, PartialEq, Eq)]
pub struct WorkspacePane {
    pub workspace_id: String,
    pub tab_id: String,
    pub pane_id: String,
    pub terminal_id: String,
    pub agent_status: String,
    pub cwd: String,
    pub foreground_cwd: String,
    pub focused: bool,
    pub revision: u64,
}

/// The git worktree a workspace is checked out in.
#[derive(Clone, Debug, PartialEq, Eq)]
pub struct WorkspaceWorktree {
    pub checkout_path: String,
    pub is_linked_worktree: bool,
    pub repo_key: String,
    pub repo_name: String,
    pub repo_root: String,
}

/// The worktrees of a repository.
#[derive(Clone, Debug, PartialEq, Eq)]
pub struct WorktreeList {
    pub response_type: String,
    pub source: WorktreeSourceInfo,
    pub worktrees: Vec<Worktree>,
}

/// The repository that worktrees are listed for.
#[derive(Clone, Debug, PartialEq, Eq)]
pub struct WorktreeSourceInfo {
    pub repo_key: String,
    pub repo_name: String,
    pub repo_root: String,
    pub source_checkout_path: String,
    pub source_workspace_id: Option<String>,
}

/// A git worktree.
#[derive(Clone, Debug, PartialEq, Eq)]
pub struct Worktree {
    pub branch: Option<String>,
    pub is_bare: bool,
    pub is_detached: bool,
    pub is_linked_worktree: bool,
    pub is_prunable: bool,
    pub label: String,
    pub open_workspace_id: Option<String>,
    pub path: String,
}

/// A created worktree and the workspace opened for it.
#[derive(Clone, Debug, PartialEq, Eq)]
pub struct WorktreeCreateResponse {
    pub response_type: String,
    pub workspace: Workspace,
    pub tab: WorkspaceTab,
    pub root_pane: WorkspacePane,
    pub worktree: Worktree,
}

/// An opened worktree and its workspace.
#[derive(Clone, Debug, PartialEq, Eq)]
pub struct WorktreeOpenResponse {
    pub response_type: String,
    pub already_open: bool,
    pub workspace: Workspace,
    pub tab: WorkspaceTab,
    pub root_pane: WorkspacePane,
    pub worktree: Worktree,
}

/// What removing a worktree answers.
#[derive(Clone, Debug, PartialEq, Eq)]
pub struct WorktreeRemoveResponse {
    pub response_type: String,
    pub forced: bool,
    pub path: String,
    pub workspace_id: String,
}

/// The tabs.
#[derive(Clone, Debug, PartialEq, Eq)]
pub struct TabList {
    pub response_type: String,
    pub tabs: Vec<Tab>,
}

/// One tab.
#[derive(Clone, Debug, PartialEq, Eq)]
pub struct TabInfoResponse {
    pub response_type: String,
    pub tab: Tab,
}

/// A created tab and its first pane.
#[derive(Clone, Debug, PartialEq, Eq)]
pub struct TabCreateResponse {
    pub response_type: String,
    pub tab: Tab,
    pub root_pane: TabPane,
}

/// What closing a tab answers.
#[derive(Clone, Debug, PartialEq, Eq)]
pub struct TabCloseResponse {
    pub response_type: String,
}

/// A tab.
#[derive(Clone, Debug, PartialEq, Eq)]
pub struct Tab {
    pub workspace_id: String,
    pub tab_id: String,
    pub agent_status: String,
    pub focused: bool,
    pub label: String,
    pub number: u64,
    pub pane_count: u64,
}

/// A pane of a tab.
#[derive(Clone, Debug, PartialEq, Eq)]
pub struct TabPane {
    pub workspace_id: String,
    pub tab_id: String,
    pub pane_id: String,
    pub terminal_id: String,
    pub agent_status: String,
    pub cwd: String,
    pub foreground_cwd: String,
    pub focused: bool,
    pub revision: u64,
}

/// The panes.
#[derive(Clone, Debug, PartialEq, Eq)]
pub struct PaneList {
    pub response_type: String,
    pub panes: Vec<Pane>,
}

/// The current pane.
#[derive(Clone, Debug, PartialEq, Eq)]
pub struct PaneCurrentResponse {
    pub response_type: String,
    pub pane: Pane,
}

/// One pane.
#[derive(Clone, Debug, PartialEq, Eq)]
pub struct PaneInfoResponse {
    pub response_type: String,
    pub pane: Pane,
}

/// A pane.
#[derive(Clone, Debug, PartialEq, Eq)]
pub struct Pane {
    pub workspace_id: String,
    pub tab_id: String,
    pub pane_id: String,
    pub terminal_id: String,
    pub agent_status: String,
    pub cwd: String,
    pub foreground_cwd: String,
    pub focused: bool,
    pub revision: u64,
    pub agent: Option<String>,
    pub agent_session: Option<AgentSession>,
    pub label: Option<String>,
}

/// The agent session a pane runs.
#[derive(Clone, Debug, PartialEq, Eq)]
pub struct AgentSession {
    pub agent: String,
    pub kind: String,
    pub source: String,
    pub value: String,
}

/// A pane's rectangle, in cells.
#[derive(Clone, Debug, PartialEq)]
pub struct PaneRect {
    pub height: u64,
    pub width: u64,
    pub x: u64,
    pub y: u64,
}

/// A pane in a split layout.
#[derive(Clone, Debug, PartialEq)]
pub struct PaneSplitPane {
    pub focused: bool,
    pub pane_id: String,
    pub rect: PaneRect,
}

/// The processes of a pane.
#[derive(Clone, Debug, PartialEq)]
pub struct PaneProcessInfoResponse {
    pub response_type: String,
    pub process_info: ProcessInfo,
}

/// The shell and foreground processes of a pane.
#[derive(Clone, Debug, PartialEq)]
pub struct ProcessInfo {
    pub foreground_process_group_id: Option<u64>,
    pub foreground_processes: Vec<ProcessInfoProcess>,
    pub pane_id: String,
    pub shell_pid: Option<u64>,
}

/// A process.
#[derive(Clone, Debug, PartialEq)]
pub struct ProcessInfoProcess {
    pub argv: Vec<String>,
    pub argv0: Option<String>,
    pub cmdline: String,
    pub cwd: Option<String>,
    pub name: String,
    pub pid: u64,
}

/// What closing a pane answers.
#[derive(Clone, Debug, PartialEq, Eq)]
pub struct PaneCloseResponse {
    pub response_type: String,
}

/// The panes that run agents.
#[derive(Clone, Debug, PartialEq, Eq)]
pub struct AgentList {
    pub response_type: String,
    pub agents: Vec<Pane>,
}

/// One agent pane.
#[derive(Clone, Debug, PartialEq, Eq)]
pub struct AgentInfoResponse {
    pub response_type: String,
    pub agent: Pane,
}

/// What reading an agent pane answers.
#[derive(Clone, Debug, PartialEq, Eq)]
pub struct AgentReadResponse {
    pub response_type: String,
    pub read: PaneRead,
}

/// Text read from a pane.
#[derive(Clone, Debug, PartialEq, Eq)]
pub struct PaneRead {
    pub format: String,
    pub pane_id: String,
    pub revision: u64,
    pub source: String,
    pub tab_id: Option<String>,
    pub text: String,
    pub truncated: bool,
    pub workspace_id: String,
}

} // verus!
