use herdr_plugin::agent::{
    AgentExplainOptions, AgentReadOptions, AgentReadSource, AgentStartOptions, AgentWaitStatus,
    ReadFormat,
};
use herdr_plugin::client::{CommandLine, HerdrClient};
use herdr_plugin::pane::{
    Direction, PaneListOptions, PaneMoveDestination, PaneMoveOptions, PaneSelector,
    PaneSplitOptions, PaneZoomMode,
};
use herdr_plugin::plugin::{PluginInstallOptions, PluginListOptions};
use herdr_plugin::tab::{TabCreateOptions, TabListOptions};
use herdr_plugin::workspace::WorkspaceCreateOptions;
use herdr_plugin::worktree::{
    WorktreeCreateOptions, WorktreeListOptions, WorktreeOpenOptions, WorktreeOpenTarget,
    WorktreeSource,
};

fn args_text(command: &CommandLine) -> String {
    command.args().join(" ")
}

fn client() -> HerdrClient {
    HerdrClient::with_binary("/opt/herdr/bin/herdr".to_owned())
}

fn pane(id: &str) -> PaneSelector {
    PaneSelector::Pane(id.to_owned())
}

fn env_pair() -> Vec<(String, String)> {
    vec![("KEY".to_owned(), "VALUE".to_owned())]
}

#[test]
fn commands_run_the_client_binary() {
    let client = client();
    let command = client.workspace().list_command();

    assert_eq!(command.binary(), "/opt/herdr/bin/herdr");
    assert_eq!(client.binary(), "/opt/herdr/bin/herdr");
    assert_eq!(command.to_text(), "/opt/herdr/bin/herdr workspace list");
}

#[test]
fn client_from_bin_path_variable_defaults_to_herdr() {
    assert_eq!(HerdrClient::from_bin_path_var(None).binary(), "herdr");
    assert_eq!(
        HerdrClient::from_bin_path_var(Some("/custom/herdr".to_owned())).binary(),
        "/custom/herdr"
    );
}

#[test]
fn agent_read_commands_use_expected_arguments() {
    let client = client();
    let agent = client.agent();

    assert_eq!(args_text(&agent.list_command()), "agent list");
    assert_eq!(args_text(&agent.get_command("wT:p2")), "agent get wT:p2");
    assert_eq!(
        args_text(&agent.read_command(
            "wT:p2",
            AgentReadOptions {
                source: Some(AgentReadSource::Recent),
                lines: Some(2),
                format: Some(ReadFormat::Text),
                ansi: false,
            },
        )),
        "agent read wT:p2 --source recent --lines 2 --format text"
    );
    assert_eq!(
        args_text(&agent.explain_command(AgentExplainOptions::Target {
            target: "wT:p2".to_owned(),
            json: true,
            verbose: false,
        })),
        "agent explain wT:p2 --json"
    );
    assert_eq!(
        args_text(&agent.explain_command(AgentExplainOptions::File {
            path: "/tmp/out.txt".to_owned(),
            agent: "codex".to_owned(),
            json: true,
            verbose: false,
        })),
        "agent explain --file /tmp/out.txt --agent codex --json"
    );
}

#[test]
fn agent_mutating_command_lines() {
    let client = client();
    let agent = client.agent();

    assert_eq!(args_text(&agent.send_command("wT:p2", "hello")), "agent send wT:p2 hello");
    assert_eq!(args_text(&agent.rename_command("wT:p2", Some("neo"))), "agent rename wT:p2 neo");
    assert_eq!(args_text(&agent.rename_command("wT:p2", None)), "agent rename wT:p2 --clear");
    assert_eq!(args_text(&agent.focus_command("wT:p2")), "agent focus wT:p2");
    assert_eq!(
        args_text(&agent.wait_command("wT:p2", AgentWaitStatus::Idle, Some(100))),
        "agent wait wT:p2 --status idle --timeout 100"
    );
    assert_eq!(args_text(&agent.attach_command("wT:p2", true)), "agent attach wT:p2 --takeover");
    assert_eq!(
        args_text(&agent.start_command(AgentStartOptions {
            name: "codex".to_owned(),
            cwd: Some("/repo".to_owned()),
            workspace_id: Some("wT".to_owned()),
            tab_id: Some("wT:t2".to_owned()),
            split: Some(Direction::Right),
            env: env_pair(),
            focus: Some(false),
            argv: vec!["echo".to_owned(), "hi".to_owned()],
        })),
        "agent start codex --cwd /repo --workspace wT --tab wT:t2 --split right --env KEY=VALUE --no-focus -- echo hi"
    );
}

#[test]
fn pane_read_command_lines() {
    let client = client();
    let panes = client.pane();

    assert_eq!(
        args_text(&panes.list_command(PaneListOptions { workspace_id: Some("wT".to_owned()) })),
        "pane list --workspace wT"
    );
    assert_eq!(args_text(&panes.current_command(PaneSelector::Current)), "pane current --current");
    assert_eq!(args_text(&panes.get_command("wT:p1")), "pane get wT:p1");
    assert_eq!(args_text(&panes.layout_command(pane("wT:p1"))), "pane layout --pane wT:p1");
    assert_eq!(
        args_text(&panes.process_info_command(pane("wT:p1"))),
        "pane process-info --pane wT:p1"
    );
}

#[test]
fn pane_directional_and_mutating_command_lines() {
    let client = client();
    let panes = client.pane();

    assert_eq!(
        args_text(&panes.neighbor_command(Direction::Right, pane("wT:p1"))),
        "pane neighbor --direction right --pane wT:p1"
    );
    assert_eq!(args_text(&panes.edges_command(pane("wT:p1"))), "pane edges --pane wT:p1");
    assert_eq!(
        args_text(&panes.focus_command(Direction::Left, pane("wT:p1"))),
        "pane focus --direction left --pane wT:p1"
    );
    assert_eq!(
        args_text(&panes.resize_command(Direction::Right, Some("0.25".to_owned()), pane("wT:p1"))),
        "pane resize --direction right --amount 0.25 --pane wT:p1"
    );
    assert_eq!(
        args_text(&panes.zoom_command(pane("wT:p1"), PaneZoomMode::Toggle)),
        "pane zoom wT:p1 --toggle"
    );
    assert_eq!(args_text(&panes.rename_command("wT:p1", Some("probe"))), "pane rename wT:p1 probe");
    assert_eq!(args_text(&panes.rename_command("wT:p1", None)), "pane rename wT:p1 --clear");
    assert_eq!(args_text(&panes.close_command("wT:p1")), "pane close wT:p1");
}

#[test]
fn pane_split_swap_and_move_command_lines() {
    let client = client();
    let panes = client.pane();

    assert_eq!(
        args_text(&panes.split_command(PaneSplitOptions {
            pane: pane("wT:p1"),
            direction: Direction::Down,
            ratio: Some("0.5".to_owned()),
            cwd: Some("/tmp".to_owned()),
            env: env_pair(),
            focus: Some(false),
        })),
        "pane split wT:p1 --direction down --ratio 0.5 --cwd /tmp --env KEY=VALUE --no-focus"
    );
    assert_eq!(
        args_text(&panes.swap_direction_command(Direction::Up, pane("wT:p2"))),
        "pane swap --direction up --pane wT:p2"
    );
    assert_eq!(
        args_text(&panes.swap_panes_command("wT:p1", "wT:p2")),
        "pane swap --source-pane wT:p1 --target-pane wT:p2"
    );
    assert_eq!(
        args_text(&panes.move_pane_command(PaneMoveOptions {
            pane_id: "wT:p2".to_owned(),
            destination: PaneMoveDestination::ExistingTab {
                tab_id: "wT:t1".to_owned(),
                split: Direction::Right,
                target_pane_id: Some("wT:p1".to_owned()),
                ratio: Some("0.4".to_owned()),
            },
            focus: Some(false),
        })),
        "pane move wT:p2 --tab wT:t1 --split right --target-pane wT:p1 --ratio 0.4 --no-focus"
    );
    assert_eq!(
        args_text(&panes.move_pane_command(PaneMoveOptions {
            pane_id: "wT:p2".to_owned(),
            destination: PaneMoveDestination::NewTab {
                workspace_id: Some("wT".to_owned()),
                label: Some("moved".to_owned()),
            },
            focus: Some(true),
        })),
        "pane move wT:p2 --new-tab --workspace wT --label moved --focus"
    );
    assert_eq!(
        args_text(&panes.move_pane_command(PaneMoveOptions {
            pane_id: "wT:p2".to_owned(),
            destination: PaneMoveDestination::NewWorkspace {
                label: Some("ws".to_owned()),
                tab_label: Some("tab".to_owned()),
            },
            focus: Some(false),
        })),
        "pane move wT:p2 --new-workspace --label ws --tab-label tab --no-focus"
    );
}

#[test]
fn session_command_lines() {
    let client = client();
    let sessions = client.session();

    assert_eq!(args_text(&sessions.list_command()), "session list --json");
    assert_eq!(args_text(&sessions.attach_command("my-session")), "session attach my-session");
    assert_eq!(args_text(&sessions.stop_command("my-session")), "session stop my-session --json");
    assert_eq!(args_text(&sessions.delete_command("missing")), "session delete missing --json");
}

#[test]
fn plugin_management_command_lines() {
    let client = client();
    let plugins = client.plugin();

    assert_eq!(
        args_text(&plugins.install_command(PluginInstallOptions {
            source: "owner/repo/tool".to_owned(),
            requested_ref: Some("main".to_owned()),
            yes: true,
        })),
        "plugin install owner/repo/tool --ref main --yes"
    );
    assert_eq!(
        args_text(&plugins.list_command(PluginListOptions {
            plugin_id: Some("example.tool".to_owned()),
        })),
        "plugin list --json --plugin example.tool"
    );
    assert_eq!(args_text(&plugins.enable_command("example.tool")), "plugin enable example.tool");
    assert_eq!(args_text(&plugins.disable_command("example.tool")), "plugin disable example.tool");
    assert_eq!(
        args_text(&plugins.uninstall_command("example.tool")),
        "plugin uninstall example.tool"
    );
}

#[test]
fn tab_command_lines() {
    let client = client();
    let tabs = client.tab();

    assert_eq!(
        args_text(&tabs.list_command(TabListOptions { workspace_id: Some("wT".to_owned()) })),
        "tab list --workspace wT"
    );
    assert_eq!(
        args_text(&tabs.create_command(TabCreateOptions {
            workspace_id: Some("wT".to_owned()),
            cwd: Some("/tmp".to_owned()),
            label: Some("probe".to_owned()),
            env: env_pair(),
            focus: Some(false),
        })),
        "tab create --workspace wT --cwd /tmp --label probe --env KEY=VALUE --no-focus"
    );
    assert_eq!(args_text(&tabs.get_command("wT:t4")), "tab get wT:t4");
    assert_eq!(args_text(&tabs.focus_command("wT:t4")), "tab focus wT:t4");
    assert_eq!(args_text(&tabs.rename_command("wT:t4", "renamed")), "tab rename wT:t4 renamed");
    assert_eq!(args_text(&tabs.close_command("wT:t4")), "tab close wT:t4");
}

#[test]
fn workspace_command_lines() {
    let client = client();
    let workspaces = client.workspace();

    assert_eq!(args_text(&workspaces.list_command()), "workspace list");
    assert_eq!(
        args_text(&workspaces.create_command(WorkspaceCreateOptions {
            cwd: Some("/tmp".to_owned()),
            label: Some("probe".to_owned()),
            env: env_pair(),
            focus: Some(false),
        })),
        "workspace create --cwd /tmp --label probe --env KEY=VALUE --no-focus"
    );
    assert_eq!(args_text(&workspaces.get_command("wW")), "workspace get wW");
    assert_eq!(args_text(&workspaces.focus_command("wW")), "workspace focus wW");
    assert_eq!(
        args_text(&workspaces.rename_command("wW", "renamed")),
        "workspace rename wW renamed"
    );
    assert_eq!(args_text(&workspaces.close_command("wW")), "workspace close wW");
}

#[test]
fn worktree_command_lines() {
    let client = client();
    let worktrees = client.worktree();

    assert_eq!(
        args_text(&worktrees.list_command(WorktreeListOptions {
            source: Some(WorktreeSource::Cwd("/Users/newt/dev/herdr".to_owned())),
        })),
        "worktree list --cwd /Users/newt/dev/herdr --json"
    );
    assert_eq!(
        args_text(&worktrees.create_command(WorktreeCreateOptions {
            source: Some(WorktreeSource::Cwd("/Users/newt/dev/herdr".to_owned())),
            branch: Some("probe".to_owned()),
            base: Some("master".to_owned()),
            path: Some("/tmp/probe".to_owned()),
            label: Some("sdk-probe".to_owned()),
            focus: Some(false),
        })),
        "worktree create --cwd /Users/newt/dev/herdr --branch probe --base master --path /tmp/probe --label sdk-probe --no-focus --json"
    );
    assert_eq!(
        args_text(&worktrees.open_command(WorktreeOpenOptions {
            source: Some(WorktreeSource::Workspace("wX".to_owned())),
            target: WorktreeOpenTarget::Branch("probe".to_owned()),
            label: Some("sdk-probe-open".to_owned()),
            focus: Some(true),
        })),
        "worktree open --workspace wX --branch probe --label sdk-probe-open --focus --json"
    );
    assert_eq!(
        args_text(&worktrees.remove_command("wY", true)),
        "worktree remove --workspace wY --force --json"
    );
    assert_eq!(
        args_text(&worktrees.remove_command("missing", false)),
        "worktree remove --workspace missing --json"
    );
}
