use std::sync::Arc;

use herdr_plugin::builder::{AppBuilder, OneShotRuntime, RunSettings};
use herdr_plugin::client::{parse_command_error, HerdrClient};
use herdr_plugin::config::{config_text, resolve_config_path, ConfigFile};
use herdr_plugin::dispatcher::EventDispatcher;
use herdr_plugin::env::{EventSourceOutput, HerdrEnv, HerdrEnvVars, PluginInvocationContext};
use herdr_plugin::error::{ConfigError, HerdrCommandError, RuntimeError};
use herdr_plugin::events::{AgentStatus, EventData, EventEnvelope, EventKind};
use herdr_plugin::lifecycle::{Initialization, Lifecycle, LifecycleAction, LifecycleInput, RuntimeMode};
use herdr_plugin::logger::Logger;
use herdr_plugin::paths::join_path;
use herdr_plugin::text::u64_to_decimal;

const TAB_CREATED: u64 = 1;
const PANE_FOCUSED: u64 = 2;

fn record_tab(log: &mut Vec<String>, id: u64) {
    log.push(format!("tab:{id}"));
}

fn record_tab_again(log: &mut Vec<String>, id: u64) {
    log.push(format!("tab-again:{id}"));
}

fn record_pane(log: &mut Vec<String>, id: u64) {
    log.push(format!("pane:{id}"));
}

#[test]
fn dispatch_plan_runs_handlers_for_the_event_type_in_registration_order() {
    let mut dispatcher: EventDispatcher<fn(&mut Vec<String>, u64)> = EventDispatcher::new();
    dispatcher.on(TAB_CREATED, record_tab);
    dispatcher.on(PANE_FOCUSED, record_pane);
    dispatcher.on(TAB_CREATED, record_tab_again);

    let mut log = Vec::new();
    for i in dispatcher.dispatch_plan(TAB_CREATED) {
        (dispatcher.handler(i))(&mut log, 1);
    }
    for i in dispatcher.dispatch_plan(PANE_FOCUSED) {
        (dispatcher.handler(i))(&mut log, 9);
    }

    assert_eq!(log, ["tab:1", "tab-again:1", "pane:9"]);
    assert_eq!(dispatcher.dispatch_plan(TAB_CREATED), vec![0, 2]);
    assert!(dispatcher.dispatch_plan(99).is_empty());
    assert_eq!(dispatcher.len(), 3);
}

fn set(value: &str) -> Option<String> {
    Some(value.to_owned())
}

fn sample_context() -> PluginInvocationContext {
    PluginInvocationContext {
        workspace_id: set("w1"),
        workspace_label: set("Workspace"),
        workspace_cwd: set("/repo"),
        worktree: None,
        tab_id: set("w1:t1"),
        tab_label: set("Tab"),
        focused_pane_id: set("w1:p1"),
        focused_pane_cwd: set("/repo"),
        focused_pane_agent: set("codex"),
        focused_pane_status: Some(AgentStatus::Working),
        selected_text: set("hello"),
        invocation_source: set("event"),
        correlation_id: set("corr-1"),
        clicked_url: set("https://example.com"),
        link_handler_id: set("open-link"),
    }
}

fn new_tab_envelope() -> EventEnvelope {
    EventEnvelope {
        event: EventKind::TabRenamed,
        data: EventData::TabRenamed {
            tab_id: "w1:t1".to_owned(),
            workspace_id: "w1".to_owned(),
            label: "New tab".to_owned(),
        },
    }
}

#[test]
fn env_from_vars_reads_herdr_runtime_environment() {
    let vars = HerdrEnvVars {
        herdr_env: set("1"),
        socket_path: set("/tmp/herdr.sock"),
        bin_path: set("/opt/herdr/bin/herdr"),
        plugin_id: set("sample-plugin"),
        plugin_root: set("/plugins/sample"),
        plugin_config_dir: set("/config/sample"),
        plugin_state_dir: set("/state/sample"),
        plugin_context_json: set("{}"),
        workspace_id: set("w1"),
        tab_id: set("w1:t1"),
        pane_id: set("w1:p1"),
        plugin_action_id: set("action-1"),
        plugin_event: set("tab.renamed"),
        plugin_event_json: set("{}"),
        plugin_entrypoint_id: set("pane-command"),
        plugin_clicked_url: None,
        plugin_link_handler_id: None,
    };

    let env = HerdrEnv::from_vars(vars, Some(sample_context()), Some(new_tab_envelope()));

    assert!(env.is_herdr);
    assert_eq!(env.socket_path.as_deref(), Some("/tmp/herdr.sock"));
    assert_eq!(env.bin_path.as_deref(), Some("/opt/herdr/bin/herdr"));
    assert_eq!(env.plugin_id.as_deref(), Some("sample-plugin"));
    assert_eq!(env.plugin_root.as_deref(), Some("/plugins/sample"));
    assert_eq!(env.plugin_config_dir.as_deref(), Some("/config/sample"));
    assert_eq!(env.plugin_state_dir.as_deref(), Some("/state/sample"));
    assert_eq!(env.workspace_id.as_deref(), Some("w1"));
    assert_eq!(env.tab_id.as_deref(), Some("w1:t1"));
    assert_eq!(env.pane_id.as_deref(), Some("w1:p1"));
    assert_eq!(env.plugin_action_id.as_deref(), Some("action-1"));
    assert_eq!(env.plugin_event.as_deref(), Some("tab.renamed"));
    assert_eq!(env.plugin_entrypoint_id.as_deref(), Some("pane-command"));
    let context = env.plugin_context.clone().unwrap();
    assert_eq!(context.workspace_id.as_deref(), Some("w1"));
    assert_eq!(context.focused_pane_agent.as_deref(), Some("codex"));
    assert_eq!(context.selected_text.as_deref(), Some("hello"));
    assert_eq!(context.clicked_url.as_deref(), Some("https://example.com"));
    assert_eq!(env.plugin_event_json.clone().unwrap().event, EventKind::TabRenamed);
    assert_eq!(env.event_kind(), Some(EventKind::TabRenamed));
}

#[test]
fn empty_variables_count_as_absent() {
    let vars = HerdrEnvVars {
        herdr_env: set("0"),
        socket_path: set(""),
        plugin_context_json: set(""),
        ..HerdrEnvVars::default()
    };

    let env = HerdrEnv::from_vars(vars, Some(sample_context()), None);

    assert!(!env.is_herdr);
    assert_eq!(env.socket_path, None);
    assert_eq!(env.plugin_context, None);
    assert!(!env.is_event());
    assert!(!env.is_action());
}

#[test]
fn env_exposes_invocation_helpers_and_paths() {
    let vars = HerdrEnvVars {
        plugin_config_dir: set("/tmp/herdr-config"),
        plugin_state_dir: set("/tmp/herdr-state"),
        plugin_action_id: set("refresh"),
        plugin_event_json: set("{}"),
        ..HerdrEnvVars::default()
    };
    let env = HerdrEnv::from_vars(vars, None, Some(new_tab_envelope()));

    assert!(env.is_event());
    assert!(env.is_action());
    assert_eq!(env.event_kind(), Some(EventKind::TabRenamed));
    assert_eq!(env.config_path("config.toml").as_deref(), Some("/tmp/herdr-config/config.toml"));
    assert_eq!(env.state_path("state.json").as_deref(), Some("/tmp/herdr-state/state.json"));
}

#[test]
fn join_path_follows_path_join() {
    assert_eq!(join_path("/tmp/dir", "config.toml"), "/tmp/dir/config.toml");
    assert_eq!(join_path("/tmp/dir/", "config.toml"), "/tmp/dir/config.toml");
    assert_eq!(join_path("/tmp/dir", "/etc/config.toml"), "/etc/config.toml");
    assert_eq!(join_path("", "config.toml"), "config.toml");
}

fn env_with_config_dir(dir: Option<&str>) -> HerdrEnv {
    let vars = HerdrEnvVars {
        plugin_config_dir: dir.map(|d| d.to_owned()),
        ..HerdrEnvVars::default()
    };
    HerdrEnv::from_vars(vars, None, None)
}

#[test]
fn config_paths_resolve_under_the_config_directory() {
    let env = env_with_config_dir(Some("/config/sample"));

    assert_eq!(resolve_config_path(&env, "settings.toml"), Ok("/config/sample/settings.toml".to_owned()));
    assert_eq!(resolve_config_path(&env, "/etc/plugin.toml"), Ok("/etc/plugin.toml".to_owned()));
    assert_eq!(
        resolve_config_path(&env_with_config_dir(None), "config.toml"),
        Err(ConfigError::MissingConfigDir)
    );
    assert_eq!(
        resolve_config_path(&env_with_config_dir(None), "/etc/plugin.toml"),
        Ok("/etc/plugin.toml".to_owned())
    );
}

#[test]
fn missing_config_file_uses_the_default_and_unreadable_one_is_an_error() {
    let path = "/config/sample/config.toml".to_owned();

    assert_eq!(config_text(path.clone(), ConfigFile::NotFound), Ok(None));
    assert_eq!(
        config_text(path.clone(), ConfigFile::Contents("label_prefix = \"cfg\"".to_owned())),
        Ok(Some("label_prefix = \"cfg\"".to_owned()))
    );
    let error = config_text(path.clone(), ConfigFile::Unreadable("permission denied".to_owned())).unwrap_err();
    assert_eq!(error, ConfigError::Read { path: path.clone(), detail: "permission denied".to_owned() });
    assert_eq!(error.message(), "failed to read config file at /config/sample/config.toml");
}

#[test]
fn error_messages_are_what_error_handlers_receive() {
    assert_eq!(RuntimeError::Setup { detail: "setup failed".to_owned() }.message(), "setup callback failed");
    assert_eq!(RuntimeError::Teardown { detail: String::new() }.message(), "teardown callback failed");
    assert_eq!(
        RuntimeError::Config { source: ConfigError::MissingConfigDir }.message(),
        "failed to load plugin config"
    );
    assert_eq!(
        ConfigError::MissingConfigDir.message(),
        "HERDR_PLUGIN_CONFIG_DIR is required to load a relative config path"
    );
}

#[test]
fn plugin_plugin_surface_reexports_herdr_client_for_app_builders() {
    let client = Arc::new(HerdrClient::with_binary("/definitely/missing/herdr".to_owned()));
    let builder = AppBuilder::new().with_client(client);

    assert_eq!(builder.client.unwrap().binary(), "/definitely/missing/herdr");
}

#[derive(Debug, Default, PartialEq)]
struct TestConfig {
    label_prefix: String,
    debounce_ms: u64,
}

#[test]
fn builder_keeps_settings_across_steps() {
    let builder = AppBuilder::new()
        .with_state(7usize)
        .with_config_file::<TestConfig>("settings.toml")
        .with_herdr_bin_path("/opt/herdr/bin/herdr")
        .runtime(OneShotRuntime::new());

    assert_eq!(builder.state, 7);
    assert_eq!(builder.config, TestConfig::default());
    assert_eq!(builder.config_path.as_deref(), Some("settings.toml"));
    assert_eq!(builder.herdr_bin_path_override.as_deref(), Some("/opt/herdr/bin/herdr"));
    assert_eq!(builder.client.unwrap().binary(), "/opt/herdr/bin/herdr");

    let default_config = AppBuilder::new().with_config::<TestConfig>();
    assert_eq!(default_config.config_path.as_deref(), Some("config.toml"));
}

fn output(env: HerdrEnv) -> EventSourceOutput {
    EventSourceOutput { env, event: None }
}

#[test]
fn initialize_uses_the_override_binary_and_resolves_config() {
    let vars = HerdrEnvVars {
        bin_path: set("/env/herdr"),
        plugin_config_dir: set("/config/sample"),
        ..HerdrEnvVars::default()
    };
    let env = HerdrEnv::from_vars(vars, None, None);
    let settings = RunSettings {
        client: None,
        config_path: set("config.toml"),
        herdr_bin_path_override: set("/override/herdr"),
    };

    let services = settings.initialize(output(env), set("/var/herdr")).unwrap();

    assert_eq!(services.env.bin_path.as_deref(), Some("/override/herdr"));
    assert_eq!(services.client.binary(), "/override/herdr");
    assert_eq!(services.config_file.as_deref(), Some("/config/sample/config.toml"));
}

#[test]
fn initialize_picks_the_client_from_settings_env_or_variable() {
    let given = Arc::new(HerdrClient::with_binary("/given/herdr".to_owned()));
    let settings = RunSettings { client: Some(given), config_path: None, herdr_bin_path_override: None };
    let env = HerdrEnv::from_vars(HerdrEnvVars { bin_path: set("/env/herdr"), ..HerdrEnvVars::default() }, None, None);
    assert_eq!(settings.initialize(output(env.clone()), None).unwrap().client.binary(), "/given/herdr");

    let settings = RunSettings { client: None, config_path: None, herdr_bin_path_override: None };
    assert_eq!(settings.initialize(output(env), None).unwrap().client.binary(), "/env/herdr");

    let bare = HerdrEnv::from_vars(HerdrEnvVars::default(), None, None);
    let settings = RunSettings { client: None, config_path: None, herdr_bin_path_override: None };
    assert_eq!(settings.initialize(output(bare.clone()), None).unwrap().client.binary(), "herdr");
    let settings = RunSettings { client: None, config_path: None, herdr_bin_path_override: None };
    assert_eq!(
        settings.initialize(output(bare), set("/var/herdr")).unwrap().client.binary(),
        "/var/herdr"
    );
}

#[test]
fn initialize_fails_for_a_relative_config_without_a_config_dir() {
    let env = HerdrEnv::from_vars(HerdrEnvVars::default(), None, None);
    let settings = RunSettings { client: None, config_path: set("config.toml"), herdr_bin_path_override: None };

    let error = settings.initialize(output(env), None).err().unwrap();

    assert_eq!(error, RuntimeError::Config { source: ConfigError::MissingConfigDir });
}

#[test]
fn logger_lines_carry_level_and_plugin_id() {
    let env = HerdrEnv::from_vars(HerdrEnvVars { plugin_id: set("sample-plugin"), ..HerdrEnvVars::default() }, None, None);
    let logger = Logger::new(&env);
    assert_eq!(logger.info("setup"), "[INFO] sample-plugin: setup");
    assert_eq!(logger.warn("slow"), "[WARN] sample-plugin: slow");
    assert_eq!(logger.error("boom"), "[ERROR] sample-plugin: boom");

    let anonymous = HerdrEnv::from_vars(HerdrEnvVars::default(), None, None);
    assert_eq!(Logger::new(&anonymous).info("hi"), "[INFO] herdr-plugin: hi");
}

#[test]
fn u64_to_decimal_writes_base_ten() {
    assert_eq!(u64_to_decimal(0), "0");
    assert_eq!(u64_to_decimal(100), "100");
    assert_eq!(u64_to_decimal(u64::MAX), "18446744073709551615");
}

#[test]
fn command_errors_prefer_the_json_body_then_stderr_then_stdout() {
    let body = HerdrCommandError { code: "pane_not_found".to_owned(), message: "pane missing not found".to_owned() };
    assert_eq!(parse_command_error(b"{}", b"", Some(body.clone())), body);
    assert_eq!(
        parse_command_error(b"out", b"  boom \n", None),
        HerdrCommandError { code: "command_failed".to_owned(), message: "boom".to_owned() }
    );
    assert_eq!(
        parse_command_error(b" plain output\n", b" \n", None),
        HerdrCommandError { code: "command_failed".to_owned(), message: "plain output".to_owned() }
    );
}

fn begin_run(mode: RuntimeMode, socket_path: Option<String>, pending: Vec<usize>) -> Lifecycle {
    let run = Lifecycle::new(mode, 2, 1);
    let (run, action) = run.step(LifecycleInput::Begin);
    assert!(matches!(action, LifecycleAction::LoadEnv));
    let (run, action) = run.step(LifecycleInput::EnvLoaded(Ok(())));
    assert!(matches!(action, LifecycleAction::Initialize));
    let (run, action) = run.step(LifecycleInput::Initialized(Ok(Initialization { socket_path, pending })));
    assert!(matches!(action, LifecycleAction::RunSetup(0)));
    let (run, action) = run.step(LifecycleInput::SetupFinished(Ok(())));
    assert!(matches!(action, LifecycleAction::RunSetup(1)));
    run
}

#[test]
fn one_shot_run_sets_up_dispatches_then_tears_down() {
    let run = begin_run(RuntimeMode::OneShot, None, vec![0, 2]);
    let (run, action) = run.step(LifecycleInput::SetupFinished(Ok(())));
    assert!(matches!(action, LifecycleAction::RunHandler(0)));
    let (run, action) = run.step(LifecycleInput::HandlerFinished);
    assert!(matches!(action, LifecycleAction::RunHandler(2)));
    let (run, action) = run.step(LifecycleInput::HandlerFinished);
    assert!(matches!(action, LifecycleAction::RunTeardown(0)));
    let (run, action) = run.step(LifecycleInput::TeardownFinished(Ok(())));
    assert!(matches!(action, LifecycleAction::Return(Ok(()))));
    assert!(run.is_finished());
}

#[test]
fn one_shot_run_without_event_goes_from_setup_to_teardown() {
    let run = begin_run(RuntimeMode::OneShot, None, vec![]);
    let (run, action) = run.step(LifecycleInput::SetupFinished(Ok(())));
    assert!(matches!(action, LifecycleAction::RunTeardown(0)));
    let (_, action) = run.step(LifecycleInput::TeardownFinished(Ok(())));
    assert!(matches!(action, LifecycleAction::Return(Ok(()))));
}

#[test]
fn on_error_runs_before_a_failed_setup_is_returned() {
    let run = begin_run(RuntimeMode::OneShot, None, vec![0]);
    let (run, action) = run.step(LifecycleInput::SetupFinished(Err("setup failed".to_owned())));
    assert!(matches!(action, LifecycleAction::RunErrorHandlers));
    let reported = run.reported_error().unwrap().message();
    assert_eq!(reported, "setup callback failed");
    let (run, action) = run.step(LifecycleInput::ErrorsReported);
    assert!(matches!(
        action,
        LifecycleAction::Return(Err(RuntimeError::Setup { ref detail })) if detail == "setup failed"
    ));
    assert!(run.is_finished());
}

#[test]
fn invalid_event_json_is_reported_before_it_is_returned() {
    let run = Lifecycle::new(RuntimeMode::OneShot, 1, 1);
    let (run, _) = run.step(LifecycleInput::Begin);
    let error = RuntimeError::InvalidEventJson { json: "not-json".to_owned(), detail: "expected value".to_owned() };
    let (run, action) = run.step(LifecycleInput::EnvLoaded(Err(error.clone())));
    assert!(matches!(action, LifecycleAction::RunErrorHandlers));
    assert_eq!(run.reported_error().unwrap().message(), "invalid HERDR_PLUGIN_EVENT_JSON");
    let (run, action) = run.step(LifecycleInput::ErrorsReported);
    assert!(matches!(action, LifecycleAction::Return(Err(ref e)) if *e == error));
    assert!(run.is_finished());
}

#[test]
fn config_error_is_reported_before_it_is_returned() {
    let run = Lifecycle::new(RuntimeMode::OneShot, 0, 0);
    let (run, _) = run.step(LifecycleInput::Begin);
    let (run, _) = run.step(LifecycleInput::EnvLoaded(Ok(())));
    let error = RuntimeError::Config { source: ConfigError::Parse { path: "/c/config.toml".to_owned(), detail: "bad".to_owned() } };
    let (run, action) = run.step(LifecycleInput::Initialized(Err(error.clone())));
    assert!(matches!(action, LifecycleAction::RunErrorHandlers));
    let (_, action) = run.step(LifecycleInput::ErrorsReported);
    assert!(matches!(action, LifecycleAction::Return(Err(ref e)) if *e == error));
}

#[test]
fn socket_run_serves_until_stopped_then_tears_down() {
    let run = begin_run(RuntimeMode::Socket, set("/tmp/herdr.sock"), vec![]);
    let (run, action) = run.step(LifecycleInput::SetupFinished(Ok(())));
    assert!(matches!(action, LifecycleAction::Connect(ref path) if path == "/tmp/herdr.sock"));
    let (run, action) = run.step(LifecycleInput::Connected(Ok(())));
    assert!(matches!(action, LifecycleAction::Listen));
    let (run, action) = run.step(LifecycleInput::RequestReceived);
    assert!(matches!(action, LifecycleAction::ForwardRequest));
    let (run, action) = run.step(LifecycleInput::StopRequested);
    assert!(matches!(action, LifecycleAction::RunTeardown(0)));
    let (run, action) = run.step(LifecycleInput::TeardownFinished(Ok(())));
    assert!(matches!(action, LifecycleAction::Return(Ok(()))));
    assert!(run.is_finished());
}

#[test]
fn socket_run_without_socket_path_reports_the_error() {
    let run = begin_run(RuntimeMode::Socket, None, vec![]);
    let (run, action) = run.step(LifecycleInput::SetupFinished(Ok(())));
    assert!(matches!(action, LifecycleAction::RunErrorHandlers));
    let (run, action) = run.step(LifecycleInput::ErrorsReported);
    assert!(matches!(action, LifecycleAction::Return(Err(RuntimeError::MissingSocketPath))));
    assert!(run.is_finished());
}

#[test]
fn socket_connect_failure_is_reported_then_returned() {
    let run = begin_run(RuntimeMode::Socket, set("/tmp/herdr.sock"), vec![]);
    let (run, _) = run.step(LifecycleInput::SetupFinished(Ok(())));
    let error = RuntimeError::SocketIo { path: "/tmp/herdr.sock".to_owned(), detail: "refused".to_owned() };
    let (run, action) = run.step(LifecycleInput::Connected(Err(error.clone())));
    assert!(matches!(action, LifecycleAction::RunErrorHandlers));
    let (_, action) = run.step(LifecycleInput::ErrorsReported);
    assert!(matches!(action, LifecycleAction::Return(Err(ref e)) if *e == error));
}

#[test]
fn socket_stream_error_is_reported_then_returned() {
    let run = begin_run(RuntimeMode::Socket, set("/tmp/herdr.sock"), vec![]);
    let (run, _) = run.step(LifecycleInput::SetupFinished(Ok(())));
    let (run, _) = run.step(LifecycleInput::Connected(Ok(())));
    let error = RuntimeError::SocketIo { path: "/tmp/herdr.sock".to_owned(), detail: "reset".to_owned() };
    let (run, action) = run.step(LifecycleInput::StreamItem(Err(error.clone())));
    assert!(matches!(action, LifecycleAction::RunErrorHandlers));
    assert_eq!(run.reported_error(), Some(&error));
    let (run, action) = run.step(LifecycleInput::ErrorsReported);
    assert!(matches!(action, LifecycleAction::Return(Err(ref e)) if *e == error));
    assert!(run.is_finished());
}
