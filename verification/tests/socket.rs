use herdr_plugin::error::RuntimeError;
use herdr_plugin::events::{EventData, EventEnvelope, EventKind, RuntimeEvent, TabRenamed};
use herdr_plugin::json::{get, JsonMember, JsonValue};
use herdr_plugin::reader::{
    command_result, CommandExchange, ReaderAction, ReaderInput, ReaderPhase, SocketReader,
};
use herdr_plugin::socket::{
    default_socket_subscriptions, socket_subscribe_request, subscriptions,
    validate_subscription_ack, ParsedJson, SocketSubscription,
};
use herdr_plugin::agent::{socket_start, AgentStartOptions};
use herdr_plugin::pane::{socket_move_pane, Direction, PaneMoveDestination, PaneMoveOptions};
use herdr_plugin::services::{
    socket_layout_set_split_ratio, socket_notification_show, LayoutSetSplitRatioOptions,
    NotificationShowOptions, NotificationSound,
};
use herdr_plugin::tab::socket_move_tab;
use herdr_plugin::workspace::{socket_create, WorkspaceCreateOptions};

fn text(s: &str) -> JsonValue {
    JsonValue::Text(s.to_owned())
}

fn obj(members: Vec<(&str, JsonValue)>) -> JsonValue {
    JsonValue::Object(
        members
            .into_iter()
            .map(|(key, value)| JsonMember { key: key.to_owned(), value })
            .collect(),
    )
}

fn ack(value: JsonValue, compact: &str) -> Option<(String, Result<ParsedJson, String>)> {
    Some((
        compact.to_owned(),
        Ok(ParsedJson { value, compact: compact.to_owned() }),
    ))
}

fn started_ack() -> Option<(String, Result<ParsedJson, String>)> {
    ack(
        obj(vec![
            ("id", text("herdr-plugin:events")),
            ("result", obj(vec![("type", text("subscription_started"))])),
        ]),
        r#"{"id":"herdr-plugin:events","result":{"type":"subscription_started"}}"#,
    )
}

#[test]
fn workspace_create_request_carries_the_options_that_are_set() {
    let request = socket_create(WorkspaceCreateOptions {
        cwd: Some("/tmp".to_owned()),
        label: Some("probe".to_owned()),
        env: vec![("KEY".to_owned(), "VALUE".to_owned())],
        focus: Some(false),
    });

    assert_eq!(request.method, "workspace.create");
    assert_eq!(request.id, "herdr-plugin:workspace:create");
    assert_eq!(
        request.params,
        obj(vec![
            ("cwd", text("/tmp")),
            ("label", text("probe")),
            ("env", obj(vec![("KEY", text("VALUE"))])),
            ("focus", JsonValue::Bool(false)),
        ])
    );
}

#[test]
fn workspace_create_request_leaves_out_unset_options() {
    let request = socket_create(WorkspaceCreateOptions {
        cwd: None,
        label: None,
        env: vec![],
        focus: None,
    });

    assert_eq!(request.params, obj(vec![]));
}

#[test]
fn subscribe_request_uses_configured_event_subscriptions() {
    let subs = subscriptions(vec![EventKind::TabRenamed]);
    let request = socket_subscribe_request(&subs);

    assert_eq!(
        request,
        obj(vec![
            ("id", text("herdr-plugin:events")),
            ("method", text("events.subscribe")),
            (
                "params",
                obj(vec![(
                    "subscriptions",
                    JsonValue::Array(vec![obj(vec![("type", text("tab.renamed"))])]),
                )]),
            ),
        ])
    );
}

#[test]
fn default_subscriptions_leave_out_output_and_agent_status_changes() {
    let subs = default_socket_subscriptions();

    assert_eq!(subs.len(), 17);
    assert_eq!(subs[0], SocketSubscription::Event(EventKind::WorkspaceCreated));
    assert_eq!(subs[16], SocketSubscription::Event(EventKind::PaneAgentDetected));
    assert!(!subs.contains(&SocketSubscription::Event(EventKind::PaneOutputChanged)));
    assert!(!subs.contains(&SocketSubscription::Event(EventKind::PaneAgentStatusChanged)));
}

#[test]
fn subscription_started_ack_is_accepted() {
    assert_eq!(validate_subscription_ack(started_ack()), Ok(()));
}

#[test]
fn ack_error_message_is_the_subscription_error() {
    let reply = ack(
        obj(vec![("error", obj(vec![("code", text("bad")), ("message", text("no such event"))]))]),
        r#"{"error":{"code":"bad","message":"no such event"}}"#,
    );

    assert_eq!(
        validate_subscription_ack(reply),
        Err(RuntimeError::SocketSubscription { message: "no such event".to_owned() })
    );
}

#[test]
fn unexpected_ack_is_reported_with_its_text() {
    let reply = ack(obj(vec![("result", obj(vec![("type", text("pong"))]))]), r#"{"result":{"type":"pong"}}"#);

    assert_eq!(
        validate_subscription_ack(reply),
        Err(RuntimeError::SocketSubscription {
            message: r#"unexpected subscription ack: {"result":{"type":"pong"}}"#.to_owned(),
        })
    );
}

#[test]
fn missing_or_unparsable_ack_is_an_error() {
    assert_eq!(
        validate_subscription_ack(None),
        Err(RuntimeError::SocketSubscription {
            message: "socket closed before subscription ack".to_owned(),
        })
    );
    assert_eq!(
        validate_subscription_ack(Some(("not-json".to_owned(), Err("expected value".to_owned())))),
        Err(RuntimeError::InvalidSocketJson {
            json: "not-json".to_owned(),
            detail: "expected value".to_owned(),
        })
    );
}

fn tab_renamed_line() -> (String, Result<EventEnvelope, String>) {
    (
        r#"{"event":"tab_renamed","data":{"type":"tab_renamed","tab_id":"w1:t1","workspace_id":"w1","label":"socket"}}"#.to_owned(),
        Ok(EventEnvelope {
            event: EventKind::TabRenamed,
            data: EventData::TabRenamed {
                tab_id: "w1:t1".to_owned(),
                workspace_id: "w1".to_owned(),
                label: "socket".to_owned(),
            },
        }),
    )
}

#[test]
fn reader_subscribes_then_delivers_socket_events() {
    let reader = SocketReader::new(
        "/tmp/herdr.sock".to_owned(),
        subscriptions(vec![EventKind::TabRenamed]),
    );

    let (reader, action) = reader.step(ReaderInput::Begin);
    assert!(matches!(action, ReaderAction::Connect));
    let (reader, action) = reader.step(ReaderInput::Connected(Ok(())));
    match action {
        ReaderAction::Subscribe(request) => {
            assert_eq!(request, socket_subscribe_request(&subscriptions(vec![EventKind::TabRenamed])))
        }
        _ => panic!("expected the subscription request"),
    }
    let (reader, action) = reader.step(ReaderInput::Written(Ok(())));
    assert!(matches!(action, ReaderAction::ReadAck));
    let (reader, action) = reader.step(ReaderInput::AckRead(Ok(started_ack())));
    assert!(matches!(action, ReaderAction::Ready));
    assert_eq!(reader.phase, ReaderPhase::Streaming);

    let (reader, action) = reader.step(ReaderInput::LineRead(Ok(Some(tab_renamed_line()))));
    assert!(matches!(
        action,
        ReaderAction::Deliver(Ok(RuntimeEvent::TabRenamed(TabRenamed { ref label, .. }))) if label == "socket"
    ));
    let (reader, action) = reader.step(ReaderInput::Delivered(true));
    assert!(matches!(action, ReaderAction::ReadLine));

    let (reader, action) = reader.step(ReaderInput::LineRead(Ok(Some((
        "garbage".to_owned(),
        Err("expected value".to_owned()),
    )))));
    assert!(matches!(
        action,
        ReaderAction::Deliver(Err(RuntimeError::InvalidSocketJson { ref json, .. })) if json == "garbage"
    ));
    let (reader, _) = reader.step(ReaderInput::Delivered(true));
    let (reader, action) = reader.step(ReaderInput::LineRead(Ok(None)));
    assert!(matches!(action, ReaderAction::Finish(None)));
    assert_eq!(reader.phase, ReaderPhase::Stopped);

    let (reader, action) = reader.step(ReaderInput::Begin);
    assert!(matches!(action, ReaderAction::Ignore));
    assert_eq!(reader.phase, ReaderPhase::Stopped);
}

#[test]
fn reader_startup_failures_name_the_socket() {
    let reader = SocketReader::new("/tmp/missing.sock".to_owned(), default_socket_subscriptions());
    let (reader, _) = reader.step(ReaderInput::Begin);
    let (reader, action) = reader.step(ReaderInput::Connected(Err("connection refused".to_owned())));

    assert!(matches!(
        action,
        ReaderAction::Fail(RuntimeError::SocketIo { ref path, ref detail })
            if path == "/tmp/missing.sock" && detail == "connection refused"
    ));
    assert_eq!(reader.phase, ReaderPhase::Stopped);
}

#[test]
fn reader_rejected_ack_fails_startup() {
    let reader = SocketReader::new("/tmp/herdr.sock".to_owned(), vec![]);
    let (reader, _) = reader.step(ReaderInput::Begin);
    let (reader, _) = reader.step(ReaderInput::Connected(Ok(())));
    let (reader, _) = reader.step(ReaderInput::Written(Ok(())));
    let (reader, action) = reader.step(ReaderInput::AckRead(Ok(None)));

    assert!(matches!(
        action,
        ReaderAction::Fail(RuntimeError::SocketSubscription { ref message })
            if message == "socket closed before subscription ack"
    ));
    assert_eq!(reader.phase, ReaderPhase::Stopped);
}

#[test]
fn reader_stops_when_no_one_takes_events_or_a_read_fails() {
    let reader = SocketReader::new("/tmp/herdr.sock".to_owned(), vec![]);
    let (reader, _) = reader.step(ReaderInput::Begin);
    let (reader, _) = reader.step(ReaderInput::Connected(Ok(())));
    let (reader, _) = reader.step(ReaderInput::Written(Ok(())));
    let (reader, _) = reader.step(ReaderInput::AckRead(Ok(started_ack())));
    let (dropped, action) = reader.step(ReaderInput::LineRead(Ok(Some(tab_renamed_line()))));
    assert!(matches!(action, ReaderAction::Deliver(Ok(_))));
    let (dropped, action) = dropped.step(ReaderInput::Delivered(false));
    assert!(matches!(action, ReaderAction::Finish(None)));
    assert_eq!(dropped.phase, ReaderPhase::Stopped);

    let reader = SocketReader::new("/tmp/herdr.sock".to_owned(), vec![]);
    let (reader, _) = reader.step(ReaderInput::Begin);
    let (reader, _) = reader.step(ReaderInput::Connected(Ok(())));
    let (reader, _) = reader.step(ReaderInput::Written(Ok(())));
    let (reader, _) = reader.step(ReaderInput::AckRead(Ok(started_ack())));
    let (reader, action) = reader.step(ReaderInput::LineRead(Err("broken pipe".to_owned())));
    assert!(matches!(
        action,
        ReaderAction::Finish(Some(RuntimeError::SocketIo { ref path, ref detail }))
            if path == "/tmp/herdr.sock" && detail == "broken pipe"
    ));
    assert_eq!(reader.phase, ReaderPhase::Stopped);
}

#[test]
fn command_results_follow_the_exchange() {
    let pong = obj(vec![("result", obj(vec![("type", text("pong"))]))]);
    assert_eq!(
        command_result("/tmp/herdr.sock", CommandExchange::Replied("{}".to_owned(), Ok(obj(vec![("result", obj(vec![("type", text("pong"))]))])))),
        Ok(pong)
    );
    assert_eq!(
        command_result("/tmp/herdr.sock", CommandExchange::Closed),
        Err(RuntimeError::SocketSubscription {
            message: "socket closed before command response".to_owned(),
        })
    );
    assert_eq!(
        command_result("/tmp/herdr.sock", CommandExchange::WriteFailed("broken pipe".to_owned())),
        Err(RuntimeError::SocketIo {
            path: "/tmp/herdr.sock".to_owned(),
            detail: "broken pipe".to_owned(),
        })
    );
    assert_eq!(
        command_result("/tmp/herdr.sock", CommandExchange::Replied("nope".to_owned(), Err("expected value".to_owned()))),
        Err(RuntimeError::InvalidSocketJson {
            json: "nope".to_owned(),
            detail: "expected value".to_owned(),
        })
    );
}

#[test]
fn pane_move_requests_describe_each_destination() {
    let existing = socket_move_pane(PaneMoveOptions {
        pane_id: "wT:p2".to_owned(),
        destination: PaneMoveDestination::ExistingTab {
            tab_id: "wT:t1".to_owned(),
            split: Direction::Right,
            target_pane_id: Some("wT:p1".to_owned()),
            ratio: Some("0.4".to_owned()),
        },
        focus: None,
    });
    assert_eq!(existing.method, "pane.move");
    assert_eq!(
        existing.params,
        obj(vec![
            ("pane_id", text("wT:p2")),
            (
                "destination",
                obj(vec![
                    ("type", text("tab")),
                    ("tab_id", text("wT:t1")),
                    ("split", text("right")),
                    ("target_pane_id", text("wT:p1")),
                    ("ratio", JsonValue::Decimal("0.4".to_owned())),
                ]),
            ),
            ("focus", JsonValue::Bool(false)),
        ])
    );

    let new_workspace = socket_move_pane(PaneMoveOptions {
        pane_id: "wT:p2".to_owned(),
        destination: PaneMoveDestination::NewWorkspace { label: Some("ws".to_owned()), tab_label: None },
        focus: Some(true),
    });
    assert_eq!(
        new_workspace.params,
        obj(vec![
            ("pane_id", text("wT:p2")),
            ("destination", obj(vec![("type", text("new_workspace")), ("label", text("ws"))])),
            ("focus", JsonValue::Bool(true)),
        ])
    );
}

#[test]
fn agent_start_request_carries_argv_and_env() {
    let request = socket_start(AgentStartOptions {
        name: "codex".to_owned(),
        cwd: Some("/repo".to_owned()),
        workspace_id: None,
        tab_id: Some("wT:t2".to_owned()),
        split: Some(Direction::Right),
        env: vec![("KEY".to_owned(), "VALUE".to_owned())],
        focus: Some(false),
        argv: vec!["echo".to_owned(), "hi".to_owned()],
    });

    assert_eq!(request.id, "herdr-plugin:agent:start");
    assert_eq!(
        request.params,
        obj(vec![
            ("name", text("codex")),
            ("cwd", text("/repo")),
            ("tab_id", text("wT:t2")),
            ("split", text("right")),
            ("focus", JsonValue::Bool(false)),
            ("argv", JsonValue::Array(vec![text("echo"), text("hi")])),
            ("env", obj(vec![("KEY", text("VALUE"))])),
        ])
    );
}

#[test]
fn notification_request_names_the_sound() {
    let request = socket_notification_show(NotificationShowOptions {
        title: "Build".to_owned(),
        body: Some("done".to_owned()),
        position: None,
        sound: Some(NotificationSound::Silent),
    });

    assert_eq!(request.method, "notification.show");
    assert_eq!(
        request.params,
        obj(vec![("title", text("Build")), ("body", text("done")), ("sound", text("none"))])
    );
}

#[test]
fn split_ratio_and_tab_move_requests() {
    let ratio = socket_layout_set_split_ratio(LayoutSetSplitRatioOptions {
        tab_id: Some("wT:t1".to_owned()),
        pane_id: None,
        path: vec![true, false],
        ratio: "0.25".to_owned(),
    });
    assert_eq!(
        ratio.params,
        obj(vec![
            ("tab_id", text("wT:t1")),
            ("path", JsonValue::Array(vec![JsonValue::Bool(true), JsonValue::Bool(false)])),
            ("ratio", JsonValue::Decimal("0.25".to_owned())),
        ])
    );

    let moved = socket_move_tab("wT:t4", 2);
    assert_eq!(moved.method, "tab.move");
    assert_eq!(moved.params, obj(vec![("tab_id", text("wT:t4")), ("insert_index", JsonValue::UInt(2))]));
}

#[test]
fn repeated_keys_read_as_the_last_member() {
    let value = obj(vec![("type", text("first")), ("other", text("x")), ("type", text("second"))]);

    assert_eq!(get(&value, "type"), Some(&text("second")));
    assert_eq!(get(&value, "missing"), None);
    assert_eq!(get(&text("not an object"), "type"), None);
}
