use herdr_plugin::env::{EnvEventSource, HerdrEnv, HerdrEnvVars};
use herdr_plugin::error::RuntimeError;
use herdr_plugin::events::{
    AgentStatus, PaneAgentStatusChanged, EventData, EventEnvelope, EventKind, HerdrEvent, PaneCreated, RuntimeEvent, TabRenamed,
};

fn tab_renamed_envelope(tab_id: &str, workspace_id: &str, label: &str) -> EventEnvelope {
    EventEnvelope {
        event: EventKind::TabRenamed,
        data: EventData::TabRenamed {
            tab_id: tab_id.to_owned(),
            workspace_id: workspace_id.to_owned(),
            label: label.to_owned(),
        },
    }
}

fn env_with_event_json(json: &str) -> HerdrEnv {
    let vars = HerdrEnvVars {
        plugin_event_json: Some(json.to_owned()),
        ..HerdrEnvVars::default()
    };
    HerdrEnv::from_vars(vars, None, None)
}

#[test]
fn workspace_tab_and_pane_event_names_match_herdr_schema() {
    assert_eq!(EventKind::WorkspaceCreated.dot_name(), "workspace.created");
    assert_eq!(EventKind::WorkspaceRenamed.dot_name(), "workspace.renamed");
    assert_eq!(EventKind::TabCreated.dot_name(), "tab.created");
    assert_eq!(EventKind::TabRenamed.dot_name(), "tab.renamed");
    assert_eq!(EventKind::PaneCreated.dot_name(), "pane.created");
    assert_eq!(
        EventKind::PaneAgentStatusChanged.dot_name(),
        "pane.agent_status_changed"
    );
}

#[test]
fn every_event_kind_has_a_distinct_dotted_name() {
    let kinds = [
        EventKind::WorkspaceCreated,
        EventKind::WorkspaceUpdated,
        EventKind::WorkspaceClosed,
        EventKind::WorkspaceRenamed,
        EventKind::WorkspaceMoved,
        EventKind::WorkspaceFocused,
        EventKind::TabCreated,
        EventKind::TabClosed,
        EventKind::TabRenamed,
        EventKind::TabMoved,
        EventKind::TabFocused,
        EventKind::PaneCreated,
        EventKind::PaneClosed,
        EventKind::PaneFocused,
        EventKind::PaneMoved,
        EventKind::PaneOutputChanged,
        EventKind::PaneExited,
        EventKind::PaneAgentDetected,
        EventKind::PaneAgentStatusChanged,
    ];
    for (i, a) in kinds.iter().enumerate() {
        for b in kinds.iter().skip(i + 1) {
            assert_ne!(a.dot_name(), b.dot_name());
        }
    }
    assert_eq!(EventKind::PaneOutputChanged.dot_name(), "pane.output_changed");
}

#[test]
fn env_event_source_reads_typed_runtime_event_from_env() {
    let json = r#"{
          "event":"tab_renamed",
          "data":{
            "type":"tab_renamed",
            "tab_id":"w1:t1",
            "workspace_id":"w1",
            "label":"Renamed"
          }
        }"#;
    let env = env_with_event_json(json);
    let envelope = tab_renamed_envelope("w1:t1", "w1", "Renamed");

    let output = EnvEventSource::from_parsed(env, Ok(envelope.clone())).unwrap();

    assert!(matches!(
        output.event,
        Some(RuntimeEvent::TabRenamed(TabRenamed { label, .. })) if label == "Renamed"
    ));
    assert_eq!(output.env.plugin_event_json, Some(envelope));
}

#[test]
fn event_json_that_does_not_parse_is_an_invalid_event_json_error() {
    let env = env_with_event_json("not-json");

    let error = EnvEventSource::from_parsed(env, Err("expected value".to_owned())).unwrap_err();

    assert_eq!(
        error,
        RuntimeError::InvalidEventJson {
            json: "not-json".to_owned(),
            detail: "expected value".to_owned(),
        }
    );
}

#[test]
fn without_event_json_there_is_no_event() {
    let env = HerdrEnv::from_vars(HerdrEnvVars::default(), None, None);

    let output = EnvEventSource::from_parsed(env.clone(), Err("ignored".to_owned())).unwrap();

    assert!(output.event.is_none());
    assert_eq!(output.env, env);
}

#[test]
fn typed_herdr_events_implement_runtime_event_trait() {
    fn assert_event<E: HerdrEvent>() {}

    assert_event::<TabRenamed>();
    assert_eq!(TabRenamed::kind(), EventKind::TabRenamed);
    assert_eq!(PaneCreated::dot_name(), "pane.created");
}

#[test]
fn runtime_event_kind_matches_its_envelope() {
    let event = RuntimeEvent::from_envelope(tab_renamed_envelope("wT:t2", "wT", "codex"));

    assert_eq!(event.kind(), EventKind::TabRenamed);
    assert!(matches!(
        event,
        RuntimeEvent::TabRenamed(TabRenamed { tab_id, workspace_id, label })
            if tab_id == "wT:t2" && workspace_id == "wT" && label == "codex"
    ));
}

#[test]
fn event_kind_keys_tell_kinds_apart() {
    assert_eq!(EventKind::WorkspaceCreated.key(), 0);
    assert_eq!(EventKind::TabRenamed.key(), 8);
    assert_eq!(EventKind::PaneAgentStatusChanged.key(), 18);
    assert_ne!(EventKind::TabRenamed.key(), EventKind::TabCreated.key());
}

#[test]
fn event_source_keeps_the_envelope_and_copies_labels_into_the_event() {
    let mut labels = std::collections::HashMap::new();
    labels.insert("state".to_owned(), "working".to_owned());
    let envelope = EventEnvelope {
        event: EventKind::PaneAgentStatusChanged,
        data: EventData::PaneAgentStatusChanged {
            pane_id: "wT:p2".to_owned(),
            workspace_id: "wT".to_owned(),
            agent_status: AgentStatus::Working,
            agent: Some("codex".to_owned()),
            title: None,
            display_agent: None,
            custom_status: None,
            state_labels: labels.clone(),
        },
    };
    let env = env_with_event_json("{}");

    let output = EnvEventSource::from_parsed(env, Ok(envelope.clone())).unwrap();

    assert_eq!(output.env.plugin_event_json, Some(envelope));
    assert!(matches!(
        output.event,
        Some(RuntimeEvent::PaneAgentStatusChanged(PaneAgentStatusChanged { ref state_labels, ref pane_id, .. }))
            if *state_labels == labels && pane_id == "wT:p2"
    ));
}
