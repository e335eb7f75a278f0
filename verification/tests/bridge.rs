use codex_runtime::attention::{
    ThreadAttentionHeldReason, ThreadAttentionKind, ThreadAttentionResponse,
};
use codex_runtime::bridge::event::{
    BridgeProtocol, WorkspaceSignal, WorkspaceSignalEvent, MAX_REFERENCE_BYTES,
};
use codex_runtime::bridge::frame::{
    parse_frame, settle_outcome, write_resolution, Awaited, BridgeEnd, BridgeFrame, BridgeSession,
    BridgeStep, FrameError, WorkspaceSignalOutcome, WorkspaceSignalRequest,
};
use codex_runtime::bridge::signal::{
    cc_poke_indicator, check_bridge_program, conclude_signal, plan_signal, RestartStep,
    RestartWait, SignalPlan,
};
use serde_json::Value;

fn ready() -> String {
    r#"{"protocol":"observatory.workspace_signal_bridge.v1","assertedSessionId":"thread-1","member":"rook-left-builder","runtimeSessionId":"runtime-1","status":"waiting","type":"ready","workspace":"root"}"#.to_string()
}

fn event() -> String {
    r#"{"protocol":"observatory.workspace_signal_bridge.v1","status":"deliveryPending","type":"event","event":{"createdAt":"2026-08-01T00:00:00.000Z","deliveryMode":"queue","eventId":"event-1","eventSequence":"4","from":"rook-mid-pm","predatesRuntime":false,"priority":0,"signal":"cc","targets":["right"],"to":"rook-left-builder"}}"#.to_string()
}

fn v2_event() -> String {
    r#"{"protocol":"observatory.workspace_signal_bridge.v2","status":"deliveryPending","type":"event","event":{"attentionKind":"directedResponse","batchCount":3,"createdAt":"2026-08-01T00:00:00.000Z","deliveryMode":"queue","eventId":"event-1","eventSequence":"4","firstEventSequence":"4","from":"terra-aurora-05","latestEventSequence":"6","predatesRuntime":false,"priority":0,"signal":"tap","sourceCount":4,"sourceFirstRef":"listen:chat:41","sourceLatestRef":"listen:chat:44","targets":[],"to":"terra-aurora-05","wakeClass":"operatorChat"}}"#.to_string()
}

/// The second event with one member set to another value.
fn v2_with(name: &str, value: Value) -> String {
    let mut frame: Value = serde_json::from_str(&v2_event()).expect("event json");
    frame["event"][name] = value;
    frame.to_string()
}

fn v2_error(line: &str) -> &'static str {
    parse_frame(
        line,
        Some(BridgeProtocol::V2),
        Some("terra-aurora-05"),
        Some("root"),
    )
    .unwrap_err()
    .as_str()
}

fn text(value: &str) -> Value {
    Value::String(value.to_string())
}

#[test]
fn ready_frame_binds_the_payload_free_source_scope() {
    let BridgeFrame::Ready {
        asserted_session_id,
        member,
        protocol,
        workspace,
    } = parse_frame(&ready(), None, None, None).expect("ready")
    else {
        panic!("expected ready frame");
    };
    assert_eq!(asserted_session_id, "thread-1");
    assert_eq!(member, "rook-left-builder");
    assert_eq!(protocol, BridgeProtocol::V1);
    assert_eq!(workspace, "root");
}

#[test]
fn event_requires_ready_and_preserves_closed_signal_metadata() {
    assert_eq!(
        parse_frame(&event(), Some(BridgeProtocol::V1), None, None)
            .unwrap_err()
            .as_str(),
        "eventBeforeReady"
    );
    let BridgeFrame::Event { event, protocol } = parse_frame(
        &event(),
        Some(BridgeProtocol::V1),
        Some("rook-left-builder"),
        Some("root"),
    )
    .expect("event") else {
        panic!("expected event frame");
    };
    assert_eq!(protocol, BridgeProtocol::V1);
    assert_eq!(
        event,
        WorkspaceSignalEvent {
            attention_kind: None,
            batch_count: None,
            created_at: "2026-08-01T00:00:00.000Z".to_string(),
            delivery_mode: "queue".to_string(),
            event_id: "event-1".to_string(),
            event_sequence: "4".to_string(),
            first_event_sequence: None,
            from: "rook-mid-pm".to_string(),
            predates_runtime: false,
            priority: 0,
            signal: WorkspaceSignal::Cc,
            source_count: None,
            source_first_ref: None,
            source_latest_ref: None,
            targets: vec!["right".to_string()],
            to: "rook-left-builder".to_string(),
            latest_event_sequence: None,
            wake_class: None,
        }
    );
}

#[test]
fn event_must_address_the_member_bound_by_ready() {
    assert_eq!(
        parse_frame(
            &event(),
            Some(BridgeProtocol::V1),
            Some("someone-else"),
            Some("root")
        )
        .unwrap_err()
        .as_str(),
        "eventScopeMismatch"
    );
}

#[test]
fn v2_operator_chat_uses_the_explicit_directed_kind_and_bounded_batch_reference() {
    let BridgeFrame::Event { event, protocol } = parse_frame(
        &v2_event(),
        Some(BridgeProtocol::V2),
        Some("terra-aurora-05"),
        Some("root"),
    )
    .expect("v2 event") else {
        panic!("expected event frame");
    };
    assert_eq!(protocol, BridgeProtocol::V2);
    assert_eq!(
        event.attention_kind(),
        ThreadAttentionKind::DirectedResponse
    );
    assert_eq!(
        event.reference(protocol),
        "workspace-signal/v2/tap/wake/operatorChat/b/3/e/4-6/s/4/listen:chat:41-listen:chat:44"
    );
}

#[test]
fn v2_rejects_a_cause_kind_mismatch_and_an_unbounded_source() {
    assert_eq!(v2_error(&v2_with("attentionKind", text("periodic"))), "eventInvalid");
    assert_eq!(v2_error(&v2_with("sourceLatestRef", Value::Null)), "eventInvalid");
}

#[test]
fn bridge_protocol_cannot_change_after_ready() {
    assert_eq!(
        parse_frame(
            &v2_event(),
            Some(BridgeProtocol::V1),
            Some("terra-aurora-05"),
            Some("root")
        )
        .unwrap_err()
        .as_str(),
        "protocolMismatch"
    );
}

#[test]
fn v2_rejects_operator_chat_claimed_by_a_different_membership() {
    assert_eq!(v2_error(&v2_with("from", text("rook-mid-pm"))), "eventInvalid");
}

#[test]
fn v2_reference_stays_inside_the_app_server_bound_at_maximum_metadata_sizes() {
    let mut maximum: Value = serde_json::from_str(&v2_event()).expect("event json");
    maximum["event"]["batchCount"] = Value::from(100);
    let maximum_sequence = u64::MAX.to_string();
    maximum["event"]["eventSequence"] = Value::String(maximum_sequence.clone());
    maximum["event"]["firstEventSequence"] = Value::String(maximum_sequence.clone());
    maximum["event"]["latestEventSequence"] = Value::String(maximum_sequence);
    maximum["event"]["sourceCount"] = Value::from(100_000_000);
    maximum["event"]["sourceFirstRef"] = Value::String("a".repeat(64));
    maximum["event"]["sourceLatestRef"] = Value::String("b".repeat(64));
    let BridgeFrame::Event { event, protocol } = parse_frame(
        &maximum.to_string(),
        Some(BridgeProtocol::V2),
        Some("terra-aurora-05"),
        Some("root"),
    )
    .expect("maximum v2 event") else {
        panic!("expected event frame");
    };
    assert!(event.reference(protocol).len() <= MAX_REFERENCE_BYTES);
}

#[test]
fn resolution_wire_acknowledges_only_started_or_holds() {
    assert_eq!(
        write_resolution("event-1", WorkspaceSignalOutcome::Started),
        r#"{"type":"resolve","eventId":"event-1","outcome":"started"}"#
    );
    assert_eq!(
        write_resolution("event-1", WorkspaceSignalOutcome::Held),
        r#"{"type":"resolve","eventId":"event-1","outcome":"held"}"#
    );
    assert_eq!(
        write_resolution("a\"b", WorkspaceSignalOutcome::Held),
        r#"{"type":"resolve","eventId":"a\"b","outcome":"held"}"#
    );
}

#[test]
fn frames_are_rejected_for_their_first_fault() {
    let fault = |line: &str| parse_frame(line, None, None, None).unwrap_err();
    assert_eq!(fault("{"), FrameError::InvalidJson);
    assert_eq!(fault("[]"), FrameError::InvalidFrame);
    assert_eq!(fault("{}"), FrameError::ProtocolMismatch);
    let typed = |kind: &str| {
        format!(r#"{{"protocol":"observatory.workspace_signal_bridge.v2","type":{kind}}}"#)
    };
    assert_eq!(fault(&typed("\"hold\"")), FrameError::BridgeHeld);
    assert_eq!(fault(&typed("\"other\"")), FrameError::FrameTypeInvalid);
    assert_eq!(fault(&typed("7")), FrameError::FrameTypeInvalid);
    assert_eq!(fault(&typed("\"ready\"")), FrameError::MetadataInvalid);
    assert_eq!(parse_frame(&typed("\"idle\""), None, None, None), Ok(BridgeFrame::Continue));
    assert_eq!(parse_frame(&typed("\"resolved\""), None, None, None), Ok(BridgeFrame::Continue));
    assert_eq!(
        parse_frame(&typed("\"event\""), None, Some("m"), Some("w")).unwrap_err(),
        FrameError::EventUnavailable
    );
    assert_eq!(
        fault(&ready().replace("rook-left-builder", "rook left")),
        FrameError::MetadataInvalid
    );
    assert_eq!(
        fault(&ready().replace("\"root\"", &format!("\"{}\"", "w".repeat(65)))),
        FrameError::MetadataInvalid
    );
}

#[test]
fn second_protocol_events_are_held_to_their_rules() {
    let cases: Vec<(&str, Value)> = vec![
        ("batchCount", Value::from(0)),
        ("batchCount", Value::from(101)),
        ("batchCount", Value::Null),
        ("priority", Value::from(3)),
        ("eventSequence", text("5")),
        ("latestEventSequence", text("3")),
        ("latestEventSequence", text("18446744073709551616")),
        ("firstEventSequence", text("+4")),
        ("wakeClass", Value::Null),
        ("wakeClass", text("peerMention")),
        ("signal", text("cc")),
        ("sourceCount", Value::from(0)),
        ("sourceCount", Value::from(100_000_001)),
        ("sourceFirstRef", text("talk:chat:41")),
        ("sourceFirstRef", text("listen:chat:")),
        ("sourceFirstRef", text("plain")),
        ("targets", Value::Array(vec![text("right")])),
        ("more", text("fields")),
    ];
    for (name, value) in cases {
        let line = v2_with(name, value);
        assert_eq!(v2_error(&line), "eventInvalid", "{line}");
    }
}

#[test]
fn many_targets_are_counted_in_the_reference() {
    let mut frame: Value = serde_json::from_str(&event()).unwrap();
    let parse = |frame: &Value| {
        let Ok(BridgeFrame::Event { event, protocol }) = parse_frame(
            &frame.to_string(),
            None,
            Some("rook-left-builder"),
            Some("root"),
        ) else {
            panic!("expected event frame");
        };
        event.reference(protocol)
    };
    assert_eq!(parse(&frame), "workspace-signal/v1/cc/cc/right");
    frame["event"]["targets"] = Value::Array(vec![text(&"t".repeat(60)); 4]);
    assert_eq!(parse(&frame), "workspace-signal/v1/cc/cc-count/4");
    frame["event"]["targets"] = Value::Array(vec![text("t"); 17]);
    assert_eq!(
        parse_frame(&frame.to_string(), None, Some("rook-left-builder"), Some("root")),
        Err(FrameError::EventInvalid)
    );
}

#[test]
fn a_session_is_bound_once_and_delivers_to_its_member_only() {
    let mut session = BridgeSession::new("thread-1");
    assert_eq!(
        session.take_line(&event()),
        BridgeStep::End { end: BridgeEnd::Rejected { error: FrameError::EventBeforeReady } }
    );
    assert_eq!(session.take_line(&ready()), BridgeStep::Continue);
    let BridgeStep::Deliver { request } = session.take_line(&event()) else {
        panic!("expected a delivery");
    };
    assert_eq!(request.workspace, "root");
    assert_eq!(request.event.event_id, "event-1");
    assert_eq!(session.take_line(&ready()), BridgeStep::End { end: BridgeEnd::Rebound });
    assert_eq!(
        session.take_line(&event().replace("\"to\":\"rook-left-builder\"", "\"to\":\"other\"")),
        BridgeStep::End { end: BridgeEnd::Rejected { error: FrameError::EventScopeMismatch } }
    );
    assert_eq!(
        session.take_line(&" ".repeat(16385)),
        BridgeStep::End { end: BridgeEnd::FrameTooLong }
    );

    let mut other = BridgeSession::new("thread-2");
    assert_eq!(
        other.take_line(&ready()),
        BridgeStep::End { end: BridgeEnd::SessionMismatch }
    );
}

fn cc_request() -> WorkspaceSignalRequest {
    let mut session = BridgeSession::new("thread-1");
    session.take_line(&ready().replace("\"root\"", "\"global-cc-bootstrap\""));
    let line = event().replace("2026-08-01T00:00:00.000Z", "2026-08-01T02:00:00.5+02:00");
    match session.take_line(&line) {
        BridgeStep::Deliver { request } => request,
        step => panic!("expected a delivery: {step:?}"),
    }
}

#[test]
fn a_started_cc_is_shown_with_the_time_in_utc() {
    let request = cc_request();
    assert_eq!(
        cc_poke_indicator(&request, WorkspaceSignalOutcome::Started).unwrap(),
        "CC poke received now from reported sender rook-mid-pm (queued 2026-08-01T00:00:00.500Z). Fresh-state retrieval start is not yet evidenced; delivery and model-turn start do not establish comprehension, acceptance, CC read, or action."
    );
    assert_eq!(cc_poke_indicator(&request, WorkspaceSignalOutcome::Held), None);

    let mut late = cc_request();
    late.event.predates_runtime = true;
    assert!(cc_poke_indicator(&late, WorkspaceSignalOutcome::Started)
        .unwrap()
        .contains("rook-mid-pm (queued 2026-08-01T00:00:00.500Z; delayed/pre-runtime). Fresh"));
    late.event.created_at = "yesterday".to_string();
    assert!(cc_poke_indicator(&late, WorkspaceSignalOutcome::Started)
        .unwrap()
        .contains("rook-mid-pm (delayed/pre-runtime). Fresh"));
    late.event.predates_runtime = false;
    assert!(cc_poke_indicator(&late, WorkspaceSignalOutcome::Started)
        .unwrap()
        .contains("rook-mid-pm. Fresh"));
    late.workspace = "root".to_string();
    assert_eq!(cc_poke_indicator(&late, WorkspaceSignalOutcome::Started), None);
}

#[test]
fn a_signal_asks_for_the_attention_of_the_primary_thread() {
    let request = cc_request();
    assert_eq!(plan_signal(None, &request), SignalPlan::Hold);
    let SignalPlan::Request { thread_id, attention } = plan_signal(Some("main"), &request) else {
        panic!("expected a request");
    };
    assert_eq!(thread_id, "main");
    assert_eq!(attention.version, 1);
    assert_eq!(attention.kind, ThreadAttentionKind::DirectedResponse);
    assert_eq!(attention.source_class, "workspace");
    assert_eq!(attention.source_ref, "global-cc-bootstrap/rook-mid-pm");
    assert_eq!(attention.reference.as_deref(), Some("workspace-signal/v1/cc/cc/right"));

    let started = conclude_signal(&request, Some(ThreadAttentionResponse::Started));
    assert_eq!(started.outcome, WorkspaceSignalOutcome::Started);
    assert!(started.message.is_some());
    let busy = ThreadAttentionResponse::Held { reason: ThreadAttentionHeldReason::Busy };
    for response in [Some(busy), None] {
        let held = conclude_signal(&request, response);
        assert_eq!(held.outcome, WorkspaceSignalOutcome::Held);
        assert_eq!(held.message, None);
    }
}

#[test]
fn an_outcome_is_awaited_until_the_bridge_stops() {
    let started = WorkspaceSignalOutcome::Started;
    assert_eq!(
        settle_outcome(Awaited::Outcome { outcome: started }, true),
        Some(started)
    );
    assert_eq!(settle_outcome(Awaited::Timeout, false), None);
    assert_eq!(settle_outcome(Awaited::Timeout, true), Some(WorkspaceSignalOutcome::Held));
    assert_eq!(
        settle_outcome(Awaited::Disconnected, false),
        Some(WorkspaceSignalOutcome::Held)
    );
}

#[test]
fn a_bridge_is_restarted_after_a_second_unless_it_is_stopped() {
    let mut wait = RestartWait::new();
    for _ in 0..10 {
        assert_eq!(wait.step(false), RestartStep::Sleep { millis: 100 });
    }
    assert_eq!(wait.step(false), RestartStep::Restart);
    assert_eq!(wait.step(true), RestartStep::Stopped);
    assert_eq!(RestartWait::new().step(true), RestartStep::Stopped);
    assert_eq!(check_bridge_program(b"/usr/bin/bridge"), Ok(()));
    assert_eq!(
        check_bridge_program(b"bridge").unwrap_err(),
        "OBSERVATORY_WORKSPACE_SIGNAL_BRIDGE must be an absolute path"
    );
}
