use codex_runtime::attention::{ThreadAttentionHeldReason, ThreadAttentionKind};
use codex_runtime::listen::app_server::{
    disconnect_message, monitor_event, subscription_resume_params, AppServerEvent,
    AppServerRequests, Monitored,
};
use codex_runtime::listen::command::{
    listener_state_lock_path, resolve_path, validate_command, validate_distinct_paths,
    validate_periodic_seconds, CommandError, ListenCommand, ListenerPaths, PathLookup,
};
use codex_runtime::listen::cycle::{
    event_retry_deadline, held_retry_is_deferred, periodic_retry_deadline, periodic_slot, Clock,
    Effect, InboxCycleOutcome, Listener, Next, PeriodicCycleOutcome, Phase, Plan, Reply,
    HELD_EVENT_RETRY_DELAY,
};
use codex_runtime::listen::event::{AttentionEvent, EventError, InboxIdentity};
use codex_runtime::listen::inbox::{EventRecord, InboxHold, InboxRead};
use codex_runtime::listen::state::ListenerState;

fn unknown() -> PathLookup {
    PathLookup { canonical: None, canonical_parent: None }
}

fn paths(directory: &str, events: &str, state: &str) -> ListenerPaths {
    let events = resolve_path(directory.as_bytes(), events.as_bytes());
    let state = resolve_path(directory.as_bytes(), state.as_bytes());
    ListenerPaths {
        events: Some((events, unknown())),
        state: (state, unknown()),
        lock: unknown(),
    }
}

#[test]
fn rejects_events_and_state_path_aliases() {
    let error = validate_distinct_paths(&paths(
        "/tmp/listener",
        "/tmp/listener/state/../attention.jsonl",
        "/tmp/listener/attention.jsonl",
    ))
    .expect_err("aliased listener paths must fail");
    assert_eq!(
        error.to_message(),
        "--events must not alias --state or its lock sidecar"
    );
}

#[test]
fn rejects_events_path_aliasing_state_lock_sidecar() {
    let state_path = b"/tmp/listener/listener.json".to_vec();
    let events_path = listener_state_lock_path(&state_path);
    let error = validate_distinct_paths(&ListenerPaths {
        events: Some((events_path, unknown())),
        state: (state_path, unknown()),
        lock: unknown(),
    })
    .expect_err("lock sidecar alias must fail");
    assert_eq!(
        error.to_message(),
        "--events must not alias --state or its lock sidecar"
    );
}

#[test]
fn links_to_the_same_file_are_aliases() {
    let linked = ListenerPaths {
        events: Some((
            b"/a/inbox".to_vec(),
            PathLookup { canonical: Some(b"/c/state".to_vec()), canonical_parent: None },
        )),
        state: (
            b"/b/state".to_vec(),
            PathLookup { canonical: None, canonical_parent: Some(b"/c".to_vec()) },
        ),
        lock: PathLookup { canonical: None, canonical_parent: Some(b"/c".to_vec()) },
    };
    assert_eq!(validate_distinct_paths(&linked), Err(CommandError::PathsAlias));
    assert_eq!(validate_distinct_paths(&paths("/a", "inbox", "state")), Ok(()));
    assert_eq!(resolve_path(b"/a/b", b"../c/./d//e"), b"/a/c/d/e");
    assert_eq!(resolve_path(b"/a", b"/../.."), b"/");
}

#[test]
fn held_concrete_event_suppresses_periodic_and_uses_bounded_retry_delay() {
    let now: u64 = 5;
    assert!(!InboxCycleOutcome::Held.permits_periodic());
    assert!(held_retry_is_deferred(Some(now + HELD_EVENT_RETRY_DELAY), now));
    assert!(!held_retry_is_deferred(Some(now), now));
    assert!(InboxCycleOutcome::NoEvent.permits_periodic());
    assert!(!InboxCycleOutcome::Started.permits_periodic());
    assert_eq!(event_retry_deadline(InboxCycleOutcome::Started, now), None);
}

#[test]
fn held_periodic_attempt_uses_the_same_bounded_retry_delay() {
    let now: u64 = 5;
    let retry_not_before = periodic_retry_deadline(PeriodicCycleOutcome::Held, now);

    assert!(held_retry_is_deferred(retry_not_before, now));
    assert!(!held_retry_is_deferred(
        retry_not_before,
        now + HELD_EVENT_RETRY_DELAY,
    ));
}

#[test]
fn periodic_seconds_rejects_values_that_cannot_enter_signed_timestamp_arithmetic() {
    validate_periodic_seconds(Some(i64::MAX as u64)).expect("signed maximum remains valid");
    let error = validate_periodic_seconds(Some(i64::MAX as u64 + 1))
        .expect_err("value beyond signed timestamp range must be rejected");
    assert_eq!(
        error.to_message(),
        format!("--periodic-seconds must be at most {}", i64::MAX)
    );
}

#[test]
fn subscription_resume_is_metadata_only_and_does_not_override_thread_settings() {
    let params = subscription_resume_params("019faa64-c0a7-7193-873b-f71cf30951d7");

    assert_eq!(params.thread_id, "019faa64-c0a7-7193-873b-f71cf30951d7");
    assert!(params.exclude_turns);
    assert!(params.history.is_none());
    assert!(params.path.is_none());
    assert!(params.model.is_none());
    assert!(params.model_provider.is_none());
    assert!(params.cwd.is_none());
    assert!(params.approval_policy.is_none());
    assert!(params.sandbox.is_none());
    assert!(params.permissions.is_none());
    assert!(params.config.is_none());
    assert!(params.base_instructions.is_none());
    assert!(params.developer_instructions.is_none());
}

fn command() -> ListenCommand {
    ListenCommand {
        thread_id: "thread-01".to_string(),
        events: Some(b"inbox".to_vec()),
        state: b"state".to_vec(),
        periodic_seconds: Some(60),
        poll_millis: 1000,
        once: false,
    }
}

#[test]
fn commands_are_refused_for_their_first_fault() {
    let check = |change: &dyn Fn(&mut ListenCommand)| {
        let mut command = command();
        change(&mut command);
        match validate_command(&command, &paths("/a", "inbox", "state")) {
            Ok(()) => "accepted".to_string(),
            Err(error) => error.to_message(),
        }
    };
    assert_eq!(check(&|_| {}), "accepted");
    assert_eq!(
        check(&|c| c.thread_id = String::new()),
        "threadId must be between 1 and 128 bytes"
    );
    assert_eq!(
        check(&|c| {
            c.events = None;
            c.periodic_seconds = None;
        }),
        "listen requires --events, --periodic-seconds, or both"
    );
    assert_eq!(
        check(&|c| c.periodic_seconds = Some(59)),
        "--periodic-seconds must be at least 60"
    );
    assert_eq!(check(&|c| c.poll_millis = 99), "--poll-millis must be at least 100");
}

const IDENTITY: InboxIdentity = InboxIdentity { device: 1, inode: 2 };

fn at(wall: i64, instant: u64) -> Clock {
    Clock { wall, instant }
}

fn event(id: &str) -> AttentionEvent {
    AttentionEvent::parse(&format!(
        r#"{{"version":1,"eventId":"{id}","kind":"mention","source":"s","reference":"r"}}"#
    ))
    .unwrap()
}

fn read(offset: u64, next: u64, event: Result<AttentionEvent, EventError>) -> InboxRead {
    InboxRead {
        identity: IDENTITY,
        record: Some(EventRecord { event_offset: offset, next_offset: next, event }),
    }
}

fn empty() -> InboxRead {
    InboxRead { identity: IDENTITY, record: None }
}

fn listener() -> Listener {
    let mut listener = Listener::new(&command(), ListenerState::default()).unwrap();
    let effects = listener.subscribed(1000, Some("inbox"), "state");
    assert!(matches!(effects[0], Effect::Save { .. }));
    assert_eq!(
        effects[1],
        Effect::Print {
            line: r#"{"events":"inbox","outcome":"listening","periodicSeconds":60,"state":"state","subscription":"threadResume","threadId":"thread-01"}"#.to_string(),
        }
    );
    listener
}

fn saved(plan: &Plan, index: usize) -> ListenerState {
    match &plan.effects[index] {
        Effect::Save { file } => ListenerState::load(Some(file.as_bytes())).unwrap(),
        effect => panic!("nothing saved: {effect:?}"),
    }
}

fn printed(plan: &Plan, index: usize) -> &str {
    match &plan.effects[index] {
        Effect::Print { line } => line,
        effect => panic!("nothing printed: {effect:?}"),
    }
}

#[test]
fn an_event_is_saved_requested_and_remembered() {
    let mut listener = listener();
    let plan = listener.tick(at(1001, 0));
    assert_eq!(plan.next, Next::ReadInbox { offset: 0, expected: None });

    let plan = listener.take_inbox(read(0, 40, Ok(event("evt-1"))), at(1001, 0));
    assert_eq!(saved(&plan, 0).inbox_identity, Some(IDENTITY));
    let pending = saved(&plan, 1).pending_attempt.unwrap();
    assert_eq!(pending.event_id, "evt-1");
    assert_eq!(pending.next_event_offset, Some(40));
    let Next::Request { thread_id, attention } = &plan.next else {
        panic!("expected a request");
    };
    assert_eq!(thread_id, "thread-01");
    assert_eq!(attention.event_id, "evt-1");
    assert_eq!(listener.phase(), Phase::Requesting { periodic: false });

    let plan = listener.take_reply(Reply::Started, at(1002, 0));
    let state = saved(&plan, 0);
    assert_eq!(state.event_offset, 40);
    assert!(state.contains("evt-1"));
    assert_eq!(state.last_periodic_at, Some(1001));
    assert_eq!(
        printed(&plan, 1),
        r#"{"claim":"admissionOnly","eventId":"evt-1","kind":"mention","outcome":"started","threadId":"thread-01"}"#
    );
    assert_eq!(plan.next, Next::Wait);

    listener.tick(at(1003, 0));
    let plan = listener.take_inbox(read(40, 80, Ok(event("evt-1"))), at(1003, 0));
    assert_eq!(printed(&plan, 0), r#"{"eventId":"evt-1","outcome":"duplicate"}"#);
    assert_eq!(saved(&plan, 1).event_offset, 80);
    assert_eq!(plan.next, Next::ReadInbox { offset: 80, expected: Some(IDENTITY) });
}

#[test]
fn a_held_event_is_tried_again_after_a_second() {
    let mut listener = listener();
    listener.tick(at(1001, 7));
    listener.take_inbox(read(0, 40, Ok(event("evt-1"))), at(1001, 7));
    let reply = Reply::Held { reason: ThreadAttentionHeldReason::Busy };
    let plan = listener.take_reply(reply, at(1001, 7));
    assert_eq!(saved(&plan, 0).event_offset, 0);
    assert_eq!(saved(&plan, 0).pending_attempt, None);
    assert_eq!(
        printed(&plan, 1),
        r#"{"eventId":"evt-1","kind":"mention","outcome":"held","reason":"busy","threadId":"thread-01"}"#
    );
    // The cadence is due by far, but the held event comes first.
    assert_eq!(listener.tick(at(9000, 6 + HELD_EVENT_RETRY_DELAY)).next, Next::Wait);
    assert_eq!(
        listener.tick(at(9000, 7 + HELD_EVENT_RETRY_DELAY)).next,
        Next::ReadInbox { offset: 0, expected: Some(IDENTITY) }
    );
}

#[test]
fn a_line_that_is_no_event_is_passed_over() {
    let mut listener = listener();
    listener.tick(at(1001, 0));
    listener.take_inbox(read(0, 9, Err(EventError::EmptyLine)), at(1001, 0));
    let plan = listener.take_inbox(read(9, 20, Err(EventError::TooLong)), at(1001, 0));
    assert_eq!(
        printed(&plan, 0),
        r#"{"error":"attention event exceeds 4096 bytes","offset":9,"outcome":"rejected"}"#
    );
    assert_eq!(listener.state().event_offset, 20);
    assert_eq!(listener.phase(), Phase::Reading);
    let plan = listener.refuse_inbox(InboxHold::Truncated { file_len: 3, offset: 20 });
    let Next::Fail { failure } = plan.next else {
        panic!("expected a failure");
    };
    assert_eq!(
        failure.to_message("in.jsonl"),
        "ATTENTION INBOX HOLD: in.jsonl is 3 bytes, smaller than durable event offset 20; refusing rotation/truncation replay"
    );
}

#[test]
fn the_thread_is_woken_at_its_cadence() {
    let mut listener = listener();
    listener.tick(at(1059, 0));
    assert_eq!(listener.take_inbox(empty(), at(1059, 0)).next, Next::Wait);
    listener.tick(at(1060, 0));
    let plan = listener.take_inbox(empty(), at(1060, 0));
    let Next::Request { attention, .. } = &plan.next else {
        panic!("expected a request");
    };
    assert_eq!(attention.kind, ThreadAttentionKind::Periodic);
    assert_eq!(attention.event_id, "periodic/17");
    let reply = Reply::Held { reason: ThreadAttentionHeldReason::PlanMode };
    let plan = listener.take_reply(reply, at(1060, 3));
    assert_eq!(
        printed(&plan, 1),
        r#"{"eventId":"periodic/17","kind":"periodic","outcome":"held","reason":"planMode","threadId":"thread-01"}"#
    );
    listener.tick(at(1061, 4));
    assert_eq!(listener.take_inbox(empty(), at(1061, 4)).next, Next::Wait);
    listener.tick(at(1061, 3 + HELD_EVENT_RETRY_DELAY));
    let plan = listener.take_inbox(empty(), at(1061, 3 + HELD_EVENT_RETRY_DELAY));
    assert!(matches!(plan.next, Next::Request { .. }));
    listener.take_reply(Reply::Started, at(1061, 9));
    assert_eq!(listener.state().last_periodic_at, Some(1061));
    assert_eq!(periodic_slot(-1, 60), -1);
    assert_eq!(periodic_slot(119, 60), 1);
}

#[test]
fn an_unknown_effect_stops_the_listener_and_blocks_the_next() {
    let mut listener = listener();
    listener.tick(at(1001, 0));
    listener.take_inbox(read(0, 40, Ok(event("evt-1"))), at(1001, 0));
    let plan = listener.take_reply(Reply::Unknown { error: "lost".to_string() }, at(1001, 0));
    assert_eq!(
        printed(&plan, 0),
        r#"{"attemptedAt":1001,"error":"lost","eventId":"evt-1","eventOffset":0,"kind":"mention","nextEventOffset":40,"outcome":"ambiguous","threadId":"thread-01"}"#
    );
    let Next::Fail { failure } = plan.next else {
        panic!("expected a failure");
    };
    assert_eq!(
        failure.to_message("in.jsonl"),
        "AMBIGUOUS EFFECT HOLD: attention admission for event evt-1 is unknown; pending attempt retained"
    );
    let left = ListenerState::load(Some(listener.state().to_file().as_bytes())).unwrap();
    let blocked = Listener::new(&command(), left).unwrap_err();
    assert_eq!(
        blocked.line,
        r#"{"attemptedAt":1001,"eventId":"evt-1","eventOffset":0,"kind":"mention","nextEventOffset":40,"outcome":"ambiguous","threadId":"thread-01"}"#
    );
    assert_eq!(
        blocked.message,
        "AMBIGUOUS EFFECT HOLD: pending mention attention attempt evt-1 for thread thread-01 must be reconciled before restart"
    );
}

#[test]
fn a_refused_request_stops_the_listener_without_a_trace() {
    let mut listener = listener();
    listener.tick(at(1001, 0));
    listener.take_inbox(read(0, 40, Ok(event("evt-1"))), at(1001, 0));
    let reply = Reply::Refused { code: -32600, message: "no such thread".to_string() };
    let plan = listener.take_reply(reply, at(1001, 0));
    assert_eq!(saved(&plan, 0).pending_attempt, None);
    assert_eq!(saved(&plan, 0).event_offset, 0);
    assert_eq!(
        printed(&plan, 1),
        r#"{"code":-32600,"error":"no such thread","eventId":"evt-1","kind":"mention","outcome":"rejected","threadId":"thread-01"}"#
    );
    let Next::Fail { failure } = plan.next else {
        panic!("expected a failure");
    };
    assert_eq!(
        failure.to_message("in.jsonl"),
        "attention request rejected before effect for event evt-1"
    );
}

#[test]
fn a_thread_id_that_is_no_atom_is_not_asked_for() {
    let mut command = command();
    command.thread_id = "a b".to_string();
    command.once = true;
    let mut listener = Listener::new(&command, ListenerState::default()).unwrap();
    listener.tick(at(1, 0));
    let plan = listener.take_inbox(read(0, 40, Ok(event("evt-1"))), at(1, 0));
    let Next::Fail { failure } = plan.next else {
        panic!("expected a failure");
    };
    assert_eq!(
        failure.to_message("in.jsonl"),
        "pendingAttempt.threadId contains a character outside the safe attention metadata alphabet"
    );
}

#[test]
fn one_cycle_is_enough_where_only_one_is_asked_for() {
    let mut command = command();
    command.once = true;
    command.events = None;
    let mut listener = Listener::new(&command, ListenerState::default()).unwrap();
    assert_eq!(listener.tick(at(5, 0)).next, Next::Stop);
}

#[test]
fn the_connection_is_watched() {
    let mut requests = AppServerRequests::new();
    assert_eq!(requests.next_request_id(), 1);
    assert_eq!(requests.next_request_id(), 2);
    assert_eq!(
        monitor_event(None),
        Monitored::Gone { reason: "app-server event stream closed".to_string() }
    );
    assert_eq!(
        monitor_event(Some(&AppServerEvent::Disconnected { message: "bye".to_string() })),
        Monitored::Gone { reason: "bye".to_string() }
    );
    assert_eq!(
        monitor_event(Some(&AppServerEvent::ServerRequest { id: "9".to_string() })),
        Monitored::Noted {
            line: "codex listen: ignored global app-server request 9 so another client can respond"
                .to_string(),
        }
    );
    assert_eq!(
        monitor_event(Some(&AppServerEvent::Lagged { skipped: 4 })),
        Monitored::Noted {
            line: "codex listen: app-server event stream skipped 4 events".to_string(),
        }
    );
    assert_eq!(monitor_event(Some(&AppServerEvent::ServerNotification)), Monitored::Ignored);
    assert_eq!(
        disconnect_message(&None),
        "app-server disconnected: app-server event monitor stopped unexpectedly"
    );
    assert_eq!(
        disconnect_message(&Some("bye".to_string())),
        "app-server disconnected: bye"
    );
}
