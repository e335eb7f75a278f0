use std::collections::VecDeque;

use codex_runtime::listen::event::{AttentionEvent, InboxIdentity, PeriodicAttention};
use codex_runtime::listen::state::{
    AttemptError, BeginError, ConfirmError, ListenerState, PendingAttempt, MAX_SEEN_EVENT_IDS,
};
use codex_runtime::listen::state_file::LoadError;

fn mention_json() -> &'static str {
    r#"{"version":1,"eventId":"evt-01","kind":"mention","source":"Rook/Airia-06","reference":"chat/message/42"}"#
}

fn load(text: &str) -> Result<ListenerState, LoadError> {
    ListenerState::load(Some(text.as_bytes()))
}

#[test]
fn listener_state_round_trips_and_caps_seen_ids() {
    let mut state = ListenerState::default();
    for index in 0..=MAX_SEEN_EVENT_IDS {
        state.mark_seen(format!("evt-{index}"));
    }
    state.event_offset = 42;
    state.inbox_identity = Some(InboxIdentity {
        device: 17,
        inode: 42,
    });
    state.last_periodic_at = Some(123);
    let saved = state.to_file();

    let loaded = load(&saved).expect("load state");
    assert_eq!(loaded.event_offset, 42);
    assert_eq!(loaded.inbox_identity, state.inbox_identity);
    assert_eq!(loaded.last_periodic_at, Some(123));
    assert_eq!(loaded.seen_event_ids.len(), MAX_SEEN_EVENT_IDS);
    assert!(!loaded.contains("evt-0"));
    assert!(loaded.contains(&format!("evt-{MAX_SEEN_EVENT_IDS}")));
}

#[test]
fn legacy_consumed_state_cannot_bind_equal_or_larger_replacement_inbox() {
    let original_next_offset = mention_json().len() as u64 + 1;
    let legacy_state = ListenerState {
        event_offset: original_next_offset,
        ..ListenerState::default()
    };
    let saved = legacy_state.to_file();

    let replacement = format!(
        "{}\n{}\n",
        mention_json(),
        mention_json().replace("evt-01", "evt-02")
    );
    assert!(replacement.len() as u64 >= legacy_state.event_offset);

    let error = load(&saved)
        .expect_err("consumed legacy state must hold before binding replacement identity")
        .to_message("listener.json");
    assert!(error.contains("ATTENTION INBOX HOLD"));
    assert!(error.contains("durable event offset"));
    assert!(error.contains("no inbox file identity"));
}

#[test]
fn persisted_pending_attempt_blocks_restart() {
    let event = AttentionEvent::parse(mention_json()).expect("valid event");
    let mut state = ListenerState::default();
    state
        .begin_attempt(PendingAttempt::for_event("thread-01", 0, 42, &event, 123))
        .expect("begin attempt");
    let saved = state.to_file();

    let loaded = load(&saved).expect("load state");
    let error = loaded
        .require_no_pending_attempt()
        .expect_err("pending attempt must block restart");
    assert!(error.contains("AMBIGUOUS EFFECT HOLD"));
    assert_eq!(loaded.pending_attempt, state.pending_attempt);
}

#[test]
fn held_clears_pending_without_advancing() {
    let event = AttentionEvent::parse(mention_json()).expect("valid event");
    let mut state = ListenerState::default();
    state
        .begin_attempt(PendingAttempt::for_event("thread-01", 0, 42, &event, 123))
        .expect("begin attempt");

    let pending_attempt = state.confirm_held().expect("confirm held");

    assert_eq!(pending_attempt.event_id, "evt-01");
    assert_eq!(state.event_offset, 0);
    assert_eq!(state.seen_event_ids, VecDeque::<String>::new());
    assert_eq!(state.pending_attempt, None);
}

#[test]
fn started_advances_event_once() {
    let event = AttentionEvent::parse(mention_json()).expect("valid event");
    let mut state = ListenerState::default();
    state
        .begin_attempt(PendingAttempt::for_event("thread-01", 0, 42, &event, 123))
        .expect("begin attempt");

    let pending_attempt = state.confirm_started().expect("confirm started");
    assert_eq!(pending_attempt.event_id, "evt-01");
    assert_eq!(state.event_offset, 42);
    assert_eq!(state.seen_event_ids, VecDeque::from(["evt-01".to_string()]));
    assert_eq!(state.last_periodic_at, Some(123));
    assert_eq!(state.pending_attempt, None);

    state
        .confirm_started()
        .expect_err("started cannot be confirmed twice");
    assert_eq!(state.event_offset, 42);
    assert_eq!(state.seen_event_ids, VecDeque::from(["evt-01".to_string()]));
}

#[test]
fn an_absent_file_is_the_initial_state() {
    let state = ListenerState::load(None).unwrap();
    assert_eq!(
        state.to_file(),
        "{\n  \"version\": 2,\n  \"eventOffset\": 0,\n  \"inboxIdentity\": null,\n  \"seenEventIds\": [],\n  \"lastPeriodicAt\": null,\n  \"pendingAttempt\": null\n}\n"
    );
}

#[test]
fn state_files_are_read_strictly() {
    let good = r#"{"version":2,"eventOffset":0,"seenEventIds":[],"lastPeriodicAt":-5,"pendingAttempt":null}"#;
    assert_eq!(load(good).unwrap().last_periodic_at, Some(-5));
    let refused = |text: &str| load(text).expect_err("refused").to_message("s.json");
    assert_eq!(refused("{}"), "failed to parse listener state s.json");
    assert_eq!(refused("not json"), "failed to parse listener state s.json");
    assert_eq!(
        refused(&good.replace("\"version\":2", "\"version\":2,\"more\":1")),
        "failed to parse listener state s.json"
    );
    assert_eq!(
        refused(&good.replace("\"version\":2", "\"version\":2,\"version\":2")),
        "failed to parse listener state s.json"
    );
    assert_eq!(
        refused(&good.replace("\"version\":2", "\"version\":1")),
        "unsupported listener state version 1; expected 2"
    );
    assert!(ListenerState::load(Some(&[0xff])).is_err());
}

#[test]
fn a_saved_attempt_must_be_sound() {
    let with = |kind: &str, offsets: &str, thread: &str| {
        let text = format!(
            r#"{{"version":2,"eventOffset":0,"seenEventIds":[],"lastPeriodicAt":null,"pendingAttempt":{{"threadId":"{thread}","eventId":"e",{offsets}"kind":"{kind}","attemptedAt":1}}}}"#
        );
        match load(&text) {
            Ok(_) => "sound".to_string(),
            Err(error) => error.to_message("s.json"),
        }
    };
    let both = "\"eventOffset\":3,\"nextEventOffset\":4,";
    assert_eq!(with("mention", both, "t"), "sound");
    assert_eq!(with("periodic", "", "t"), "sound");
    assert_eq!(
        with("periodic", both, "t"),
        "periodic pending attempt must not contain event offsets"
    );
    assert_eq!(with("mention", "", "t"), "event pending attempt requires event offsets");
    assert_eq!(
        with("directedResponse", "\"eventOffset\":4,\"nextEventOffset\":4,", "t"),
        "event pending attempt next offset must advance"
    );
    assert_eq!(
        with("mention", both, ""),
        "pendingAttempt.threadId must be between 1 and 128 bytes"
    );
    assert_eq!(with("other", both, "t"), "failed to parse listener state s.json");
}

#[test]
fn a_second_attempt_does_not_begin() {
    let event = PeriodicAttention::for_slot(1);
    let mut state = ListenerState::default();
    assert_eq!(state.begin_attempt(PendingAttempt::for_periodic("t", &event, 5)), Ok(()));
    assert_eq!(
        state.begin_attempt(PendingAttempt::for_periodic("t", &event, 6)),
        Err(BeginError::Pending)
    );
    assert_eq!(
        state.require_no_pending_attempt(),
        Err(
            "AMBIGUOUS EFFECT HOLD: pending periodic attention attempt periodic/1 for thread t must be reconciled before restart"
                .to_string()
        )
    );
    assert_eq!(state.confirm_rejected().unwrap().attempted_at, 5);
    assert_eq!(state.last_periodic_at, None);
    assert_eq!(state.confirm_rejected(), Err(ConfirmError::NothingRejected));
    assert_eq!(state.confirm_held(), Err(ConfirmError::NothingHeld));
    assert_eq!(
        state.confirm_started().unwrap_err().to_message(),
        "cannot confirm started without a pending attention attempt"
    );
    assert_eq!(
        state.begin_attempt(PendingAttempt::for_periodic("a b", &event, 6)).is_err(),
        true
    );
    let mut unsound = PendingAttempt::for_periodic("t", &event, 7);
    unsound.event_offset = Some(1);
    assert_eq!(
        state.begin_attempt(unsound),
        Err(BeginError::Attempt { error: AttemptError::UnexpectedOffsets })
    );
}

#[test]
fn a_periodic_start_keeps_the_inbox() {
    let mut state = ListenerState::default();
    state.event_offset = 9;
    state
        .begin_attempt(PendingAttempt::for_periodic("t", &PeriodicAttention::for_slot(2), 77))
        .unwrap();
    state.confirm_started().unwrap();
    assert_eq!(state.event_offset, 9);
    assert_eq!(state.last_periodic_at, Some(77));
    assert!(state.seen_event_ids.is_empty());
}

#[test]
fn unknown_members_of_the_inbox_identity_are_ignored() {
    let file = |identity: &str| {
        format!(
            r#" {{"version":2, "eventOffset":7, "inboxIdentity" : {identity} ,"seenEventIds":["a:b"],"lastPeriodicAt":null,"pendingAttempt":null}} "#
        )
    };
    let identity = Some(InboxIdentity {
        device: 1,
        inode: 2,
    });
    let deep = format!("{}{}", "[".repeat(1000), "]".repeat(1000));
    let taken = [
        r#"{"device":1,"inode":2}"#.to_string(),
        r#"{"device":1,"inode":2,"x":{"device":3}}"#.to_string(),
        r#"{"x":1, "device":1 ,"x":2,"inode":2}"#.to_string(),
        r#"{"\u0064evice":1,"x":{"a":1,"a":2},"inode":2,"y":":,}"}"#.to_string(),
        r#"{"x":1e999,"device":1,"inode":2}"#.to_string(),
        format!(r#"{{"device":1,"inode":2,"x":{deep}}}"#),
        "[1,2]".to_string(),
    ];
    for text in taken {
        let state = load(&file(&text)).expect("state file");
        assert_eq!(state.inbox_identity, identity, "{text}");
        assert_eq!(state.event_offset, 7);
        assert_eq!(state.seen_event_ids, ["a:b"]);
    }
    let mut bytes = file(r#"{"x":"?","x":0,"device":1,"inode":2}"#).into_bytes();
    for byte in bytes.iter_mut() {
        if *byte == b'?' {
            *byte = 0xff;
        }
    }
    let state = ListenerState::load(Some(&bytes)).expect("state file");
    assert_eq!(state.inbox_identity, identity);
    let list = r#"[2,7,{"x":1,"x":2,"inode":2,"device":1},["a:b"],null,null]"#;
    assert_eq!(load(list).expect("state file").inbox_identity, identity);

    let refused = [
        r#"{"device":1,"inode":2,"inode":2}"#,
        r#"{"device":1,"inode":2,"x":1,"x":2,}"#,
        r#"{"device":1,"inode":2,"x":1 "x":2}"#,
        r#"{"device":1,"x":1,"x":2}"#,
        r#"{"device":1,"inode":2,"x":01,"x":2}"#,
        r#"{"device":1,"inode":2,"\ud800":1,"x":1,"x":2}"#,
    ];
    for text in refused {
        assert_eq!(load(&file(text)).unwrap_err(), LoadError::Unreadable, "{text}");
    }
    let repeated = file(r#"{"device":1,"inode":2}"#).replace("\"version\":2", "\"version\":2,\"version\":2");
    assert_eq!(load(&repeated).unwrap_err(), LoadError::Unreadable);
}
