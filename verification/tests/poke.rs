use codex_runtime::attention::{
    ThreadAttentionHeldReason, ThreadAttentionKind, ThreadAttentionResponse,
};
use codex_runtime::poke::admission::{admit_poke, check_stale_socket, AdmissionState, StaleSocket};
use codex_runtime::poke::policy::{read_policy, PokeSignalPolicy, PolicyFile, PolicyMetadata};
use codex_runtime::poke::request::{
    answer_poke, check_request, conclude_poke, plan_poke, safe_source_ref, PokeAwaited, PokePlan,
    PokeRequest, PokeResponse, PokeSignal, Refusal,
};

const SECOND: u64 = 1_000_000_000;
const USER: u32 = 1000;

fn request(event_id: &str, to: &str) -> PokeRequest {
    PokeRequest {
        version: 1,
        event_id: event_id.to_string(),
        to: to.to_string(),
        workspace: "root".to_string(),
        member: "rook-mid".to_string(),
        session_id: "mid-session".to_string(),
        signal: PokeSignal::Cc,
    }
}

fn wire(event_id: &str, to: &str) -> String {
    format!(
        r#"{{"version":1,"eventId":"{event_id}","to":"{to}","workspace":"root","member":"rook-mid","sessionId":"mid-session","signal":"cc"}}"#
    )
}

fn policy_file(contents: &str) -> PolicyFile {
    PolicyFile {
        metadata: Some(PolicyMetadata { is_file: true, uid: USER, mode: 0o100600 }),
        contents: Some(contents.as_bytes().to_vec()),
    }
}

fn policy_for(recipient: &str, rest: &str) -> PolicyFile {
    policy_file(&format!(
        r#"{{"version":1,"recipient":"{recipient}","sources":[{{"workspace":"root","member":"rook-mid",{rest}}}]}}"#
    ))
}

#[test]
fn listener_forwards_one_policy_admitted_typed_signal() {
    let thread_id = "019faa64-c0a7-7193-873b-f71cf30951d7";
    let policy = policy_for(
        thread_id,
        r#""signals":[{"signal":"cc","maxEvents":2,"perSeconds":60}]"#,
    );
    let mut state = AdmissionState::new();

    let received = check_request(wire("event-1", thread_id).as_bytes(), thread_id)
        .expect("listener should take the request");
    assert_eq!(admit_poke(&mut state, &received, &policy, USER, thread_id, 0), Ok(()));
    assert_eq!(received, request("event-1", thread_id));
    let answer = conclude_poke(PokeAwaited::Response { response: PokeResponse::Started });
    assert_eq!(answer, PokeResponse::Started);
    assert_eq!(answer.to_text(), r#"{"status":"started"}"#);
}

#[test]
fn listener_enforces_receiver_owned_per_signal_quota() {
    let thread_id = "019faa64-c0a7-7193-873b-f71cf30951d7";
    let policy = policy_for(
        thread_id,
        r#""sessions":["mid-session"],"signals":[{"signal":"cc","maxEvents":1,"perSeconds":60}]"#,
    );
    let mut state = AdmissionState::new();

    let first = check_request(wire("event-1", thread_id).as_bytes(), thread_id).unwrap();
    assert_eq!(admit_poke(&mut state, &first, &policy, USER, thread_id, 0), Ok(()));

    let second = check_request(wire("event-2", thread_id).as_bytes(), thread_id).unwrap();
    let refusal = admit_poke(&mut state, &second, &policy, USER, thread_id, SECOND).unwrap_err();
    assert_eq!(
        PokeResponse::rejected(refusal),
        PokeResponse::Rejected {
            reason: "rateLimited".to_string(),
        }
    );
    assert_eq!(
        admit_poke(&mut state, &second, &policy, USER, thread_id, 60 * SECOND - 1),
        Err(Refusal::RateLimited)
    );
    assert_eq!(
        admit_poke(&mut state, &second, &policy, USER, thread_id, 60 * SECOND),
        Ok(())
    );
    assert_eq!(
        admit_poke(&mut state, &first, &policy, USER, thread_id, 600 * SECOND),
        Err(Refusal::DuplicateEvent)
    );
}

#[test]
fn policy_rejects_symlink_and_oversized_source_ref() {
    let link = PolicyFile {
        metadata: Some(PolicyMetadata { is_file: false, uid: USER, mode: 0o120777 }),
        contents: Some(b"{}".to_vec()),
    };
    assert_eq!(
        read_policy(&link, USER, "recipient").unwrap_err().as_str(),
        "policyPermissions"
    );
    assert!(safe_source_ref("w", "m", &"s".repeat(124)));
    assert!(!safe_source_ref("w", "m", &"s".repeat(125)));
}

#[test]
fn requests_are_refused_for_their_first_fault() {
    let check = |text: &str| check_request(text.as_bytes(), "me").unwrap_err().as_str();
    assert_eq!(check(&" ".repeat(4097)), "frameTooLarge");
    assert_eq!(check(&" ".repeat(4096)), "invalidRequest");
    assert_eq!(check("{}"), "invalidRequest");
    assert_eq!(
        check(&wire("e", "me").replace("\"cc\"", "\"cc\",\"text\":\"hello\"")),
        "invalidRequest"
    );
    assert_eq!(check_request(&[0xc3], "me"), Err(Refusal::InvalidRequest));
    assert_eq!(
        check(&wire("e", "me").replace("\"version\":1", "\"version\":2")),
        "unsupportedVersion"
    );
    assert_eq!(check(&wire("e", "you")), "wrongRecipient");
    assert_eq!(check(&wire("e f", "me")), "unsafeMetadata");
    assert_eq!(check(&wire("", "me")), "unsafeMetadata");
    let long = wire("e", "me")
        .replace("rook-mid", &"m".repeat(64))
        .replace("mid-session", &"s".repeat(62));
    assert_eq!(check(&long), "unsafeMetadata");
    assert!(check_request(wire("e/1@x:y", "me").as_bytes(), "me").is_ok());
}

#[test]
fn policies_are_held_to_their_rules() {
    let fault = |file: &PolicyFile| read_policy(file, USER, "me").unwrap_err().as_str();
    let missing = PolicyFile { metadata: None, contents: None };
    assert_eq!(fault(&missing), "policyUnavailable");
    let mut unread = policy_for("me", "");
    unread.contents = None;
    assert_eq!(fault(&unread), "policyUnavailable");
    for (uid, mode) in [(USER + 1, 0o600), (USER, 0o620), (USER, 0o602)] {
        let mut file = policy_for("me", "");
        file.metadata = Some(PolicyMetadata { is_file: true, uid, mode });
        assert_eq!(fault(&file), "policyPermissions");
    }
    assert_eq!(fault(&policy_file("{}")), "invalidPolicy");
    let other = policy_file(r#"{"version":1,"recipient":"you","sources":[]}"#);
    assert_eq!(fault(&other), "policyRecipientMismatch");
    let cc = r#"{"signal":"cc","maxEvents":1,"perSeconds":1}"#;
    assert_eq!(fault(&policy_for("me", r#""signals":[]"#)), "invalidPolicySignals");
    assert_eq!(
        fault(&policy_for("me", &format!(r#""signals":[{cc},{cc}]"#))),
        "invalidPolicySignals"
    );
    assert_eq!(
        fault(&policy_for("me", &format!(r#""sessions":["a b"],"signals":[{cc}]"#))),
        "invalidPolicySource"
    );
    let source = format!(r#"{{"workspace":"w","member":"m","signals":[{cc}]}}"#);
    let twice = format!(r#"{{"version":1,"recipient":"me","sources":[{source},{source}]}}"#);
    assert_eq!(fault(&policy_file(&twice)), "invalidPolicySource");
    let once = format!(r#"{{"version":1,"recipient":"me","sources":[{source}]}}"#);
    assert_eq!(read_policy(&policy_file(&once), USER, "me").unwrap().sources.len(), 1);
}

#[test]
fn only_what_the_policy_names_is_admitted() {
    let mut state = AdmissionState::new();
    let mut refused = |rest: &str| {
        let file = policy_for("me", rest);
        admit_poke(&mut state, &request("e", "me"), &file, USER, "me", 0)
            .unwrap_err()
            .as_str()
    };
    assert_eq!(
        refused(r#""signals":[{"signal":"tap","maxEvents":1,"perSeconds":1}]"#),
        "notAllowed"
    );
    assert_eq!(
        refused(r#""sessions":["other"],"signals":[{"signal":"cc","maxEvents":1,"perSeconds":1}]"#),
        "notAllowed"
    );
    assert_eq!(
        refused(r#""signals":[{"signal":"cc","maxEvents":0,"perSeconds":1}]"#),
        "invalidPolicyQuota"
    );
    assert_eq!(
        refused(r#""signals":[{"signal":"cc","maxEvents":1,"perSeconds":0}]"#),
        "invalidPolicyQuota"
    );
}

#[test]
fn only_the_latest_events_are_remembered() {
    let policy = PokeSignalPolicy {
        signal: PokeSignal::Cc,
        max_events: u32::MAX,
        per_seconds: 1,
    };
    let mut state = AdmissionState::new();
    for n in 0..1025 {
        assert_eq!(state.admit_event(&request(&format!("e{n}"), "me"), policy, 0), Ok(()));
    }
    assert_eq!(
        state.admit_event(&request("e1024", "me"), policy, 0),
        Err(Refusal::DuplicateEvent)
    );
    assert_eq!(state.admit_event(&request("e0", "me"), policy, 0), Ok(()));
    let mut other = request("e0", "me");
    other.signal = PokeSignal::Tap;
    assert_eq!(state.admit_event(&other, policy, 0), Ok(()));
}

#[test]
fn an_admitted_poke_asks_for_the_attention_of_its_thread() {
    assert_eq!(
        plan_poke(None, request("e", "me")),
        PokePlan::Answer {
            response: PokeResponse::Held { reason: "noPrimaryThread".to_string() },
        }
    );
    assert_eq!(
        plan_poke(Some("you"), request("e", "me")),
        PokePlan::Answer {
            response: PokeResponse::Rejected { reason: "recipientChanged".to_string() },
        }
    );
    let PokePlan::Request { thread_id, attention } = plan_poke(Some("me"), request("e", "me"))
    else {
        panic!("expected a request");
    };
    assert_eq!(thread_id, "me");
    assert_eq!(attention.version, 1);
    assert_eq!(attention.event_id, "e");
    assert_eq!(attention.kind, ThreadAttentionKind::DirectedResponse);
    assert_eq!(attention.source_class, "mcp");
    assert_eq!(attention.source_ref, "root/rook-mid@mid-session");
    assert_eq!(attention.reference.as_deref(), Some("poke/v1/cc"));
}

#[test]
fn answers_say_what_became_of_a_poke() {
    let held = |reason| answer_poke(Some(ThreadAttentionResponse::Held { reason })).to_text();
    assert_eq!(
        answer_poke(Some(ThreadAttentionResponse::Started)),
        PokeResponse::Started
    );
    assert_eq!(
        held(ThreadAttentionHeldReason::PendingTriggerTurn),
        r#"{"status":"held","reason":"pendingOperatorTurn"}"#
    );
    assert_eq!(
        held(ThreadAttentionHeldReason::PlanMode),
        r#"{"status":"held","reason":"planMode"}"#
    );
    assert_eq!(
        held(ThreadAttentionHeldReason::Busy),
        r#"{"status":"held","reason":"busy"}"#
    );
    assert_eq!(
        answer_poke(None).to_text(),
        r#"{"status":"held","reason":"attentionOutcomeUnknown"}"#
    );
    assert_eq!(
        conclude_poke(PokeAwaited::Timeout).to_text(),
        r#"{"status":"held","reason":"clientResponseTimeout"}"#
    );
    assert_eq!(
        conclude_poke(PokeAwaited::Disconnected).to_text(),
        r#"{"status":"held","reason":"clientStopped"}"#
    );
    assert_eq!(
        PokeResponse::rejected(Refusal::NotAllowed).to_text(),
        r#"{"status":"rejected","reason":"notAllowed"}"#
    );
}

#[test]
fn a_socket_is_removed_only_where_it_is_stale_and_ours() {
    assert_eq!(check_stale_socket(false, false, 1, 1), StaleSocket::Nothing);
    assert_eq!(check_stale_socket(true, true, 1, 1), StaleSocket::InUse);
    assert_eq!(check_stale_socket(true, false, 1, 2), StaleSocket::NotOwned);
    assert_eq!(check_stale_socket(true, false, 2, 2), StaleSocket::Remove);
}

#[test]
fn only_admissions_of_the_same_source_and_signal_count() {
    let policy = PokeSignalPolicy {
        signal: PokeSignal::Cc,
        max_events: 2,
        per_seconds: 10,
    };
    let mut state = AdmissionState::new();
    let from = |event_id: &str, member: &str, session_id: &str| PokeRequest {
        member: member.to_string(),
        session_id: session_id.to_string(),
        ..request(event_id, "t")
    };
    let mut send = |event_id: &str, member: &str, session_id: &str, seconds: u64| {
        state.admit_event(&from(event_id, member, session_id), policy, seconds * SECOND)
    };
    assert_eq!(send("a", "m", "s1", 0), Ok(()));
    assert_eq!(send("a", "n", "s1", 0), Ok(()));
    assert_eq!(send("b", "m", "s2", 4), Ok(()));
    assert_eq!(send("a", "m", "s3", 4), Err(Refusal::DuplicateEvent));
    assert_eq!(send("c", "m", "s1", 9), Err(Refusal::RateLimited));
    assert_eq!(send("c", "m", "s1", 10), Ok(()));
    assert_eq!(send("d", "m", "s1", 13), Err(Refusal::RateLimited));
    assert_eq!(send("d", "m", "s1", 14), Ok(()));
    assert_eq!(send("a", "m", "s1", 1000), Err(Refusal::DuplicateEvent));
}

#[test]
fn the_last_1024_admitted_ids_are_remembered() {
    let policy = PokeSignalPolicy {
        signal: PokeSignal::Cc,
        max_events: 1,
        per_seconds: 1,
    };
    let mut state = AdmissionState::new();
    for n in 0..1025 {
        let poke = request(&format!("e{n}"), "t");
        assert_eq!(state.admit_event(&poke, policy, n * SECOND), Ok(()));
    }
    let later = 2000 * SECOND;
    assert_eq!(
        state.admit_event(&request("e1", "t"), policy, later),
        Err(Refusal::DuplicateEvent)
    );
    assert_eq!(state.admit_event(&request("e0", "t"), policy, later), Ok(()));
}
