use codex_runtime::json::{parse_without_repeats, same_json, Json};
use codex_runtime::responses::circuit::{
    CircuitOpenResult, WebsocketCircuitBreaker, BASE_COOLDOWN, MAX_COOLDOWN,
};
use codex_runtime::responses::endpoint::{
    accept_event_stream, bounded_request_headers, classify_previous_response_not_found,
    note_request, request_headers, ApiError, RequestMode, ResponsesEndpoint, TransportError,
    LARGE_RESPONSES_REQUEST_BYTES,
};
use codex_runtime::responses::lineage::{
    responses_request_properties_match, IncrementalResponseRequest, LastResponse, Received,
    ResponseItem, ResponsesApiRequest, ResponsesLineage, ResponsesLineageUpdate,
};
use codex_runtime::responses::transport::{
    serialized_json_len, ByteCounter, ResponsesFailureReason, ResponsesTransport,
    ResponsesTransportState,
};
use codex_runtime::snapshot::{process_start_ticks, ProcessIdentity, Publication};
use serde_json::Value;

fn http_error(body: Option<&str>) -> ApiError {
    ApiError::Transport {
        error: TransportError::Http {
            status: 400,
            url: None,
            headers: None,
            body: body.map(str::to_owned),
        },
    }
}

#[test]
fn classifies_missing_previous_response_http_error() {
    let error = http_error(Some(
        r#"{"error":{"code":"previous_response_not_found","message":"The referenced response expired."}}"#,
    ));
    assert!(matches!(
        classify_previous_response_not_found(error),
        ApiError::PreviousResponseNotFound
    ));
}

#[test]
fn other_failures_stay_as_they_are() {
    let bodies = [
        None,
        Some(""),
        Some("not json"),
        Some(r#"{"error":{"code":"rate_limited"}}"#),
        Some(r#"{"error":"previous_response_not_found"}"#),
        Some(r#"{"code":"previous_response_not_found"}"#),
        Some(r#"["error"]"#),
        Some(r#"{"error":{"code":["previous_response_not_found"]}}"#),
    ];
    for body in bodies {
        assert_eq!(
            classify_previous_response_not_found(http_error(body)),
            http_error(body)
        );
    }
    let other = || ApiError::Other {
        message: r#"{"error":{"code":"previous_response_not_found"}}"#.to_owned(),
    };
    assert_eq!(classify_previous_response_not_found(other()), other());
}

#[test]
fn circuit_recovers_and_backs_off_until_success() {
    let now = 7_000_000_000;
    let mut circuit = WebsocketCircuitBreaker::new();
    assert!(circuit.allows_attempt(now));

    assert_eq!(
        circuit.open(now),
        CircuitOpenResult {
            newly_opened: true,
            cooldown: BASE_COOLDOWN,
        }
    );
    assert!(!circuit.allows_attempt(now + BASE_COOLDOWN / 2));
    assert!(circuit.allows_attempt(now + BASE_COOLDOWN));

    let second_attempt = now + BASE_COOLDOWN;
    assert_eq!(
        circuit.open(second_attempt),
        CircuitOpenResult {
            newly_opened: true,
            cooldown: BASE_COOLDOWN * 2,
        }
    );
    assert_eq!(
        circuit.open(second_attempt),
        CircuitOpenResult {
            newly_opened: false,
            cooldown: BASE_COOLDOWN * 2,
        }
    );

    circuit.record_success();
    assert!(circuit.allows_attempt(second_attempt));
    assert_eq!(
        circuit.open(second_attempt),
        CircuitOpenResult {
            newly_opened: true,
            cooldown: BASE_COOLDOWN,
        }
    );
}

#[test]
fn cooldowns_double_up_to_five_minutes() {
    let mut circuit = WebsocketCircuitBreaker::new();
    let mut now = 0;
    let mut seconds = Vec::new();
    for _ in 0..7 {
        let opened = circuit.open(now);
        assert!(opened.newly_opened);
        seconds.push(opened.cooldown / 1_000_000_000);
        now += opened.cooldown;
    }
    assert_eq!(seconds, [30, 60, 120, 240, 300, 300, 300]);
    assert_eq!(MAX_COOLDOWN, 300_000_000_000);
}

fn process() -> ProcessIdentity {
    ProcessIdentity {
        pid: 4711,
        linux_start_ticks: Some(99),
    }
}

fn value_of(publication: Option<Publication>) -> (String, Value) {
    let publication = publication.expect("snapshot");
    assert!(publication.contents.ends_with("}\n"));
    let value = serde_json::from_str(&publication.contents).expect("valid snapshot json");
    (publication.temporary_name, value)
}

#[test]
fn snapshot_is_atomic_bounded_state_without_error_text() {
    let (mut state, _) = ResponsesTransportState::new(
        Some("thread.json".to_string()),
        "00000000-0000-4000-8000-000000000071",
        process(),
        1_000,
    );

    state.request_started(
        ResponsesTransport::Websocket,
        true,
        3,
        Some(1536),
        Some(true),
        2_000,
    );
    let (first_name, value) = value_of(state.fallback_opened(3_000));

    assert_eq!(value["schema"], "codex.responses-transport-state/v1");
    assert_eq!(value["thread_id"], "00000000-0000-4000-8000-000000000071");
    assert_eq!(value["process"]["pid"], 4711);
    assert_eq!(value["transport"]["active"], "http");
    assert_eq!(value["transport"]["request_mode"], "incremental");
    assert_eq!(value["transport"]["body_bytes"], 1536);
    assert_eq!(value["circuit"]["state"], "open");
    assert_eq!(value["circuit"]["consecutive_openings"], 1);
    assert!(value["circuit"].get("retry_at_unix_ms").is_none());
    assert_eq!(value["last_outcome"], "fallback");
    assert_eq!(value["reason"], "websocket_retry_exhausted");

    let (second_name, value) = value_of(state.websocket_retry_requested(4_000));
    assert_eq!(value["transport"]["active"], "http");
    assert_eq!(value["transport"]["state"], "fallback");
    assert_eq!(value["circuit"]["state"], "half_open");
    assert_eq!(value["circuit"]["consecutive_openings"], 1);
    assert!(value["circuit"].get("retry_at_unix_ms").is_none());
    assert_eq!(value["last_outcome"], "websocket_retry_ready");
    assert!(value.get("reason").is_none());
    assert_ne!(first_name, second_name);
}

#[test]
fn every_step_is_published_once_and_in_order() {
    let (mut state, first) =
        ResponsesTransportState::new(Some("t.json".to_string()), "a\"b", process(), 5);
    let first = first.expect("initial snapshot");
    assert_eq!(first.temporary_name, ".t.json.4711.1.tmp");
    assert_eq!(
        first.contents,
        "{\"schema\":\"codex.responses-transport-state/v1\",\"thread_id\":\"a\\\"b\",\"process\":{\"pid\":4711,\"linux_start_ticks\":99},\"sequence\":0,\"updated_at_unix_ms\":5,\"transport\":{\"active\":\"idle\",\"state\":\"idle\"},\"circuit\":{\"state\":\"closed\",\"consecutive_openings\":0},\"last_outcome\":\"initialized\"}\n"
    );
    let (name, value) = value_of(state.websocket_connecting(6));
    assert_eq!(name, ".t.json.4711.2.tmp");
    assert_eq!(value["sequence"], 1);
    assert_eq!(value["transport"]["state"], "connecting");
    let (_, value) = value_of(state.request_started(
        ResponsesTransport::Websocket,
        false,
        2,
        None,
        Some(false),
        7,
    ));
    assert_eq!(value["transport"]["request_mode"], "full");
    assert_eq!(value["transport"]["input_items"], 2);
    assert!(value["transport"].get("body_bytes").is_none());
    assert_eq!(value["transport"]["connection_reused"], false);
    let (_, value) = value_of(state.stream_started(ResponsesTransport::Websocket, 8));
    assert_eq!(value["transport"]["state"], "streaming");
    let (_, value) = value_of(state.failed(
        ResponsesTransport::Websocket,
        ResponsesFailureReason::StreamClosed,
        9,
    ));
    assert_eq!(value["transport"]["state"], "failed");
    assert_eq!(value["reason"], "stream_closed");
    state.fallback_opened(10);
    let (_, value) = value_of(state.completed(ResponsesTransport::Http, 11));
    assert_eq!(value["circuit"]["state"], "open");
    let (_, value) = value_of(state.completed(ResponsesTransport::Websocket, 12));
    assert_eq!(value["circuit"]["state"], "closed");
    assert_eq!(value["circuit"]["consecutive_openings"], 0);
    assert_eq!(value["updated_at_unix_ms"], 12);
    assert_eq!(value["sequence"], 7);
}

#[test]
fn a_state_without_a_file_publishes_nothing() {
    let (mut state, first) = ResponsesTransportState::new(None, "t", process(), 5);
    assert_eq!(first, None);
    assert_eq!(state.fallback_opened(6), None);
}

#[test]
fn failures_have_their_names() {
    let names = [
        (ResponsesFailureReason::AuthRecovery, "auth_recovery"),
        (ResponsesFailureReason::ConnectionError, "connection_error"),
        (ResponsesFailureReason::ConsumerDropped, "consumer_dropped"),
        (
            ResponsesFailureReason::PreviousResponseNotFound,
            "previous_response_not_found",
        ),
        (ResponsesFailureReason::RequestError, "request_error"),
        (ResponsesFailureReason::StreamClosed, "stream_closed"),
        (ResponsesFailureReason::StreamError, "stream_error"),
        (ResponsesFailureReason::UpgradeRequired, "upgrade_required"),
    ];
    for (reason, name) in names {
        assert_eq!(reason.as_str(), name);
    }
}

#[test]
fn serialized_length_counts_without_retaining_the_body() {
    let value = Json::Object(vec![(
        "large".to_string(),
        Json::Text("x".repeat(1024)),
    )]);
    let same: Value = serde_json::from_str(&format!("{{\"large\":\"{}\"}}", "x".repeat(1024)))
        .expect("json");
    assert_eq!(
        serialized_json_len(&value),
        Some(serde_json::to_vec(&same).expect("json").len())
    );
}

#[test]
fn counted_bytes_count_as_written() {
    let mut counter = ByteCounter::new();
    assert_eq!(counter.count(b"abc"), 3);
    assert_eq!(counter.count(b""), 0);
    assert_eq!(counter.bytes, 3);
    counter.bytes = usize::MAX - 1;
    assert_eq!(counter.count(b"abc"), 3);
    assert_eq!(counter.bytes, usize::MAX);
}

#[test]
fn start_ticks_stand_behind_the_last_parenthesis() {
    let fields: Vec<String> = (0..40).map(|n| n.to_string()).collect();
    let stat = format!("4711 (a) b) c) {}", fields.join(" "));
    assert_eq!(process_start_ticks(&stat), Some(19));
    assert_eq!(process_start_ticks("4711 no parenthesis"), None);
    assert_eq!(process_start_ticks("4711 (a) 1 2 3"), None);
    let words = format!("4711 (a) {}x", "1 ".repeat(19));
    assert_eq!(process_start_ticks(&words), None);
}

#[test]
fn routes_have_their_paths() {
    assert_eq!(ResponsesEndpoint::default().path(), "/responses");
    assert_eq!(ResponsesEndpoint::Guardian.path(), "/guardian");
    assert_eq!(
        ResponsesEndpoint::GuardianClassifier.path(),
        "/guardian-classifier"
    );
}

#[test]
fn requests_are_noted_before_they_are_sent() {
    let note = note_request(true, 3, LARGE_RESPONSES_REQUEST_BYTES, false);
    assert_eq!(note.mode.as_str(), "incremental");
    assert!(note.large && note.body_logged);
    let note = note_request(false, 0, LARGE_RESPONSES_REQUEST_BYTES - 1, true);
    assert_eq!(note.mode, RequestMode::Full);
    assert_eq!(note.mode.as_str(), "full");
    assert!(!note.large && !note.body_logged);
    assert_eq!((note.input_items, note.body_bytes), (0, 8_388_607));
}

fn headers_of(pairs: &[(&'static str, &str)]) -> http::HeaderMap {
    let mut headers = http::HeaderMap::new();
    for (name, value) in pairs {
        headers.append(*name, value.parse().expect("header value"));
    }
    headers
}

fn values_of(headers: &http::HeaderMap, name: &str) -> Vec<Vec<u8>> {
    headers
        .get_all(name)
        .iter()
        .map(|value| value.as_bytes().to_vec())
        .collect()
}

#[test]
fn later_headers_replace_earlier_ones() {
    let extra = || {
        headers_of(&[
            ("x-client-request-id", "old"),
            ("x-extra", "one"),
            ("x-extra", "two"),
            ("session_id", "stale"),
            ("session_id", "staler"),
        ])
    };
    let session = || {
        headers_of(&[
            ("session_id", "s1"),
            ("thread_id", "t1"),
            ("x-openai-subagent", "none"),
        ])
    };
    let mut headers = request_headers(
        extra(),
        &Some("t1".to_string()),
        session(),
        &Some("r\u{e9}view".to_string()),
    );
    assert_eq!(values_of(&headers, "x-client-request-id"), [b"t1"]);
    assert_eq!(values_of(&headers, "x-extra"), [b"one", b"two"]);
    assert_eq!(values_of(&headers, "session_id"), [b"s1"]);
    assert_eq!(values_of(&headers, "thread_id"), [b"t1"]);
    assert_eq!(
        values_of(&headers, "x-openai-subagent"),
        ["r\u{e9}view".as_bytes()]
    );
    accept_event_stream(&mut headers);
    assert_eq!(values_of(&headers, "accept"), [b"text/event-stream"]);

    let headers = bounded_request_headers(extra(), &Some("a\nb".to_string()), session(), &None)
        .expect("few headers");
    assert_eq!(values_of(&headers, "x-client-request-id"), [b"old"]);
    assert_eq!(values_of(&headers, "x-openai-subagent"), [b"none"]);
}

#[test]
fn too_many_headers_are_refused() {
    let mut many = http::HeaderMap::new();
    for n in 0..6553 {
        let name: http::HeaderName = format!("x-{n}").parse().expect("header name");
        many.insert(name, "v".parse().expect("header value"));
    }
    assert!(
        bounded_request_headers(many.clone(), &None, http::HeaderMap::new(), &None).is_none()
    );
    many.remove("x-7");
    assert!(bounded_request_headers(many, &None, http::HeaderMap::new(), &None).is_some());
}

fn item(text: &str, metadata: Option<&str>) -> ResponseItem {
    ResponseItem {
        content: Json::Text(text.to_string()),
        internal_metadata: metadata.map(|m| Json::Text(m.to_string())),
    }
}

fn request(input: Vec<ResponseItem>) -> ResponsesApiRequest {
    ResponsesApiRequest {
        model: "m".to_string(),
        instructions: "i".to_string(),
        previous_response_id: None,
        input,
        tools: Json::Array(vec![Json::Object(vec![
            ("a".to_string(), Json::Unsigned(1)),
            ("b".to_string(), Json::Null),
        ])]),
        tool_choice: Json::Text("auto".to_string()),
        parallel_tool_calls: true,
        reasoning: Json::Null,
        store: false,
        stream: true,
        stream_options: Json::Null,
        included: vec!["x".to_string()],
        service_tier: None,
        prompt_cache_key: Some("k".to_string()),
        text: Json::Null,
        client_metadata: Json::Null,
        access_programs: Json::Null,
    }
}

fn response(id: &str, items_added: Vec<ResponseItem>) -> LastResponse {
    LastResponse {
        response_id: id.to_string(),
        items_added,
    }
}

fn texts(incremental: Option<IncrementalResponseRequest>) -> (String, Vec<Json>, bool) {
    let incremental = incremental.expect("incremental request");
    (
        incremental.previous_response_id,
        incremental.input.into_iter().map(|i| i.content).collect(),
        incremental.previous_response_from_untraced_warmup,
    )
}

fn long_input() -> Vec<ResponseItem> {
    vec![item("u1", None), item("a1", Some("other")), item("u2", None)]
}

#[test]
fn completed_responses_are_continued_with_what_is_new() {
    let mut lineage = ResponsesLineage::new();
    assert!(!lineage.has_state());
    assert!(lineage
        .prepare_incremental_request(&request(long_input()), false)
        .is_none());

    let (sender, receiver) = tokio::sync::oneshot::channel();
    lineage.record_pending(request(vec![item("u1", Some("seen"))]), receiver, true);
    assert!(lineage.has_state());
    assert!(lineage
        .prepare_incremental_request(&request(long_input()), false)
        .is_none());
    sender
        .send(ResponsesLineageUpdate::Completed {
            response: response("r1", vec![item("a1", None)]),
        })
        .expect("receiver waits");
    assert_eq!(
        texts(lineage.prepare_incremental_request(&request(long_input()), false)),
        (
            "r1".to_string(),
            vec![Json::Text("u2".to_string())],
            true
        )
    );

    let known = || request(vec![item("u1", None), item("a1", None)]);
    assert!(lineage.prepare_incremental_request(&known(), false).is_none());
    assert_eq!(
        texts(lineage.prepare_incremental_request(&known(), true)),
        ("r1".to_string(), vec![], true)
    );
    let diverged = request(vec![item("u1", None), item("a2", None), item("u2", None)]);
    assert!(lineage.prepare_incremental_request(&diverged, true).is_none());
    assert!(lineage
        .prepare_incremental_request(&request(vec![item("u1", None)]), true)
        .is_none());
    lineage.clear();
    assert!(!lineage.has_state());
}

#[test]
fn a_pending_request_keeps_the_confirmed_response_until_it_completes() {
    let mut lineage = ResponsesLineage::new();
    let (sender, receiver) = tokio::sync::oneshot::channel();
    lineage.record_pending(request(vec![item("u1", None)]), receiver, false);
    sender
        .send(ResponsesLineageUpdate::Completed {
            response: response("r1", vec![item("a1", None)]),
        })
        .expect("receiver waits");
    assert!(lineage
        .prepare_incremental_request(&request(long_input()), false)
        .is_some());

    let (sender, receiver) = tokio::sync::oneshot::channel();
    lineage.record_pending(request(long_input()), receiver, false);
    assert_eq!(
        texts(lineage.prepare_incremental_request(&request(long_input()), false)).0,
        "r1"
    );
    drop(sender);
    assert_eq!(
        texts(lineage.prepare_incremental_request(&request(long_input()), false)).0,
        "r1"
    );

    let (sender, receiver) = tokio::sync::oneshot::channel();
    lineage.record_pending(request(long_input()), receiver, false);
    sender
        .send(ResponsesLineageUpdate::PreviousResponseNotFound)
        .expect("receiver waits");
    assert!(lineage
        .prepare_incremental_request(&request(long_input()), true)
        .is_none());
    assert!(!lineage.has_state());
}

#[test]
fn a_spent_channel_confirms_nothing() {
    let mut lineage = ResponsesLineage::new();
    let (sender, receiver) = tokio::sync::oneshot::channel();
    lineage.record_pending(request(vec![item("u1", None)]), receiver, false);
    sender
        .send(ResponsesLineageUpdate::Completed {
            response: response("r1", vec![item("a1", None)]),
        })
        .expect("receiver waits");
    assert!(lineage
        .prepare_incremental_request(&request(long_input()), false)
        .is_some());

    let (sender, mut receiver) = tokio::sync::oneshot::channel();
    sender
        .send(ResponsesLineageUpdate::PreviousResponseNotFound)
        .expect("receiver waits");
    assert!(receiver.try_recv().is_ok());
    lineage.record_pending(request(long_input()), receiver, false);
    assert_eq!(
        texts(lineage.prepare_incremental_request(&request(long_input()), false)).0,
        "r1"
    );
    assert_eq!(
        texts(lineage.prepare_incremental_request(&request(long_input()), false)).0,
        "r1"
    );
}

#[test]
fn a_response_without_an_id_is_not_continued() {
    let mut lineage = ResponsesLineage::new();
    let (_sender, receiver) = tokio::sync::oneshot::channel();
    lineage.record_pending(request(vec![]), receiver, false);
    lineage.settle(Received::Completed {
        response: response("", vec![]),
    });
    assert!(lineage
        .prepare_incremental_request(&request(long_input()), true)
        .is_none());
}

#[test]
fn properties_match_whatever_the_order_of_members() {
    let reordered = || {
        let mut other = request(long_input());
        other.tools = Json::Array(vec![Json::Object(vec![
            ("b".to_string(), Json::Null),
            ("a".to_string(), Json::Unsigned(1)),
        ])]);
        other.previous_response_id = Some("r0".to_string());
        other.client_metadata = Json::Text("differs".to_string());
        other.stream_options = Json::Text("differs".to_string());
        other.access_programs = Json::Text("differs".to_string());
        other
    };
    let base = request(vec![]);
    assert!(responses_request_properties_match(&base, &reordered()));
    let mut other = reordered();
    other.model = "n".to_string();
    assert!(!responses_request_properties_match(&base, &other));
    let mut other = reordered();
    other.included = vec![];
    assert!(!responses_request_properties_match(&base, &other));
    let mut other = reordered();
    other.prompt_cache_key = None;
    assert!(!responses_request_properties_match(&base, &other));
    let mut other = reordered();
    other.reasoning = Json::Unsigned(1);
    assert!(!responses_request_properties_match(&base, &other));
}

#[test]
fn zero_is_the_same_with_either_sign() {
    let zero = parse_without_repeats("[0.0, {\"a\": 0e7}]").expect("valid json");
    let minus = parse_without_repeats("[-0.0, {\"a\": -0.0}]").expect("valid json");
    assert_eq!(
        minus,
        Json::Array(vec![
            Json::Fraction("-0.0".to_string()),
            Json::Object(vec![(
                "a".to_string(),
                Json::Fraction("-0.0".to_string())
            )]),
        ])
    );
    assert!(same_json(&zero, &minus));
    let whole = parse_without_repeats("[0, {\"a\": 0.0}]").expect("valid json");
    assert!(!same_json(&zero, &whole));
    let other = parse_without_repeats("[-0.5, {\"a\": 0.0}]").expect("valid json");
    assert!(!same_json(&zero, &other));
}
