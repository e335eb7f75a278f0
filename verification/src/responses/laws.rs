//! What requests to the Responses backend keep to: when a response is continued, what headers are
//! sent, when the websocket is tried again, and what is published of the transport.

use vstd::arithmetic::power2::*;
use vstd::prelude::*;
use vstd::string::*;
use vstd::utf8::*;

use crate::json::{alike, get, json_literal, optional_member, parsed_json, JsonTree};
use crate::laws::lemma_member_stands_in_braces;
use crate::responses::circuit::{circuit_opened, cooldown_of, instant_after};
use crate::responses::endpoint::{
    endpoint_path, is_header_value, is_missing_response_failure, request_header_values,
    request_note, says_response_missing, ApiError, RequestMode, ResponsesEndpoint, TransportError,
    LARGE_RESPONSES_REQUEST_BYTES,
};
use crate::responses::lineage::{
    continued, settled, ConfirmedData, ConfirmedResponse, IncrementalData, LastResponseData,
    LineageData, LineageRequest, PendingData, ReceivedData, ResponsesApiRequest,
};
use crate::responses::transport::{
    active_name, after_completed, after_failed, after_fallback_opened, after_request_started,
    after_retry_requested, after_stream_started, after_websocket_connecting, circuit_json,
    circuit_name, initial_status, optional_mode, optional_reason, outcome_name, phase_name,
    published, publishes, size_number, snapshot_json, stamped, transport_json, ActiveTransport,
    CircuitPhase, CircuitSnapshot, LastOutcome, ResponsesFailureReason, ResponsesTransport,
    SnapshotReason, Status, TransportData, TransportPhase, TransportSnapshot,
};
use crate::snapshot::{
    braced, optional_decimal, optional_truth, process_json, quoted, wide_number, ProcessIdentity,
    Publication,
};
use crate::text::decimal;
use crate::writing::stands_in;

verus! {

/// A request that continues a confirmed response is alike the confirmed request in every property
/// that a response depends on: the model, the instructions, the tools and their choice, whether
/// they run in parallel, the reasoning, whether the response is stored and streamed, what is to be
/// put into it, the service tier, the key of the prompt cache and the form of the text. It names
/// the confirmed response, whose id is not empty.
pub proof fn law_continued_requests_are_alike(
    confirmed: ConfirmedResponse,
    request: ResponsesApiRequest,
    allow_empty_delta: bool,
)
    requires
        continued(Some(confirmed@), request@, allow_empty_delta) is Some,
    ensures
        confirmed.request.model@ == request.model@,
        confirmed.request.instructions@ == request.instructions@,
        alike(confirmed.request.tools@, request.tools@),
        alike(confirmed.request.tool_choice@, request.tool_choice@),
        confirmed.request.parallel_tool_calls == request.parallel_tool_calls,
        alike(confirmed.request.reasoning@, request.reasoning@),
        confirmed.request.store == request.store,
        confirmed.request.stream == request.stream,
        confirmed.request.included@.len() == request.included@.len(),
        forall|i: int|
            0 <= i < request.included@.len() ==> (#[trigger] request.included@[i])@
                == confirmed.request.included@[i]@,
        match (confirmed.request.service_tier, request.service_tier) {
            (Some(ours), Some(theirs)) => ours@ == theirs@,
            (None, None) => true,
            _ => false,
        },
        match (confirmed.request.prompt_cache_key, request.prompt_cache_key) {
            (Some(ours), Some(theirs)) => ours@ == theirs@,
            (None, None) => true,
            _ => false,
        },
        alike(confirmed.request.text@, request.text@),
        confirmed.response.response_id@.len() > 0,
        continued(Some(confirmed@), request@, allow_empty_delta)->0.previous_response_id
            == confirmed.response.response_id@,
        continued(
            Some(confirmed@),
            request@,
            allow_empty_delta,
        )->0.previous_response_from_untraced_warmup == confirmed.from_untraced_warmup,
{
    assert(request@.properties.included.len() == request.included@.len());
    assert(confirmed@.request.properties.included.len() == confirmed.request.included@.len());
    assert forall|i: int| 0 <= i < request.included@.len() implies (
    #[trigger] request.included@[i])@ == confirmed.request.included@[i]@ by {
        assert(request@.properties.included[i] == request.included@[i]@);
        assert(confirmed@.request.properties.included[i] == confirmed.request.included@[i]@);
    }
}

/// The input of a continued request begins with the confirmed input, followed by what the response
/// added to it, item by item alike in content; what is sent is the rest of it, and without leave to
/// send nothing there is a rest.
pub proof fn law_continued_requests_send_the_rest(
    confirmed: ConfirmedResponse,
    request: ResponsesApiRequest,
    allow_empty_delta: bool,
)
    requires
        continued(Some(confirmed@), request@, allow_empty_delta) is Some,
    ensures
        ({
            let sent = continued(Some(confirmed@), request@, allow_empty_delta)->0.input;
            let asked = confirmed.request.input@;
            let added = confirmed.response.items_added@;
            &&& asked.len() + added.len() + sent.len() == request.input@.len()
            &&& allow_empty_delta || sent.len() > 0
            &&& forall|i: int|
                0 <= i < asked.len() ==> alike(
                    (#[trigger] asked[i]).content@,
                    request.input@[i].content@,
                )
            &&& forall|i: int|
                0 <= i < added.len() ==> alike(
                    (#[trigger] added[i]).content@,
                    request.input@[asked.len() + i].content@,
                )
            &&& forall|i: int|
                0 <= i < sent.len() ==> #[trigger] sent[i] == request.input@[asked.len()
                    + added.len() + i]@
        }),
{
    let sent = continued(Some(confirmed@), request@, allow_empty_delta)->0.input;
    let asked = confirmed.request.input@;
    let added = confirmed.response.items_added@;
    let known = confirmed@.request.input + confirmed@.response.items_added;
    assert(known.len() == asked.len() + added.len());
    assert(request@.input.len() == request.input@.len());
    assert forall|i: int| 0 <= i < asked.len() implies alike(
        (#[trigger] asked[i]).content@,
        request.input@[i].content@,
    ) by {
        assert(known[i] == asked[i]@);
        assert(request@.input[i] == request.input@[i]@);
    }
    assert forall|i: int| 0 <= i < added.len() implies alike(
        (#[trigger] added[i]).content@,
        request.input@[asked.len() + i].content@,
    ) by {
        assert(known[asked.len() + i] == added[i]@);
        assert(request@.input[asked.len() + i] == request.input@[asked.len() + i]@);
    }
}

/// A request is continued wherever it is alike the confirmed one in those properties, its input
/// begins with all that the server knows, there is something new or nothing need be, and the
/// confirmed response has an id. Nothing else is asked of it.
pub proof fn law_alike_requests_are_continued(
    confirmed: ConfirmedData,
    request: LineageRequest,
    allow_empty_delta: bool,
)
    requires
        confirmed.request.properties.model == request.properties.model,
        confirmed.request.properties.instructions == request.properties.instructions,
        alike(confirmed.request.properties.tools, request.properties.tools),
        alike(confirmed.request.properties.tool_choice, request.properties.tool_choice),
        confirmed.request.properties.parallel_tool_calls == request.properties.parallel_tool_calls,
        alike(confirmed.request.properties.reasoning, request.properties.reasoning),
        confirmed.request.properties.store == request.properties.store,
        confirmed.request.properties.stream == request.properties.stream,
        confirmed.request.properties.included == request.properties.included,
        confirmed.request.properties.service_tier == request.properties.service_tier,
        confirmed.request.properties.prompt_cache_key == request.properties.prompt_cache_key,
        alike(confirmed.request.properties.text, request.properties.text),
        confirmed.response.response_id.len() > 0,
        ({
            let known = confirmed.request.input + confirmed.response.items_added;
            &&& known.len() < request.input.len() || (allow_empty_delta && known.len()
                == request.input.len())
            &&& forall|i: int|
                0 <= i < known.len() ==> alike(
                    (#[trigger] known[i]).content,
                    (#[trigger] request.input[i]).content,
                )
        }),
    ensures
        continued(Some(confirmed), request, allow_empty_delta) == Some(
            IncrementalData {
                previous_response_id: confirmed.response.response_id,
                input: request.input.skip(
                    (confirmed.request.input.len() + confirmed.response.items_added.len()) as int,
                ),
                previous_response_from_untraced_warmup: confirmed.from_untraced_warmup,
            },
        ),
{
}

/// Without a confirmed response, or with one that has no id, nothing is continued.
pub proof fn law_nothing_is_continued_without_an_id(
    confirmed: Option<ConfirmedData>,
    request: LineageRequest,
    allow_empty_delta: bool,
)
    requires
        confirmed matches Some(c) ==> c.response.response_id.len() == 0,
    ensures
        continued(confirmed, request, allow_empty_delta) is None,
{
}

/// A complete response confirms the request that it answers, in place of what was confirmed before;
/// a lost previous response forgets everything; a closed channel forgets what was pending alone.
pub proof fn law_a_complete_response_confirms_its_request(
    lineage: LineageData,
    pending: PendingData,
    response: LastResponseData,
)
    requires
        lineage.pending == Some(pending),
    ensures
        settled(lineage, ReceivedData::Completed { response }).pending is None,
        settled(lineage, ReceivedData::Completed { response }).confirmed matches Some(c)
            && c.request == pending.request && c.response == response && c.from_untraced_warmup
            == pending.from_untraced_warmup,
        settled(lineage, ReceivedData::PreviousResponseNotFound).confirmed is None,
        settled(lineage, ReceivedData::PreviousResponseNotFound).pending is None,
        settled(lineage, ReceivedData::Closed).pending is None,
        settled(lineage, ReceivedData::Closed).confirmed == lineage.confirmed,
        settled(lineage, ReceivedData::Empty) == lineage,
{
}

/// Without a pending request nothing changes what is confirmed.
pub proof fn law_nothing_pending_nothing_settled(lineage: LineageData, received: ReceivedData)
    requires
        lineage.pending is None,
    ensures
        settled(lineage, received) == lineage,
{
}

/// The circuit stays open for thirty seconds at first, then for one minute, two, four, and from the
/// fifth opening in a row on for five.
pub proof fn law_cooldowns_in_seconds(openings: nat)
    ensures
        openings <= 1 ==> cooldown_of(openings) == 30 * 1_000_000_000,
        openings == 2 ==> cooldown_of(openings) == 60 * 1_000_000_000,
        openings == 3 ==> cooldown_of(openings) == 120 * 1_000_000_000,
        openings == 4 ==> cooldown_of(openings) == 240 * 1_000_000_000,
        openings >= 5 ==> cooldown_of(openings) == 300 * 1_000_000_000,
{
    lemma2_to64();
}

/// A deadline lies as far behind its start as was asked for, or at the end of time.
pub proof fn law_deadlines_saturate(now: u64, delay: nat)
    ensures
        now <= instant_after(now, delay),
        instant_after(now, delay) == now + delay || (instant_after(now, delay)
            == 0xffff_ffff_ffff_ffff && now + delay > 0xffff_ffff_ffff_ffff),
{
}

/// An answer says that the previous response is gone exactly where the code in its error member is
/// the text of that name. A failure is such an answer only where it has the body of one, whatever
/// its status.
pub proof fn law_lost_responses_are_told_by_their_code(json: JsonTree, error: ApiError)
    ensures
        says_response_missing(Some(json)) <==> {
            &&& get(json, "error"@) matches Some(error)
            &&& get(error, "code"@) == Some(JsonTree::Text("previous_response_not_found"@))
        },
        !says_response_missing(None),
        is_missing_response_failure(error) <==> {
            &&& error matches ApiError::Transport { error: failure }
            &&& failure matches TransportError::Http { body, .. }
            &&& body matches Some(text)
            &&& parsed_json(text@) matches Some(document)
            &&& get(document, "error"@) matches Some(told)
            &&& get(told, "code"@) == Some(JsonTree::Text("previous_response_not_found"@))
        },
{
}

/// The headers of a request under each name: a subagent that can be a header value stands for
/// itself; under every other name stand the values of the session, where it has some, and else the
/// thread as the id of the request, where it can be a header value, and else what came with the
/// request.
#[verifier::spinoff_prover]
#[verifier::rlimit(60)]
pub proof fn law_headers_have_their_order(
    extra: Map<Seq<char>, Seq<Seq<u8>>>,
    thread_id: Option<Seq<char>>,
    session: Map<Seq<char>, Seq<Seq<u8>>>,
    subagent: Option<Seq<char>>,
    name: Seq<char>,
)
    ensures
        ({
            let all = request_header_values(extra, thread_id, session, subagent);
            let named = thread_id is Some && is_header_value(thread_id->0);
            let delegated = subagent is Some && is_header_value(subagent->0);
            &&& all.dom().contains(name) <==> (name == "x-openai-subagent"@ && delegated
                || session.dom().contains(name) || name == "x-client-request-id"@ && named
                || extra.dom().contains(name))
            &&& name == "x-openai-subagent"@ && delegated ==> all[name] == seq![
                encode_utf8(subagent->0),
            ]
            &&& !(name == "x-openai-subagent"@ && delegated) && session.dom().contains(name)
                ==> all[name] == session[name]
            &&& !(name == "x-openai-subagent"@ && delegated) && !session.dom().contains(name)
                && name == "x-client-request-id"@ && named ==> all[name] == seq![
                encode_utf8(thread_id->0),
            ]
            &&& !(name == "x-openai-subagent"@ && delegated) && !session.dom().contains(name) && !(
            name == "x-client-request-id"@ && named) && extra.dom().contains(name) ==> all[name]
                == extra[name]
        }),
{
    reveal_strlit("x-openai-subagent");
    reveal_strlit("x-client-request-id");
}

/// A byte that no header value may hold is a control character other than the tab.
pub proof fn law_header_values_have_no_controls(value: Seq<char>)
    ensures
        is_header_value(value) <==> forall|i: int|
            0 <= i < encode_utf8(value).len() ==> #[trigger] encode_utf8(value)[i] >= 32
                && encode_utf8(value)[i] != 127 || encode_utf8(value)[i] == 9,
{
}

/// What every event of the transport keeps: the circuit stays as it was but where the websocket
/// completes, the fallback opens or a retry is asked for; and the sequence number and the time are
/// left to the stamp.
pub proof fn law_transport_events_keep_the_rest(
    status: Status,
    transport: ResponsesTransport,
    incremental: bool,
    input_items: usize,
    body_bytes: Option<usize>,
    connection_reused: Option<bool>,
    reason: ResponsesFailureReason,
)
    ensures
        ({
            let requested = after_request_started(
                status,
                transport,
                incremental,
                input_items,
                body_bytes,
                connection_reused,
            );
            let connecting = after_websocket_connecting(status);
            let streaming = after_stream_started(status, transport);
            let completed = after_completed(status, transport);
            let failed = after_failed(status, transport, reason);
            let fallback = after_fallback_opened(status);
            let retry = after_retry_requested(status);
            &&& requested.circuit == status.circuit
            &&& connecting.circuit == status.circuit
            &&& streaming.circuit == status.circuit
            &&& failed.circuit == status.circuit
            &&& transport == ResponsesTransport::Http ==> completed.circuit == status.circuit
            &&& transport == ResponsesTransport::Websocket ==> completed.circuit.state
                == CircuitPhase::Closed && completed.circuit.consecutive_openings == 0
                && completed.circuit.retry_at_unix_ms is None
            &&& fallback.circuit.state == CircuitPhase::Open
                && fallback.circuit.consecutive_openings == 1
                && fallback.circuit.retry_at_unix_ms is None
            &&& retry.circuit.state == CircuitPhase::HalfOpen
                && retry.circuit.retry_at_unix_ms is None
            &&& status.circuit.consecutive_openings == 0 ==> retry.circuit.consecutive_openings == 1
            &&& status.circuit.consecutive_openings > 0 ==> retry.circuit.consecutive_openings
                == status.circuit.consecutive_openings
            &&& retry.transport == status.transport
            &&& forall|after: Status|
                after == requested || after == connecting || after == streaming || after
                    == completed || after == failed || after == fallback || after == retry ==> (
                #[trigger] after.sequence) == status.sequence && after.updated_at_unix_ms
                    == status.updated_at_unix_ms
        }),
{
}

/// What each event of the transport shows: which transport is in use, how far it is, what happened
/// last and why. A request shows its mode and its size; a connection shows none of them; everything
/// after it keeps showing them.
#[verifier::spinoff_prover]
#[verifier::rlimit(60)]
pub proof fn law_transport_events_show_themselves(
    status: Status,
    transport: ResponsesTransport,
    incremental: bool,
    input_items: usize,
    body_bytes: Option<usize>,
    connection_reused: Option<bool>,
    reason: ResponsesFailureReason,
)
    ensures
        ({
            let requested = after_request_started(
                status,
                transport,
                incremental,
                input_items,
                body_bytes,
                connection_reused,
            );
            let connecting = after_websocket_connecting(status);
            let streaming = after_stream_started(status, transport);
            let completed = after_completed(status, transport);
            let failed = after_failed(status, transport, reason);
            let fallback = after_fallback_opened(status);
            let retry = after_retry_requested(status);
            &&& transport == ResponsesTransport::Http ==> requested.transport.active
                == ActiveTransport::Http && streaming.transport.active == ActiveTransport::Http
                && completed.transport.active == ActiveTransport::Http && failed.transport.active
                == ActiveTransport::Http
            &&& transport == ResponsesTransport::Websocket ==> requested.transport.active
                == ActiveTransport::Websocket && streaming.transport.active
                == ActiveTransport::Websocket && completed.transport.active
                == ActiveTransport::Websocket && failed.transport.active
                == ActiveTransport::Websocket
            &&& connecting.transport.active == ActiveTransport::Websocket
            &&& fallback.transport.active == ActiveTransport::Http
            &&& requested.transport.state == TransportPhase::Requesting
            &&& connecting.transport.state == TransportPhase::Connecting
            &&& streaming.transport.state == TransportPhase::Streaming
            &&& completed.transport.state == TransportPhase::Completed
            &&& failed.transport.state == TransportPhase::Failed
            &&& fallback.transport.state == TransportPhase::Fallback
            &&& requested.last_outcome == LastOutcome::Prepared
            &&& connecting.last_outcome == LastOutcome::Connecting
            &&& streaming.last_outcome == LastOutcome::Streaming
            &&& completed.last_outcome == LastOutcome::Completed
            &&& failed.last_outcome == LastOutcome::Failed
            &&& fallback.last_outcome == LastOutcome::Fallback
            &&& retry.last_outcome == LastOutcome::WebsocketRetryReady
            &&& failed.reason == Some(SnapshotReason::Failure { reason })
            &&& fallback.reason == Some(SnapshotReason::WebsocketRetryExhausted)
            &&& requested.reason is None && connecting.reason is None && streaming.reason is None
                && completed.reason is None && retry.reason is None
            &&& requested.transport.request_mode == Some(
                if incremental {
                    RequestMode::Incremental
                } else {
                    RequestMode::Full
                },
            )
            &&& requested.transport.input_items == Some(input_items)
            &&& requested.transport.body_bytes == body_bytes
            &&& requested.transport.connection_reused == connection_reused
            &&& connecting.transport.request_mode is None && connecting.transport.input_items is None
                && connecting.transport.body_bytes is None
                && connecting.transport.connection_reused is None
            &&& forall|after: Status|
                after == streaming || after == completed || after == failed || after == fallback
                    ==> (#[trigger] after.transport).request_mode == status.transport.request_mode
                    && after.transport.input_items == status.transport.input_items
                    && after.transport.body_bytes == status.transport.body_bytes
                    && after.transport.connection_reused == status.transport.connection_reused
        }),
{
}

/// Each stamp counts one further, up to the largest number, and tells its time; it changes nothing
/// else. A file that is published is written under a new temporary name each time.
pub proof fn law_each_status_has_its_number(state: TransportData, status: Status, now_ms: u64)
    ensures
        status.sequence < 0xffff_ffff_ffff_ffff ==> stamped(status, now_ms).sequence
            == status.sequence + 1,
        status.sequence == 0xffff_ffff_ffff_ffff ==> stamped(status, now_ms).sequence
            == status.sequence,
        stamped(status, now_ms).updated_at_unix_ms == now_ms,
        stamped(status, now_ms).transport == status.transport,
        stamped(status, now_ms).circuit == status.circuit,
        stamped(status, now_ms).last_outcome == status.last_outcome,
        stamped(status, now_ms).reason == status.reason,
        published(state, status).status == status,
        published(state, status).file_name == state.file_name,
        published(state, status).thread_id == state.thread_id,
        published(state, status).process == state.process,
        state.file_name is None ==> published(state, status).temporary_sequence
            == state.temporary_sequence,
        state.file_name is Some && state.temporary_sequence < 0xffff_ffff_ffff_ffff ==> published(
            state,
            status,
        ).temporary_sequence == state.temporary_sequence + 1,
{
}

/// Nothing has happened on a new transport.
pub proof fn law_a_new_transport_is_idle(now_ms: u64)
    ensures
        ({
            let status = initial_status(now_ms);
            &&& status.sequence == 0
            &&& status.updated_at_unix_ms == now_ms
            &&& status.transport.active == ActiveTransport::Idle
            &&& status.transport.state == TransportPhase::Idle
            &&& status.transport.request_mode is None
            &&& status.transport.input_items is None
            &&& status.transport.body_bytes is None
            &&& status.transport.connection_reused is None
            &&& status.circuit.state == CircuitPhase::Closed
            &&& status.circuit.consecutive_openings == 0
            &&& status.circuit.retry_at_unix_ms is None
            &&& status.last_outcome == LastOutcome::Initialized
            &&& status.reason is None
        }),
{
}

/// A name as it is written in a document.
pub open spec fn in_quotes(name: Seq<char>) -> Seq<char> {
    "\""@ + name + "\""@
}

/// What is published of the transport holds the thread, the process, the number and the time of the
/// status, what happened last and why, and the states of the transport and of its circuit.
#[verifier::spinoff_prover]
#[verifier::rlimit(60)]
pub proof fn law_published_status_is_told_in_full(
    thread_id: Seq<char>,
    process: ProcessIdentity,
    status: Status,
)
    ensures
        ({
            let text = snapshot_json(thread_id, process, status);
            &&& stands_in("\"schema\":\"codex.responses-transport-state/v1\""@, text)
            &&& stands_in("\"thread_id\":"@ + json_literal(thread_id), text)
            &&& stands_in("\"process\":"@ + process_json(process), text)
            &&& stands_in("\"sequence\":"@ + decimal(status.sequence as nat), text)
            &&& stands_in(
                "\"updated_at_unix_ms\":"@ + decimal(status.updated_at_unix_ms as nat),
                text,
            )
            &&& stands_in("\"transport\":"@ + transport_json(status.transport), text)
            &&& stands_in("\"circuit\":"@ + circuit_json(status.circuit), text)
            &&& stands_in(
                "\"last_outcome\":"@ + in_quotes(
                    match status.last_outcome {
                        LastOutcome::Initialized => "initialized"@,
                        LastOutcome::Prepared => "prepared"@,
                        LastOutcome::Connecting => "connecting"@,
                        LastOutcome::Streaming => "streaming"@,
                        LastOutcome::Completed => "completed"@,
                        LastOutcome::Failed => "failed"@,
                        LastOutcome::Fallback => "fallback"@,
                        LastOutcome::WebsocketRetryReady => "websocket_retry_ready"@,
                    },
                ),
                text,
            )
            &&& status.reason matches Some(reason) ==> stands_in(
                "\"reason\":"@ + in_quotes(
                    match reason {
                        SnapshotReason::WebsocketRetryExhausted => "websocket_retry_exhausted"@,
                        SnapshotReason::Failure { reason: failure } => match failure {
                            ResponsesFailureReason::AuthRecovery => "auth_recovery"@,
                            ResponsesFailureReason::ConnectionError => "connection_error"@,
                            ResponsesFailureReason::ConsumerDropped => "consumer_dropped"@,
                            ResponsesFailureReason::PreviousResponseNotFound =>
                            "previous_response_not_found"@,
                            ResponsesFailureReason::RequestError => "request_error"@,
                            ResponsesFailureReason::StreamClosed => "stream_closed"@,
                            ResponsesFailureReason::StreamError => "stream_error"@,
                            ResponsesFailureReason::UpgradeRequired => "upgrade_required"@,
                        },
                    },
                ),
                text,
            )
        }),
{
    let a = seq![
        "\"schema\":\"codex.responses-transport-state/v1\""@,
        "\"thread_id\":"@ + json_literal(thread_id),
        "\"process\":"@ + process_json(process),
        "\"sequence\":"@ + decimal(status.sequence as nat),
        "\"updated_at_unix_ms\":"@ + decimal(status.updated_at_unix_ms as nat),
        "\"transport\":"@ + transport_json(status.transport),
        "\"circuit\":"@ + circuit_json(status.circuit),
        "\"last_outcome\":"@ + quoted(outcome_name(status.last_outcome)),
    ];
    let b = optional_member("\"reason\":"@, optional_reason(status.reason));
    let members = a + b;
    assert(snapshot_json(thread_id, process, status) == braced(members));
    assert forall|i: int| 0 <= i < 8 implies #[trigger] members[i] == a[i] by {}
    lemma_member_stands_in_braces(members, 0);
    lemma_member_stands_in_braces(members, 1);
    lemma_member_stands_in_braces(members, 2);
    lemma_member_stands_in_braces(members, 3);
    lemma_member_stands_in_braces(members, 4);
    lemma_member_stands_in_braces(members, 5);
    lemma_member_stands_in_braces(members, 6);
    lemma_member_stands_in_braces(members, 7);
    if b.len() > 0 {
        assert(members[8] == b[0]);
        lemma_member_stands_in_braces(members, 8);
    }
}

/// What is told of the transport: which one is in use and how far it is, and the mode and the size of
/// its request as far as they are known.
pub proof fn law_transports_are_told_in_full(transport: TransportSnapshot)
    ensures
        ({
            let text = transport_json(transport);
            &&& stands_in(
                "\"active\":"@ + in_quotes(
                    match transport.active {
                        ActiveTransport::Idle => "idle"@,
                        ActiveTransport::Http => "http"@,
                        ActiveTransport::Websocket => "websocket"@,
                    },
                ),
                text,
            )
            &&& stands_in(
                "\"state\":"@ + in_quotes(
                    match transport.state {
                        TransportPhase::Idle => "idle"@,
                        TransportPhase::Connecting => "connecting"@,
                        TransportPhase::Requesting => "requesting"@,
                        TransportPhase::Streaming => "streaming"@,
                        TransportPhase::Completed => "completed"@,
                        TransportPhase::Failed => "failed"@,
                        TransportPhase::Fallback => "fallback"@,
                    },
                ),
                text,
            )
            &&& transport.request_mode == Some(RequestMode::Incremental) ==> stands_in(
                "\"request_mode\":"@ + in_quotes("incremental"@),
                text,
            )
            &&& transport.request_mode == Some(RequestMode::Full) ==> stands_in(
                "\"request_mode\":"@ + in_quotes("full"@),
                text,
            )
            &&& transport.input_items matches Some(n) ==> stands_in(
                "\"input_items\":"@ + decimal(n as nat),
                text,
            )
            &&& transport.body_bytes matches Some(n) ==> stands_in(
                "\"body_bytes\":"@ + decimal(n as nat),
                text,
            )
            &&& transport.connection_reused == Some(true) ==> stands_in(
                "\"connection_reused\":"@ + "true"@,
                text,
            )
            &&& transport.connection_reused == Some(false) ==> stands_in(
                "\"connection_reused\":"@ + "false"@,
                text,
            )
        }),
{
    let a = seq![
        "\"active\":"@ + quoted(active_name(transport.active)),
        "\"state\":"@ + quoted(phase_name(transport.state)),
    ];
    let b = optional_member("\"request_mode\":"@, optional_mode(transport.request_mode));
    let c = optional_member(
        "\"input_items\":"@,
        optional_decimal(size_number(transport.input_items)),
    );
    let d = optional_member(
        "\"body_bytes\":"@,
        optional_decimal(size_number(transport.body_bytes)),
    );
    let e = optional_member(
        "\"connection_reused\":"@,
        optional_truth(transport.connection_reused),
    );
    let members = a + b + c + d + e;
    assert(transport_json(transport) == braced(members));
    assert(members[0] == a[0] && members[1] == a[1]);
    lemma_member_stands_in_braces(members, 0);
    lemma_member_stands_in_braces(members, 1);
    if b.len() > 0 {
        assert(members[2] == b[0]);
        lemma_member_stands_in_braces(members, 2);
    }
    if c.len() > 0 {
        let k = 2 + b.len() as int;
        assert(members[k] == c[0]);
        lemma_member_stands_in_braces(members, k);
    }
    if d.len() > 0 {
        let k = 2 + b.len() + c.len() as int;
        assert(members[k] == d[0]);
        lemma_member_stands_in_braces(members, k);
    }
    if e.len() > 0 {
        let k = 2 + b.len() + c.len() + d.len() as int;
        assert(members[k] == e[0]);
        lemma_member_stands_in_braces(members, k);
    }
}

/// What is told of the circuit: its state, how often it was opened in a row, and when it may be tried
/// again where that is known.
pub proof fn law_circuits_are_told_in_full(circuit: CircuitSnapshot)
    ensures
        ({
            let text = circuit_json(circuit);
            &&& stands_in(
                "\"state\":"@ + in_quotes(
                    match circuit.state {
                        CircuitPhase::Closed => "closed"@,
                        CircuitPhase::Open => "open"@,
                        CircuitPhase::HalfOpen => "half_open"@,
                    },
                ),
                text,
            )
            &&& stands_in(
                "\"consecutive_openings\":"@ + decimal(circuit.consecutive_openings as nat),
                text,
            )
            &&& circuit.retry_at_unix_ms matches Some(at) ==> stands_in(
                "\"retry_at_unix_ms\":"@ + decimal(at as nat),
                text,
            )
        }),
{
    let a = seq![
        "\"state\":"@ + quoted(circuit_name(circuit.state)),
        "\"consecutive_openings\":"@ + decimal(circuit.consecutive_openings as nat),
    ];
    let b = optional_member(
        "\"retry_at_unix_ms\":"@,
        optional_decimal(wide_number(circuit.retry_at_unix_ms)),
    );
    let members = a + b;
    assert(circuit_json(circuit) == braced(members));
    assert(members[0] == a[0] && members[1] == a[1]);
    lemma_member_stands_in_braces(members, 0);
    lemma_member_stands_in_braces(members, 1);
    if b.len() > 0 {
        assert(members[2] == b[0]);
        lemma_member_stands_in_braces(members, 2);
    }
}

/// A status is published exactly where there is a file for it, as its text and a line's end, under a
/// temporary name of that file, the process and the number of the write.
pub proof fn law_statuses_are_published_under_temporary_names(
    publication: Option<Publication>,
    state: TransportData,
)
    requires
        publishes(publication, state),
    ensures
        publication is Some <==> state.file_name is Some,
        publication matches Some(p) ==> {
            &&& p.contents@.len() > 0
            &&& p.contents@.last() == '\n'
            &&& p.contents@.drop_last() == snapshot_json(
                state.thread_id,
                state.process,
                state.status,
            )
            &&& ("."@ + state.file_name->0 + "."@ + decimal(state.process.pid as nat) + "."@
                + decimal(state.temporary_sequence as nat)).is_prefix_of(p.temporary_name@)
        },
{
    reveal_strlit("\n");
    if publication is Some {
        let p = publication->0;
        let text = snapshot_json(state.thread_id, state.process, state.status);
        assert(p.contents@ == text + "\n"@);
        assert((text + "\n"@).drop_last() =~= text);
        let head = "."@ + state.file_name->0 + "."@ + decimal(state.process.pid as nat) + "."@
            + decimal(state.temporary_sequence as nat);
        assert(p.temporary_name@ == head + ".tmp"@);
        assert(head =~= p.temporary_name@.take(head.len() as int));
    }
}

/// Where requests go: regular inference, the full review of the guardian, and its light risk
/// classification each have a route of their own.
pub proof fn law_routes(endpoint: ResponsesEndpoint)
    ensures
        endpoint == ResponsesEndpoint::Responses ==> endpoint_path(endpoint) == "/responses"@,
        endpoint == ResponsesEndpoint::Guardian ==> endpoint_path(endpoint) == "/guardian"@,
        endpoint == ResponsesEndpoint::GuardianClassifier ==> endpoint_path(endpoint)
            == "/guardian-classifier"@,
        LARGE_RESPONSES_REQUEST_BYTES == 8 * 1024 * 1024,
{
}

/// A circuit that is open stays as it is when it is opened again, and says how much of its time is
/// left. One that is not is opened for longer each time in a row, from now on for half a minute, one
/// minute, two, four, and then five each time.
pub proof fn law_circuits_open_for_longer_each_time(
    openings: u32,
    deadline: Option<u64>,
    now: u64,
)
    requires
        openings < 0xffff_ffff,
        now + 300_000_000_000 <= 0xffff_ffff_ffff_ffff,
    ensures
        ({
            let (count, until, result) = circuit_opened(openings, deadline, now);
            let open = deadline is Some && now < deadline->0;
            let seconds = if openings == 0 {
                30int
            } else if openings == 1 {
                60int
            } else if openings == 2 {
                120int
            } else if openings == 3 {
                240int
            } else {
                300int
            };
            &&& open ==> count == openings && until == deadline && !result.newly_opened && now
                + result.cooldown == deadline->0
            &&& !open ==> count == openings + 1 && result.newly_opened && result.cooldown == seconds
                * 1_000_000_000 && until == Some((now + result.cooldown) as u64)
        }),
{
    lemma2_to64();
}

/// What is noted of a request: whether it continues a response, its size, that it is a large one from
/// eight megabytes on, and that its body may be logged only where it carries no ticket.
pub proof fn law_requests_are_noted(
    continues_response: bool,
    input_items: u64,
    body_bytes: usize,
    carries_ticket: bool,
)
    ensures
        ({
            let note = request_note(continues_response, input_items, body_bytes, carries_ticket);
            &&& note.mode == RequestMode::Incremental <==> continues_response
            &&& note.input_items == input_items
            &&& note.body_bytes == body_bytes
            &&& note.large <==> body_bytes >= 8388608
            &&& note.body_logged <==> !carries_ticket
        }),
{
}

} // verus!
