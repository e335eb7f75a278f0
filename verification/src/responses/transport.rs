//! The state of the Responses transport, published as a bounded snapshot without error text.

use vstd::prelude::*;
use vstd::string::*;

use crate::json::{
    json_line, json_literal, optional_member, push_member, text_views, write_json_line,
    write_json_literal, Json,
};
use crate::responses::endpoint::{mode_name, RequestMode};
use crate::snapshot::{
    brace, braced, optional_decimal, optional_truth, process_json, quote, quoted, temporary_name,
    wide_number, write_optional, write_process, write_temporary_name, ProcessIdentity, Publication,
};
use crate::text::{byte_len, decimal, optional_view, write_decimal};

verus! {

/// What a request goes over.
#[derive(Clone, Copy, Debug, PartialEq, Eq, Structural)]
pub enum ResponsesTransport {
    Http,
    Websocket,
}

/// Why a request failed.
#[derive(Clone, Copy, Debug, PartialEq, Eq, Structural)]
pub enum ResponsesFailureReason {
    AuthRecovery,
    ConnectionError,
    ConsumerDropped,
    PreviousResponseNotFound,
    RequestError,
    StreamClosed,
    StreamError,
    UpgradeRequired,
}

/// The name of a reason.
pub open spec fn failure_name(reason: ResponsesFailureReason) -> Seq<char> {
    match reason {
        ResponsesFailureReason::AuthRecovery => "auth_recovery"@,
        ResponsesFailureReason::ConnectionError => "connection_error"@,
        ResponsesFailureReason::ConsumerDropped => "consumer_dropped"@,
        ResponsesFailureReason::PreviousResponseNotFound => "previous_response_not_found"@,
        ResponsesFailureReason::RequestError => "request_error"@,
        ResponsesFailureReason::StreamClosed => "stream_closed"@,
        ResponsesFailureReason::StreamError => "stream_error"@,
        ResponsesFailureReason::UpgradeRequired => "upgrade_required"@,
    }
}

impl ResponsesFailureReason {
    /// The name of this reason.
    pub fn as_str(self) -> (name: &'static str)
        ensures
            name@ == failure_name(self),
    {
        match self {
            ResponsesFailureReason::AuthRecovery => "auth_recovery",
            ResponsesFailureReason::ConnectionError => "connection_error",
            ResponsesFailureReason::ConsumerDropped => "consumer_dropped",
            ResponsesFailureReason::PreviousResponseNotFound => "previous_response_not_found",
            ResponsesFailureReason::RequestError => "request_error",
            ResponsesFailureReason::StreamClosed => "stream_closed",
            ResponsesFailureReason::StreamError => "stream_error",
            ResponsesFailureReason::UpgradeRequired => "upgrade_required",
        }
    }
}

/// The transport in use.
#[derive(Clone, Copy, Debug, PartialEq, Eq, Structural)]
pub enum ActiveTransport {
    Idle,
    Http,
    Websocket,
}

/// How far the transport is.
#[derive(Clone, Copy, Debug, PartialEq, Eq, Structural)]
pub enum TransportPhase {
    Idle,
    Connecting,
    Requesting,
    Streaming,
    Completed,
    Failed,
    Fallback,
}

/// The state of the circuit of the websocket.
#[derive(Clone, Copy, Debug, PartialEq, Eq, Structural)]
pub enum CircuitPhase {
    Closed,
    Open,
    HalfOpen,
}

/// What happened last.
#[derive(Clone, Copy, Debug, PartialEq, Eq, Structural)]
pub enum LastOutcome {
    Initialized,
    Prepared,
    Connecting,
    Streaming,
    Completed,
    Failed,
    Fallback,
    WebsocketRetryReady,
}

/// Why it happened.
#[derive(Clone, Copy, Debug, PartialEq, Eq, Structural)]
pub enum SnapshotReason {
    Failure { reason: ResponsesFailureReason },
    WebsocketRetryExhausted,
}

/// What is known of the transport.
#[derive(Clone, Copy, Debug, PartialEq, Eq, Structural)]
pub struct TransportSnapshot {
    pub active: ActiveTransport,
    pub state: TransportPhase,
    pub request_mode: Option<RequestMode>,
    pub input_items: Option<usize>,
    pub body_bytes: Option<usize>,
    pub connection_reused: Option<bool>,
}

/// What is known of the circuit.
#[derive(Clone, Copy, Debug, PartialEq, Eq, Structural)]
pub struct CircuitSnapshot {
    pub state: CircuitPhase,
    pub consecutive_openings: u32,
    pub retry_at_unix_ms: Option<u64>,
}

/// The part of a snapshot that changes.
#[derive(Clone, Copy, Debug, PartialEq, Eq, Structural)]
pub struct Status {
    pub sequence: u64,
    pub updated_at_unix_ms: u64,
    pub transport: TransportSnapshot,
    pub circuit: CircuitSnapshot,
    pub last_outcome: LastOutcome,
    pub reason: Option<SnapshotReason>,
}

/// The transport for a name.
pub open spec fn active_for(transport: ResponsesTransport) -> ActiveTransport {
    match transport {
        ResponsesTransport::Http => ActiveTransport::Http,
        ResponsesTransport::Websocket => ActiveTransport::Websocket,
    }
}

impl ResponsesTransport {
    fn active(self) -> (active: ActiveTransport)
        ensures
            active == active_for(self),
    {
        match self {
            ResponsesTransport::Http => ActiveTransport::Http,
            ResponsesTransport::Websocket => ActiveTransport::Websocket,
        }
    }
}

/// A circuit that lets the websocket be tried.
pub open spec fn closed_circuit() -> CircuitSnapshot {
    CircuitSnapshot { state: CircuitPhase::Closed, consecutive_openings: 0, retry_at_unix_ms: None }
}

/// The status before anything happened.
pub open spec fn initial_status(now_ms: u64) -> Status {
    Status {
        sequence: 0,
        updated_at_unix_ms: now_ms,
        transport: TransportSnapshot {
            active: ActiveTransport::Idle,
            state: TransportPhase::Idle,
            request_mode: None,
            input_items: None,
            body_bytes: None,
            connection_reused: None,
        },
        circuit: closed_circuit(),
        last_outcome: LastOutcome::Initialized,
        reason: None,
    }
}

/// The number after a number; the greatest stays.
pub open spec fn next_sequence(n: u64) -> u64 {
    if n < u64::MAX {
        (n + 1) as u64
    } else {
        u64::MAX
    }
}

/// A status with the mark of an update.
pub open spec fn stamped(status: Status, now_ms: u64) -> Status {
    Status { sequence: next_sequence(status.sequence), updated_at_unix_ms: now_ms, ..status }
}

/// A request is about to be sent.
pub open spec fn after_request_started(
    status: Status,
    transport: ResponsesTransport,
    incremental: bool,
    input_items: usize,
    body_bytes: Option<usize>,
    connection_reused: Option<bool>,
) -> Status {
    Status {
        transport: TransportSnapshot {
            active: active_for(transport),
            state: TransportPhase::Requesting,
            request_mode: Some(
                if incremental {
                    RequestMode::Incremental
                } else {
                    RequestMode::Full
                },
            ),
            input_items: Some(input_items),
            body_bytes,
            connection_reused,
        },
        last_outcome: LastOutcome::Prepared,
        reason: None,
        ..status
    }
}

/// The websocket is being connected.
pub open spec fn after_websocket_connecting(status: Status) -> Status {
    Status {
        transport: TransportSnapshot {
            active: ActiveTransport::Websocket,
            state: TransportPhase::Connecting,
            request_mode: None,
            input_items: None,
            body_bytes: None,
            connection_reused: None,
        },
        last_outcome: LastOutcome::Connecting,
        reason: None,
        ..status
    }
}

/// The transport of a status has come to a phase.
pub open spec fn transport_at(
    status: Status,
    active: ActiveTransport,
    state: TransportPhase,
) -> TransportSnapshot {
    TransportSnapshot { active, state, ..status.transport }
}

/// The response is coming in.
pub open spec fn after_stream_started(status: Status, transport: ResponsesTransport) -> Status {
    Status {
        transport: transport_at(status, active_for(transport), TransportPhase::Streaming),
        last_outcome: LastOutcome::Streaming,
        reason: None,
        ..status
    }
}

/// The response is complete; over the websocket that closes its circuit.
pub open spec fn after_completed(status: Status, transport: ResponsesTransport) -> Status {
    Status {
        transport: transport_at(status, active_for(transport), TransportPhase::Completed),
        circuit: if transport == ResponsesTransport::Websocket {
            closed_circuit()
        } else {
            status.circuit
        },
        last_outcome: LastOutcome::Completed,
        reason: None,
        ..status
    }
}

/// The request failed.
pub open spec fn after_failed(
    status: Status,
    transport: ResponsesTransport,
    reason: ResponsesFailureReason,
) -> Status {
    Status {
        transport: transport_at(status, active_for(transport), TransportPhase::Failed),
        last_outcome: LastOutcome::Failed,
        reason: Some(SnapshotReason::Failure { reason }),
        ..status
    }
}

/// The websocket is given up for now.
pub open spec fn after_fallback_opened(status: Status) -> Status {
    Status {
        transport: transport_at(status, ActiveTransport::Http, TransportPhase::Fallback),
        circuit: CircuitSnapshot {
            state: CircuitPhase::Open,
            consecutive_openings: 1,
            retry_at_unix_ms: None,
        },
        last_outcome: LastOutcome::Fallback,
        reason: Some(SnapshotReason::WebsocketRetryExhausted),
        ..status
    }
}

/// The websocket may be tried again.
pub open spec fn after_retry_requested(status: Status) -> Status {
    Status {
        circuit: CircuitSnapshot {
            state: CircuitPhase::HalfOpen,
            consecutive_openings: if status.circuit.consecutive_openings < 1 {
                1
            } else {
                status.circuit.consecutive_openings
            },
            retry_at_unix_ms: None,
        },
        last_outcome: LastOutcome::WebsocketRetryReady,
        reason: None,
        ..status
    }
}

/// The name of the transport in use.
pub open spec fn active_name(active: ActiveTransport) -> Seq<char> {
    match active {
        ActiveTransport::Idle => "idle"@,
        ActiveTransport::Http => "http"@,
        ActiveTransport::Websocket => "websocket"@,
    }
}

/// The name of a phase.
pub open spec fn phase_name(phase: TransportPhase) -> Seq<char> {
    match phase {
        TransportPhase::Idle => "idle"@,
        TransportPhase::Connecting => "connecting"@,
        TransportPhase::Requesting => "requesting"@,
        TransportPhase::Streaming => "streaming"@,
        TransportPhase::Completed => "completed"@,
        TransportPhase::Failed => "failed"@,
        TransportPhase::Fallback => "fallback"@,
    }
}

/// The name of a state of the circuit.
pub open spec fn circuit_name(phase: CircuitPhase) -> Seq<char> {
    match phase {
        CircuitPhase::Closed => "closed"@,
        CircuitPhase::Open => "open"@,
        CircuitPhase::HalfOpen => "half_open"@,
    }
}

/// The name of what happened last.
pub open spec fn outcome_name(outcome: LastOutcome) -> Seq<char> {
    match outcome {
        LastOutcome::Initialized => "initialized"@,
        LastOutcome::Prepared => "prepared"@,
        LastOutcome::Connecting => "connecting"@,
        LastOutcome::Streaming => "streaming"@,
        LastOutcome::Completed => "completed"@,
        LastOutcome::Failed => "failed"@,
        LastOutcome::Fallback => "fallback"@,
        LastOutcome::WebsocketRetryReady => "websocket_retry_ready"@,
    }
}

/// The name of a reason in a snapshot.
pub open spec fn reason_name(reason: SnapshotReason) -> Seq<char> {
    match reason {
        SnapshotReason::Failure { reason } => failure_name(reason),
        SnapshotReason::WebsocketRetryExhausted => "websocket_retry_exhausted"@,
    }
}

fn write_active(active: ActiveTransport) -> (name: &'static str)
    ensures
        name@ == active_name(active),
{
    match active {
        ActiveTransport::Idle => "idle",
        ActiveTransport::Http => "http",
        ActiveTransport::Websocket => "websocket",
    }
}

fn write_phase(phase: TransportPhase) -> (name: &'static str)
    ensures
        name@ == phase_name(phase),
{
    match phase {
        TransportPhase::Idle => "idle",
        TransportPhase::Connecting => "connecting",
        TransportPhase::Requesting => "requesting",
        TransportPhase::Streaming => "streaming",
        TransportPhase::Completed => "completed",
        TransportPhase::Failed => "failed",
        TransportPhase::Fallback => "fallback",
    }
}

fn write_circuit_phase(phase: CircuitPhase) -> (name: &'static str)
    ensures
        name@ == circuit_name(phase),
{
    match phase {
        CircuitPhase::Closed => "closed",
        CircuitPhase::Open => "open",
        CircuitPhase::HalfOpen => "half_open",
    }
}

fn write_outcome(outcome: LastOutcome) -> (name: &'static str)
    ensures
        name@ == outcome_name(outcome),
{
    match outcome {
        LastOutcome::Initialized => "initialized",
        LastOutcome::Prepared => "prepared",
        LastOutcome::Connecting => "connecting",
        LastOutcome::Streaming => "streaming",
        LastOutcome::Completed => "completed",
        LastOutcome::Failed => "failed",
        LastOutcome::Fallback => "fallback",
        LastOutcome::WebsocketRetryReady => "websocket_retry_ready",
    }
}

fn write_reason(reason: SnapshotReason) -> (name: &'static str)
    ensures
        name@ == reason_name(reason),
{
    match reason {
        SnapshotReason::Failure { reason } => reason.as_str(),
        SnapshotReason::WebsocketRetryExhausted => "websocket_retry_exhausted",
    }
}

/// A size as a number.
pub open spec fn size_number(n: Option<usize>) -> Option<nat> {
    match n {
        Some(v) => Some(v as nat),
        None => None,
    }
}

/// The name of an optional mode, in quotes.
pub open spec fn optional_mode(mode: Option<RequestMode>) -> Option<Seq<char>> {
    match mode {
        Some(m) => Some(quoted(mode_name(m))),
        None => None,
    }
}

/// The name of an optional reason, in quotes.
pub open spec fn optional_reason(reason: Option<SnapshotReason>) -> Option<Seq<char>> {
    match reason {
        Some(r) => Some(quoted(reason_name(r))),
        None => None,
    }
}

/// What is published of the transport.
pub open spec fn transport_json(transport: TransportSnapshot) -> Seq<char> {
    braced(
        seq![
            "\"active\":"@ + quoted(active_name(transport.active)),
            "\"state\":"@ + quoted(phase_name(transport.state)),
        ] + optional_member("\"request_mode\":"@, optional_mode(transport.request_mode))
            + optional_member(
            "\"input_items\":"@,
            optional_decimal(size_number(transport.input_items)),
        ) + optional_member(
            "\"body_bytes\":"@,
            optional_decimal(size_number(transport.body_bytes)),
        ) + optional_member(
            "\"connection_reused\":"@,
            optional_truth(transport.connection_reused),
        ),
    )
}

/// What is published of the circuit.
pub open spec fn circuit_json(circuit: CircuitSnapshot) -> Seq<char> {
    braced(
        seq![
            "\"state\":"@ + quoted(circuit_name(circuit.state)),
            "\"consecutive_openings\":"@ + decimal(circuit.consecutive_openings as nat),
        ] + optional_member(
            "\"retry_at_unix_ms\":"@,
            optional_decimal(wide_number(circuit.retry_at_unix_ms)),
        ),
    )
}

/// What is published of a thread: names, numbers and the id of the thread, and nothing else.
pub open spec fn snapshot_json(
    thread_id: Seq<char>,
    process: ProcessIdentity,
    status: Status,
) -> Seq<char> {
    braced(
        seq![
            "\"schema\":\"codex.responses-transport-state/v1\""@,
            "\"thread_id\":"@ + json_literal(thread_id),
            "\"process\":"@ + process_json(process),
            "\"sequence\":"@ + decimal(status.sequence as nat),
            "\"updated_at_unix_ms\":"@ + decimal(status.updated_at_unix_ms as nat),
            "\"transport\":"@ + transport_json(status.transport),
            "\"circuit\":"@ + circuit_json(status.circuit),
            "\"last_outcome\":"@ + quoted(outcome_name(status.last_outcome)),
        ] + optional_member("\"reason\":"@, optional_reason(status.reason)),
    )
}

fn write_optional_size(n: Option<usize>) -> (text: Option<String>)
    ensures
        optional_view(text) == optional_decimal(size_number(n)),
{
    match n {
        Some(v) => Some(write_decimal(v as u64)),
        None => None,
    }
}

fn write_transport(transport: &TransportSnapshot) -> (text: String)
    ensures
        text@ == transport_json(*transport),
{
    let mut members: Vec<String> = Vec::new();
    push_member(&mut members, "\"active\":", Some(quote(write_active(transport.active))));
    push_member(&mut members, "\"state\":", Some(quote(write_phase(transport.state))));
    let ghost head = text_views(members@);
    assert(head =~= seq![
        "\"active\":"@ + quoted(active_name(transport.active)),
        "\"state\":"@ + quoted(phase_name(transport.state)),
    ]);
    let mode = match transport.request_mode {
        Some(mode) => Some(quote(mode.as_str())),
        None => None,
    };
    push_member(&mut members, "\"request_mode\":", mode);
    push_member(&mut members, "\"input_items\":", write_optional_size(transport.input_items));
    push_member(&mut members, "\"body_bytes\":", write_optional_size(transport.body_bytes));
    let reused = match transport.connection_reused {
        Some(reused) => if reused {
            Some("true".to_owned())
        } else {
            Some("false".to_owned())
        },
        None => None,
    };
    push_member(&mut members, "\"connection_reused\":", reused);
    brace(&members)
}

fn write_circuit(circuit: &CircuitSnapshot) -> (text: String)
    ensures
        text@ == circuit_json(*circuit),
{
    let mut members: Vec<String> = Vec::new();
    push_member(&mut members, "\"state\":", Some(quote(write_circuit_phase(circuit.state))));
    push_member(
        &mut members,
        "\"consecutive_openings\":",
        Some(write_decimal(circuit.consecutive_openings as u64)),
    );
    assert(text_views(members@) =~= seq![
        "\"state\":"@ + quoted(circuit_name(circuit.state)),
        "\"consecutive_openings\":"@ + decimal(circuit.consecutive_openings as nat),
    ]);
    push_member(&mut members, "\"retry_at_unix_ms\":", write_optional(circuit.retry_at_unix_ms));
    brace(&members)
}

fn write_snapshot(thread_id: &str, process: &ProcessIdentity, status: &Status) -> (text: String)
    ensures
        text@ == snapshot_json(thread_id@, *process, *status),
{
    let mut members: Vec<String> = Vec::new();
    push_member(
        &mut members,
        "\"schema\":\"codex.responses-transport-state/v1\"",
        Some(String::new()),
    );
    push_member(&mut members, "\"thread_id\":", Some(write_json_literal(thread_id)));
    push_member(&mut members, "\"process\":", Some(write_process(process)));
    push_member(&mut members, "\"sequence\":", Some(write_decimal(status.sequence)));
    push_member(
        &mut members,
        "\"updated_at_unix_ms\":",
        Some(write_decimal(status.updated_at_unix_ms)),
    );
    push_member(&mut members, "\"transport\":", Some(write_transport(&status.transport)));
    push_member(&mut members, "\"circuit\":", Some(write_circuit(&status.circuit)));
    push_member(
        &mut members,
        "\"last_outcome\":",
        Some(quote(write_outcome(status.last_outcome))),
    );
    proof {
        let schema = "\"schema\":\"codex.responses-transport-state/v1\""@;
        assert(schema + Seq::<char>::empty() =~= schema);
        assert(text_views(members@) =~= seq![
            schema,
            "\"thread_id\":"@ + json_literal(thread_id@),
            "\"process\":"@ + process_json(*process),
            "\"sequence\":"@ + decimal(status.sequence as nat),
            "\"updated_at_unix_ms\":"@ + decimal(status.updated_at_unix_ms as nat),
            "\"transport\":"@ + transport_json(status.transport),
            "\"circuit\":"@ + circuit_json(status.circuit),
            "\"last_outcome\":"@ + quoted(outcome_name(status.last_outcome)),
        ]);
    }
    let reason = match status.reason {
        Some(reason) => Some(quote(write_reason(reason))),
        None => None,
    };
    push_member(&mut members, "\"reason\":", reason);
    brace(&members)
}

/// The state of the Responses transport of a thread.
#[derive(Debug)]
pub struct ResponsesTransportState {
    /// The name of the published file, where there is one.
    file_name: Option<String>,
    thread_id: String,
    process: ProcessIdentity,
    status: Status,
    temporary_sequence: u64,
}

/// What the state of the transport holds.
pub struct TransportData {
    pub file_name: Option<Seq<char>>,
    pub thread_id: Seq<char>,
    pub process: ProcessIdentity,
    pub status: Status,
    pub temporary_sequence: u64,
}

impl View for ResponsesTransportState {
    type V = TransportData;

    closed spec fn view(&self) -> TransportData {
        TransportData {
            file_name: optional_view(self.file_name),
            thread_id: self.thread_id@,
            process: self.process,
            status: self.status,
            temporary_sequence: self.temporary_sequence,
        }
    }
}

/// The state once a status was published, where it is published at all.
pub open spec fn published(state: TransportData, status: Status) -> TransportData {
    TransportData {
        status,
        temporary_sequence: if state.file_name is Some {
            next_sequence(state.temporary_sequence)
        } else {
            state.temporary_sequence
        },
        ..state
    }
}

/// What is published of a state.
pub open spec fn publishes(publication: Option<Publication>, state: TransportData) -> bool {
    match state.file_name {
        None => publication is None,
        Some(file_name) => publication matches Some(p) && p.temporary_name@ == temporary_name(
            file_name,
            state.process.pid,
            state.temporary_sequence,
        ) && p.contents@ == snapshot_json(state.thread_id, state.process, state.status) + "\n"@,
    }
}

impl ResponsesTransportState {
    /// The state of a thread before anything happened, and what is published of it.
    pub fn new(
        file_name: Option<String>,
        thread_id: &str,
        process: ProcessIdentity,
        now_ms: u64,
    ) -> (result: (ResponsesTransportState, Option<Publication>))
        ensures
            result.0@ == published(
                TransportData {
                    file_name: optional_view(file_name),
                    thread_id: thread_id@,
                    process,
                    status: initial_status(now_ms),
                    temporary_sequence: 0,
                },
                initial_status(now_ms),
            ),
            publishes(result.1, result.0@),
    {
        let mut state = ResponsesTransportState {
            file_name,
            thread_id: thread_id.to_owned(),
            process,
            status: Status {
                sequence: 0,
                updated_at_unix_ms: now_ms,
                transport: TransportSnapshot {
                    active: ActiveTransport::Idle,
                    state: TransportPhase::Idle,
                    request_mode: None,
                    input_items: None,
                    body_bytes: None,
                    connection_reused: None,
                },
                circuit: CircuitSnapshot {
                    state: CircuitPhase::Closed,
                    consecutive_openings: 0,
                    retry_at_unix_ms: None,
                },
                last_outcome: LastOutcome::Initialized,
                reason: None,
            },
            temporary_sequence: 0,
        };
        let publication = state.publish();
        (state, publication)
    }

    /// A request is about to be sent.
    pub fn request_started(
        &mut self,
        transport: ResponsesTransport,
        incremental: bool,
        input_items: usize,
        body_bytes: Option<usize>,
        connection_reused: Option<bool>,
        now_ms: u64,
    ) -> (publication: Option<Publication>)
        ensures
            final(self)@ == published(
                old(self)@,
                stamped(
                    after_request_started(
                        old(self)@.status,
                        transport,
                        incremental,
                        input_items,
                        body_bytes,
                        connection_reused,
                    ),
                    now_ms,
                ),
            ),
            publishes(publication, final(self)@),
    {
        self.status.transport = TransportSnapshot {
            active: transport.active(),
            state: TransportPhase::Requesting,
            request_mode: Some(
                if incremental {
                    RequestMode::Incremental
                } else {
                    RequestMode::Full
                },
            ),
            input_items: Some(input_items),
            body_bytes,
            connection_reused,
        };
        self.status.last_outcome = LastOutcome::Prepared;
        self.status.reason = None;
        self.update(now_ms)
    }

    /// The websocket is being connected.
    pub fn websocket_connecting(&mut self, now_ms: u64) -> (publication: Option<Publication>)
        ensures
            final(self)@ == published(
                old(self)@,
                stamped(after_websocket_connecting(old(self)@.status), now_ms),
            ),
            publishes(publication, final(self)@),
    {
        self.status.transport = TransportSnapshot {
            active: ActiveTransport::Websocket,
            state: TransportPhase::Connecting,
            request_mode: None,
            input_items: None,
            body_bytes: None,
            connection_reused: None,
        };
        self.status.last_outcome = LastOutcome::Connecting;
        self.status.reason = None;
        self.update(now_ms)
    }

    /// The response is coming in.
    pub fn stream_started(&mut self, transport: ResponsesTransport, now_ms: u64) -> (publication:
        Option<Publication>)
        ensures
            final(self)@ == published(
                old(self)@,
                stamped(after_stream_started(old(self)@.status, transport), now_ms),
            ),
            publishes(publication, final(self)@),
    {
        self.status.transport.active = transport.active();
        self.status.transport.state = TransportPhase::Streaming;
        self.status.last_outcome = LastOutcome::Streaming;
        self.status.reason = None;
        self.update(now_ms)
    }

    /// The response is complete.
    pub fn completed(&mut self, transport: ResponsesTransport, now_ms: u64) -> (publication: Option<
        Publication,
    >)
        ensures
            final(self)@ == published(
                old(self)@,
                stamped(after_completed(old(self)@.status, transport), now_ms),
            ),
            publishes(publication, final(self)@),
    {
        self.status.transport.active = transport.active();
        self.status.transport.state = TransportPhase::Completed;
        self.status.last_outcome = LastOutcome::Completed;
        self.status.reason = None;
        if let ResponsesTransport::Websocket = transport {
            self.status.circuit = CircuitSnapshot {
                state: CircuitPhase::Closed,
                consecutive_openings: 0,
                retry_at_unix_ms: None,
            };
        }
        self.update(now_ms)
    }

    /// The request failed.
    pub fn failed(
        &mut self,
        transport: ResponsesTransport,
        reason: ResponsesFailureReason,
        now_ms: u64,
    ) -> (publication: Option<Publication>)
        ensures
            final(self)@ == published(
                old(self)@,
                stamped(after_failed(old(self)@.status, transport, reason), now_ms),
            ),
            publishes(publication, final(self)@),
    {
        self.status.transport.active = transport.active();
        self.status.transport.state = TransportPhase::Failed;
        self.status.last_outcome = LastOutcome::Failed;
        self.status.reason = Some(SnapshotReason::Failure { reason });
        self.update(now_ms)
    }

    /// The websocket is given up for now.
    pub fn fallback_opened(&mut self, now_ms: u64) -> (publication: Option<Publication>)
        ensures
            final(self)@ == published(
                old(self)@,
                stamped(after_fallback_opened(old(self)@.status), now_ms),
            ),
            publishes(publication, final(self)@),
    {
        self.status.transport.active = ActiveTransport::Http;
        self.status.transport.state = TransportPhase::Fallback;
        self.status.circuit = CircuitSnapshot {
            state: CircuitPhase::Open,
            consecutive_openings: 1,
            retry_at_unix_ms: None,
        };
        self.status.last_outcome = LastOutcome::Fallback;
        self.status.reason = Some(SnapshotReason::WebsocketRetryExhausted);
        self.update(now_ms)
    }

    /// The websocket may be tried again.
    pub fn websocket_retry_requested(&mut self, now_ms: u64) -> (publication: Option<Publication>)
        ensures
            final(self)@ == published(
                old(self)@,
                stamped(after_retry_requested(old(self)@.status), now_ms),
            ),
            publishes(publication, final(self)@),
    {
        self.status.circuit.state = CircuitPhase::HalfOpen;
        if self.status.circuit.consecutive_openings < 1 {
            self.status.circuit.consecutive_openings = 1;
        }
        self.status.circuit.retry_at_unix_ms = None;
        self.status.last_outcome = LastOutcome::WebsocketRetryReady;
        self.status.reason = None;
        self.update(now_ms)
    }

    /// Marks an update and publishes it.
    fn update(&mut self, now_ms: u64) -> (publication: Option<Publication>)
        ensures
            final(self)@ == published(old(self)@, stamped(old(self)@.status, now_ms)),
            publishes(publication, final(self)@),
    {
        self.status.sequence = self.status.sequence.saturating_add(1);
        self.status.updated_at_unix_ms = now_ms;
        self.publish()
    }

    /// Publishes the state, where it is published at all.
    fn publish(&mut self) -> (publication: Option<Publication>)
        ensures
            final(self)@ == published(old(self)@, old(self)@.status),
            publishes(publication, final(self)@),
    {
        if self.file_name.is_some() {
            self.temporary_sequence = self.temporary_sequence.saturating_add(1);
        }
        match &self.file_name {
            Some(file_name) => {
                let name = write_temporary_name(
                    file_name.as_str(),
                    self.process.pid,
                    self.temporary_sequence,
                );
                let mut contents = write_snapshot(
                    self.thread_id.as_str(),
                    &self.process,
                    &self.status,
                );
                contents.append("\n");
                Some(Publication { temporary_name: name, contents })
            },
            None => None,
        }
    }
}

/// A response over the websocket closes its circuit again, however often it was opened; one over
/// HTTP leaves it alone.
pub proof fn law_only_the_websocket_closes_its_circuit(status: Status)
    ensures
        after_completed(status, ResponsesTransport::Websocket).circuit == closed_circuit(),
        after_completed(status, ResponsesTransport::Http).circuit == status.circuit,
{
}

/// A retry after a fallback keeps the fallback transport in use and says no reason any more.
pub proof fn law_retry_keeps_the_fallback(status: Status)
    ensures
        ({
            let after = after_retry_requested(after_fallback_opened(status));
            &&& after.transport.active == ActiveTransport::Http
            &&& after.transport.state == TransportPhase::Fallback
            &&& after.circuit.state == CircuitPhase::HalfOpen
            &&& after.circuit.consecutive_openings == 1
            &&& after.reason is None
        }),
{
}

/// Counts the bytes that are written to it, and keeps none of them.
#[derive(Debug)]
pub struct ByteCounter {
    pub bytes: usize,
}

impl ByteCounter {
    /// Nothing was written yet.
    pub fn new() -> (counter: ByteCounter)
        ensures
            counter.bytes == 0,
    {
        ByteCounter { bytes: 0 }
    }

    /// Counts some bytes; all of them count as written.
    pub fn count(&mut self, buffer: &[u8]) -> (written: usize)
        ensures
            written == buffer@.len(),
            final(self).bytes == if old(self).bytes + buffer@.len() <= usize::MAX {
                old(self).bytes + buffer@.len()
            } else {
                usize::MAX as int
            },
    {
        self.bytes = self.bytes.saturating_add(buffer.len());
        buffer.len()
    }
}

/// How many bytes a document takes in one line.
pub fn serialized_json_len(value: &Json) -> (n: Option<usize>)
    ensures
        n is Some,
        n->0 == byte_len(json_line(value@)),
{
    let text = write_json_line(value);
    let mut counter = ByteCounter::new();
    let _ = counter.count(text.as_str().as_bytes());
    Some(counter.bytes)
}

} // verus!
