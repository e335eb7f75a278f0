//! The frames of the bridge, and the session that they make up.

use vstd::prelude::*;
use vstd::string::*;

use crate::atom::{check_atom, is_atom};
use crate::bridge::event::{
    decoded_signal, event_valid, read_signal_event, validate_event, BridgeProtocol, SignalData,
    WorkspaceSignalEvent,
};
use crate::json::{
    as_text, get, get_member, json_literal, parse_json, parsed_json, slot_tree, text_slot,
    write_json_literal, Json, JsonTree,
};
use crate::text::{byte_len, optional_view, same_text, text_bytes};

verus! {

/// The most bytes of a frame.
pub const MAX_FRAME_BYTES: usize = 16384;

/// Why a frame is rejected.
#[derive(Clone, Copy, Debug, PartialEq, Eq, Structural)]
pub enum FrameError {
    InvalidJson,
    InvalidFrame,
    ProtocolMismatch,
    MetadataInvalid,
    EventBeforeReady,
    EventUnavailable,
    EventInvalid,
    EventScopeMismatch,
    BridgeHeld,
    FrameTypeInvalid,
}

/// The name of a reason for rejecting a frame.
pub open spec fn frame_error_name(error: FrameError) -> Seq<char> {
    match error {
        FrameError::InvalidJson => "invalidJson"@,
        FrameError::InvalidFrame => "invalidFrame"@,
        FrameError::ProtocolMismatch => "protocolMismatch"@,
        FrameError::MetadataInvalid => "metadataInvalid"@,
        FrameError::EventBeforeReady => "eventBeforeReady"@,
        FrameError::EventUnavailable => "eventUnavailable"@,
        FrameError::EventInvalid => "eventInvalid"@,
        FrameError::EventScopeMismatch => "eventScopeMismatch"@,
        FrameError::BridgeHeld => "bridgeHeld"@,
        FrameError::FrameTypeInvalid => "frameTypeInvalid"@,
    }
}

impl FrameError {
    /// The name of this reason.
    pub fn as_str(self) -> (name: &'static str)
        ensures
            name@ == frame_error_name(self),
    {
        match self {
            FrameError::InvalidJson => "invalidJson",
            FrameError::InvalidFrame => "invalidFrame",
            FrameError::ProtocolMismatch => "protocolMismatch",
            FrameError::MetadataInvalid => "metadataInvalid",
            FrameError::EventBeforeReady => "eventBeforeReady",
            FrameError::EventUnavailable => "eventUnavailable",
            FrameError::EventInvalid => "eventInvalid",
            FrameError::EventScopeMismatch => "eventScopeMismatch",
            FrameError::BridgeHeld => "bridgeHeld",
            FrameError::FrameTypeInvalid => "frameTypeInvalid",
        }
    }
}

/// The protocol of a frame.
pub open spec fn protocol_of(value: Option<JsonTree>) -> Option<BridgeProtocol> {
    match as_text(value) {
        Some(name) => if name == "observatory.workspace_signal_bridge.v1"@ {
            Some(BridgeProtocol::V1)
        } else if name == "observatory.workspace_signal_bridge.v2"@ {
            Some(BridgeProtocol::V2)
        } else {
            None
        },
        None => None,
    }
}

impl BridgeProtocol {
    /// Reads the protocol of a frame.
    pub fn parse(value: Option<&Json>) -> (result: Result<BridgeProtocol, FrameError>)
        ensures
            match result {
                Ok(protocol) => protocol_of(slot_tree(value)) == Some(protocol),
                Err(error) => protocol_of(slot_tree(value)) is None && error
                    == FrameError::ProtocolMismatch,
            },
    {
        match value {
            Some(Json::Text(name)) => if same_text(
                name.as_str(),
                "observatory.workspace_signal_bridge.v1",
            ) {
                Ok(BridgeProtocol::V1)
            } else if same_text(name.as_str(), "observatory.workspace_signal_bridge.v2") {
                Ok(BridgeProtocol::V2)
            } else {
                Err(FrameError::ProtocolMismatch)
            },
            _ => Err(FrameError::ProtocolMismatch),
        }
    }
}

/// A frame of the bridge.
#[derive(Debug, PartialEq, Eq)]
pub enum BridgeFrame {
    Ready {
        asserted_session_id: String,
        member: String,
        protocol: BridgeProtocol,
        workspace: String,
    },
    Event { event: WorkspaceSignalEvent, protocol: BridgeProtocol },
    Continue,
}

/// What a frame of the bridge holds.
pub enum FrameData {
    Ready {
        asserted_session_id: Seq<char>,
        member: Seq<char>,
        protocol: BridgeProtocol,
        workspace: Seq<char>,
    },
    Event { event: SignalData, protocol: BridgeProtocol },
    Continue,
}

impl View for BridgeFrame {
    type V = FrameData;

    open spec fn view(&self) -> FrameData {
        match self {
            BridgeFrame::Ready { asserted_session_id, member, protocol, workspace } => {
                FrameData::Ready {
                    asserted_session_id: asserted_session_id@,
                    member: member@,
                    protocol: *protocol,
                    workspace: workspace@,
                }
            },
            BridgeFrame::Event { event, protocol } => FrameData::Event {
                event: event@,
                protocol: *protocol,
            },
            BridgeFrame::Continue => FrameData::Continue,
        }
    }
}

/// What a session is bound to by its ready frame.
pub struct ScopeData {
    pub protocol: Option<BridgeProtocol>,
    pub member: Option<Seq<char>>,
    pub workspace: Option<Seq<char>>,
}

/// The atom that a member of a frame is.
pub open spec fn atom_of(value: Option<JsonTree>, max: int) -> Option<Seq<char>> {
    match as_text(value) {
        Some(text) => if is_atom(text, max, false) {
            Some(text)
        } else {
            None
        },
        None => None,
    }
}

/// Reads an atom of at most `maximum` bytes.
pub fn safe_atom(value: Option<&Json>, maximum: usize) -> (result: Result<String, FrameError>)
    ensures
        match result {
            Ok(atom) => atom_of(slot_tree(value), maximum as int) == Some(atom@),
            Err(error) => atom_of(slot_tree(value), maximum as int) is None && error
                == FrameError::MetadataInvalid,
        },
{
    match text_slot(value) {
        Some(text) => if check_atom(text.as_str(), maximum, false) {
            Ok(text)
        } else {
            Err(FrameError::MetadataInvalid)
        },
        None => Err(FrameError::MetadataInvalid),
    }
}

/// The ready frame that a document is.
pub open spec fn ready_frame(json: JsonTree, protocol: BridgeProtocol) -> Result<
    FrameData,
    FrameError,
> {
    match (
        atom_of(get(json, "assertedSessionId"@), 128),
        atom_of(get(json, "member"@), 64),
        atom_of(get(json, "runtimeSessionId"@), 128),
        atom_of(get(json, "workspace"@), 64),
    ) {
        (Some(asserted_session_id), Some(member), Some(_), Some(workspace)) => Ok(
            FrameData::Ready { asserted_session_id, member, protocol, workspace },
        ),
        _ => Err(FrameError::MetadataInvalid),
    }
}

/// The event frame that a document is, in a session that is bound to a member.
pub open spec fn event_frame(
    json: JsonTree,
    protocol: BridgeProtocol,
    scope: ScopeData,
) -> Result<FrameData, FrameError> {
    if scope.member is None || scope.workspace is None {
        Err(FrameError::EventBeforeReady)
    } else {
        match get(json, "event"@) {
            None => Err(FrameError::EventUnavailable),
            Some(value) => match decoded_signal(value) {
                None => Err(FrameError::EventInvalid),
                Some(event) => if !event_valid(event, protocol) {
                    Err(FrameError::EventInvalid)
                } else if event.to != scope.member->0 {
                    Err(FrameError::EventScopeMismatch)
                } else {
                    Ok(FrameData::Event { event, protocol })
                },
            },
        }
    }
}

/// The frame that a parsed line is, or why it is rejected.
pub open spec fn frame_of(document: Option<JsonTree>, scope: ScopeData) -> Result<
    FrameData,
    FrameError,
> {
    match document {
        None => Err(FrameError::InvalidJson),
        Some(json) => if !(json is Object) {
            Err(FrameError::InvalidFrame)
        } else {
            match protocol_of(get(json, "protocol"@)) {
                None => Err(FrameError::ProtocolMismatch),
                Some(protocol) => if scope.protocol is Some && scope.protocol->0 != protocol {
                    Err(FrameError::ProtocolMismatch)
                } else {
                    match as_text(get(json, "type"@)) {
                        Some(name) => if name == "ready"@ {
                            ready_frame(json, protocol)
                        } else if name == "event"@ {
                            event_frame(json, protocol, scope)
                        } else if name == "resolved"@ || name == "idle"@ {
                            Ok(FrameData::Continue)
                        } else if name == "hold"@ {
                            Err(FrameError::BridgeHeld)
                        } else {
                            Err(FrameError::FrameTypeInvalid)
                        },
                        None => Err(FrameError::FrameTypeInvalid),
                    }
                },
            }
        },
    }
}

/// The scope that a caller names.
pub open spec fn scope_of(
    protocol: Option<BridgeProtocol>,
    member: Option<&str>,
    workspace: Option<&str>,
) -> ScopeData {
    ScopeData {
        protocol,
        member: match member {
            Some(m) => Some(m@),
            None => None,
        },
        workspace: match workspace {
            Some(w) => Some(w@),
            None => None,
        },
    }
}

/// Reads a frame out of a line.
pub fn parse_frame(
    line: &str,
    ready_protocol: Option<BridgeProtocol>,
    ready_member: Option<&str>,
    ready_workspace: Option<&str>,
) -> (result: Result<BridgeFrame, FrameError>)
    ensures
        match result {
            Ok(frame) => frame_of(
                parsed_json(line@),
                scope_of(ready_protocol, ready_member, ready_workspace),
            ) == Ok::<FrameData, FrameError>(frame@),
            Err(error) => frame_of(
                parsed_json(line@),
                scope_of(ready_protocol, ready_member, ready_workspace),
            ) == Err::<FrameData, FrameError>(error),
        },
{
    let document = parse_json(line);
    read_frame(document.as_ref(), ready_protocol, ready_member, ready_workspace)
}

/// Reads a frame out of a parsed line.
pub fn read_frame(
    document: Option<&Json>,
    ready_protocol: Option<BridgeProtocol>,
    ready_member: Option<&str>,
    ready_workspace: Option<&str>,
) -> (result: Result<BridgeFrame, FrameError>)
    ensures
        match result {
            Ok(frame) => frame_of(
                slot_tree(document),
                scope_of(ready_protocol, ready_member, ready_workspace),
            ) == Ok::<FrameData, FrameError>(frame@),
            Err(error) => frame_of(
                slot_tree(document),
                scope_of(ready_protocol, ready_member, ready_workspace),
            ) == Err::<FrameData, FrameError>(error),
        },
{
    let json = match document {
        Some(json) => json,
        None => {
            return Err(FrameError::InvalidJson);
        },
    };
    match json {
        Json::Object(_) => {},
        _ => {
            return Err(FrameError::InvalidFrame);
        },
    }
    let protocol = match BridgeProtocol::parse(get_member(json, "protocol")) {
        Ok(protocol) => protocol,
        Err(error) => {
            return Err(error);
        },
    };
    if let Some(ready) = ready_protocol {
        if ready != protocol {
            return Err(FrameError::ProtocolMismatch);
        }
    }
    let name = match text_slot(get_member(json, "type")) {
        Some(name) => name,
        None => {
            return Err(FrameError::FrameTypeInvalid);
        },
    };
    if same_text(name.as_str(), "ready") {
        read_ready(json, protocol)
    } else if same_text(name.as_str(), "event") {
        read_event(json, protocol, ready_protocol, ready_member, ready_workspace)
    } else if same_text(name.as_str(), "resolved") || same_text(name.as_str(), "idle") {
        Ok(BridgeFrame::Continue)
    } else if same_text(name.as_str(), "hold") {
        Err(FrameError::BridgeHeld)
    } else {
        Err(FrameError::FrameTypeInvalid)
    }
}

fn read_ready(json: &Json, protocol: BridgeProtocol) -> (result: Result<BridgeFrame, FrameError>)
    ensures
        match result {
            Ok(frame) => ready_frame(json@, protocol) == Ok::<FrameData, FrameError>(frame@),
            Err(error) => ready_frame(json@, protocol) == Err::<FrameData, FrameError>(error),
        },
{
    let asserted_session_id = match safe_atom(get_member(json, "assertedSessionId"), 128) {
        Ok(atom) => atom,
        Err(error) => {
            return Err(error);
        },
    };
    let member = match safe_atom(get_member(json, "member"), 64) {
        Ok(atom) => atom,
        Err(error) => {
            return Err(error);
        },
    };
    if let Err(error) = safe_atom(get_member(json, "runtimeSessionId"), 128) {
        return Err(error);
    }
    let workspace = match safe_atom(get_member(json, "workspace"), 64) {
        Ok(atom) => atom,
        Err(error) => {
            return Err(error);
        },
    };
    Ok(BridgeFrame::Ready { asserted_session_id, member, protocol, workspace })
}

fn read_event(
    json: &Json,
    protocol: BridgeProtocol,
    ready_protocol: Option<BridgeProtocol>,
    ready_member: Option<&str>,
    ready_workspace: Option<&str>,
) -> (result: Result<BridgeFrame, FrameError>)
    ensures
        match result {
            Ok(frame) => event_frame(
                json@,
                protocol,
                scope_of(ready_protocol, ready_member, ready_workspace),
            ) == Ok::<FrameData, FrameError>(frame@),
            Err(error) => event_frame(
                json@,
                protocol,
                scope_of(ready_protocol, ready_member, ready_workspace),
            ) == Err::<FrameData, FrameError>(error),
        },
{
    let member = match ready_member {
        Some(member) => member,
        None => {
            return Err(FrameError::EventBeforeReady);
        },
    };
    if ready_workspace.is_none() {
        return Err(FrameError::EventBeforeReady);
    }
    let value = match get_member(json, "event") {
        Some(value) => value,
        None => {
            return Err(FrameError::EventUnavailable);
        },
    };
    let event = match read_signal_event(value) {
        Some(event) => event,
        None => {
            return Err(FrameError::EventInvalid);
        },
    };
    if !validate_event(&event, protocol) {
        return Err(FrameError::EventInvalid);
    }
    if !same_text(event.to.as_str(), member) {
        return Err(FrameError::EventScopeMismatch);
    }
    Ok(BridgeFrame::Event { event, protocol })
}

/// A request to pass an event on to the thread.
#[derive(Debug, PartialEq, Eq)]
pub struct WorkspaceSignalRequest {
    pub event: WorkspaceSignalEvent,
    pub protocol: BridgeProtocol,
    pub workspace: String,
}

/// What a request holds.
pub struct RequestData {
    pub event: SignalData,
    pub protocol: BridgeProtocol,
    pub workspace: Seq<char>,
}

impl View for WorkspaceSignalRequest {
    type V = RequestData;

    open spec fn view(&self) -> RequestData {
        RequestData { event: self.event@, protocol: self.protocol, workspace: self.workspace@ }
    }
}

/// Why a session ends.
#[derive(Clone, Copy, Debug, PartialEq, Eq, Structural)]
pub enum BridgeEnd {
    /// A frame is longer than it may be.
    FrameTooLong,
    /// A second ready frame.
    Rebound,
    /// The ready frame is for another session.
    SessionMismatch,
    Rejected { error: FrameError },
}

/// What one line of the bridge asks for.
#[derive(Debug, PartialEq, Eq)]
pub enum BridgeStep {
    /// Read the next line.
    Continue,
    /// Pass an event on, and answer with its outcome.
    Deliver { request: WorkspaceSignalRequest },
    End { end: BridgeEnd },
}

/// What a step holds.
pub enum StepData {
    Continue,
    Deliver { request: RequestData },
    End { end: BridgeEnd },
}

impl View for BridgeStep {
    type V = StepData;

    open spec fn view(&self) -> StepData {
        match self {
            BridgeStep::Continue => StepData::Continue,
            BridgeStep::Deliver { request } => StepData::Deliver { request: request@ },
            BridgeStep::End { end } => StepData::End { end: *end },
        }
    }
}

/// The session of a bridge with the thread that it serves.
#[derive(Debug)]
pub struct BridgeSession {
    expected_session_id: String,
    protocol: Option<BridgeProtocol>,
    member: Option<String>,
    workspace: Option<String>,
}

/// What a session of the bridge holds.
pub struct SessionData {
    pub expected_session_id: Seq<char>,
    pub scope: ScopeData,
}

impl View for BridgeSession {
    type V = SessionData;

    closed spec fn view(&self) -> SessionData {
        SessionData {
            expected_session_id: self.expected_session_id@,
            scope: ScopeData {
                protocol: self.protocol,
                member: optional_view(self.member),
                workspace: optional_view(self.workspace),
            },
        }
    }
}

/// What a frame does to a session, and what it asks for.
pub open spec fn frame_taken(session: SessionData, frame: Result<FrameData, FrameError>) -> (
    SessionData,
    StepData,
) {
    match frame {
        Err(error) => (session, StepData::End { end: BridgeEnd::Rejected { error } }),
        Ok(FrameData::Continue) => (session, StepData::Continue),
        Ok(FrameData::Ready { asserted_session_id, member, protocol, workspace }) => {
            if session.scope.member is Some || session.scope.workspace is Some {
                (session, StepData::End { end: BridgeEnd::Rebound })
            } else if asserted_session_id != session.expected_session_id {
                (session, StepData::End { end: BridgeEnd::SessionMismatch })
            } else {
                (
                    SessionData {
                        scope: ScopeData {
                            protocol: Some(protocol),
                            member: Some(member),
                            workspace: Some(workspace),
                        },
                        ..session
                    },
                    StepData::Continue,
                )
            }
        },
        Ok(FrameData::Event { event, protocol }) => (
            session,
            StepData::Deliver {
                request: RequestData { event, protocol, workspace: session.scope.workspace->0 },
            },
        ),
    }
}

/// What a line of the bridge does to a session, and what it asks for.
pub open spec fn line_taken(
    session: SessionData,
    line: Seq<char>,
    document: Option<JsonTree>,
) -> (SessionData, StepData) {
    if byte_len(line) > MAX_FRAME_BYTES {
        (session, StepData::End { end: BridgeEnd::FrameTooLong })
    } else {
        frame_taken(session, frame_of(document, session.scope))
    }
}

fn borrow_text(text: &Option<String>) -> (borrowed: Option<&str>)
    ensures
        match borrowed {
            Some(b) => optional_view(*text) == Some(b@),
            None => optional_view(*text) is None,
        },
{
    match text {
        Some(t) => Some(t.as_str()),
        None => None,
    }
}

impl BridgeSession {
    /// A session for a thread, not bound to a member yet.
    pub fn new(expected_session_id: &str) -> (session: BridgeSession)
        ensures
            session@ == (SessionData {
                expected_session_id: expected_session_id@,
                scope: ScopeData { protocol: None, member: None, workspace: None },
            }),
    {
        BridgeSession {
            expected_session_id: expected_session_id.to_owned(),
            protocol: None,
            member: None,
            workspace: None,
        }
    }

    /// Takes one line of the bridge.
    pub fn take_line(&mut self, line: &str) -> (step: BridgeStep)
        ensures
            (final(self)@, step@) == line_taken(old(self)@, line@, parsed_json(line@)),
    {
        if text_bytes(line) > MAX_FRAME_BYTES {
            return BridgeStep::End { end: BridgeEnd::FrameTooLong };
        }
        let frame = parse_frame(
            line,
            self.protocol,
            borrow_text(&self.member),
            borrow_text(&self.workspace),
        );
        self.take_frame(frame)
    }

    /// Takes one frame of the bridge.
    pub fn take_frame(&mut self, frame: Result<BridgeFrame, FrameError>) -> (step: BridgeStep)
        requires
            frame matches Ok(BridgeFrame::Event { .. }) ==> old(self)@.scope.workspace is Some,
        ensures
            (final(self)@, step@) == frame_taken(
                old(self)@,
                match frame {
                    Ok(f) => Ok(f@),
                    Err(error) => Err(error),
                },
            ),
    {
        match frame {
            Err(error) => BridgeStep::End { end: BridgeEnd::Rejected { error } },
            Ok(BridgeFrame::Continue) => BridgeStep::Continue,
            Ok(BridgeFrame::Ready { asserted_session_id, member, protocol, workspace }) => {
                if self.member.is_some() || self.workspace.is_some() {
                    return BridgeStep::End { end: BridgeEnd::Rebound };
                }
                if !same_text(asserted_session_id.as_str(), self.expected_session_id.as_str()) {
                    return BridgeStep::End { end: BridgeEnd::SessionMismatch };
                }
                self.protocol = Some(protocol);
                self.member = Some(member);
                self.workspace = Some(workspace);
                BridgeStep::Continue
            },
            Ok(BridgeFrame::Event { event, protocol }) => {
                let workspace = match &self.workspace {
                    Some(workspace) => workspace.clone(),
                    None => String::new(),
                };
                BridgeStep::Deliver {
                    request: WorkspaceSignalRequest { event, protocol, workspace },
                }
            },
        }
    }
}

/// What became of an event.
#[derive(Clone, Copy, Debug, PartialEq, Eq, Structural)]
pub enum WorkspaceSignalOutcome {
    Started,
    Held,
}

/// The name of an outcome on the wire.
pub open spec fn outcome_name(outcome: WorkspaceSignalOutcome) -> Seq<char> {
    match outcome {
        WorkspaceSignalOutcome::Started => "started"@,
        WorkspaceSignalOutcome::Held => "held"@,
    }
}

/// The answer to an event on the wire, without its line end.
pub open spec fn resolution_text(event_id: Seq<char>, outcome: WorkspaceSignalOutcome) -> Seq<char> {
    "{\"type\":\"resolve\",\"eventId\":"@ + json_literal(event_id) + ",\"outcome\":\""@
        + outcome_name(outcome) + "\"}"@
}

/// Writes the answer to an event.
pub fn write_resolution(event_id: &str, outcome: WorkspaceSignalOutcome) -> (text: String)
    ensures
        text@ == resolution_text(event_id@, outcome),
{
    let mut text = "{\"type\":\"resolve\",\"eventId\":".to_owned();
    text.append(write_json_literal(event_id).as_str());
    text.append(",\"outcome\":\"");
    match outcome {
        WorkspaceSignalOutcome::Started => {
            text.append("started");
        },
        WorkspaceSignalOutcome::Held => {
            text.append("held");
        },
    }
    text.append("\"}");
    text
}

/// What a wait for the outcome of an event came to.
#[derive(Clone, Copy, Debug, PartialEq, Eq, Structural)]
pub enum Awaited {
    Outcome { outcome: WorkspaceSignalOutcome },
    Timeout,
    Disconnected,
}

/// The outcome of an event as far as it is settled.
pub open spec fn outcome_settled(awaited: Awaited, stopping: bool) -> Option<
    WorkspaceSignalOutcome,
> {
    match awaited {
        Awaited::Outcome { outcome } => Some(outcome),
        Awaited::Timeout => if stopping {
            Some(WorkspaceSignalOutcome::Held)
        } else {
            None
        },
        Awaited::Disconnected => Some(WorkspaceSignalOutcome::Held),
    }
}

/// Decides on the outcome of an event: it is awaited until the bridge is stopped, and held where
/// nobody will tell it any more.
pub fn settle_outcome(awaited: Awaited, stopping: bool) -> (outcome: Option<
    WorkspaceSignalOutcome,
>)
    ensures
        outcome == outcome_settled(awaited, stopping),
{
    match awaited {
        Awaited::Outcome { outcome } => Some(outcome),
        Awaited::Timeout => if stopping {
            Some(WorkspaceSignalOutcome::Held)
        } else {
            None
        },
        Awaited::Disconnected => Some(WorkspaceSignalOutcome::Held),
    }
}

/// Once a session is bound, no further line changes what it is bound to.
pub proof fn law_scope_is_bound_once(
    session: SessionData,
    line: Seq<char>,
    document: Option<JsonTree>,
)
    requires
        session.scope.member is Some,
    ensures
        line_taken(session, line, document).0 == session,
{
}

/// Only an event that is in order, for the member of the session and in its protocol, is passed
/// on, under the workspace that the session is bound to.
pub proof fn law_only_addressed_events_are_delivered(
    session: SessionData,
    line: Seq<char>,
    document: Option<JsonTree>,
    request: RequestData,
)
    requires
        line_taken(session, line, document).1 == (StepData::Deliver { request }),
    ensures
        session.scope.member == Some(request.event.to),
        session.scope.workspace == Some(request.workspace),
        session.scope.protocol is Some ==> session.scope.protocol == Some(request.protocol),
        event_valid(request.event, request.protocol),
{
}

/// No event is passed on before the session is bound, and the session binds only to the thread
/// that it serves.
pub proof fn law_nothing_is_delivered_before_ready(
    session: SessionData,
    line: Seq<char>,
    document: Option<JsonTree>,
)
    requires
        session.scope.member is None,
    ensures
        !(line_taken(session, line, document).1 is Deliver),
        line_taken(session, line, document).0.scope.member is Some
            ==> document is Some && atom_of(get(document->0, "assertedSessionId"@), 128) == Some(
            session.expected_session_id,
        ),
{
}

} // verus!
