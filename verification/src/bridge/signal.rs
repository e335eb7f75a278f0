//! What a workspace signal asks of the thread, what the user is told of it, and when a bridge that
//! ended is started again.

use vstd::prelude::*;
use vstd::string::*;

use crate::atom::{check_atom, is_atom};
use crate::attention::{AttentionMetadata, ThreadAttentionEvent, ThreadAttentionResponse};
use crate::bridge::event::{
    event_attention, event_reference, event_valid, BridgeProtocol, WorkspaceSignal,
};
use crate::bridge::frame::{RequestData, WorkspaceSignalOutcome, WorkspaceSignalRequest};
use crate::text::{optional_view, same_text};
use crate::time::{parse_rfc3339, rfc3339_time, utc_millis, write_utc_millis};

verus! {

/// The version of the attention envelope.
pub const ATTENTION_VERSION: u8 = 1;

/// When an event was queued, in UTC, as far as that can be told.
pub open spec fn queued_at(created_at: Seq<char>) -> Option<Seq<char>> {
    match rfc3339_time(created_at) {
        Some(time) => utc_millis(time.0, time.1),
        None => None,
    }
}

/// Tells when an event was queued.
pub fn queued_time(created_at: &str) -> (text: Option<String>)
    ensures
        optional_view(text) == queued_at(created_at@),
{
    match parse_rfc3339(created_at) {
        Some(time) => write_utc_millis(time.unix_seconds, time.nanos),
        None => None,
    }
}

/// What is told of the time of an event.
pub open spec fn timing_text(queued_at: Option<Seq<char>>, predates_runtime: bool) -> Seq<char> {
    match queued_at {
        Some(time) => if predates_runtime {
            " (queued "@ + time + "; delayed/pre-runtime)"@
        } else {
            " (queued "@ + time + ")"@
        },
        None => if predates_runtime {
            " (delayed/pre-runtime)"@
        } else {
            Seq::empty()
        },
    }
}

/// Only a started cc of the first protocol in the global workspace, from a sender whose name is an
/// atom, is shown to the user.
pub open spec fn shows_indicator(request: RequestData, outcome: WorkspaceSignalOutcome) -> bool {
    &&& outcome == WorkspaceSignalOutcome::Started
    &&& request.protocol == BridgeProtocol::V1
    &&& request.workspace == "global-cc-bootstrap"@
    &&& request.event.signal == WorkspaceSignal::Cc
    &&& is_atom(request.event.from, 128, false)
}

/// What the user is told of an event that was queued at a time.
pub open spec fn indicator_text(
    from: Seq<char>,
    queued_at: Option<Seq<char>>,
    predates_runtime: bool,
) -> Seq<char> {
    "CC poke received now from reported sender "@ + from + timing_text(queued_at, predates_runtime)
        + ". Fresh-state retrieval start is not yet evidenced; delivery and model-turn start do not establish comprehension, acceptance, CC read, or action."@
}

/// Writes what the user is told of an event that was queued at a time.
pub fn write_indicator(from: &str, queued_at: &Option<String>, predates_runtime: bool) -> (text:
    String)
    ensures
        text@ == indicator_text(from@, optional_view(*queued_at), predates_runtime),
{
    let mut text = "CC poke received now from reported sender ".to_owned();
    text.append(from);
    let ghost before = text@;
    match queued_at {
        Some(time) => {
            text.append(" (queued ");
            text.append(time.as_str());
            if predates_runtime {
                text.append("; delayed/pre-runtime)");
            } else {
                text.append(")");
            }
        },
        None => {
            if predates_runtime {
                text.append(" (delayed/pre-runtime)");
            }
        },
    }
    assert(text@ =~= before + timing_text(optional_view(*queued_at), predates_runtime));
    text.append(
        ". Fresh-state retrieval start is not yet evidenced; delivery and model-turn start do not establish comprehension, acceptance, CC read, or action.",
    );
    text
}

/// What the user is told of a request and its outcome, if anything.
pub fn cc_poke_indicator(
    request: &WorkspaceSignalRequest,
    outcome: WorkspaceSignalOutcome,
) -> (text: Option<String>)
    ensures
        optional_view(text) == if shows_indicator(request@, outcome) {
            Some(
                indicator_text(
                    request@.event.from,
                    queued_at(request@.event.created_at),
                    request@.event.predates_runtime,
                ),
            )
        } else {
            None
        },
{
    if outcome != WorkspaceSignalOutcome::Started || request.protocol != BridgeProtocol::V1
        || !same_text(request.workspace.as_str(), "global-cc-bootstrap") || request.event.signal
        != WorkspaceSignal::Cc || !check_atom(request.event.from.as_str(), 128, false) {
        return None;
    }
    let queued = queued_time(request.event.created_at.as_str());
    Some(
        write_indicator(request.event.from.as_str(), &queued, request.event.predates_runtime),
    )
}

/// The attention that a request asks for: metadata and nothing else.
pub open spec fn request_attention(request: RequestData) -> AttentionMetadata {
    AttentionMetadata {
        version: ATTENTION_VERSION,
        event_id: request.event.event_id,
        kind: event_attention(request.event),
        source_class: "workspace"@,
        source_ref: request.workspace + "/"@ + request.event.from,
        reference: Some(event_reference(request.event, request.protocol)),
    }
}

/// Turns a request into one for the attention of the thread.
pub fn signal_attention_event(request: &WorkspaceSignalRequest) -> (attention: ThreadAttentionEvent)
    requires
        event_valid(request@.event, request@.protocol),
    ensures
        attention@ == request_attention(request@),
{
    let mut source_ref = request.workspace.clone();
    source_ref.append("/");
    source_ref.append(request.event.from.as_str());
    ThreadAttentionEvent {
        version: ATTENTION_VERSION,
        event_id: request.event.event_id.clone(),
        kind: request.event.attention_kind(),
        source_class: "workspace".to_owned(),
        source_ref,
        reference: Some(request.event.reference(request.protocol)),
    }
}

/// The outcome that an answer of the app server stands for.
pub open spec fn outcome_of(response: Option<ThreadAttentionResponse>) -> WorkspaceSignalOutcome {
    if response == Some(ThreadAttentionResponse::Started) {
        WorkspaceSignalOutcome::Started
    } else {
        WorkspaceSignalOutcome::Held
    }
}

/// The outcome for an answer of the app server: started only where it says so, and held where it
/// gave no answer.
pub fn signal_outcome(response: Option<ThreadAttentionResponse>) -> (outcome:
    WorkspaceSignalOutcome)
    ensures
        outcome == outcome_of(response),
{
    match response {
        Some(ThreadAttentionResponse::Started) => WorkspaceSignalOutcome::Started,
        _ => WorkspaceSignalOutcome::Held,
    }
}

/// What is done with a workspace signal.
#[derive(Debug, PartialEq, Eq)]
pub enum SignalPlan {
    /// There is no thread to wake: the signal is held.
    Hold,
    /// Ask for the attention of the thread.
    Request { thread_id: String, attention: ThreadAttentionEvent },
}

/// Decides what is done with a workspace signal, for the primary thread where there is one.
pub fn plan_signal(primary_thread_id: Option<&str>, request: &WorkspaceSignalRequest) -> (plan:
    SignalPlan)
    requires
        event_valid(request@.event, request@.protocol),
    ensures
        match primary_thread_id {
            None => plan is Hold,
            Some(id) => plan matches SignalPlan::Request { thread_id, attention } && thread_id@
                == id@ && attention@ == request_attention(request@),
        },
{
    match primary_thread_id {
        None => SignalPlan::Hold,
        Some(id) => SignalPlan::Request {
            thread_id: id.to_owned(),
            attention: signal_attention_event(request),
        },
    }
}

/// What remains of a signal once the app server has answered.
#[derive(Debug, PartialEq, Eq)]
pub struct SignalResult {
    pub outcome: WorkspaceSignalOutcome,
    /// What the user is told.
    pub message: Option<String>,
}

/// Concludes a workspace signal with the answer of the app server.
pub fn conclude_signal(
    request: &WorkspaceSignalRequest,
    response: Option<ThreadAttentionResponse>,
) -> (result: SignalResult)
    ensures
        result.outcome == outcome_of(response),
        optional_view(result.message) == if shows_indicator(request@, result.outcome) {
            Some(
                indicator_text(
                    request@.event.from,
                    queued_at(request@.event.created_at),
                    request@.event.predates_runtime,
                ),
            )
        } else {
            None
        },
{
    let outcome = signal_outcome(response);
    let message = cc_poke_indicator(request, outcome);
    SignalResult { outcome, message }
}

/// A signal that was held is never shown as received.
pub proof fn law_held_signals_are_not_shown(request: RequestData)
    ensures
        !shows_indicator(request, WorkspaceSignalOutcome::Held),
{
}

/// How long a bridge that ended waits before it is started again, in milliseconds.
pub const RESTART_DELAY_MILLIS: u64 = 1000;

/// How long it waits at a time.
pub const RESTART_POLL_DELAY_MILLIS: u64 = 100;

/// What a wait for a restart asks for.
#[derive(Clone, Copy, Debug, PartialEq, Eq, Structural)]
pub enum RestartStep {
    /// The bridge is not wanted any more.
    Stopped,
    Sleep { millis: u64 },
    Restart,
}

/// A wait for a restart.
#[derive(Debug)]
pub struct RestartWait {
    pub waited_millis: u64,
}

/// What a wait for a restart asks for next, and how long it has waited by then.
pub open spec fn restart_step(waited_millis: u64, stop: bool) -> (RestartStep, u64) {
    if stop {
        (RestartStep::Stopped, waited_millis)
    } else if waited_millis >= RESTART_DELAY_MILLIS {
        (RestartStep::Restart, waited_millis)
    } else {
        let left = RESTART_DELAY_MILLIS - waited_millis;
        let millis = if left < RESTART_POLL_DELAY_MILLIS {
            left
        } else {
            RESTART_POLL_DELAY_MILLIS as int
        };
        (RestartStep::Sleep { millis: millis as u64 }, (waited_millis + millis) as u64)
    }
}

impl RestartWait {
    /// A wait that has just begun.
    pub fn new() -> (wait: RestartWait)
        ensures
            wait.waited_millis == 0,
    {
        RestartWait { waited_millis: 0 }
    }

    /// Waits on, unless the bridge is stopped: whether it is, is asked before each sleep and once
    /// more at the end.
    pub fn step(&mut self, stop: bool) -> (step: RestartStep)
        ensures
            (step, final(self).waited_millis) == restart_step(old(self).waited_millis, stop),
    {
        if stop {
            return RestartStep::Stopped;
        }
        if self.waited_millis >= RESTART_DELAY_MILLIS {
            return RestartStep::Restart;
        }
        let left: u64 = RESTART_DELAY_MILLIS - self.waited_millis;
        let millis: u64 = if left < RESTART_POLL_DELAY_MILLIS {
            left
        } else {
            RESTART_POLL_DELAY_MILLIS
        };
        self.waited_millis = self.waited_millis + millis;
        RestartStep::Sleep { millis }
    }
}

/// Refuses a bridge program that is not given by an absolute path.
pub fn check_bridge_program(program: &[u8]) -> (result: Result<(), String>)
    ensures
        match result {
            Ok(()) => program@.len() > 0 && program@[0] == 47,
            Err(message) => !(program@.len() > 0 && program@[0] == 47) && message@
                == "OBSERVATORY_WORKSPACE_SIGNAL_BRIDGE must be an absolute path"@,
        },
{
    if program.len() > 0 && program[0] == 47 {
        Ok(())
    } else {
        Err("OBSERVATORY_WORKSPACE_SIGNAL_BRIDGE must be an absolute path".to_owned())
    }
}

} // verus!
