//! Typed attention: the closed metadata with which a thread is woken, and the answers to it.

use vstd::prelude::*;

use crate::text::optional_view;

verus! {

/// Why a thread is asked for attention.
#[derive(Clone, Copy, Debug, PartialEq, Eq, Structural)]
pub enum ThreadAttentionKind {
    Mention,
    DirectedResponse,
    Periodic,
}

/// One request for attention. It carries metadata only, never prompt text.
#[derive(Debug, PartialEq, Eq)]
pub struct ThreadAttentionEvent {
    pub version: u8,
    pub event_id: String,
    pub kind: ThreadAttentionKind,
    pub source_class: String,
    pub source_ref: String,
    pub reference: Option<String>,
}

/// What a request for attention holds.
pub struct AttentionMetadata {
    pub version: u8,
    pub event_id: Seq<char>,
    pub kind: ThreadAttentionKind,
    pub source_class: Seq<char>,
    pub source_ref: Seq<char>,
    pub reference: Option<Seq<char>>,
}

impl View for ThreadAttentionEvent {
    type V = AttentionMetadata;

    open spec fn view(&self) -> AttentionMetadata {
        AttentionMetadata {
            version: self.version,
            event_id: self.event_id@,
            kind: self.kind,
            source_class: self.source_class@,
            source_ref: self.source_ref@,
            reference: optional_view(self.reference),
        }
    }
}

/// Why a thread did not take a request for attention up.
#[derive(Clone, Copy, Debug, PartialEq, Eq, Structural)]
pub enum ThreadAttentionHeldReason {
    PendingTriggerTurn,
    PlanMode,
    Busy,
}

/// What the app server answers to a request for attention.
#[derive(Clone, Copy, Debug, PartialEq, Eq, Structural)]
pub enum ThreadAttentionResponse {
    Started,
    Held { reason: ThreadAttentionHeldReason },
}

/// The name under which a held reason is reported to the sender.
pub open spec fn held_reason(reason: ThreadAttentionHeldReason) -> Seq<char> {
    match reason {
        ThreadAttentionHeldReason::PendingTriggerTurn => "pendingOperatorTurn"@,
        ThreadAttentionHeldReason::PlanMode => "planMode"@,
        ThreadAttentionHeldReason::Busy => "busy"@,
    }
}

/// Names a held reason to the sender.
pub fn held_reason_name(reason: ThreadAttentionHeldReason) -> (name: &'static str)
    ensures
        name@ == held_reason(reason),
{
    match reason {
        ThreadAttentionHeldReason::PendingTriggerTurn => "pendingOperatorTurn",
        ThreadAttentionHeldReason::PlanMode => "planMode",
        ThreadAttentionHeldReason::Busy => "busy",
    }
}

/// The name of a kind of attention.
pub open spec fn kind_name(kind: ThreadAttentionKind) -> Seq<char> {
    match kind {
        ThreadAttentionKind::Mention => "mention"@,
        ThreadAttentionKind::DirectedResponse => "directedResponse"@,
        ThreadAttentionKind::Periodic => "periodic"@,
    }
}

/// Names a kind of attention.
pub fn attention_kind_name(kind: ThreadAttentionKind) -> (name: &'static str)
    ensures
        name@ == kind_name(kind),
{
    match kind {
        ThreadAttentionKind::Mention => "mention",
        ThreadAttentionKind::DirectedResponse => "directedResponse",
        ThreadAttentionKind::Periodic => "periodic",
    }
}

} // verus!
