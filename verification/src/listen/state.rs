//! The durable state of a listener: how far the inbox was taken, which events were seen, and the
//! one attempt whose effect is not known yet.

use std::collections::VecDeque;
use vstd::prelude::*;
use vstd::string::*;

use crate::atom::{atom_fault, atom_fault_message, spell_atom_fault, validate_atom, AtomFault};
use crate::attention::{attention_kind_name, kind_name, ThreadAttentionKind};
use crate::json::text_views;
use crate::listen::event::{
    rpc_kind_of, AttentionEvent, EventData, InboxIdentity, PeriodicAttention,
};
use crate::text::same_text;

verus! {

/// The version of the listener state.
pub const LISTENER_STATE_VERSION: u8 = 2;

/// The most event ids that are remembered.
pub const MAX_SEEN_EVENT_IDS: usize = 1024;

/// An attempt to wake a thread whose effect is not confirmed.
#[derive(Debug, PartialEq, Eq)]
pub struct PendingAttempt {
    pub thread_id: String,
    pub event_id: String,
    pub kind: ThreadAttentionKind,
    pub event_offset: Option<u64>,
    pub next_event_offset: Option<u64>,
    pub attempted_at: i64,
}

/// What an attempt holds.
pub struct AttemptData {
    pub thread_id: Seq<char>,
    pub event_id: Seq<char>,
    pub kind: ThreadAttentionKind,
    pub event_offset: Option<u64>,
    pub next_event_offset: Option<u64>,
    pub attempted_at: i64,
}

impl View for PendingAttempt {
    type V = AttemptData;

    open spec fn view(&self) -> AttemptData {
        AttemptData {
            thread_id: self.thread_id@,
            event_id: self.event_id@,
            kind: self.kind,
            event_offset: self.event_offset,
            next_event_offset: self.next_event_offset,
            attempted_at: self.attempted_at,
        }
    }
}

/// What is wrong with an attempt.
#[derive(Clone, Copy, Debug, PartialEq, Eq, Structural)]
pub enum AttemptError {
    ThreadId { fault: AtomFault },
    EventId { fault: AtomFault },
    /// An attempt for an event does not say where the event stands.
    MissingOffsets,
    /// The next offset is not behind the event.
    NotAdvancing,
    /// A periodic attempt says where an event stands.
    UnexpectedOffsets,
}

/// What is reported of a faulty attempt.
pub open spec fn attempt_error_message(error: AttemptError) -> Seq<char> {
    match error {
        AttemptError::ThreadId { fault } => atom_fault_message(
            "pendingAttempt.threadId"@,
            fault,
            128,
        ),
        AttemptError::EventId { fault } => atom_fault_message(
            "pendingAttempt.eventId"@,
            fault,
            128,
        ),
        AttemptError::MissingOffsets => "event pending attempt requires event offsets"@,
        AttemptError::NotAdvancing => "event pending attempt next offset must advance"@,
        AttemptError::UnexpectedOffsets =>
        "periodic pending attempt must not contain event offsets"@,
    }
}

impl AttemptError {
    /// The message of this error.
    pub fn to_message(&self) -> (message: String)
        ensures
            message@ == attempt_error_message(*self),
    {
        match self {
            AttemptError::ThreadId { fault } => spell_atom_fault(
                "pendingAttempt.threadId",
                *fault,
                128,
            ),
            AttemptError::EventId { fault } => spell_atom_fault(
                "pendingAttempt.eventId",
                *fault,
                128,
            ),
            AttemptError::MissingOffsets => {
                "event pending attempt requires event offsets".to_owned()
            },
            AttemptError::NotAdvancing => {
                "event pending attempt next offset must advance".to_owned()
            },
            AttemptError::UnexpectedOffsets => {
                "periodic pending attempt must not contain event offsets".to_owned()
            },
        }
    }
}

/// The first fault of an attempt.
pub open spec fn attempt_fault(attempt: AttemptData) -> Option<AttemptError> {
    if atom_fault(attempt.thread_id, 128) is Some {
        Some(AttemptError::ThreadId { fault: atom_fault(attempt.thread_id, 128)->0 })
    } else if atom_fault(attempt.event_id, 128) is Some {
        Some(AttemptError::EventId { fault: atom_fault(attempt.event_id, 128)->0 })
    } else if attempt.kind == ThreadAttentionKind::Periodic {
        if attempt.event_offset is Some || attempt.next_event_offset is Some {
            Some(AttemptError::UnexpectedOffsets)
        } else {
            None
        }
    } else if attempt.event_offset is None || attempt.next_event_offset is None {
        Some(AttemptError::MissingOffsets)
    } else if attempt.next_event_offset->0 <= attempt.event_offset->0 {
        Some(AttemptError::NotAdvancing)
    } else {
        None
    }
}

/// The attempt to deliver an event to a thread.
pub open spec fn event_attempt(
    thread_id: Seq<char>,
    event_offset: u64,
    next_event_offset: u64,
    event: EventData,
    attempted_at: i64,
) -> AttemptData {
    AttemptData {
        thread_id,
        event_id: event.event_id,
        kind: rpc_kind_of(event.kind),
        event_offset: Some(event_offset),
        next_event_offset: Some(next_event_offset),
        attempted_at,
    }
}

/// The attempt of a periodic wake-up of a thread.
pub open spec fn periodic_attempt(
    thread_id: Seq<char>,
    event_id: Seq<char>,
    attempted_at: i64,
) -> AttemptData {
    AttemptData {
        thread_id,
        event_id,
        kind: ThreadAttentionKind::Periodic,
        event_offset: None,
        next_event_offset: None,
        attempted_at,
    }
}

impl PendingAttempt {
    /// The attempt to deliver an event to a thread.
    pub fn for_event(
        thread_id: &str,
        event_offset: u64,
        next_event_offset: u64,
        event: &AttentionEvent,
        attempted_at: i64,
    ) -> (attempt: PendingAttempt)
        ensures
            attempt@ == event_attempt(
                thread_id@,
                event_offset,
                next_event_offset,
                event@,
                attempted_at,
            ),
    {
        PendingAttempt {
            thread_id: thread_id.to_owned(),
            event_id: event.event_id.clone(),
            kind: event.kind.rpc_kind(),
            event_offset: Some(event_offset),
            next_event_offset: Some(next_event_offset),
            attempted_at,
        }
    }

    /// The attempt of a periodic wake-up of a thread.
    pub fn for_periodic(
        thread_id: &str,
        event: &PeriodicAttention,
        attempted_at: i64,
    ) -> (attempt: PendingAttempt)
        ensures
            attempt@ == periodic_attempt(thread_id@, event.event_id@, attempted_at),
    {
        PendingAttempt {
            thread_id: thread_id.to_owned(),
            event_id: event.event_id.clone(),
            kind: ThreadAttentionKind::Periodic,
            event_offset: None,
            next_event_offset: None,
            attempted_at,
        }
    }

    /// Checks the metadata and the offsets of an attempt.
    pub fn validate(&self) -> (result: Result<(), AttemptError>)
        ensures
            match result {
                Ok(()) => attempt_fault(self@) is None,
                Err(error) => attempt_fault(self@) == Some(error),
            },
    {
        if let Err(fault) = validate_atom(self.thread_id.as_str(), 128) {
            return Err(AttemptError::ThreadId { fault });
        }
        if let Err(fault) = validate_atom(self.event_id.as_str(), 128) {
            return Err(AttemptError::EventId { fault });
        }
        match self.kind {
            ThreadAttentionKind::Mention | ThreadAttentionKind::DirectedResponse => {
                match (self.event_offset, self.next_event_offset) {
                    (Some(event_offset), Some(next_event_offset)) => {
                        if next_event_offset <= event_offset {
                            return Err(AttemptError::NotAdvancing);
                        }
                    },
                    _ => {
                        return Err(AttemptError::MissingOffsets);
                    },
                }
            },
            ThreadAttentionKind::Periodic => {
                if self.event_offset.is_some() || self.next_event_offset.is_some() {
                    return Err(AttemptError::UnexpectedOffsets);
                }
            },
        }
        Ok(())
    }

    /// Copies an attempt.
    pub fn copy(&self) -> (copy: PendingAttempt)
        ensures
            copy@ == self@,
    {
        PendingAttempt {
            thread_id: self.thread_id.clone(),
            event_id: self.event_id.clone(),
            kind: self.kind,
            event_offset: self.event_offset,
            next_event_offset: self.next_event_offset,
            attempted_at: self.attempted_at,
        }
    }
}

/// The state of a listener.
#[derive(Debug)]
pub struct ListenerState {
    pub version: u8,
    pub event_offset: u64,
    pub inbox_identity: Option<InboxIdentity>,
    pub seen_event_ids: VecDeque<String>,
    pub last_periodic_at: Option<i64>,
    pub pending_attempt: Option<PendingAttempt>,
}

/// What the state of a listener holds.
pub struct StateData {
    pub version: u8,
    pub event_offset: u64,
    pub inbox_identity: Option<InboxIdentity>,
    pub seen_event_ids: Seq<Seq<char>>,
    pub last_periodic_at: Option<i64>,
    pub pending_attempt: Option<AttemptData>,
}

/// What an optional attempt holds.
pub open spec fn optional_attempt(attempt: Option<PendingAttempt>) -> Option<AttemptData> {
    match attempt {
        Some(a) => Some(a@),
        None => None,
    }
}

impl View for ListenerState {
    type V = StateData;

    open spec fn view(&self) -> StateData {
        StateData {
            version: self.version,
            event_offset: self.event_offset,
            inbox_identity: self.inbox_identity,
            seen_event_ids: text_views(self.seen_event_ids@),
            last_periodic_at: self.last_periodic_at,
            pending_attempt: optional_attempt(self.pending_attempt),
        }
    }
}

/// The state of a listener that has taken nothing yet.
pub open spec fn initial_state() -> StateData {
    StateData {
        version: LISTENER_STATE_VERSION,
        event_offset: 0,
        inbox_identity: None,
        seen_event_ids: Seq::empty(),
        last_periodic_at: None,
        pending_attempt: None,
    }
}

impl Default for ListenerState {
    fn default() -> (state: ListenerState)
        ensures
            state@ == initial_state(),
    {
        let state = ListenerState {
            version: LISTENER_STATE_VERSION,
            event_offset: 0,
            inbox_identity: None,
            seen_event_ids: VecDeque::new(),
            last_periodic_at: None,
            pending_attempt: None,
        };
        assert(text_views(state.seen_event_ids@) =~= Seq::<Seq<char>>::empty());
        state
    }
}

/// Why an attempt does not begin.
#[derive(Clone, Copy, Debug, PartialEq, Eq, Structural)]
pub enum BeginError {
    /// An earlier attempt is not confirmed yet.
    Pending,
    Attempt { error: AttemptError },
}

/// What was to be confirmed where nothing is pending.
#[derive(Clone, Copy, Debug, PartialEq, Eq, Structural)]
pub enum ConfirmError {
    NothingHeld,
    NothingRejected,
    NothingStarted,
    /// The attempt for an event does not say where the next one stands.
    MissingNextOffset,
}

/// What is reported of a failed confirmation.
pub open spec fn confirm_error_message(error: ConfirmError) -> Seq<char> {
    match error {
        ConfirmError::NothingHeld => "cannot confirm held without a pending attention attempt"@,
        ConfirmError::NothingRejected =>
        "cannot confirm rejection without a pending attention attempt"@,
        ConfirmError::NothingStarted =>
        "cannot confirm started without a pending attention attempt"@,
        ConfirmError::MissingNextOffset => "event pending attempt is missing its next offset"@,
    }
}

impl ConfirmError {
    /// The message of this error.
    pub fn to_message(&self) -> (message: String)
        ensures
            message@ == confirm_error_message(*self),
    {
        match self {
            ConfirmError::NothingHeld => {
                "cannot confirm held without a pending attention attempt".to_owned()
            },
            ConfirmError::NothingRejected => {
                "cannot confirm rejection without a pending attention attempt".to_owned()
            },
            ConfirmError::NothingStarted => {
                "cannot confirm started without a pending attention attempt".to_owned()
            },
            ConfirmError::MissingNextOffset => {
                "event pending attempt is missing its next offset".to_owned()
            },
        }
    }
}

/// What is reported of an attempt that blocks a restart.
pub open spec fn pending_message(attempt: AttemptData) -> Seq<char> {
    "AMBIGUOUS EFFECT HOLD: pending "@ + kind_name(attempt.kind) + " attention attempt "@
        + attempt.event_id + " for thread "@ + attempt.thread_id
        + " must be reconciled before restart"@
}

/// The event ids that are remembered once one more was seen: the latest of them.
pub open spec fn seen_with(seen: Seq<Seq<char>>, event_id: Seq<char>) -> Seq<Seq<char>> {
    let all = seen.push(event_id);
    if all.len() > MAX_SEEN_EVENT_IDS {
        all.skip(all.len() - MAX_SEEN_EVENT_IDS)
    } else {
        all
    }
}

/// The state in which an attempt is pending.
pub open spec fn with_pending(state: StateData, attempt: Option<AttemptData>) -> StateData {
    StateData { pending_attempt: attempt, ..state }
}

/// Whether an attempt may begin, and the state after that.
pub open spec fn begun(state: StateData, attempt: AttemptData) -> Result<StateData, BeginError> {
    if state.pending_attempt is Some {
        Err(BeginError::Pending)
    } else if attempt_fault(attempt) is Some {
        Err(BeginError::Attempt { error: attempt_fault(attempt)->0 })
    } else {
        Ok(with_pending(state, Some(attempt)))
    }
}

/// The state once the pending attempt has started a turn: nothing is pending; the attempt for an
/// event moves the offset behind it and has it remembered; either way the cadence starts anew.
pub open spec fn started(state: StateData) -> StateData {
    match state.pending_attempt {
        None => state,
        Some(attempt) => if attempt.kind == ThreadAttentionKind::Periodic {
            StateData {
                last_periodic_at: Some(attempt.attempted_at),
                pending_attempt: None,
                ..state
            }
        } else {
            match attempt.next_event_offset {
                None => with_pending(state, None),
                Some(next_offset) => StateData {
                    event_offset: next_offset,
                    seen_event_ids: seen_with(state.seen_event_ids, attempt.event_id),
                    last_periodic_at: Some(attempt.attempted_at),
                    pending_attempt: None,
                    ..state
                },
            }
        },
    }
}

/// Why the pending attempt cannot be confirmed as started.
pub open spec fn started_error(state: StateData) -> Option<ConfirmError> {
    match state.pending_attempt {
        None => Some(ConfirmError::NothingStarted),
        Some(attempt) => if attempt.kind != ThreadAttentionKind::Periodic
            && attempt.next_event_offset is None {
            Some(ConfirmError::MissingNextOffset)
        } else {
            None
        },
    }
}

impl ListenerState {
    /// Refuses to go on while the effect of an attempt is not known.
    pub fn require_no_pending_attempt(&self) -> (result: Result<(), String>)
        ensures
            match result {
                Ok(()) => self@.pending_attempt is None,
                Err(message) => self@.pending_attempt is Some && message@ == pending_message(
                    self@.pending_attempt->0,
                ),
            },
    {
        if let Some(attempt) = &self.pending_attempt {
            let mut message = "AMBIGUOUS EFFECT HOLD: pending ".to_owned();
            message.append(attention_kind_name(attempt.kind));
            message.append(" attention attempt ");
            message.append(attempt.event_id.as_str());
            message.append(" for thread ");
            message.append(attempt.thread_id.as_str());
            message.append(" must be reconciled before restart");
            return Err(message);
        }
        Ok(())
    }

    /// Begins an attempt. It stays pending until its effect is confirmed.
    pub fn begin_attempt(&mut self, pending_attempt: PendingAttempt) -> (result: Result<
        (),
        BeginError,
    >)
        ensures
            match result {
                Ok(()) => begun(old(self)@, pending_attempt@) == Ok::<StateData, BeginError>(
                    final(self)@,
                ),
                Err(error) => final(self)@ == old(self)@ && begun(old(self)@, pending_attempt@)
                    == Err::<StateData, BeginError>(error),
            },
    {
        if self.pending_attempt.is_some() {
            return Err(BeginError::Pending);
        }
        if let Err(error) = pending_attempt.validate() {
            return Err(BeginError::Attempt { error });
        }
        self.pending_attempt = Some(pending_attempt);
        Ok(())
    }

    /// Confirms that the thread was busy: the attempt had no effect and may be made again.
    pub fn confirm_held(&mut self) -> (result: Result<PendingAttempt, ConfirmError>)
        ensures
            final(self)@ == with_pending(old(self)@, None),
            match result {
                Ok(attempt) => old(self)@.pending_attempt == Some(attempt@),
                Err(error) => old(self)@.pending_attempt is None && error
                    == ConfirmError::NothingHeld,
            },
    {
        match self.pending_attempt.take() {
            Some(attempt) => Ok(attempt),
            None => Err(ConfirmError::NothingHeld),
        }
    }

    /// Confirms that the request was refused before it had an effect.
    pub fn confirm_rejected(&mut self) -> (result: Result<PendingAttempt, ConfirmError>)
        ensures
            final(self)@ == with_pending(old(self)@, None),
            match result {
                Ok(attempt) => old(self)@.pending_attempt == Some(attempt@),
                Err(error) => old(self)@.pending_attempt is None && error
                    == ConfirmError::NothingRejected,
            },
    {
        match self.pending_attempt.take() {
            Some(attempt) => Ok(attempt),
            None => Err(ConfirmError::NothingRejected),
        }
    }

    /// Confirms that the attempt started a turn.
    pub fn confirm_started(&mut self) -> (result: Result<PendingAttempt, ConfirmError>)
        ensures
            final(self)@ == started(old(self)@),
            match result {
                Ok(attempt) => started_error(old(self)@) is None && old(self)@.pending_attempt
                    == Some(attempt@),
                Err(error) => started_error(old(self)@) == Some(error),
            },
    {
        let attempt = match self.pending_attempt.take() {
            Some(attempt) => attempt,
            None => {
                return Err(ConfirmError::NothingStarted);
            },
        };
        match attempt.kind {
            ThreadAttentionKind::Mention | ThreadAttentionKind::DirectedResponse => {
                let next_event_offset: u64 = match attempt.next_event_offset {
                    Some(next_event_offset) => next_event_offset,
                    None => {
                        return Err(ConfirmError::MissingNextOffset);
                    },
                };
                self.event_offset = next_event_offset;
                self.mark_seen(attempt.event_id.clone());
                self.last_periodic_at = Some(attempt.attempted_at);
            },
            ThreadAttentionKind::Periodic => {
                self.last_periodic_at = Some(attempt.attempted_at);
            },
        }
        Ok(attempt)
    }

    /// Tells whether an event was seen, as far as that is remembered.
    pub fn contains(&self, event_id: &str) -> (found: bool)
        ensures
            found == self@.seen_event_ids.contains(event_id@),
    {
        let mut i: usize = 0;
        while i < self.seen_event_ids.len()
            invariant
                i <= self.seen_event_ids@.len(),
                forall|j: int| 0 <= j < i ==> #[trigger] self@.seen_event_ids[j] != event_id@,
            decreases self.seen_event_ids@.len() - i,
        {
            if same_text(self.seen_event_ids[i].as_str(), event_id) {
                assert(self@.seen_event_ids[i as int] == event_id@);
                return true;
            }
            i += 1;
        }
        false
    }

    /// Remembers an event, and forgets the oldest where there are too many.
    pub fn mark_seen(&mut self, event_id: String)
        ensures
            final(self)@ == (StateData {
                seen_event_ids: seen_with(old(self)@.seen_event_ids, event_id@),
                ..old(self)@
            }),
    {
        self.seen_event_ids.push_back(event_id);
        let ghost all = self.seen_event_ids@;
        let ghost before = old(self)@.seen_event_ids;
        proof {
            assert(text_views(all) =~= before.push(event_id@));
            assert(all.skip(0) =~= all);
        }
        let ghost mut dropped: int = 0;
        while self.seen_event_ids.len() > MAX_SEEN_EVENT_IDS
            invariant
                0 <= dropped <= all.len(),
                self.seen_event_ids@ == all.skip(dropped),
                dropped > 0 ==> all.len() - dropped >= MAX_SEEN_EVENT_IDS,
                self.version == old(self).version,
                self.event_offset == old(self).event_offset,
                self.inbox_identity == old(self).inbox_identity,
                self.last_periodic_at == old(self).last_periodic_at,
                self.pending_attempt == old(self).pending_attempt,
            decreases self.seen_event_ids@.len(),
        {
            let _ = self.seen_event_ids.pop_front();
            proof {
                assert(all.skip(dropped).subrange(1, all.skip(dropped).len() as int) =~= all.skip(
                    dropped + 1,
                ));
                dropped = dropped + 1;
            }
        }
        proof {
            assert(text_views(all.skip(dropped)) =~= text_views(all).skip(dropped));
            assert(text_views(all).skip(0) =~= text_views(all));
        }
    }
}

/// An attempt blocks every further one, until its effect is confirmed.
pub proof fn law_pending_attempt_blocks(state: StateData, first: AttemptData, second: AttemptData)
    requires
        begun(state, first) is Ok,
    ensures
        begun(state, first)->Ok_0.pending_attempt == Some(first),
        begun(begun(state, first)->Ok_0, second) == Err::<StateData, BeginError>(
            BeginError::Pending,
        ),
{
}

/// An attempt that was held or rejected leaves the state as it was before the attempt.
pub proof fn law_unconfirmed_effect_changes_nothing(state: StateData, attempt: AttemptData)
    requires
        begun(state, attempt) is Ok,
    ensures
        with_pending(begun(state, attempt)->Ok_0, None) == state,
{
}

/// A started event moves the offset behind itself and is remembered; a second confirmation is
/// refused and changes nothing.
pub proof fn law_started_advances_once(state: StateData, attempt: AttemptData)
    requires
        begun(state, attempt) is Ok,
        attempt.kind != ThreadAttentionKind::Periodic,
    ensures
        ({
            let after = started(begun(state, attempt)->Ok_0);
            &&& after.event_offset == attempt.next_event_offset->0
            &&& after.event_offset > attempt.event_offset->0
            &&& after.seen_event_ids.contains(attempt.event_id)
            &&& after.last_periodic_at == Some(attempt.attempted_at)
            &&& after.pending_attempt is None
            &&& started_error(after) == Some(ConfirmError::NothingStarted)
            &&& started(after) == after
        }),
{
    let after = started(begun(state, attempt)->Ok_0);
    let all = state.seen_event_ids.push(attempt.event_id);
    assert(after.seen_event_ids.last() == all.last());
}

/// A started periodic wake-up touches neither the offset nor the remembered events.
pub proof fn law_started_periodic_keeps_the_inbox(state: StateData, attempt: AttemptData)
    requires
        begun(state, attempt) is Ok,
        attempt.kind == ThreadAttentionKind::Periodic,
    ensures
        ({
            let after = started(begun(state, attempt)->Ok_0);
            &&& after.event_offset == state.event_offset
            &&& after.inbox_identity == state.inbox_identity
            &&& after.seen_event_ids == state.seen_event_ids
            &&& after.last_periodic_at == Some(attempt.attempted_at)
            &&& after.pending_attempt is None
        }),
{
}

/// No more event ids are remembered than there is room for, and the latest always is.
pub proof fn law_seen_ids_are_bounded(seen: Seq<Seq<char>>, event_id: Seq<char>)
    ensures
        seen_with(seen, event_id).len() <= MAX_SEEN_EVENT_IDS,
        seen_with(seen, event_id).last() == event_id,
        seen_with(seen, event_id).contains(event_id),
{
    let all = seen.push(event_id);
    let now = seen_with(seen, event_id);
    assert(now.last() == all.last());
    assert(now[now.len() - 1] == event_id);
}

} // verus!
