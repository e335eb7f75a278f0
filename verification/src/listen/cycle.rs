//! The cycles of a listener: on each tick it takes what the inbox holds, or else wakes the thread
//! at its cadence. The listener decides; what it decides is carried out around it, and what came
//! of it is handed back.

use vstd::prelude::*;
use vstd::string::*;

use crate::attention::{AttentionMetadata, ThreadAttentionEvent, ThreadAttentionHeldReason};
use crate::json::json_line;
use crate::listen::command::{
    period_fault, ListenCommand, MAX_PERIODIC_SECONDS, MIN_PERIODIC_SECONDS,
};
use crate::listen::event::{
    event_error_message, periodic_event_id, periodic_rpc_event, rpc_event_of, InboxIdentity,
    PeriodicAttention,
};
use crate::listen::inbox::{hold_message, EventRecord, InboxHold, InboxRead, RecordData};
use crate::listen::report::{
    ambiguous_report, ambiguous_tree, bad_line_report, bad_line_tree, duplicate_report,
    duplicate_tree, held_report, held_tree, listening_report, listening_tree, path_view,
    pending_report, pending_tree, refused_report, refused_tree, started_report, started_tree,
};
use crate::listen::state::{
    attempt_error_message, attempt_fault, event_attempt, law_seen_ids_are_bounded, pending_message,
    periodic_attempt, started, with_pending, AttemptData, AttemptError, BeginError, ListenerState,
    PendingAttempt, StateData,
};
use crate::listen::state_file::state_file;

verus! {

/// How long a held request waits for its next try, in nanoseconds.
pub const HELD_EVENT_RETRY_DELAY: u64 = 1_000_000_000;

/// What a pass over the inbox came to.
#[derive(Clone, Copy, Debug, PartialEq, Eq, Structural)]
pub enum InboxCycleOutcome {
    NoEvent,
    Started,
    Held,
}

/// What the check of the cadence came to.
#[derive(Clone, Copy, Debug, PartialEq, Eq, Structural)]
pub enum PeriodicCycleOutcome {
    NotDue,
    Started,
    Held,
}

impl InboxCycleOutcome {
    /// Tells whether the cadence is looked at: only where the inbox holds no event.
    pub fn permits_periodic(self) -> (permits: bool)
        ensures
            permits == (self == InboxCycleOutcome::NoEvent),
    {
        match self {
            InboxCycleOutcome::NoEvent => true,
            _ => false,
        }
    }
}

/// A retry is still put off.
pub open spec fn deferred(deadline: Option<u64>, now: u64) -> bool {
    deadline is Some && now < deadline->0
}

/// Tells whether a retry is still put off.
pub fn held_retry_is_deferred(deadline: Option<u64>, now: u64) -> (put_off: bool)
    ensures
        put_off == deferred(deadline, now),
{
    match deadline {
        Some(deadline) => now < deadline,
        None => false,
    }
}

/// When a request that is held now may be made again.
pub open spec fn retry_deadline(now: u64) -> u64 {
    if now + HELD_EVENT_RETRY_DELAY <= u64::MAX {
        (now + HELD_EVENT_RETRY_DELAY) as u64
    } else {
        u64::MAX
    }
}

/// When a pass over the inbox is tried again.
pub fn event_retry_deadline(outcome: InboxCycleOutcome, now: u64) -> (deadline: Option<u64>)
    ensures
        deadline == if outcome == InboxCycleOutcome::Held {
            Some(retry_deadline(now))
        } else {
            None
        },
{
    match outcome {
        InboxCycleOutcome::Held => Some(now.saturating_add(HELD_EVENT_RETRY_DELAY)),
        _ => None,
    }
}

/// When the cadence is tried again.
pub fn periodic_retry_deadline(outcome: PeriodicCycleOutcome, now: u64) -> (deadline: Option<u64>)
    ensures
        deadline == if outcome == PeriodicCycleOutcome::Held {
            Some(retry_deadline(now))
        } else {
            None
        },
{
    match outcome {
        PeriodicCycleOutcome::Held => Some(now.saturating_add(HELD_EVENT_RETRY_DELAY)),
        _ => None,
    }
}

/// The time of a decision: wall clock seconds, and nanoseconds of a clock that never goes back.
#[derive(Clone, Copy, Debug, PartialEq, Eq, Structural)]
pub struct Clock {
    pub wall: i64,
    pub instant: u64,
}

/// What a listener waits for.
#[derive(Clone, Copy, Debug, PartialEq, Eq, Structural)]
pub enum Phase {
    /// The next tick.
    Idle,
    /// A read of the inbox.
    Reading,
    /// The answer to a request.
    Requesting { periodic: bool },
}

/// What the app server answers to a request.
#[derive(Debug)]
pub enum Reply {
    Started,
    Held { reason: ThreadAttentionHeldReason },
    /// The server refused the request before it had an effect.
    Refused { code: i64, message: String },
    /// The request was lost, or its answer cannot be read.
    Unknown { error: String },
}

/// What is to be done, in this order.
#[derive(Debug, PartialEq, Eq)]
pub enum Effect {
    /// Print a line.
    Print { line: String },
    /// Replace the state file.
    Save { file: String },
}

/// What an effect holds.
pub enum EffectData {
    Print { line: Seq<char> },
    Save { file: Seq<char> },
}

impl View for Effect {
    type V = EffectData;

    open spec fn view(&self) -> EffectData {
        match self {
            Effect::Print { line } => EffectData::Print { line: line@ },
            Effect::Save { file } => EffectData::Save { file: file@ },
        }
    }
}

/// What some effects hold.
pub open spec fn effect_views(effects: Seq<Effect>) -> Seq<EffectData> {
    Seq::new(effects.len(), |i: int| effects[i]@)
}

/// Why a listener stops before its time.
#[derive(Debug, PartialEq, Eq)]
pub enum Failure {
    Inbox { hold: InboxHold },
    Attempt { error: AttemptError },
    /// The server refused the request for an event.
    Refused { event_id: String },
    /// The effect of the request for an event is not known.
    Ambiguous { event_id: String },
}

/// What a failure holds.
pub enum FailureData {
    Inbox { hold: InboxHold },
    Attempt { error: AttemptError },
    Refused { event_id: Seq<char> },
    Ambiguous { event_id: Seq<char> },
}

impl View for Failure {
    type V = FailureData;

    open spec fn view(&self) -> FailureData {
        match self {
            Failure::Inbox { hold } => FailureData::Inbox { hold: *hold },
            Failure::Attempt { error } => FailureData::Attempt { error: *error },
            Failure::Refused { event_id } => FailureData::Refused { event_id: event_id@ },
            Failure::Ambiguous { event_id } => FailureData::Ambiguous { event_id: event_id@ },
        }
    }
}

/// What is reported of a failure of a listener with its inbox at a path.
pub open spec fn failure_message(failure: FailureData, events_path: Seq<char>) -> Seq<char> {
    match failure {
        FailureData::Inbox { hold } => hold_message(hold, events_path),
        FailureData::Attempt { error } => attempt_error_message(error),
        FailureData::Refused { event_id } =>
        "attention request rejected before effect for event "@ + event_id,
        FailureData::Ambiguous { event_id } =>
        "AMBIGUOUS EFFECT HOLD: attention admission for event "@ + event_id
            + " is unknown; pending attempt retained"@,
    }
}

impl Failure {
    /// The message of this failure of a listener with its inbox at a path.
    pub fn to_message(&self, events_path: &str) -> (message: String)
        ensures
            message@ == failure_message(self@, events_path@),
    {
        match self {
            Failure::Inbox { hold } => hold.to_message(events_path),
            Failure::Attempt { error } => error.to_message(),
            Failure::Refused { event_id } => {
                let mut message = "attention request rejected before effect for event ".to_owned();
                message.append(event_id.as_str());
                message
            },
            Failure::Ambiguous { event_id } => {
                let mut message = "AMBIGUOUS EFFECT HOLD: attention admission for event ".to_owned();
                message.append(event_id.as_str());
                message.append(" is unknown; pending attempt retained");
                message
            },
        }
    }
}

/// What follows once the effects were carried out.
#[derive(Debug, PartialEq, Eq)]
pub enum Next {
    /// Wait for the next tick.
    Wait,
    /// Read the inbox behind an offset.
    ReadInbox { offset: u64, expected: Option<InboxIdentity> },
    /// Ask for the attention of a thread.
    Request { thread_id: String, attention: ThreadAttentionEvent },
    /// The listener has done its one cycle.
    Stop,
    Fail { failure: Failure },
}

/// What follows, in terms of what it holds.
pub enum NextData {
    Wait,
    ReadInbox { offset: u64, expected: Option<InboxIdentity> },
    Request { thread_id: Seq<char>, attention: AttentionMetadata },
    Stop,
    Fail { failure: FailureData },
}

impl View for Next {
    type V = NextData;

    open spec fn view(&self) -> NextData {
        match self {
            Next::Wait => NextData::Wait,
            Next::ReadInbox { offset, expected } => NextData::ReadInbox {
                offset: *offset,
                expected: *expected,
            },
            Next::Request { thread_id, attention } => NextData::Request {
                thread_id: thread_id@,
                attention: attention@,
            },
            Next::Stop => NextData::Stop,
            Next::Fail { failure } => NextData::Fail { failure: failure@ },
        }
    }
}

/// A decision of a listener.
#[derive(Debug, PartialEq, Eq)]
pub struct Plan {
    pub effects: Vec<Effect>,
    pub next: Next,
}

/// What a decision holds.
pub struct PlanData {
    pub effects: Seq<EffectData>,
    pub next: NextData,
}

impl View for Plan {
    type V = PlanData;

    open spec fn view(&self) -> PlanData {
        PlanData { effects: effect_views(self.effects@), next: self.next@ }
    }
}

/// A running listener.
#[derive(Debug)]
pub struct Listener {
    thread_id: String,
    has_events: bool,
    periodic_seconds: Option<u64>,
    once: bool,
    state: ListenerState,
    held_event_retry_not_before: Option<u64>,
    held_periodic_retry_not_before: Option<u64>,
    phase: Phase,
}

/// What a running listener holds.
pub struct ListenerData {
    pub thread_id: Seq<char>,
    pub has_events: bool,
    pub periodic_seconds: Option<u64>,
    pub once: bool,
    pub state: StateData,
    pub held_event_retry_not_before: Option<u64>,
    pub held_periodic_retry_not_before: Option<u64>,
    pub phase: Phase,
}

impl View for Listener {
    type V = ListenerData;

    closed spec fn view(&self) -> ListenerData {
        ListenerData {
            thread_id: self.thread_id@,
            has_events: self.has_events,
            periodic_seconds: self.periodic_seconds,
            once: self.once,
            state: self.state@,
            held_event_retry_not_before: self.held_event_retry_not_before,
            held_periodic_retry_not_before: self.held_periodic_retry_not_before,
            phase: self.phase,
        }
    }
}

impl ListenerData {
    /// An attempt is pending exactly while its answer is awaited, it is a sound one, and the
    /// cadence is one that was accepted.
    pub open spec fn sound(&self) -> bool {
        &&& self.periodic_seconds matches Some(seconds) ==> MIN_PERIODIC_SECONDS <= seconds
            <= MAX_PERIODIC_SECONDS
        &&& self.phase is Requesting <==> self.state.pending_attempt is Some
        &&& self.state.pending_attempt matches Some(attempt) ==> attempt_fault(attempt) is None
    }
}

/// What a listener goes on with once a cycle is over.
pub open spec fn cycle_over(listener: ListenerData, effects: Seq<EffectData>) -> (
    ListenerData,
    PlanData,
) {
    (
        ListenerData { phase: Phase::Idle, ..listener },
        PlanData {
            effects,
            next: if listener.once {
                NextData::Stop
            } else {
                NextData::Wait
            },
        },
    )
}

/// The cadence has passed since the thread was last woken, or since now where that is not known.
pub open spec fn periodic_due(last: Option<i64>, now: i64, seconds: u64) -> bool {
    match last {
        Some(at) => now - at >= seconds,
        None => 0 >= seconds,
    }
}

/// The attempt begins, is saved, and its request is made; or it is not sound and does not begin.
pub open spec fn attempt_made(
    listener: ListenerData,
    effects: Seq<EffectData>,
    attempt: AttemptData,
    attention: AttentionMetadata,
    periodic: bool,
) -> (ListenerData, PlanData) {
    match attempt_fault(attempt) {
        None => {
            let state = with_pending(listener.state, Some(attempt));
            (
                ListenerData { state, phase: Phase::Requesting { periodic }, ..listener },
                PlanData {
                    effects: effects.push(EffectData::Save { file: state_file(state) }),
                    next: NextData::Request { thread_id: listener.thread_id, attention },
                },
            )
        },
        Some(error) => (
            ListenerData { phase: Phase::Idle, ..listener },
            PlanData {
                effects,
                next: NextData::Fail { failure: FailureData::Attempt { error } },
            },
        ),
    }
}

/// The check of the cadence, where the inbox holds no event.
pub open spec fn cadence_checked(
    listener: ListenerData,
    effects: Seq<EffectData>,
    clock: Clock,
) -> (ListenerData, PlanData) {
    match listener.periodic_seconds {
        None => cycle_over(listener, effects),
        Some(seconds) => if deferred(listener.held_periodic_retry_not_before, clock.instant) {
            cycle_over(listener, effects)
        } else if !periodic_due(listener.state.last_periodic_at, clock.wall, seconds) {
            cycle_over(
                ListenerData { held_periodic_retry_not_before: None, ..listener },
                effects,
            )
        } else {
            let event_id = periodic_event_id(clock.wall as int / seconds as int);
            attempt_made(
                listener,
                effects,
                periodic_attempt(listener.thread_id, event_id, clock.wall),
                periodic_rpc_event(event_id),
                true,
            )
        },
    }
}

/// What a tick comes to.
pub open spec fn ticked(listener: ListenerData, clock: Clock) -> (ListenerData, PlanData) {
    if !listener.has_events {
        cadence_checked(listener, Seq::empty(), clock)
    } else if deferred(listener.held_event_retry_not_before, clock.instant) {
        cycle_over(listener, Seq::empty())
    } else {
        (
            ListenerData { phase: Phase::Reading, ..listener },
            PlanData {
                effects: Seq::empty(),
                next: NextData::ReadInbox {
                    offset: listener.state.event_offset,
                    expected: listener.state.inbox_identity,
                },
            },
        )
    }
}

/// The line at the offset is passed over, with a report, and the inbox is read again.
pub open spec fn line_passed(
    listener: ListenerData,
    effects: Seq<EffectData>,
    line: Seq<char>,
    next_offset: u64,
) -> (ListenerData, PlanData) {
    let state = StateData { event_offset: next_offset, ..listener.state };
    (
        ListenerData { state, phase: Phase::Reading, ..listener },
        PlanData {
            effects: effects.push(EffectData::Print { line }).push(
                EffectData::Save { file: state_file(state) },
            ),
            next: NextData::ReadInbox { offset: next_offset, expected: state.inbox_identity },
        },
    )
}

/// The listener once it is bound to the inbox that it read, and what that asks for.
pub open spec fn bound(listener: ListenerData, identity: InboxIdentity) -> (
    ListenerData,
    Seq<EffectData>,
) {
    if listener.state.inbox_identity is None {
        let state = StateData { inbox_identity: Some(identity), ..listener.state };
        (
            ListenerData { state, ..listener },
            seq![EffectData::Save { file: state_file(state) }],
        )
    } else {
        (listener, Seq::empty())
    }
}

/// What one read of the inbox comes to.
pub open spec fn inbox_taken(
    listener: ListenerData,
    identity: InboxIdentity,
    record: Option<RecordData>,
    clock: Clock,
) -> (ListenerData, PlanData) {
    let (now, effects) = bound(listener, identity);
    match record {
        None => cadence_checked(
            ListenerData { held_event_retry_not_before: None, ..now },
            effects,
            clock,
        ),
        Some(r) => match r.event {
            Err(error) => line_passed(
                now,
                effects,
                json_line(bad_line_tree(r.event_offset, event_error_message(error))),
                r.next_offset,
            ),
            Ok(event) => if now.state.seen_event_ids.contains(event.event_id) {
                line_passed(now, effects, json_line(duplicate_tree(event.event_id)), r.next_offset)
            } else {
                attempt_made(
                    now,
                    effects,
                    event_attempt(
                        now.thread_id,
                        r.event_offset,
                        r.next_offset,
                        event,
                        clock.wall,
                    ),
                    rpc_event_of(event),
                    false,
                )
            },
        },
    }
}

/// A hold on the inbox stops the listener and changes nothing of its state.
pub open spec fn inbox_refused(listener: ListenerData, hold: InboxHold) -> (ListenerData, PlanData) {
    (
        ListenerData { phase: Phase::Idle, ..listener },
        PlanData {
            effects: Seq::empty(),
            next: NextData::Fail { failure: FailureData::Inbox { hold } },
        },
    )
}

/// What the answer to the request for the pending attempt comes to.
pub open spec fn answered(listener: ListenerData, reply: Reply, clock: Clock) -> (
    ListenerData,
    PlanData,
) {
    let periodic = listener.phase == (Phase::Requesting { periodic: true });
    let attempt = listener.state.pending_attempt->0;
    match reply {
        Reply::Started => {
            let state = started(listener.state);
            let now = ListenerData { state, ..listener };
            cycle_over(
                if periodic {
                    ListenerData { held_periodic_retry_not_before: None, ..now }
                } else {
                    ListenerData { held_event_retry_not_before: None, ..now }
                },
                seq![
                    EffectData::Save { file: state_file(state) },
                    EffectData::Print {
                        line: json_line(started_tree(attempt, listener.thread_id)),
                    },
                ],
            )
        },
        Reply::Held { reason } => {
            let state = with_pending(listener.state, None);
            let now = ListenerData { state, ..listener };
            let deadline = Some(retry_deadline(clock.instant));
            cycle_over(
                if periodic {
                    ListenerData { held_periodic_retry_not_before: deadline, ..now }
                } else {
                    ListenerData { held_event_retry_not_before: deadline, ..now }
                },
                seq![
                    EffectData::Save { file: state_file(state) },
                    EffectData::Print {
                        line: json_line(held_tree(attempt, listener.thread_id, reason)),
                    },
                ],
            )
        },
        Reply::Refused { code, message } => {
            let state = with_pending(listener.state, None);
            (
                ListenerData { state, phase: Phase::Idle, ..listener },
                PlanData {
                    effects: seq![
                        EffectData::Save { file: state_file(state) },
                        EffectData::Print { line: json_line(refused_tree(attempt, code, message@)) },
                    ],
                    next: NextData::Fail {
                        failure: FailureData::Refused { event_id: attempt.event_id },
                    },
                },
            )
        },
        Reply::Unknown { error } => (
            listener,
            PlanData {
                effects: seq![
                    EffectData::Print { line: json_line(ambiguous_tree(attempt, error@)) },
                ],
                next: NextData::Fail {
                    failure: FailureData::Ambiguous { event_id: attempt.event_id },
                },
            },
        ),
    }
}

/// What an optional line of the inbox holds.
pub open spec fn optional_record(record: Option<EventRecord>) -> Option<RecordData> {
    match record {
        Some(r) => Some(r@),
        None => None,
    }
}

/// A listener does not start while the effect of an earlier attempt is not known.
#[derive(Debug)]
pub struct Blocked {
    pub line: String,
    pub message: String,
}

/// The listener for a command and a state that was taken up.
pub open spec fn fresh_listener(command: ListenCommand, state: StateData) -> ListenerData {
    ListenerData {
        thread_id: command.thread_id@,
        has_events: command.events is Some,
        periodic_seconds: command.periodic_seconds,
        once: command.once,
        state,
        held_event_retry_not_before: None,
        held_periodic_retry_not_before: None,
        phase: Phase::Idle,
    }
}

/// The state once the listener is subscribed: the cadence starts now where it never did.
pub open spec fn cadence_started(listener: ListenerData, now: i64) -> StateData {
    if listener.periodic_seconds is Some && listener.state.last_periodic_at is None {
        StateData { last_periodic_at: Some(now), ..listener.state }
    } else {
        listener.state
    }
}

impl Listener {
    /// A listener for a checked command, with the state that was taken up; none where an earlier
    /// attempt is still pending.
    pub fn new(command: &ListenCommand, state: ListenerState) -> (result: Result<
        Listener,
        Blocked,
    >)
        requires
            period_fault(command.periodic_seconds) is None,
        ensures
            match result {
                Ok(listener) => {
                    &&& state@.pending_attempt is None
                    &&& listener@ == fresh_listener(*command, state@)
                    &&& listener@.sound()
                },
                Err(blocked) => {
                    &&& state@.pending_attempt is Some
                    &&& blocked.line@ == json_line(pending_tree(state@.pending_attempt->0))
                    &&& blocked.message@ == pending_message(state@.pending_attempt->0)
                },
            },
    {
        if let Some(attempt) = &state.pending_attempt {
            let line = pending_report(attempt);
            if let Err(message) = state.require_no_pending_attempt() {
                return Err(Blocked { line, message });
            }
        }
        Ok(
            Listener {
                thread_id: command.thread_id.clone(),
                has_events: command.events.is_some(),
                periodic_seconds: command.periodic_seconds,
                once: command.once,
                state,
                held_event_retry_not_before: None,
                held_periodic_retry_not_before: None,
                phase: Phase::Idle,
            },
        )
    }

    /// Takes up work once the listener is subscribed.
    pub fn subscribed(
        &mut self,
        now: i64,
        events_path: Option<&str>,
        state_path: &str,
    ) -> (effects: Vec<Effect>)
        requires
            old(self)@.sound(),
            old(self)@.phase is Idle,
        ensures
            final(self)@ == (ListenerData {
                state: cadence_started(old(self)@, now),
                ..old(self)@
            }),
            final(self)@.sound(),
            effect_views(effects@) == (if final(self)@.state == old(self)@.state {
                Seq::empty()
            } else {
                seq![EffectData::Save { file: state_file(final(self)@.state) }]
            }).push(
                EffectData::Print {
                    line: json_line(
                        listening_tree(
                            old(self)@.thread_id,
                            path_view(events_path),
                            state_path@,
                            old(self)@.periodic_seconds,
                        ),
                    ),
                },
            ),
    {
        let mut effects: Vec<Effect> = Vec::new();
        if self.periodic_seconds.is_some() && self.state.last_periodic_at.is_none() {
            self.state.last_periodic_at = Some(now);
            effects.push(Effect::Save { file: self.state.to_file() });
        }
        let ghost saved = effects@;
        effects.push(
            Effect::Print {
                line: listening_report(
                    self.thread_id.as_str(),
                    events_path,
                    state_path,
                    self.periodic_seconds,
                ),
            },
        );
        assert(effect_views(effects@) =~= effect_views(saved).push(effects@.last()@));
        assert(effect_views(saved) =~= if self@.state == old(self)@.state {
            Seq::empty()
        } else {
            seq![EffectData::Save { file: state_file(self@.state) }]
        });
        effects
    }

    /// What the listener waits for.
    pub fn phase(&self) -> (phase: Phase)
        ensures
            phase == self@.phase,
    {
        self.phase
    }

    /// The state of the listener.
    pub fn state(&self) -> (state: &ListenerState)
        ensures
            state@ == self@.state,
    {
        &self.state
    }

    /// Ends a cycle.
    fn end_cycle(&mut self, effects: Vec<Effect>) -> (plan: Plan)
        requires
            old(self)@.state.pending_attempt is None,
            (ListenerData { phase: Phase::Idle, ..old(self)@ }).sound(),
        ensures
            (final(self)@, plan@) == cycle_over(old(self)@, effect_views(effects@)),
            final(self)@.sound(),
    {
        self.phase = Phase::Idle;
        let next = if self.once {
            Next::Stop
        } else {
            Next::Wait
        };
        Plan { effects, next }
    }

    /// Begins an attempt, saves it, and makes its request.
    fn make_attempt(
        &mut self,
        effects: Vec<Effect>,
        attempt: PendingAttempt,
        attention: ThreadAttentionEvent,
        periodic: bool,
    ) -> (plan: Plan)
        requires
            old(self)@.state.pending_attempt is None,
            (ListenerData { phase: Phase::Idle, ..old(self)@ }).sound(),
        ensures
            (final(self)@, plan@) == attempt_made(
                old(self)@,
                effect_views(effects@),
                attempt@,
                attention@,
                periodic,
            ),
            final(self)@.sound(),
    {
        let mut effects = effects;
        match self.state.begin_attempt(attempt) {
            Ok(()) => {
                self.phase = Phase::Requesting { periodic };
                let ghost before = effects@;
                effects.push(Effect::Save { file: self.state.to_file() });
                assert(effect_views(effects@) =~= effect_views(before).push(effects@.last()@));
                Plan {
                    effects,
                    next: Next::Request { thread_id: self.thread_id.clone(), attention },
                }
            },
            Err(BeginError::Attempt { error }) => {
                self.phase = Phase::Idle;
                Plan { effects, next: Next::Fail { failure: Failure::Attempt { error } } }
            },
            Err(BeginError::Pending) => {
                assert(false);
                Plan { effects, next: Next::Wait }
            },
        }
    }

    /// Looks at the cadence, where the inbox holds no event.
    fn check_cadence(&mut self, effects: Vec<Effect>, clock: Clock) -> (plan: Plan)
        requires
            old(self)@.state.pending_attempt is None,
            (ListenerData { phase: Phase::Idle, ..old(self)@ }).sound(),
        ensures
            (final(self)@, plan@) == cadence_checked(
                old(self)@,
                effect_views(effects@),
                clock,
            ),
            final(self)@.sound(),
    {
        let seconds: u64 = match self.periodic_seconds {
            Some(seconds) => seconds,
            None => {
                return self.end_cycle(effects);
            },
        };
        if held_retry_is_deferred(self.held_periodic_retry_not_before, clock.instant) {
            return self.end_cycle(effects);
        }
        let last_periodic_at: i64 = match self.state.last_periodic_at {
            Some(at) => at,
            None => clock.wall,
        };
        if (clock.wall as i128) - (last_periodic_at as i128) < seconds as i128 {
            self.held_periodic_retry_not_before = periodic_retry_deadline(
                PeriodicCycleOutcome::NotDue,
                clock.instant,
            );
            return self.end_cycle(effects);
        }
        let slot: i64 = periodic_slot(clock.wall, seconds);
        let event = PeriodicAttention::for_slot(slot);
        let attempt = PendingAttempt::for_periodic(self.thread_id.as_str(), &event, clock.wall);
        let attention = event.rpc_event();
        self.make_attempt(effects, attempt, attention, true)
    }

    /// Decides what a tick asks for.
    pub fn tick(&mut self, clock: Clock) -> (plan: Plan)
        requires
            old(self)@.sound(),
            old(self)@.phase is Idle,
        ensures
            (final(self)@, plan@) == ticked(old(self)@, clock),
            final(self)@.sound(),
    {
        let effects: Vec<Effect> = Vec::new();
        assert(effect_views(effects@) =~= Seq::empty());
        if !self.has_events {
            return self.check_cadence(effects, clock);
        }
        if held_retry_is_deferred(self.held_event_retry_not_before, clock.instant) {
            return self.end_cycle(effects);
        }
        self.phase = Phase::Reading;
        Plan {
            effects,
            next: Next::ReadInbox {
                offset: self.state.event_offset,
                expected: self.state.inbox_identity,
            },
        }
    }

    /// Passes over the line at the offset, and reads the inbox again.
    fn pass_line(&mut self, effects: Vec<Effect>, line: String, next_offset: u64) -> (plan: Plan)
        requires
            old(self)@.sound(),
            old(self)@.phase is Reading,
        ensures
            (final(self)@, plan@) == line_passed(
                old(self)@,
                effect_views(effects@),
                line@,
                next_offset,
            ),
            final(self)@.sound(),
    {
        let mut effects = effects;
        let ghost before = effects@;
        effects.push(Effect::Print { line });
        self.state.event_offset = next_offset;
        effects.push(Effect::Save { file: self.state.to_file() });
        assert(effect_views(effects@) =~= effect_views(before).push(EffectData::Print { line: line@ }).push(
            EffectData::Save { file: state_file(self.state@) },
        ));
        Plan {
            effects,
            next: Next::ReadInbox { offset: next_offset, expected: self.state.inbox_identity },
        }
    }

    /// Decides what one read of the inbox asks for.
    pub fn take_inbox(&mut self, read: InboxRead, clock: Clock) -> (plan: Plan)
        requires
            old(self)@.sound(),
            old(self)@.phase is Reading,
        ensures
            (final(self)@, plan@) == inbox_taken(
                old(self)@,
                read.identity,
                optional_record(read.record),
                clock,
            ),
            final(self)@.sound(),
    {
        let mut effects: Vec<Effect> = Vec::new();
        if self.state.inbox_identity.is_none() {
            self.state.inbox_identity = Some(read.identity);
            effects.push(Effect::Save { file: self.state.to_file() });
        }
        assert(effect_views(effects@) =~= bound(old(self)@, read.identity).1);
        let record = match read.record {
            Some(record) => record,
            None => {
                self.held_event_retry_not_before = event_retry_deadline(
                    InboxCycleOutcome::NoEvent,
                    clock.instant,
                );
                return self.check_cadence(effects, clock);
            },
        };
        match record.event {
            Err(error) => {
                let message = error.to_message();
                let line = bad_line_report(record.event_offset, message.as_str());
                self.pass_line(effects, line, record.next_offset)
            },
            Ok(event) => {
                if self.state.contains(event.event_id.as_str()) {
                    let line = duplicate_report(event.event_id.as_str());
                    return self.pass_line(effects, line, record.next_offset);
                }
                let attempt = PendingAttempt::for_event(
                    self.thread_id.as_str(),
                    record.event_offset,
                    record.next_offset,
                    &event,
                    clock.wall,
                );
                let attention = event.rpc_event();
                self.make_attempt(effects, attempt, attention, false)
            },
        }
    }

    /// Stops at a hold on the inbox.
    pub fn refuse_inbox(&mut self, hold: InboxHold) -> (plan: Plan)
        requires
            old(self)@.sound(),
            old(self)@.phase is Reading,
        ensures
            (final(self)@, plan@) == inbox_refused(old(self)@, hold),
            final(self)@.sound(),
    {
        self.phase = Phase::Idle;
        let effects: Vec<Effect> = Vec::new();
        assert(effect_views(effects@) =~= Seq::empty());
        Plan { effects, next: Next::Fail { failure: Failure::Inbox { hold } } }
    }

    /// Puts off, or no longer puts off, what the answered request was for.
    fn set_retry(&mut self, periodic: bool, held: bool, clock: Clock)
        ensures
            final(self)@ == (if periodic {
                ListenerData {
                    held_periodic_retry_not_before: if held {
                        Some(retry_deadline(clock.instant))
                    } else {
                        None
                    },
                    ..old(self)@
                }
            } else {
                ListenerData {
                    held_event_retry_not_before: if held {
                        Some(retry_deadline(clock.instant))
                    } else {
                        None
                    },
                    ..old(self)@
                }
            }),
    {
        if periodic {
            let outcome = if held {
                PeriodicCycleOutcome::Held
            } else {
                PeriodicCycleOutcome::Started
            };
            self.held_periodic_retry_not_before = periodic_retry_deadline(outcome, clock.instant);
        } else {
            let outcome = if held {
                InboxCycleOutcome::Held
            } else {
                InboxCycleOutcome::Started
            };
            self.held_event_retry_not_before = event_retry_deadline(outcome, clock.instant);
        }
    }

    /// Decides what the answer to a request asks for.
    pub fn take_reply(&mut self, reply: Reply, clock: Clock) -> (plan: Plan)
        requires
            old(self)@.sound(),
            old(self)@.phase is Requesting,
        ensures
            (final(self)@, plan@) == answered(old(self)@, reply, clock),
            final(self)@.sound(),
    {
        let periodic = match self.phase {
            Phase::Requesting { periodic } => periodic,
            _ => false,
        };
        let attempt = match &self.state.pending_attempt {
            Some(attempt) => attempt.copy(),
            None => {
                assert(false);
                return Plan { effects: Vec::new(), next: Next::Wait };
            },
        };
        let mut effects: Vec<Effect> = Vec::new();
        match reply {
            Reply::Started => {
                let _ = self.state.confirm_started();
                effects.push(Effect::Save { file: self.state.to_file() });
                effects.push(
                    Effect::Print { line: started_report(&attempt, self.thread_id.as_str()) },
                );
                assert(effect_views(effects@) =~= seq![
                    EffectData::Save { file: state_file(self.state@) },
                    EffectData::Print { line: json_line(started_tree(attempt@, self.thread_id@)) },
                ]);
                self.set_retry(periodic, false, clock);
                self.end_cycle(effects)
            },
            Reply::Held { reason } => {
                let _ = self.state.confirm_held();
                effects.push(Effect::Save { file: self.state.to_file() });
                effects.push(
                    Effect::Print { line: held_report(&attempt, self.thread_id.as_str(), reason) },
                );
                assert(effect_views(effects@) =~= seq![
                    EffectData::Save { file: state_file(self.state@) },
                    EffectData::Print {
                        line: json_line(held_tree(attempt@, self.thread_id@, reason)),
                    },
                ]);
                self.set_retry(periodic, true, clock);
                self.end_cycle(effects)
            },
            Reply::Refused { code, message } => {
                let _ = self.state.confirm_rejected();
                effects.push(Effect::Save { file: self.state.to_file() });
                effects.push(
                    Effect::Print { line: refused_report(&attempt, code, message.as_str()) },
                );
                assert(effect_views(effects@) =~= seq![
                    EffectData::Save { file: state_file(self.state@) },
                    EffectData::Print { line: json_line(refused_tree(attempt@, code, message@)) },
                ]);
                self.phase = Phase::Idle;
                Plan {
                    effects,
                    next: Next::Fail { failure: Failure::Refused { event_id: attempt.event_id } },
                }
            },
            Reply::Unknown { error } => {
                effects.push(Effect::Print { line: ambiguous_report(&attempt, error.as_str()) });
                assert(effect_views(effects@) =~= seq![
                    EffectData::Print { line: json_line(ambiguous_tree(attempt@, error@)) },
                ]);
                Plan {
                    effects,
                    next: Next::Fail {
                        failure: Failure::Ambiguous { event_id: attempt.event_id },
                    },
                }
            },
        }
    }
}

/// The slot of the cadence in which a time falls.
pub fn periodic_slot(now: i64, seconds: u64) -> (slot: i64)
    requires
        0 < seconds <= MAX_PERIODIC_SECONDS,
    ensures
        slot == now as int / seconds as int,
{
    let period: i64 = seconds as i64;
    proof {
        let n = now as int;
        let d = period as int;
        vstd::arithmetic::div_mod::lemma_fundamental_div_mod(n, d);
        assert(i64::MIN <= n / d <= i64::MAX) by (nonlinear_arith)
            requires
                n == d * (n / d) + n % d,
                0 <= n % d < d,
                d >= 1,
                i64::MIN <= n <= i64::MAX,
        ;
    }
    match now.checked_div_euclid(period) {
        Some(slot) => slot,
        None => 0,
    }
}

/// A request is made only once the attempt for it is pending and saved: the last thing done before
/// it is to save the state that holds the attempt.
pub open spec fn saved_before_request(decision: (ListenerData, PlanData)) -> bool {
    decision.1.next matches NextData::Request { thread_id, attention } ==> {
        &&& decision.1.effects.len() > 0
        &&& decision.1.effects.last() == (EffectData::Save { file: state_file(decision.0.state) })
        &&& decision.0.state.pending_attempt matches Some(attempt)
        &&& attempt.event_id == attention.event_id
        &&& attempt.thread_id == thread_id
        &&& attempt.kind == attention.kind
    }
}

/// Whatever a listener decides, no request precedes the saving of its attempt.
pub proof fn law_requests_are_saved_first(
    listener: ListenerData,
    identity: InboxIdentity,
    record: Option<RecordData>,
    reply: Reply,
    clock: Clock,
)
    ensures
        saved_before_request(ticked(listener, clock)),
        saved_before_request(inbox_taken(listener, identity, record, clock)),
        saved_before_request(answered(listener, reply, clock)),
{
}

/// While an event of the inbox is held, nothing is done on a tick: the inbox is not read and the
/// thread is not woken at its cadence.
pub proof fn law_held_event_suppresses_the_cadence(listener: ListenerData, clock: Clock)
    requires
        listener.has_events,
        deferred(listener.held_event_retry_not_before, clock.instant),
    ensures
        ticked(listener, clock) == cycle_over(listener, Seq::empty()),
{
}

/// The delay of a held event is over after one retry delay, and not before.
pub proof fn law_held_event_is_retried_after_the_delay(
    listener: ListenerData,
    reason: ThreadAttentionHeldReason,
    held_at: Clock,
    now: Clock,
)
    requires
        listener.phase == (Phase::Requesting { periodic: false }),
        listener.has_events,
        held_at.instant + HELD_EVENT_RETRY_DELAY <= u64::MAX,
    ensures
        ({
            let after = answered(listener, Reply::Held { reason }, held_at).0;
            ticked(after, now).1.next is ReadInbox <==> now.instant >= held_at.instant
                + HELD_EVENT_RETRY_DELAY
        }),
{
}

/// Where the effect of a request is not known, the attempt stays pending and the listener stops.
pub proof fn law_unknown_effect_is_retained(listener: ListenerData, error: String, clock: Clock)
    requires
        listener.sound(),
        listener.phase is Requesting,
    ensures
        answered(listener, Reply::Unknown { error }, clock).0 == listener,
        listener.state.pending_attempt is Some,
        answered(listener, Reply::Unknown { error }, clock).1.next is Fail,
{
}

/// The offset of the inbox only moves forward: a line that is passed over or whose event started a
/// turn moves it behind that line, and nothing else moves it.
pub proof fn law_offset_only_moves_forward(
    listener: ListenerData,
    identity: InboxIdentity,
    record: RecordData,
    reply: Reply,
    clock: Clock,
)
    requires
        listener.sound(),
        listener.phase is Reading,
        record.event_offset == listener.state.event_offset,
        record.event_offset < record.next_offset,
    ensures
        ({
            let (taken, plan) = inbox_taken(listener, identity, Some(record), clock);
            &&& plan.next is ReadInbox ==> taken.state.event_offset == record.next_offset
            &&& !(plan.next is ReadInbox) ==> taken.state.event_offset == record.event_offset
            &&& plan.next is Request ==> answered(taken, reply, clock).0.state.event_offset
                == if reply is Started {
                record.next_offset
            } else {
                record.event_offset
            }
        }),
{
}

/// An event whose request started a turn is not requested again: its line is passed over.
pub proof fn law_started_event_is_not_requested_again(
    listener: ListenerData,
    identity: InboxIdentity,
    record: RecordData,
    again: RecordData,
    clock: Clock,
    later: Clock,
)
    requires
        listener.sound(),
        listener.phase is Reading,
        inbox_taken(listener, identity, Some(record), clock).1.next is Request,
        again.event is Ok,
        record.event is Ok,
        again.event->Ok_0.event_id == record.event->Ok_0.event_id,
    ensures
        ({
            let requested = inbox_taken(listener, identity, Some(record), clock).0;
            let after = answered(requested, Reply::Started, clock).0;
            let (_, plan) = inbox_taken(after, identity, Some(again), later);
            plan.next is ReadInbox
        }),
{
    let id = record.event->Ok_0.event_id;
    law_seen_ids_are_bounded(listener.state.seen_event_ids, id);
}

} // verus!
