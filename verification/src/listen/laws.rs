//! What a listener keeps to over its cycles: when it wakes the thread, what it hands on of an
//! event, and what it remembers.

use vstd::prelude::*;
use vstd::string::*;
use vstd::utf8::*;

use crate::atom::{is_atom, lemma_atom_bytes};
use crate::attention::{AttentionMetadata, ThreadAttentionHeldReason, ThreadAttentionKind};
use crate::json::{json_line, parsed_without_repeats, JsonTree};
use crate::listen::command::{
    ListenCommand, MAX_PERIODIC_SECONDS, MIN_PERIODIC_SECONDS, MIN_POLL_MILLIS,
};
use crate::listen::cycle::{
    answered, cadence_started, failure_message, fresh_listener, inbox_refused, inbox_taken, ticked,
    Clock, EffectData, FailureData, ListenerData, NextData, Phase, PlanData, Reply,
    HELD_EVENT_RETRY_DELAY,
};
use crate::listen::event::{
    decoded_event, event_error_message, event_fault, event_of_document, parsed_event,
    periodic_event_id, AttentionKind, EventData, EventError, EventField, InboxIdentity,
    ATTENTION_EVENT_VERSION, MAX_EVENT_LINE_BYTES, MAX_INBOX_SCAN_BYTES,
};
use crate::listen::inbox::{
    event_of_line, inbox_read, lemma_line_length_is, line_scan, InboxHold, InboxWindow, LineScan,
    RecordData,
};
use crate::listen::state::{
    attempt_fault, law_seen_ids_are_bounded, pending_message, seen_with, AttemptData, AttemptError,
    StateData, LISTENER_STATE_VERSION, MAX_SEEN_EVENT_IDS,
};
use crate::listen::state_file::state_file;
use crate::text::{byte_len, lemma_decimal_len, lemma_decimal_numeral, signed_decimal};
use crate::writing::{lemma_stands_between, stands_in};

verus! {

/// The name of a wake-up is an event id that a request can carry.
proof fn lemma_wake_up_has_a_name(wall: i64, seconds: u64)
    requires
        0 < seconds,
    ensures
        is_atom(periodic_event_id(wall as int / seconds as int), 128, true),
{
    let n = wall as int;
    let d = seconds as int;
    let slot = n / d;
    vstd::arithmetic::div_mod::lemma_fundamental_div_mod(n, d);
    assert(-0x8000_0000_0000_0000 <= slot <= 0x7fff_ffff_ffff_ffff) by (nonlinear_arith)
        requires
            n == d * slot + n % d,
            0 <= n % d < d,
            -0x8000_0000_0000_0000 <= n <= 0x7fff_ffff_ffff_ffff,
            d >= 1,
    ;
    reveal_strlit("periodic/");
    let size = if slot < 0 {
        (-slot) as nat
    } else {
        slot as nat
    };
    lemma_decimal_numeral(size);
    assert(size < vstd::arithmetic::power::pow(10, 19)) by {
        reveal(vstd::arithmetic::power::pow);
        reveal_with_fuel(vstd::arithmetic::power::pow, 20);
    }
    lemma_decimal_len(size, 19);
    let id = periodic_event_id(slot);
    assert(id == "periodic/"@ + signed_decimal(slot));
    assert(crate::atom::in_alphabet(id, true)) by {
        assert forall|i: int| 0 <= i < id.len() implies crate::atom::is_atom_char(
            #[trigger] id[i],
            true,
        ) by {
            if i < 9 {
                assert(id[i] == "periodic/"@[i]);
            } else {
                assert(id[i] == signed_decimal(slot)[i - 9]);
            }
        }
    }
    lemma_atom_bytes(id, true);
}

/// A wake-up is not put off, and the cadence has run out since the last request was started.
pub open spec fn ripe(listener: ListenerData, seconds: u64, last: i64, clock: Clock) -> bool {
    &&& clock.wall - last >= seconds
    &&& listener.held_periodic_retry_not_before matches Some(at) ==> clock.instant >= at
}

/// With a cadence of `seconds` and the last start at `last`, a tick without an inbox, and a read
/// of the inbox that found nothing, ask for the thread's attention exactly where that many
/// seconds have passed and no retry is put off. The request is a periodic one of that moment.
/// Where there is an inbox, a tick never asks for attention before the inbox was read.
pub proof fn law_thread_is_woken_at_its_cadence(
    listener: ListenerData,
    identity: InboxIdentity,
    clock: Clock,
    seconds: u64,
    last: i64,
)
    requires
        listener.periodic_seconds == Some(seconds),
        60 <= seconds,
        listener.state.last_periodic_at == Some(last),
        is_atom(listener.thread_id, 128, true),
    ensures
        !listener.has_events ==> (ticked(listener, clock).1.next is Request <==> ripe(
            listener,
            seconds,
            last,
            clock,
        )),
        !listener.has_events && !(ticked(listener, clock).1.next is Request) ==> ticked(
            listener,
            clock,
        ).1.next == (if listener.once {
            NextData::Stop
        } else {
            NextData::Wait
        }),
        listener.has_events ==> !(ticked(listener, clock).1.next is Request),
        inbox_taken(listener, identity, None, clock).1.next is Request <==> ripe(
            listener,
            seconds,
            last,
            clock,
        ),
        !(inbox_taken(listener, identity, None, clock).1.next is Request) ==> inbox_taken(
            listener,
            identity,
            None,
            clock,
        ).1.next == (if listener.once {
            NextData::Stop
        } else {
            NextData::Wait
        }),
        asks_periodically(listener, ticked(listener, clock), seconds, clock),
        asks_periodically(listener, inbox_taken(listener, identity, None, clock), seconds, clock),
{
    lemma_wake_up_has_a_name(clock.wall, seconds);
}

/// Where the decision asks for attention, it asks for the periodic attention of the listener's
/// thread at this moment, and remembers just that as pending.
pub open spec fn asks_periodically(
    listener: ListenerData,
    decision: (ListenerData, PlanData),
    seconds: u64,
    clock: Clock,
) -> bool {
    decision.1.next matches NextData::Request { thread_id, attention } ==> {
        &&& thread_id == listener.thread_id
        &&& attention.kind == ThreadAttentionKind::Periodic
        &&& attention.version == 1
        &&& attention.event_id == "periodic/"@ + signed_decimal(clock.wall as int / seconds as int)
        &&& attention.source_class == "listener"@
        &&& attention.source_ref == "periodic"@
        &&& attention.reference is None
        &&& decision.0.phase == (Phase::Requesting { periodic: true })
        &&& decision.0.state.pending_attempt matches Some(attempt)
        &&& attempt.thread_id == listener.thread_id
        &&& attempt.event_id == attention.event_id
        &&& attempt.kind == ThreadAttentionKind::Periodic
        &&& attempt.event_offset is None
        &&& attempt.next_event_offset is None
        &&& attempt.attempted_at == clock.wall
    }
}

/// Without a cadence, and before a first start set the cadence going, no wake-up is asked for.
pub proof fn law_no_cadence_no_wake_up(
    listener: ListenerData,
    identity: InboxIdentity,
    clock: Clock,
)
    requires
        listener.periodic_seconds matches Some(seconds) ==> 60 <= seconds
            && listener.state.last_periodic_at is None,
    ensures
        !(ticked(listener, clock).1.next is Request),
        !(inbox_taken(listener, identity, None, clock).1.next is Request),
{
}

/// One thing that happens to a listener.
pub enum Step {
    Tick { clock: Clock },
    Read { identity: InboxIdentity, record: Option<RecordData>, clock: Clock },
    Answer { reply: Reply, clock: Clock },
}

/// When a step happens.
pub open spec fn time_of(step: Step) -> int {
    match step {
        Step::Tick { clock } => clock.wall as int,
        Step::Read { clock, .. } => clock.wall as int,
        Step::Answer { clock, .. } => clock.wall as int,
    }
}

/// The step is one that the listener waits for.
pub open spec fn awaited(listener: ListenerData, step: Step) -> bool {
    match step {
        Step::Tick { .. } => listener.phase is Idle,
        Step::Read { .. } => listener.phase is Reading,
        Step::Answer { .. } => listener.phase is Requesting,
    }
}

/// The listener after a step.
pub open spec fn after_step(listener: ListenerData, step: Step) -> ListenerData {
    match step {
        Step::Tick { clock } => ticked(listener, clock).0,
        Step::Read { identity, record, clock } => inbox_taken(
            listener,
            identity,
            record,
            clock,
        ).0,
        Step::Answer { reply, clock } => answered(listener, reply, clock).0,
    }
}

/// Each step is one that the listener waits for by then.
pub open spec fn runs(listener: ListenerData, steps: Seq<Step>) -> bool
    decreases steps.len(),
{
    steps.len() > 0 ==> awaited(listener, steps[0]) && runs(
        after_step(listener, steps[0]),
        steps.drop_first(),
    )
}

/// The wall clock never goes back over the steps.
pub open spec fn in_time(steps: Seq<Step>) -> bool {
    forall|i: int, j: int|
        0 <= i <= j < steps.len() ==> time_of(#[trigger] steps[i]) <= time_of(#[trigger] steps[j])
}

/// The moments at which the periodic requests of a run were made that were then started.
pub open spec fn wake_ups(listener: ListenerData, steps: Seq<Step>) -> Seq<int>
    decreases steps.len(),
{
    if steps.len() == 0 {
        Seq::empty()
    } else {
        let rest = wake_ups(after_step(listener, steps[0]), steps.drop_first());
        if listener.phase == (Phase::Requesting { periodic: true }) && steps[0] matches Step::Answer {
            reply: Reply::Started,
            ..
        } {
            seq![listener.state.pending_attempt->0.attempted_at as int] + rest
        } else {
            rest
        }
    }
}

/// The listener's last start is no earlier than `since`, and what is pending was asked for in
/// time.
spec fn keeps_apart(listener: ListenerData, seconds: u64, since: int, upto: int) -> bool {
    &&& listener.sound()
    &&& listener.periodic_seconds == Some(seconds)
    &&& listener.state.last_periodic_at matches Some(last)
    &&& since <= last
    &&& listener.state.pending_attempt matches Some(attempt) ==> {
        &&& since <= attempt.attempted_at <= upto
        &&& listener.phase == (Phase::Requesting { periodic: true }) ==> since + seconds
            <= attempt.attempted_at && attempt.kind == ThreadAttentionKind::Periodic
    }
}

#[verifier::spinoff_prover]
#[verifier::rlimit(60)]
proof fn lemma_wake_ups_lie_apart(
    listener: ListenerData,
    steps: Seq<Step>,
    seconds: u64,
    since: int,
)
    requires
        runs(listener, steps),
        in_time(steps),
        steps.len() > 0 ==> since <= time_of(steps[0]),
        steps.len() > 0 ==> keeps_apart(listener, seconds, since, time_of(steps[0])),
    ensures
        forall|i: int|
            0 <= i < wake_ups(listener, steps).len() ==> since + seconds <= #[trigger] wake_ups(
                listener,
                steps,
            )[i],
        forall|i: int, j: int|
            0 <= i < j < wake_ups(listener, steps).len() ==> #[trigger] wake_ups(listener, steps)[i]
                + seconds <= #[trigger] wake_ups(listener, steps)[j],
    decreases steps.len(),
{
    if steps.len() > 0 {
        let step = steps[0];
        let after = after_step(listener, step);
        let rest = steps.drop_first();
        let now = time_of(step);
        assert(in_time(rest)) by {
            assert forall|i: int, j: int| 0 <= i <= j < rest.len() implies time_of(
                #[trigger] rest[i],
            ) <= time_of(#[trigger] rest[j]) by {
                assert(rest[i] == steps[i + 1] && rest[j] == steps[j + 1]);
            }
        }
        assert(rest.len() > 0 ==> rest[0] == steps[1] && now <= time_of(rest[0]));
        let woken = listener.phase == (Phase::Requesting { periodic: true })
            && step matches Step::Answer { reply: Reply::Started, .. };
        let at = if woken {
            listener.state.pending_attempt->0.attempted_at as int
        } else {
            since
        };
        assert(keeps_apart(after, seconds, at, now));
        lemma_wake_ups_lie_apart(after, rest, seconds, at);
        let later = wake_ups(after, rest);
        let all = wake_ups(listener, steps);
        if woken {
            assert(all == seq![at] + later);
            assert forall|i: int| 0 <= i < all.len() implies since + seconds <= #[trigger] all[i] by {
                if i > 0 {
                    assert(all[i] == later[i - 1]);
                }
            }
            assert forall|i: int, j: int| 0 <= i < j < all.len() implies #[trigger] all[i] + seconds
                <= #[trigger] all[j] by {
                assert(all[j] == later[j - 1]);
                if i > 0 {
                    assert(all[i] == later[i - 1]);
                }
            }
        } else {
            assert(all == later);
        }
    }
}

/// Over any run in which the wall clock does not go back, two started wake-ups lie at least the
/// cadence apart, and the first lies at least the cadence behind the last start before the run.
pub proof fn law_wake_ups_lie_apart(
    listener: ListenerData,
    steps: Seq<Step>,
    seconds: u64,
    last: i64,
)
    requires
        listener.sound(),
        listener.phase is Idle,
        listener.periodic_seconds == Some(seconds),
        listener.state.last_periodic_at == Some(last),
        runs(listener, steps),
        in_time(steps),
        steps.len() > 0 ==> last <= time_of(steps[0]),
    ensures
        forall|i: int|
            0 <= i < wake_ups(listener, steps).len() ==> last + seconds <= #[trigger] wake_ups(
                listener,
                steps,
            )[i],
        forall|i: int, j: int|
            0 <= i < j < wake_ups(listener, steps).len() ==> #[trigger] wake_ups(listener, steps)[i]
                + seconds <= #[trigger] wake_ups(listener, steps)[j],
{
    lemma_wake_ups_lie_apart(listener, steps, seconds, last as int);
}

/// What a listener was set up with stays as it is.
pub proof fn law_settings_are_kept(
    listener: ListenerData,
    identity: InboxIdentity,
    record: Option<RecordData>,
    reply: Reply,
    clock: Clock,
)
    ensures
        forall|after: ListenerData|
            after == ticked(listener, clock).0 || after == inbox_taken(
                listener,
                identity,
                record,
                clock,
            ).0 || after == answered(listener, reply, clock).0 ==> {
                &&& (#[trigger] after.thread_id) == listener.thread_id
                &&& after.has_events == listener.has_events
                &&& after.periodic_seconds == listener.periodic_seconds
                &&& after.once == listener.once
                &&& after.state.version == listener.state.version
            },
{
}

/// A tick with an inbox asks for what stands behind the durable offset of the file that it was bound
/// to, unless a held event is put off; it changes nothing but what is waited for, and has no effect.
pub proof fn law_ticks_read_behind_the_offset(listener: ListenerData, clock: Clock)
    requires
        listener.has_events,
    ensures
        ticked(listener, clock).1.effects.len() == 0,
        ticked(listener, clock).0.state == listener.state,
        (listener.held_event_retry_not_before matches Some(at) ==> clock.instant >= at) ==> ticked(
            listener,
            clock,
        ).1.next == (NextData::ReadInbox {
            offset: listener.state.event_offset,
            expected: listener.state.inbox_identity,
        }) && ticked(listener, clock).0.phase == Phase::Reading,
        (listener.held_event_retry_not_before matches Some(at) && clock.instant < at) ==> ticked(
            listener,
            clock,
        ).1.next == (if listener.once {
            NextData::Stop
        } else {
            NextData::Wait
        }),
{
}

/// A request that is held is made again no sooner than a second later, by the clock that never goes
/// back: an event by reading the inbox again, a wake-up by checking the cadence again. Where the
/// one is put off, the other is not.
pub proof fn law_held_requests_wait_a_second(
    listener: ListenerData,
    reason: ThreadAttentionHeldReason,
    held_at: Clock,
)
    requires
        listener.phase is Requesting,
        held_at.instant + 1_000_000_000 <= 0xffff_ffff_ffff_ffff,
    ensures
        ({
            let after = answered(listener, Reply::Held { reason }, held_at).0;
            let again = Some((held_at.instant + 1_000_000_000) as u64);
            &&& listener.phase == (Phase::Requesting { periodic: true })
                ==> after.held_periodic_retry_not_before == again
                && after.held_event_retry_not_before == listener.held_event_retry_not_before
            &&& listener.phase == (Phase::Requesting { periodic: false })
                ==> after.held_event_retry_not_before == again
                && after.held_periodic_retry_not_before == listener.held_periodic_retry_not_before
        }),
{
}

/// What a listener does with an answer: a start advances the state, is saved and then told, and ends
/// the cycle; a request that is held leaves the state as it was before the attempt, which is saved
/// and told, and ends the cycle; a refusal does the same and fails; and an answer that is not known
/// is told, keeps the attempt pending and fails.
#[verifier::spinoff_prover]
#[verifier::rlimit(60)]
pub proof fn law_answers_are_taken(
    listener: ListenerData,
    attempt: AttemptData,
    reply: Reply,
    clock: Clock,
)
    requires
        listener.sound(),
        listener.state.pending_attempt == Some(attempt),
    ensures
        ({
            let (after, plan) = answered(listener, reply, clock);
            let undone = StateData { pending_attempt: None, ..listener.state };
            let over = if listener.once {
                NextData::Stop
            } else {
                NextData::Wait
            };
            &&& reply is Started ==> {
                &&& after.state.pending_attempt is None
                &&& after.state.last_periodic_at == Some(attempt.attempted_at)
                &&& attempt.kind == ThreadAttentionKind::Periodic ==> after.state.event_offset
                    == listener.state.event_offset && after.state.seen_event_ids
                    == listener.state.seen_event_ids
                &&& attempt.kind != ThreadAttentionKind::Periodic ==> Some(after.state.event_offset)
                    == attempt.next_event_offset && after.state.seen_event_ids.last()
                    == attempt.event_id
                &&& after.state.inbox_identity == listener.state.inbox_identity
                &&& plan.next == over
                &&& after.phase == Phase::Idle
            }
            &&& reply is Held ==> after.state == undone && plan.next == over && after.phase
                == Phase::Idle
            &&& reply is Refused ==> after.state == undone && plan.next == (NextData::Fail {
                failure: FailureData::Refused { event_id: attempt.event_id },
            }) && after.phase == Phase::Idle
            &&& reply is Unknown ==> after == listener && plan.next == (NextData::Fail {
                failure: FailureData::Ambiguous { event_id: attempt.event_id },
            }) && plan.effects.len() == 1 && plan.effects[0] is Print
            &&& !(reply is Unknown) ==> plan.effects.len() == 2 && plan.effects[0]
                == (EffectData::Save { file: state_file(after.state) }) && plan.effects[1] is Print
            &&& reply is Started && listener.phase == (Phase::Requesting { periodic: true })
                ==> after.held_periodic_retry_not_before is None
                && after.held_event_retry_not_before == listener.held_event_retry_not_before
            &&& reply is Started && listener.phase == (Phase::Requesting { periodic: false })
                ==> after.held_event_retry_not_before is None
                && after.held_periodic_retry_not_before == listener.held_periodic_retry_not_before
            &&& reply is Refused ==> after.held_event_retry_not_before
                == listener.held_event_retry_not_before && after.held_periodic_retry_not_before
                == listener.held_periodic_retry_not_before
        }),
{
    if reply is Started {
        law_seen_ids_are_bounded(
            listener.state.seen_event_ids,
            attempt.event_id,
        );
    }
}

/// An event that was not seen before is handed on as it stands: a mention asks for a mention and a
/// directed response for a directed response, from the chat that it names, under its own id and
/// reference. What is pending then is that event, between the offsets of its line.
pub proof fn law_events_are_handed_on(
    listener: ListenerData,
    identity: InboxIdentity,
    record: RecordData,
    event: EventData,
    clock: Clock,
)
    requires
        record.event == Ok::<EventData, EventError>(event),
        !listener.state.seen_event_ids.contains(event.event_id),
        is_atom(listener.thread_id, 128, true),
        is_atom(event.event_id, 128, true),
        record.event_offset < record.next_offset,
    ensures
        ({
            let (after, plan) = inbox_taken(listener, identity, Some(record), clock);
            let kind = match event.kind {
                AttentionKind::Mention => ThreadAttentionKind::Mention,
                AttentionKind::DirectedResponse => ThreadAttentionKind::DirectedResponse,
            };
            &&& plan.next == (NextData::Request {
                thread_id: listener.thread_id,
                attention: AttentionMetadata {
                    version: event.version,
                    event_id: event.event_id,
                    kind,
                    source_class: "chat"@,
                    source_ref: event.source,
                    reference: Some(event.reference),
                },
            })
            &&& after.phase == (Phase::Requesting { periodic: false })
            &&& after.state.pending_attempt == Some(
                AttemptData {
                    thread_id: listener.thread_id,
                    event_id: event.event_id,
                    kind,
                    event_offset: Some(record.event_offset),
                    next_event_offset: Some(record.next_offset),
                    attempted_at: clock.wall,
                },
            )
            &&& after.state.event_offset == listener.state.event_offset
            &&& after.state.seen_event_ids == listener.state.seen_event_ids
            &&& after.state.last_periodic_at == listener.state.last_periodic_at
        }),
{
}

/// A line that is no event, and an event that was seen before, are told, passed over and never asked
/// for: the offset behind the line is saved, and the next line is read from there.
pub proof fn law_other_lines_are_passed_over(
    listener: ListenerData,
    identity: InboxIdentity,
    record: RecordData,
    clock: Clock,
)
    requires
        record.event matches Ok(event) ==> listener.state.seen_event_ids.contains(event.event_id),
    ensures
        ({
            let (after, plan) = inbox_taken(listener, identity, Some(record), clock);
            let n = plan.effects.len();
            let bound = match listener.state.inbox_identity {
                Some(known) => known,
                None => identity,
            };
            &&& after.state == (StateData {
                event_offset: record.next_offset,
                inbox_identity: Some(bound),
                ..listener.state
            })
            &&& after.phase == Phase::Reading
            &&& plan.next == (NextData::ReadInbox {
                offset: record.next_offset,
                expected: Some(bound),
            })
            &&& n >= 2
            &&& plan.effects[n - 1] == (EffectData::Save { file: state_file(after.state) })
            &&& record.event matches Ok(event) ==> plan.effects[n - 2] == (EffectData::Print {
                line: json_line(
                    JsonTree::Object(
                        seq![
                            ("eventId"@, JsonTree::Text(event.event_id)),
                            ("outcome"@, JsonTree::Text("duplicate"@)),
                        ],
                    ),
                ),
            })
            &&& record.event matches Err(error) ==> plan.effects[n - 2] == (EffectData::Print {
                line: json_line(
                    JsonTree::Object(
                        seq![
                            ("error"@, JsonTree::Text(event_error_message(error))),
                            ("offset"@, JsonTree::Unsigned(record.event_offset)),
                            ("outcome"@, JsonTree::Text("rejected"@)),
                        ],
                    ),
                ),
            })
        }),
{
}

/// The first read binds the listener to the file that it found, which is saved before anything else;
/// later reads change nothing of that.
pub proof fn law_the_inbox_is_bound_once(
    listener: ListenerData,
    identity: InboxIdentity,
    record: Option<RecordData>,
    clock: Clock,
)
    ensures
        ({
            let (after, plan) = inbox_taken(listener, identity, record, clock);
            &&& listener.state.inbox_identity is None ==> after.state.inbox_identity == Some(
                identity,
            ) && plan.effects.len() > 0 && plan.effects[0] == (EffectData::Save {
                file: state_file(
                    StateData { inbox_identity: Some(identity), ..listener.state },
                ),
            })
            &&& listener.state.inbox_identity is Some ==> after.state.inbox_identity
                == listener.state.inbox_identity
            &&& listener.state.inbox_identity is Some && record is None && !(plan.next is Request)
                ==> plan.effects.len() == 0
        }),
{
}

/// The newest event ids are remembered, up to 1024 of them, in the order in which they came.
pub proof fn law_the_newest_ids_are_remembered(
    seen: Seq<Seq<char>>,
    event_id: Seq<char>,
    back: int,
)
    ensures
        seen_with(seen, event_id).len() == if seen.len() + 1 <= 1024 {
            seen.len() + 1
        } else {
            1024
        },
        seen_with(seen, event_id).last() == event_id,
        0 < back < seen_with(seen, event_id).len() ==> seen_with(seen, event_id)[seen_with(
            seen,
            event_id,
        ).len() - 1 - back] == seen[seen.len() - back],
{
}

/// An attempt can be made exactly where it names a thread and an event by safe atoms of at most 128
/// bytes, and is either a wake-up without offsets or an event between two offsets of which the
/// second lies behind the first.
pub proof fn law_attempts_fit_their_kind(attempt: AttemptData)
    ensures
        attempt_fault(attempt) is None <==> {
            &&& is_atom(attempt.thread_id, 128, true)
            &&& is_atom(attempt.event_id, 128, true)
            &&& attempt.kind == ThreadAttentionKind::Periodic ==> attempt.event_offset is None
                && attempt.next_event_offset is None
            &&& attempt.kind != ThreadAttentionKind::Periodic ==> {
                &&& attempt.event_offset matches Some(offset)
                &&& attempt.next_event_offset matches Some(next)
                &&& offset < next
            }
        },
        attempt_fault(attempt) is Some && attempt_fault(attempt)->0 is ThreadId <==> !is_atom(
            attempt.thread_id,
            128,
            true,
        ),
        attempt_fault(attempt) is Some && attempt_fault(attempt)->0 is EventId <==> is_atom(
            attempt.thread_id,
            128,
            true,
        ) && !is_atom(attempt.event_id, 128, true),
        attempt_fault(attempt) == Some(AttemptError::UnexpectedOffsets) ==> attempt.kind
            == ThreadAttentionKind::Periodic,
        attempt_fault(attempt) == Some(AttemptError::MissingOffsets) ==> attempt.event_offset is None
            || attempt.next_event_offset is None,
        attempt_fault(attempt) == Some(AttemptError::NotAdvancing) ==> attempt.event_offset is Some
            && attempt.next_event_offset is Some && attempt.next_event_offset->0
            <= attempt.event_offset->0,
{
}

/// A listener is set up with the thread, the cadence and the inbox of its command, and with nothing
/// put off; a cadence that never ran starts when the listener subscribes.
pub proof fn law_a_listener_starts_as_commanded(
    command: ListenCommand,
    state: StateData,
    now: i64,
)
    ensures
        ({
            let fresh = fresh_listener(command, state);
            &&& fresh.thread_id == command.thread_id@
            &&& fresh.has_events == (command.events is Some)
            &&& fresh.periodic_seconds == command.periodic_seconds
            &&& fresh.once == command.once
            &&& fresh.state == state
            &&& fresh.held_event_retry_not_before is None
            &&& fresh.held_periodic_retry_not_before is None
            &&& fresh.phase == Phase::Idle
            &&& command.periodic_seconds is Some && state.last_periodic_at is None
                ==> cadence_started(fresh, now) == (StateData {
                last_periodic_at: Some(now),
                ..state
            })
            &&& command.periodic_seconds is None || state.last_periodic_at is Some
                ==> cadence_started(fresh, now) == state
        }),
{
}

/// An event is accepted exactly where it is of the first version, its id and its source are safe
/// atoms of at most 128 bytes, and its reference is one of at most 256. Of several faults the
/// version is told first, then the id, then the source.
pub proof fn law_accepted_events(event: EventData)
    ensures
        event_fault(event) is None <==> {
            &&& event.version == 1
            &&& is_atom(event.event_id, 128, true)
            &&& is_atom(event.source, 128, true)
            &&& is_atom(event.reference, 256, true)
        },
        event.version != 1 <==> event_fault(event) == Some(
            EventError::UnsupportedVersion { version: event.version },
        ),
        event.version == 1 && !is_atom(event.event_id, 128, true) ==> (
        event_fault(event) matches Some(EventError::Metadata { field: EventField::EventId, .. })),
        event.version == 1 && is_atom(event.event_id, 128, true) && !is_atom(
            event.source,
            128,
            true,
        ) ==> (event_fault(event) matches Some(
            EventError::Metadata { field: EventField::Source, .. },
        )),
        event.version == 1 && is_atom(event.event_id, 128, true) && is_atom(
            event.source,
            128,
            true,
        ) && !is_atom(event.reference, 256, true) ==> (event_fault(event) matches Some(
            EventError::Metadata { field: EventField::Reference, .. },
        )),
{
}

/// A line is an event only where it has at most 4096 bytes of UTF-8 before an optional carriage
/// return, and not none; a line with a carriage return at its end is taken as the line without it.
pub proof fn law_lines_are_bounded(line: Seq<u8>)
    ensures
        line.len() > 4096 ==> event_of_line(line) == Err::<EventData, EventError>(
            EventError::TooLong,
        ),
        line.len() == 0 ==> event_of_line(line) == Err::<EventData, EventError>(
            EventError::EmptyLine,
        ),
        line == seq![13u8] ==> event_of_line(line) == Err::<EventData, EventError>(
            EventError::EmptyLine,
        ),
        line.len() < 4096 && (line.len() == 0 || line.last() != 13) ==> event_of_line(line.push(13))
            == event_of_line(line),
        0 < line.len() <= 4096 && line.last() != 13 && !valid_utf8(line) ==> event_of_line(line)
            == Err::<EventData, EventError>(EventError::NotUtf8),
        0 < line.len() <= 4096 && line.last() != 13 && valid_utf8(line) ==> event_of_line(line)
            == parsed_event(decode_utf8(line)),
{
    assert(line.push(13).drop_last() =~= line);
    if line.len() == 0 {
        assert(line =~= Seq::<u8>::empty());
        lemma_nothing_is_utf8(line);
    }
    if line == seq![13u8] {
        assert(line.drop_last() =~= Seq::<u8>::empty());
        lemma_nothing_is_utf8(line.drop_last());
    }
}

proof fn lemma_nothing_is_utf8(bytes: Seq<u8>)
    requires
        bytes.len() == 0,
    ensures
        valid_utf8(bytes),
{
    reveal_with_fuel(valid_utf8, 1);
}

/// What a scan makes of the bytes behind an offset whose first line break, if any, stands at `n`: a
/// line where there is a break among the first 4098 bytes, and nothing yet where there is none and
/// no more than 4096 bytes. Else the line is too long, and no more than 4098 bytes were looked at.
pub proof fn law_scans_look_for_a_line(bytes: Seq<u8>, n: nat)
    requires
        n <= bytes.len(),
        forall|i: int| 0 <= i < n ==> bytes[i] != 10,
        n == bytes.len() || bytes[n as int] == 10,
    ensures
        n < bytes.len() && n < 4098 <==> line_scan(bytes) is Line,
        line_scan(bytes) matches LineScan::Line { length } ==> length == n,
        n == bytes.len() && n <= 4096 <==> line_scan(bytes) == LineScan::Unfinished,
        line_scan(bytes) matches LineScan::Overlong { inspected } ==> inspected == if bytes.len()
            < 4098 {
            bytes.len() as int
        } else {
            4098int
        },
{
    lemma_line_length_is(bytes, n);
}

/// A read is held where the file is another one than before, or else is shorter than the offset, or
/// else holds a line that is too long; it finds nothing where the line is not finished; and it
/// finds the line up to its break, with the offset behind the break, where it is.
pub proof fn law_reads_find_the_next_line(
    inbox: InboxWindow,
    offset: u64,
    expected: Option<InboxIdentity>,
    n: nat,
)
    requires
        n <= inbox.bytes@.len(),
        forall|i: int| 0 <= i < n ==> inbox.bytes@[i] != 10,
        n == inbox.bytes@.len() || inbox.bytes@[n as int] == 10,
        offset + n < 0xffff_ffff_ffff_ffff,
    ensures
        ({
            let found = inbox_read(inbox, offset, expected);
            let bytes = inbox.bytes@;
            let known = expected is None || expected == Some(inbox.identity);
            &&& !known <==> (found matches Err(InboxHold::Replaced { .. }))
            &&& !known ==> found == Err::<Option<RecordData>, InboxHold>(
                InboxHold::Replaced { expected: expected->0, found: inbox.identity },
            )
            &&& known && inbox.file_len < offset <==> found == Err::<Option<RecordData>, InboxHold>(
                InboxHold::Truncated { file_len: inbox.file_len, offset },
            )
            &&& known && inbox.file_len >= offset ==> {
                &&& n < bytes.len() && n < 4098 ==> found == Ok::<Option<RecordData>, InboxHold>(
                    Some(
                        RecordData {
                            event_offset: offset,
                            next_offset: (offset + n + 1) as u64,
                            event: event_of_line(bytes.take(n as int)),
                        },
                    ),
                )
                &&& n == bytes.len() && n <= 4096 ==> found == Ok::<
                    Option<RecordData>,
                    InboxHold,
                >(None)
                &&& n == bytes.len() && n > 4096 || n >= 4098 ==> (found matches Err(
                    InboxHold::Unterminated { offset: at, inspected },
                ) && at == offset && inspected <= 4098)
            }
        }),
{
    lemma_line_length_is(inbox.bytes@, n);
}

/// The limits of the listener.
pub proof fn law_listener_limits()
    ensures
        MIN_PERIODIC_SECONDS == 60,
        MAX_PERIODIC_SECONDS == 0x7fff_ffff_ffff_ffff,
        MIN_POLL_MILLIS == 100,
        HELD_EVENT_RETRY_DELAY == 1_000_000_000,
        ATTENTION_EVENT_VERSION == 1,
        MAX_EVENT_LINE_BYTES == 4096,
        MAX_INBOX_SCAN_BYTES == 4098,
        LISTENER_STATE_VERSION == 2,
        MAX_SEEN_EVENT_IDS == 1024,
{
}

/// A listener that finds an attempt pending says which: its kind, its event and its thread.
pub proof fn law_pending_attempts_are_named(attempt: AttemptData)
    ensures
        ({
            let kind = match attempt.kind {
                ThreadAttentionKind::Mention => "mention"@,
                ThreadAttentionKind::DirectedResponse => "directedResponse"@,
                ThreadAttentionKind::Periodic => "periodic"@,
            };
            pending_message(attempt) == "AMBIGUOUS EFFECT HOLD: pending "@ + kind
                + " attention attempt "@ + attempt.event_id + " for thread "@ + attempt.thread_id
                + " must be reconciled before restart"@
        }),
{
}

/// What fails a listener is told with what it concerns: the event whose request was refused, or the
/// event of which the effect is not known.
pub proof fn law_failures_name_their_event(event_id: Seq<char>, events_path: Seq<char>)
    ensures
        stands_in(
            event_id,
            failure_message(FailureData::Refused { event_id }, events_path),
        ),
        stands_in(
            event_id,
            failure_message(FailureData::Ambiguous { event_id }, events_path),
        ),
        failure_message(FailureData::Refused { event_id }, events_path) != failure_message(
            FailureData::Ambiguous { event_id },
            events_path,
        ),
{
    reveal_strlit("attention request rejected before effect for event ");
    reveal_strlit("AMBIGUOUS EFFECT HOLD: attention admission for event ");
    let refused = failure_message(FailureData::Refused { event_id }, events_path);
    let unknown = failure_message(FailureData::Ambiguous { event_id }, events_path);
    let head = "attention request rejected before effect for event "@;
    lemma_stands_between(head, event_id, Seq::<char>::empty());
    assert(refused =~= head + event_id + Seq::<char>::empty());
    lemma_stands_between(
        "AMBIGUOUS EFFECT HOLD: attention admission for event "@,
        event_id,
        " is unknown; pending attempt retained"@,
    );
    assert(refused[0] == 'a' && unknown[0] == 'A');
}

/// A hold on the inbox fails the listener with that hold, and neither writes nor tells anything; the
/// state stays as it was.
pub proof fn law_held_inboxes_change_nothing(listener: ListenerData, hold: InboxHold)
    ensures
        ({
            let (after, plan) = inbox_refused(listener, hold);
            &&& after.state == listener.state
            &&& after.phase == Phase::Idle
            &&& plan.effects.len() == 0
            &&& plan.next == (NextData::Fail { failure: FailureData::Inbox { hold } })
        }),
{
}

/// A line of at most 4096 bytes is the event that its document says, and a longer one is too long
/// whatever it says.
pub proof fn law_events_are_bounded(line: Seq<char>)
    ensures
        byte_len(line) > 4096 ==> parsed_event(line) == Err::<EventData, EventError>(
            EventError::TooLong,
        ),
        byte_len(line) <= 4096 ==> parsed_event(line) == event_of_document(
            parsed_without_repeats(line),
        ),
{
}

/// A document is taken for an event exactly where it reads as one that is accepted; a member that no
/// event has is told apart from any other fault of its form.
pub proof fn law_documents_that_are_events(json: JsonTree, event: EventData)
    ensures
        event_of_document(Some(json)) == Ok::<EventData, EventError>(event) <==> decoded_event(json)
            == Some(event) && event_fault(event) is None,
        decoded_event(json) == Some(event) ==> (event_fault(event) matches Some(error)
            ==> event_of_document(Some(json)) == Err::<EventData, EventError>(error)),
        event_of_document(None) == Err::<EventData, EventError>(
            EventError::NotTypedJson { unknown_field: false },
        ),
        json matches JsonTree::Object(members) ==> (event_of_document(Some(json)) == Err::<
            EventData,
            EventError,
        >(EventError::NotTypedJson { unknown_field: true }) <==> exists|i: int|
            {
                &&& 0 <= i < members.len()
                &&& (#[trigger] members[i]).0 != "version"@
                &&& members[i].0 != "eventId"@
                &&& members[i].0 != "kind"@
                &&& members[i].0 != "source"@
                &&& members[i].0 != "reference"@
            }),
{
    let fields = seq!["version"@, "eventId"@, "kind"@, "source"@, "reference"@];
    assert forall|name: Seq<char>| #[trigger] fields.contains(name) <==> name == "version"@ || name
        == "eventId"@ || name == "kind"@ || name == "source"@ || name == "reference"@ by {
        assert(fields[0] == "version"@ && fields[1] == "eventId"@ && fields[2] == "kind"@
            && fields[3] == "source"@ && fields[4] == "reference"@);
    }
}

} // verus!
