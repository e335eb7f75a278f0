//! What the lines that a listener prints say.

use vstd::prelude::*;
use vstd::string::*;

use crate::attention::{ThreadAttentionHeldReason, ThreadAttentionKind};
use crate::json::{get, JsonTree};
use crate::listen::report::{
    ambiguous_tree, bad_line_tree, duplicate_tree, held_tree, listening_tree, pending_tree,
    refused_tree, started_tree,
};
use crate::listen::state::AttemptData;
use crate::reading::{counts, law_the_last_member_of_a_name_counts};

verus! {

/// A value names a kind of attention.
pub open spec fn says_kind(value: Option<JsonTree>, kind: ThreadAttentionKind) -> bool {
    value == Some(
        JsonTree::Text(
            match kind {
                ThreadAttentionKind::Mention => "mention"@,
                ThreadAttentionKind::DirectedResponse => "directedResponse"@,
                ThreadAttentionKind::Periodic => "periodic"@,
            },
        ),
    )
}

/// A value is a number, or null where there is none.
pub open spec fn says_number(value: Option<JsonTree>, n: Option<u64>) -> bool {
    match n {
        Some(m) => value == Some(JsonTree::Unsigned(m)),
        None => value == Some(JsonTree::Null),
    }
}

/// Every value of an object is found under its name, where no two names have the same length and the
/// same first letter.
proof fn lemma_each_value_is_found(json: JsonTree)
    requires
        json is Object,
        forall|i: int, j: int|
            0 <= i < j < json->Object_0.len() ==> (#[trigger] json->Object_0[i]).0.len() != (
            #[trigger] json->Object_0[j]).0.len() || json->Object_0[i].0[0]
                != json->Object_0[j].0[0],
    ensures
        forall|i: int|
            0 <= i < json->Object_0.len() ==> get(json, (#[trigger] json->Object_0[i]).0) == Some(
                json->Object_0[i].1,
            ),
{
    let members = json->Object_0;
    assert forall|i: int| 0 <= i < members.len() implies get(json, (#[trigger] members[i]).0)
        == Some(members[i].1) by {
        law_the_last_member_of_a_name_counts(members, members[i].0, i);
    }
}

/// What is told of an attempt that a restart finds pending: that its effect is ambiguous, and all that
/// the attempt holds.
pub proof fn law_pending_report(attempt: AttemptData)
    ensures
        ({
            let report = pending_tree(attempt);
            &&& report is Object
            &&& report->Object_0.len() == 7
            &&& counts(get(report, "attemptedAt"@), attempt.attempted_at as int)
            &&& get(report, "eventId"@) == Some(JsonTree::Text(attempt.event_id))
            &&& says_number(get(report, "eventOffset"@), attempt.event_offset)
            &&& says_kind(get(report, "kind"@), attempt.kind)
            &&& says_number(get(report, "nextEventOffset"@), attempt.next_event_offset)
            &&& get(report, "outcome"@) == Some(JsonTree::Text("ambiguous"@))
            &&& get(report, "threadId"@) == Some(JsonTree::Text(attempt.thread_id))
        }),
{
    reveal_strlit("attemptedAt");
    reveal_strlit("eventId");
    reveal_strlit("eventOffset");
    reveal_strlit("kind");
    reveal_strlit("nextEventOffset");
    reveal_strlit("outcome");
    reveal_strlit("threadId");
    let report = pending_tree(attempt);
    let members = report->Object_0;
    assert(members[0].0 == "attemptedAt"@);
    assert(members[1].0 == "eventId"@);
    assert(members[2].0 == "eventOffset"@);
    assert(members[3].0 == "kind"@);
    assert(members[4].0 == "nextEventOffset"@);
    assert(members[5].0 == "outcome"@);
    assert(members[6].0 == "threadId"@);
    lemma_each_value_is_found(report);
}

/// What is told of an attempt whose answer is not known: why, and all that the attempt holds.
pub proof fn law_ambiguous_report(attempt: AttemptData, error: Seq<char>)
    ensures
        ({
            let report = ambiguous_tree(attempt, error);
            &&& report is Object
            &&& report->Object_0.len() == 8
            &&& counts(get(report, "attemptedAt"@), attempt.attempted_at as int)
            &&& get(report, "error"@) == Some(JsonTree::Text(error))
            &&& get(report, "eventId"@) == Some(JsonTree::Text(attempt.event_id))
            &&& says_number(get(report, "eventOffset"@), attempt.event_offset)
            &&& says_kind(get(report, "kind"@), attempt.kind)
            &&& says_number(get(report, "nextEventOffset"@), attempt.next_event_offset)
            &&& get(report, "outcome"@) == Some(JsonTree::Text("ambiguous"@))
            &&& get(report, "threadId"@) == Some(JsonTree::Text(attempt.thread_id))
        }),
{
    reveal_strlit("attemptedAt");
    reveal_strlit("error");
    reveal_strlit("eventId");
    reveal_strlit("eventOffset");
    reveal_strlit("kind");
    reveal_strlit("nextEventOffset");
    reveal_strlit("outcome");
    reveal_strlit("threadId");
    let report = ambiguous_tree(attempt, error);
    let members = report->Object_0;
    assert(members[0].0 == "attemptedAt"@);
    assert(members[1].0 == "error"@);
    assert(members[2].0 == "eventId"@);
    assert(members[3].0 == "eventOffset"@);
    assert(members[4].0 == "kind"@);
    assert(members[5].0 == "nextEventOffset"@);
    assert(members[6].0 == "outcome"@);
    assert(members[7].0 == "threadId"@);
    lemma_each_value_is_found(report);
}

/// What is told of an attempt that was started: its event, its kind and its thread, and that no more
/// than the admission is claimed.
pub proof fn law_started_report(attempt: AttemptData, thread_id: Seq<char>)
    ensures
        ({
            let report = started_tree(attempt, thread_id);
            &&& report is Object
            &&& report->Object_0.len() == 5
            &&& get(report, "claim"@) == Some(JsonTree::Text("admissionOnly"@))
            &&& get(report, "eventId"@) == Some(JsonTree::Text(attempt.event_id))
            &&& says_kind(get(report, "kind"@), attempt.kind)
            &&& get(report, "outcome"@) == Some(JsonTree::Text("started"@))
            &&& get(report, "threadId"@) == Some(JsonTree::Text(thread_id))
        }),
{
    reveal_strlit("claim");
    reveal_strlit("eventId");
    reveal_strlit("kind");
    reveal_strlit("outcome");
    reveal_strlit("threadId");
    let report = started_tree(attempt, thread_id);
    let members = report->Object_0;
    assert(members[0].0 == "claim"@);
    assert(members[1].0 == "eventId"@);
    assert(members[2].0 == "kind"@);
    assert(members[3].0 == "outcome"@);
    assert(members[4].0 == "threadId"@);
    lemma_each_value_is_found(report);
}

/// What is told of an attempt that was held: its event, its kind and its thread, and why.
pub proof fn law_held_report(attempt: AttemptData, thread_id: Seq<char>, reason: ThreadAttentionHeldReason)
    ensures
        ({
            let report = held_tree(attempt, thread_id, reason);
            &&& report is Object
            &&& report->Object_0.len() == 5
            &&& get(report, "eventId"@) == Some(JsonTree::Text(attempt.event_id))
            &&& says_kind(get(report, "kind"@), attempt.kind)
            &&& get(report, "outcome"@) == Some(JsonTree::Text("held"@))
            &&& get(report, "reason"@) == Some(
                JsonTree::Text(
                    match reason {
                        ThreadAttentionHeldReason::PendingTriggerTurn => "pendingTriggerTurn"@,
                        ThreadAttentionHeldReason::PlanMode => "planMode"@,
                        ThreadAttentionHeldReason::Busy => "busy"@,
                    },
                ),
            )
            &&& get(report, "threadId"@) == Some(JsonTree::Text(thread_id))
        }),
{
    reveal_strlit("eventId");
    reveal_strlit("kind");
    reveal_strlit("outcome");
    reveal_strlit("reason");
    reveal_strlit("threadId");
    let report = held_tree(attempt, thread_id, reason);
    let members = report->Object_0;
    assert(members[0].0 == "eventId"@);
    assert(members[1].0 == "kind"@);
    assert(members[2].0 == "outcome"@);
    assert(members[3].0 == "reason"@);
    assert(members[4].0 == "threadId"@);
    lemma_each_value_is_found(report);
}

/// What is told of an attempt that was refused: the code and the message of the refusal, its event,
/// its kind and its thread.
pub proof fn law_refused_report(attempt: AttemptData, code: i64, error: Seq<char>)
    ensures
        ({
            let report = refused_tree(attempt, code, error);
            &&& report is Object
            &&& report->Object_0.len() == 6
            &&& counts(get(report, "code"@), code as int)
            &&& get(report, "error"@) == Some(JsonTree::Text(error))
            &&& get(report, "eventId"@) == Some(JsonTree::Text(attempt.event_id))
            &&& says_kind(get(report, "kind"@), attempt.kind)
            &&& get(report, "outcome"@) == Some(JsonTree::Text("rejected"@))
            &&& get(report, "threadId"@) == Some(JsonTree::Text(attempt.thread_id))
        }),
{
    reveal_strlit("code");
    reveal_strlit("error");
    reveal_strlit("eventId");
    reveal_strlit("kind");
    reveal_strlit("outcome");
    reveal_strlit("threadId");
    let report = refused_tree(attempt, code, error);
    let members = report->Object_0;
    assert(members[0].0 == "code"@);
    assert(members[1].0 == "error"@);
    assert(members[2].0 == "eventId"@);
    assert(members[3].0 == "kind"@);
    assert(members[4].0 == "outcome"@);
    assert(members[5].0 == "threadId"@);
    lemma_each_value_is_found(report);
}

/// What is told of a line that is no event: where it stands and what is wrong with it.
pub proof fn law_bad_line_report(offset: u64, error: Seq<char>)
    ensures
        ({
            let report = bad_line_tree(offset, error);
            &&& report is Object
            &&& report->Object_0.len() == 3
            &&& get(report, "error"@) == Some(JsonTree::Text(error))
            &&& get(report, "offset"@) == Some(JsonTree::Unsigned(offset))
            &&& get(report, "outcome"@) == Some(JsonTree::Text("rejected"@))
        }),
{
    reveal_strlit("error");
    reveal_strlit("offset");
    reveal_strlit("outcome");
    let report = bad_line_tree(offset, error);
    let members = report->Object_0;
    assert(members[0].0 == "error"@);
    assert(members[1].0 == "offset"@);
    assert(members[2].0 == "outcome"@);
    lemma_each_value_is_found(report);
}

/// What is told of an event that was seen before: its id.
pub proof fn law_duplicate_report(event_id: Seq<char>)
    ensures
        ({
            let report = duplicate_tree(event_id);
            &&& report is Object
            &&& report->Object_0.len() == 2
            &&& get(report, "eventId"@) == Some(JsonTree::Text(event_id))
            &&& get(report, "outcome"@) == Some(JsonTree::Text("duplicate"@))
        }),
{
    reveal_strlit("eventId");
    reveal_strlit("outcome");
    let report = duplicate_tree(event_id);
    let members = report->Object_0;
    assert(members[0].0 == "eventId"@);
    assert(members[1].0 == "outcome"@);
    lemma_each_value_is_found(report);
}

/// What is told when the listener starts to listen: its thread, its inbox, its state file and its
/// cadence, each as far as there is one.
pub proof fn law_listening_report(thread_id: Seq<char>, events: Option<Seq<char>>, state: Seq<char>, periodic_seconds: Option<u64>)
    ensures
        ({
            let report = listening_tree(thread_id, events, state, periodic_seconds);
            &&& report is Object
            &&& report->Object_0.len() == 6
            &&& get(report, "events"@) == Some(
                match events {
                    Some(path) => JsonTree::Text(path),
                    None => JsonTree::Null,
                },
            )
            &&& get(report, "outcome"@) == Some(JsonTree::Text("listening"@))
            &&& says_number(get(report, "periodicSeconds"@), periodic_seconds)
            &&& get(report, "state"@) == Some(JsonTree::Text(state))
            &&& get(report, "subscription"@) == Some(JsonTree::Text("threadResume"@))
            &&& get(report, "threadId"@) == Some(JsonTree::Text(thread_id))
        }),
{
    reveal_strlit("events");
    reveal_strlit("outcome");
    reveal_strlit("periodicSeconds");
    reveal_strlit("state");
    reveal_strlit("subscription");
    reveal_strlit("threadId");
    let report = listening_tree(thread_id, events, state, periodic_seconds);
    let members = report->Object_0;
    assert(members[0].0 == "events"@);
    assert(members[1].0 == "outcome"@);
    assert(members[2].0 == "periodicSeconds"@);
    assert(members[3].0 == "state"@);
    assert(members[4].0 == "subscription"@);
    assert(members[5].0 == "threadId"@);
    lemma_each_value_is_found(report);
}

} // verus!
