//! The lines that a listener reports, one document each.

use vstd::prelude::*;
use vstd::string::*;

use crate::attention::{attention_kind_name, kind_name, ThreadAttentionHeldReason};
use crate::json::{
    json_line, member_trees, named, object_of, signed_json, signed_tree, text_json, write_json_line,
    Json, JsonTree,
};
use crate::listen::state::{AttemptData, PendingAttempt};
use crate::listen::state_file::{optional_number_json, optional_number_tree};

verus! {

/// The name of a held reason in a report.
pub open spec fn reason_name(reason: ThreadAttentionHeldReason) -> Seq<char> {
    match reason {
        ThreadAttentionHeldReason::PendingTriggerTurn => "pendingTriggerTurn"@,
        ThreadAttentionHeldReason::PlanMode => "planMode"@,
        ThreadAttentionHeldReason::Busy => "busy"@,
    }
}

fn write_reason(reason: ThreadAttentionHeldReason) -> (name: &'static str)
    ensures
        name@ == reason_name(reason),
{
    match reason {
        ThreadAttentionHeldReason::PendingTriggerTurn => "pendingTriggerTurn",
        ThreadAttentionHeldReason::PlanMode => "planMode",
        ThreadAttentionHeldReason::Busy => "busy",
    }
}

/// An attempt was left pending by an earlier run.
pub open spec fn pending_tree(attempt: AttemptData) -> JsonTree {
    JsonTree::Object(
        seq![
            ("attemptedAt"@, signed_tree(attempt.attempted_at)),
            ("eventId"@, JsonTree::Text(attempt.event_id)),
            ("eventOffset"@, optional_number_tree(attempt.event_offset)),
            ("kind"@, JsonTree::Text(kind_name(attempt.kind))),
            ("nextEventOffset"@, optional_number_tree(attempt.next_event_offset)),
            ("outcome"@, JsonTree::Text("ambiguous"@)),
            ("threadId"@, JsonTree::Text(attempt.thread_id)),
        ],
    )
}

/// Reports an attempt that an earlier run left pending.
pub fn pending_report(attempt: &PendingAttempt) -> (line: String)
    ensures
        line@ == json_line(pending_tree(attempt@)),
{
    let members = vec![
        named("attemptedAt", signed_json(attempt.attempted_at)),
        named("eventId", text_json(attempt.event_id.as_str())),
        named("eventOffset", optional_number_json(attempt.event_offset)),
        named("kind", text_json(attention_kind_name(attempt.kind))),
        named("nextEventOffset", optional_number_json(attempt.next_event_offset)),
        named("outcome", text_json("ambiguous")),
        named("threadId", text_json(attempt.thread_id.as_str())),
    ];
    let ghost trees = member_trees(members@);
    let json = object_of(members);
    assert(trees =~= pending_tree(attempt@)->Object_0);
    write_json_line(&json)
}

/// The effect of a request is not known.
pub open spec fn ambiguous_tree(attempt: AttemptData, error: Seq<char>) -> JsonTree {
    JsonTree::Object(
        seq![
            ("attemptedAt"@, signed_tree(attempt.attempted_at)),
            ("error"@, JsonTree::Text(error)),
            ("eventId"@, JsonTree::Text(attempt.event_id)),
            ("eventOffset"@, optional_number_tree(attempt.event_offset)),
            ("kind"@, JsonTree::Text(kind_name(attempt.kind))),
            ("nextEventOffset"@, optional_number_tree(attempt.next_event_offset)),
            ("outcome"@, JsonTree::Text("ambiguous"@)),
            ("threadId"@, JsonTree::Text(attempt.thread_id)),
        ],
    )
}

/// Reports a request whose effect is not known.
pub fn ambiguous_report(attempt: &PendingAttempt, error: &str) -> (line: String)
    ensures
        line@ == json_line(ambiguous_tree(attempt@, error@)),
{
    let members = vec![
        named("attemptedAt", signed_json(attempt.attempted_at)),
        named("error", text_json(error)),
        named("eventId", text_json(attempt.event_id.as_str())),
        named("eventOffset", optional_number_json(attempt.event_offset)),
        named("kind", text_json(attention_kind_name(attempt.kind))),
        named("nextEventOffset", optional_number_json(attempt.next_event_offset)),
        named("outcome", text_json("ambiguous")),
        named("threadId", text_json(attempt.thread_id.as_str())),
    ];
    let ghost trees = member_trees(members@);
    let json = object_of(members);
    assert(trees =~= ambiguous_tree(attempt@, error@)->Object_0);
    write_json_line(&json)
}

/// The listener is subscribed and waits.
pub open spec fn listening_tree(
    thread_id: Seq<char>,
    events: Option<Seq<char>>,
    state: Seq<char>,
    periodic_seconds: Option<u64>,
) -> JsonTree {
    JsonTree::Object(
        seq![
            (
                "events"@,
                match events {
                    Some(path) => JsonTree::Text(path),
                    None => JsonTree::Null,
                },
            ),
            ("outcome"@, JsonTree::Text("listening"@)),
            ("periodicSeconds"@, optional_number_tree(periodic_seconds)),
            ("state"@, JsonTree::Text(state)),
            ("subscription"@, JsonTree::Text("threadResume"@)),
            ("threadId"@, JsonTree::Text(thread_id)),
        ],
    )
}

/// The characters of an optional path.
pub open spec fn path_view(path: Option<&str>) -> Option<Seq<char>> {
    match path {
        Some(p) => Some(p@),
        None => None,
    }
}

/// Reports that the listener is subscribed and waits.
pub fn listening_report(
    thread_id: &str,
    events: Option<&str>,
    state: &str,
    periodic_seconds: Option<u64>,
) -> (line: String)
    ensures
        line@ == json_line(
            listening_tree(thread_id@, path_view(events), state@, periodic_seconds),
        ),
{
    let events_json = match events {
        Some(path) => text_json(path),
        None => Json::Null,
    };
    let members = vec![
        named("events", events_json),
        named("outcome", text_json("listening")),
        named("periodicSeconds", optional_number_json(periodic_seconds)),
        named("state", text_json(state)),
        named("subscription", text_json("threadResume")),
        named("threadId", text_json(thread_id)),
    ];
    let ghost trees = member_trees(members@);
    let json = object_of(members);
    assert(trees =~= listening_tree(
        thread_id@,
        path_view(events),
        state@,
        periodic_seconds,
    )->Object_0);
    write_json_line(&json)
}

/// A line of the inbox is no event.
pub open spec fn bad_line_tree(offset: u64, error: Seq<char>) -> JsonTree {
    JsonTree::Object(
        seq![
            ("error"@, JsonTree::Text(error)),
            ("offset"@, JsonTree::Unsigned(offset)),
            ("outcome"@, JsonTree::Text("rejected"@)),
        ],
    )
}

/// Reports a line of the inbox that is no event.
pub fn bad_line_report(offset: u64, error: &str) -> (line: String)
    ensures
        line@ == json_line(bad_line_tree(offset, error@)),
{
    let members = vec![
        named("error", text_json(error)),
        named("offset", Json::Unsigned(offset)),
        named("outcome", text_json("rejected")),
    ];
    let ghost trees = member_trees(members@);
    let json = object_of(members);
    assert(trees =~= bad_line_tree(offset, error@)->Object_0);
    write_json_line(&json)
}

/// An event was seen before.
pub open spec fn duplicate_tree(event_id: Seq<char>) -> JsonTree {
    JsonTree::Object(
        seq![
            ("eventId"@, JsonTree::Text(event_id)),
            ("outcome"@, JsonTree::Text("duplicate"@)),
        ],
    )
}

/// Reports an event that was seen before.
pub fn duplicate_report(event_id: &str) -> (line: String)
    ensures
        line@ == json_line(duplicate_tree(event_id@)),
{
    let members = vec![
        named("eventId", text_json(event_id)),
        named("outcome", text_json("duplicate")),
    ];
    let ghost trees = member_trees(members@);
    let json = object_of(members);
    assert(trees =~= duplicate_tree(event_id@)->Object_0);
    write_json_line(&json)
}

/// The thread was woken.
pub open spec fn started_tree(attempt: AttemptData, thread_id: Seq<char>) -> JsonTree {
    JsonTree::Object(
        seq![
            ("claim"@, JsonTree::Text("admissionOnly"@)),
            ("eventId"@, JsonTree::Text(attempt.event_id)),
            ("kind"@, JsonTree::Text(kind_name(attempt.kind))),
            ("outcome"@, JsonTree::Text("started"@)),
            ("threadId"@, JsonTree::Text(thread_id)),
        ],
    )
}

/// Reports that the thread was woken.
pub fn started_report(attempt: &PendingAttempt, thread_id: &str) -> (line: String)
    ensures
        line@ == json_line(started_tree(attempt@, thread_id@)),
{
    let members = vec![
        named("claim", text_json("admissionOnly")),
        named("eventId", text_json(attempt.event_id.as_str())),
        named("kind", text_json(attention_kind_name(attempt.kind))),
        named("outcome", text_json("started")),
        named("threadId", text_json(thread_id)),
    ];
    let ghost trees = member_trees(members@);
    let json = object_of(members);
    assert(trees =~= started_tree(attempt@, thread_id@)->Object_0);
    write_json_line(&json)
}

/// The thread could not take the request up.
pub open spec fn held_tree(
    attempt: AttemptData,
    thread_id: Seq<char>,
    reason: ThreadAttentionHeldReason,
) -> JsonTree {
    JsonTree::Object(
        seq![
            ("eventId"@, JsonTree::Text(attempt.event_id)),
            ("kind"@, JsonTree::Text(kind_name(attempt.kind))),
            ("outcome"@, JsonTree::Text("held"@)),
            ("reason"@, JsonTree::Text(reason_name(reason))),
            ("threadId"@, JsonTree::Text(thread_id)),
        ],
    )
}

/// Reports that the thread could not take the request up.
pub fn held_report(
    attempt: &PendingAttempt,
    thread_id: &str,
    reason: ThreadAttentionHeldReason,
) -> (line: String)
    ensures
        line@ == json_line(held_tree(attempt@, thread_id@, reason)),
{
    let members = vec![
        named("eventId", text_json(attempt.event_id.as_str())),
        named("kind", text_json(attention_kind_name(attempt.kind))),
        named("outcome", text_json("held")),
        named("reason", text_json(write_reason(reason))),
        named("threadId", text_json(thread_id)),
    ];
    let ghost trees = member_trees(members@);
    let json = object_of(members);
    assert(trees =~= held_tree(attempt@, thread_id@, reason)->Object_0);
    write_json_line(&json)
}

/// The request was refused before it had an effect.
pub open spec fn refused_tree(attempt: AttemptData, code: i64, error: Seq<char>) -> JsonTree {
    JsonTree::Object(
        seq![
            ("code"@, signed_tree(code)),
            ("error"@, JsonTree::Text(error)),
            ("eventId"@, JsonTree::Text(attempt.event_id)),
            ("kind"@, JsonTree::Text(kind_name(attempt.kind))),
            ("outcome"@, JsonTree::Text("rejected"@)),
            ("threadId"@, JsonTree::Text(attempt.thread_id)),
        ],
    )
}

/// Reports a request that was refused before it had an effect.
pub fn refused_report(attempt: &PendingAttempt, code: i64, error: &str) -> (line: String)
    ensures
        line@ == json_line(refused_tree(attempt@, code, error@)),
{
    let members = vec![
        named("code", signed_json(code)),
        named("error", text_json(error)),
        named("eventId", text_json(attempt.event_id.as_str())),
        named("kind", text_json(attention_kind_name(attempt.kind))),
        named("outcome", text_json("rejected")),
        named("threadId", text_json(attempt.thread_id.as_str())),
    ];
    let ghost trees = member_trees(members@);
    let json = object_of(members);
    assert(trees =~= refused_tree(attempt@, code, error@)->Object_0);
    write_json_line(&json)
}

} // verus!
