//! How the documents of the listener are read: its events and its state.

use vstd::prelude::*;
use vstd::string::*;

use crate::attention::ThreadAttentionKind;
use crate::json::{json_page, JsonTree};
use crate::listen::event::{decoded_event, AttentionKind, EventData, InboxIdentity};
use crate::listen::state::{AttemptData, StateData};
use crate::listen::state_file::{
    decoded_attempt, decoded_identity, decoded_state, load_fault, loaded_state, state_file,
    state_of_document, state_tree, LoadError,
};
use crate::listen::state_text::{
    after_space, document_of, holds, identity_span, kept_members, pruned, span_at, state_document,
    Span,
};
use crate::reading::{counts, field_of, law_lists_of_texts, lists, missing, names, shaped};

verus! {

/// A document is read as an event exactly where it has nothing but the members of one, and each says
/// what the event holds: the version, the id, the kind by its name, the source and the reference.
pub proof fn law_events_are_read_by_their_members(json: JsonTree, event: EventData)
    ensures
        decoded_event(json) == Some(event) <==> {
            &&& shaped(json, seq!["version"@, "eventId"@, "kind"@, "source"@, "reference"@])
            &&& field_of(json, "version"@, 0) == Some(JsonTree::Unsigned(event.version as u64))
            &&& field_of(json, "eventId"@, 1) == Some(JsonTree::Text(event.event_id))
            &&& event.kind == AttentionKind::Mention ==> names(
                field_of(json, "kind"@, 2),
                "mention"@,
            )
            &&& event.kind == AttentionKind::DirectedResponse ==> names(
                field_of(json, "kind"@, 2),
                "directedResponse"@,
            )
            &&& field_of(json, "source"@, 3) == Some(JsonTree::Text(event.source))
            &&& field_of(json, "reference"@, 4) == Some(JsonTree::Text(event.reference))
        },
{
    reveal_strlit("mention");
    reveal_strlit("directedResponse");
    assert("mention"@.len() != "directedResponse"@.len());
}

/// A document is read as a pending attempt exactly where it has nothing but the members of one, and
/// each says what the attempt holds. An offset that is missing or null is none.
pub proof fn law_attempts_are_read_by_their_members(json: JsonTree, attempt: AttemptData)
    ensures
        decoded_attempt(json) == Some(attempt) <==> {
            &&& shaped(
                json,
                seq![
                    "threadId"@,
                    "eventId"@,
                    "kind"@,
                    "eventOffset"@,
                    "nextEventOffset"@,
                    "attemptedAt"@,
                ],
            )
            &&& field_of(json, "threadId"@, 0) == Some(JsonTree::Text(attempt.thread_id))
            &&& field_of(json, "eventId"@, 1) == Some(JsonTree::Text(attempt.event_id))
            &&& names(
                field_of(json, "kind"@, 2),
                match attempt.kind {
                    ThreadAttentionKind::Mention => "mention"@,
                    ThreadAttentionKind::DirectedResponse => "directedResponse"@,
                    ThreadAttentionKind::Periodic => "periodic"@,
                },
            )
            &&& match attempt.event_offset {
                Some(n) => field_of(json, "eventOffset"@, 3) == Some(JsonTree::Unsigned(n)),
                None => missing(field_of(json, "eventOffset"@, 3)),
            }
            &&& match attempt.next_event_offset {
                Some(n) => field_of(json, "nextEventOffset"@, 4) == Some(JsonTree::Unsigned(n)),
                None => missing(field_of(json, "nextEventOffset"@, 4)),
            }
            &&& counts(field_of(json, "attemptedAt"@, 5), attempt.attempted_at as int)
        },
{
    reveal_strlit("mention");
    reveal_strlit("directedResponse");
    reveal_strlit("periodic");
    assert("mention"@.len() != "directedResponse"@.len());
    assert("mention"@.len() != "periodic"@.len());
    assert("periodic"@.len() != "directedResponse"@.len());
}

/// A value is read as the identity of an inbox exactly where it says its device and its inode, and
/// as none where it is missing. Other members beside them are passed over.
pub proof fn law_identities_are_read_by_their_members(json: JsonTree, identity: InboxIdentity)
    ensures
        decoded_identity(None) == Some(None::<InboxIdentity>),
        decoded_identity(Some(JsonTree::Null)) == Some(None::<InboxIdentity>),
        decoded_identity(Some(json)) == Some(Some(identity)) <==> {
            &&& json is Object || json is Array && json->Array_0.len() == 2
            &&& field_of(json, "device"@, 0) == Some(JsonTree::Unsigned(identity.device))
            &&& field_of(json, "inode"@, 1) == Some(JsonTree::Unsigned(identity.inode))
        },
{
}

/// A document is read as a state exactly where it has nothing but the members of one, and each says
/// what the state holds.
pub proof fn law_states_are_read_by_their_members(json: JsonTree, state: StateData)
    ensures
        decoded_state(json) == Some(state) <==> {
            let pending = field_of(json, "pendingAttempt"@, 5);
            let last = field_of(json, "lastPeriodicAt"@, 4);
            &&& shaped(
                json,
                seq![
                    "version"@,
                    "eventOffset"@,
                    "inboxIdentity"@,
                    "seenEventIds"@,
                    "lastPeriodicAt"@,
                    "pendingAttempt"@,
                ],
            )
            &&& field_of(json, "version"@, 0) == Some(JsonTree::Unsigned(state.version as u64))
            &&& field_of(json, "eventOffset"@, 1) == Some(JsonTree::Unsigned(state.event_offset))
            &&& decoded_identity(field_of(json, "inboxIdentity"@, 2)) == Some(state.inbox_identity)
            &&& lists(field_of(json, "seenEventIds"@, 3), state.seen_event_ids)
            &&& match state.last_periodic_at {
                Some(at) => counts(last, at as int),
                None => missing(last),
            }
            &&& match state.pending_attempt {
                Some(attempt) => pending is Some && !(pending->0 is Null) && decoded_attempt(
                    pending->0,
                ) == Some(attempt),
                None => missing(pending),
            }
        },
{
    law_lists_of_texts(field_of(json, "seenEventIds"@, 3), state.seen_event_ids);
    assert(crate::json::text_list(field_of(json, "seenEventIds"@, 3)) == Some(state.seen_event_ids)
        <==> lists(field_of(json, "seenEventIds"@, 3), state.seen_event_ids));
}

/// A state is taken up only where it is of the second version, an offset past the start comes with
/// the identity of its inbox, and what is pending can be an attempt. Without a file, a listener
/// starts at the start of an inbox that it is yet to be bound to, with nothing seen and nothing
/// pending.
pub proof fn law_states_that_are_taken_up(json: JsonTree, state: StateData)
    ensures
        state_of_document(Some(json)) == Ok::<StateData, LoadError>(state) <==> {
            &&& decoded_state(json) == Some(state)
            &&& state.version == 2
            &&& state.event_offset > 0 ==> state.inbox_identity is Some
            &&& state.pending_attempt matches Some(attempt) ==> crate::listen::state::attempt_fault(
                attempt,
            ) is None
        },
        state_of_document(None) == Err::<StateData, LoadError>(LoadError::Unreadable),
        decoded_state(json) is None ==> state_of_document(Some(json)) == Err::<
            StateData,
            LoadError,
        >(LoadError::Unreadable),
        state.version != 2 ==> load_fault(state) == Some(
            LoadError::UnsupportedVersion { version: state.version },
        ),
        state.version == 2 && state.event_offset > 0 && state.inbox_identity is None ==> load_fault(
            state,
        ) == Some(LoadError::UnboundOffset { offset: state.event_offset }),
        loaded_state(None) matches Ok(first) && first.version == 2 && first.event_offset == 0
            && first.inbox_identity is None && first.seen_event_ids.len() == 0
            && first.last_periodic_at is None && first.pending_attempt is None,
{
}

/// A state file that reads as a document is taken as it is; only one that does not is read once more
/// without what is ignored of its identity.
pub proof fn law_readable_states_are_taken_whole(bytes: Seq<u8>)
    ensures
        document_of(bytes) is Some ==> state_document(bytes) == document_of(bytes),
        document_of(bytes) is None ==> (pruned(bytes) matches Some(rest) ==> state_document(bytes)
            == document_of(rest)),
        document_of(bytes) is None && pruned(bytes) is None ==> state_document(bytes) is None,
{
}

/// White space is passed over and nothing else: spaces, tabs, line breaks and carriage returns.
pub proof fn law_white_space_is_passed_over(bytes: Seq<u8>, at: int)
    requires
        0 <= at <= bytes.len(),
    ensures
        ({
            let stop = after_space(bytes, at);
            &&& at <= stop <= bytes.len()
            &&& forall|i: int|
                at <= i < stop ==> #[trigger] bytes[i] == 0x20 || bytes[i] == 0x09 || bytes[i]
                    == 0x0a || bytes[i] == 0x0d
            &&& stop < bytes.len() ==> bytes[stop] != 0x20 && bytes[stop] != 0x09 && bytes[stop]
                != 0x0a && bytes[stop] != 0x0d
        }),
    decreases bytes.len() - at,
{
    if at < bytes.len() && crate::listen::state_text::is_space(bytes[at]) {
        law_white_space_is_passed_over(bytes, at + 1);
    }
}

/// What is pruned of a state file is the inside of its identity: everything before the identity's
/// opening brace and behind its closing one stays, byte for byte.
pub proof fn law_only_the_identity_is_pruned(bytes: Seq<u8>, rest: Seq<u8>)
    requires
        pruned(bytes) == Some(rest),
    ensures
        exists|value: int, end: int, members: Seq<u8>|
            #[trigger] pruned_between(bytes, rest, value, end, members),
{
    let start = after_space(bytes, 0);
    let span = identity_span(bytes, start + 1, holds(bytes, start, 123), 0)->0;
    let members = kept_members(bytes.subrange(span.0, span.1), 1, Seq::empty())->0;
    assert(bytes.take(span.0).push(123) + members.push(125) + bytes.skip(span.1) =~= bytes.take(
        span.0,
    ) + seq![0x7bu8] + members + seq![0x7du8] + bytes.skip(span.1));
    assert(pruned_between(bytes, rest, span.0, span.1, members));
}

/// Some bytes are others with members put between two braces in place of the object at a place.
pub open spec fn pruned_between(
    bytes: Seq<u8>,
    rest: Seq<u8>,
    value: int,
    end: int,
    members: Seq<u8>,
) -> bool {
    &&& 0 <= value < bytes.len()
    &&& bytes[value] == 0x7b
    &&& rest == bytes.take(value) + seq![0x7bu8] + members + seq![0x7du8] + bytes.skip(end)
}

/// Of the members of an identity its device and its inode are kept, as they stand and with a comma
/// between them, and every other one is left out.
pub proof fn law_devices_and_inodes_are_kept(
    object: Seq<u8>,
    at: int,
    found: Seq<u8>,
    span: Span,
)
    requires
        span_at(object, at, true) == Some(span),
        at <= span.next < object.len(),
    ensures
        ({
            let member = object.subrange(span.start, span.end);
            let kept = if span.name == "device"@ || span.name == "inode"@ {
                if found.len() == 0 {
                    member
                } else {
                    found + seq![0x2cu8] + member
                }
            } else {
                found
            };
            &&& object[span.next] == 0x7d ==> kept_members(object, at, found) == Some(kept)
            &&& object[span.next] == 0x2c ==> kept_members(object, at, found) == kept_members(
                object,
                span.next + 1,
                kept,
            )
            &&& object[span.next] != 0x7d && object[span.next] != 0x2c ==> kept_members(
                object,
                at,
                found,
            ) is None
        }),
{
    assert(found.push(44) + object.subrange(span.start, span.end) =~= found + seq![0x2cu8]
        + object.subrange(span.start, span.end));
}

/// The identity of a state is the value of the member of its name, or the third value of a list; the
/// search goes on behind a comma, and ends without one.
pub proof fn law_the_identity_is_found_by_its_name(
    bytes: Seq<u8>,
    at: int,
    before: nat,
    in_object: bool,
    span: Span,
)
    requires
        span_at(bytes, at, in_object) == Some(span),
        at <= span.next < bytes.len(),
    ensures
        ({
            let found = if in_object {
                span.name == "inboxIdentity"@
            } else {
                before == 2
            };
            &&& found ==> identity_span(bytes, at, in_object, before) == Some(
                (span.value, span.end),
            )
            &&& !found && bytes[span.next] == 0x2c ==> identity_span(bytes, at, in_object, before)
                == identity_span(bytes, span.next + 1, in_object, before + 1)
            &&& !found && bytes[span.next] != 0x2c ==> identity_span(
                bytes,
                at,
                in_object,
                before,
            ) is None
        }),
{
}

/// The file of a state is the page of its document and a line's end.
pub proof fn law_state_files_end_their_line(state: StateData)
    ensures
        state_file(state).len() > 0,
        state_file(state).last() == '\n',
        state_file(state).drop_last() == json_page(state_tree(state)),
{
    reveal_strlit("\n");
    assert(state_file(state).drop_last() =~= json_page(state_tree(state)));
}

} // verus!
