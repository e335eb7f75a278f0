//! What the bridge keeps to: which events it takes for valid, what they ask for, and which frames
//! it follows.

use vstd::prelude::*;
use vstd::string::*;

use crate::atom::is_atom;
use crate::attention::{AttentionMetadata, ThreadAttentionKind, ThreadAttentionResponse};
use crate::bridge::event::{
    decoded_signal, event_attention, event_reference, event_valid, last_colon, namespace,
    sequence_number, targets_text, BridgeProtocol, SignalData, WorkspaceAttentionKind,
    WorkspaceSignal, WorkspaceWakeClass, MAX_REFERENCE_BYTES, MAX_TARGETS,
};
use crate::bridge::frame::{
    frame_error_name, frame_of, line_taken, outcome_settled, resolution_text, Awaited, BridgeEnd,
    FrameData, FrameError, RequestData, ScopeData, SessionData, StepData, WorkspaceSignalOutcome,
    MAX_FRAME_BYTES,
};
use crate::bridge::signal::{
    indicator_text, outcome_of, queued_at, request_attention, restart_step, shows_indicator, timing_text,
    RestartStep, RESTART_DELAY_MILLIS, RESTART_POLL_DELAY_MILLIS,
};
use crate::json::{comma_joined, get, json_literal, text_list, JsonTree};
use crate::reading::{field_of, law_lists_of_texts, lists, missing, names, shaped};
use crate::text::{byte_len, decimal, numeral};
use crate::time::{rfc3339_time, utc_millis};
use crate::writing::{
    lemma_few_parts_joined, lemma_object_is_read_back, lemma_plain_text_is_not_escaped,
    lemma_stands_between, read_object, stands_in, Told,
};

verus! {

/// The attention of a valid event of the second protocol follows from why it wakes: a chat of the
/// operator asks for a directed response, and a mention by a peer for a mention. Every other cause
/// leaves it to the signal: a tap asks for periodic attention, a cc for a directed response, and a
/// council for a mention. The thread is asked for the attention of that name.
pub proof fn law_attention_follows_the_wake_class(event: SignalData)
    requires
        event_valid(event, BridgeProtocol::V2),
    ensures
        event.wake_class == Some(WorkspaceWakeClass::PeerMention) ==> event.attention_kind == Some(
            WorkspaceAttentionKind::Mention,
        ) && event_attention(event) == ThreadAttentionKind::Mention,
        event.wake_class == Some(WorkspaceWakeClass::OperatorChat) ==> event.attention_kind
            == Some(WorkspaceAttentionKind::DirectedResponse) && event_attention(event)
            == ThreadAttentionKind::DirectedResponse,
        event.wake_class == Some(WorkspaceWakeClass::Unspecified) || event.wake_class == Some(
            WorkspaceWakeClass::PeriodicReview,
        ) || event.wake_class == Some(WorkspaceWakeClass::Manual) ==> {
            &&& event.signal == WorkspaceSignal::Tap ==> event.attention_kind == Some(
                WorkspaceAttentionKind::Periodic,
            ) && event_attention(event) == ThreadAttentionKind::Periodic
            &&& event.signal == WorkspaceSignal::Cc ==> event.attention_kind == Some(
                WorkspaceAttentionKind::DirectedResponse,
            ) && event_attention(event) == ThreadAttentionKind::DirectedResponse
            &&& event.signal == WorkspaceSignal::Council ==> event.attention_kind == Some(
                WorkspaceAttentionKind::Mention,
            ) && event_attention(event) == ThreadAttentionKind::Mention
        },
        event.wake_class is Some,
        event.attention_kind is Some,
{
}

/// A valid event of the second protocol that names its sources stays valid as a mention by a peer,
/// whatever its signal, where it asks for a mention; as a periodic review or a manual wake-up where
/// it asks for what its signal asks for; and as a chat of the operator where it is a tap to oneself
/// that asks for a directed response.
pub proof fn law_each_cause_has_its_attention(event: SignalData, kind: WorkspaceAttentionKind)
    requires
        event_valid(event, BridgeProtocol::V2),
        event.wake_class != Some(WorkspaceWakeClass::Unspecified),
    ensures
        event_valid(
            SignalData {
                wake_class: Some(WorkspaceWakeClass::PeerMention),
                attention_kind: Some(kind),
                ..event
            },
            BridgeProtocol::V2,
        ) <==> kind == WorkspaceAttentionKind::Mention,
        event_valid(
            SignalData {
                wake_class: Some(WorkspaceWakeClass::OperatorChat),
                attention_kind: Some(kind),
                ..event
            },
            BridgeProtocol::V2,
        ) <==> (kind == WorkspaceAttentionKind::DirectedResponse && event.from == event.to
            && event.signal == WorkspaceSignal::Tap),
        forall|class: WorkspaceWakeClass|
            class == WorkspaceWakeClass::PeriodicReview || class == WorkspaceWakeClass::Manual ==> (
            #[trigger] event_valid(
                SignalData { wake_class: Some(class), attention_kind: Some(kind), ..event },
                BridgeProtocol::V2,
            ) <==> match event.signal {
                WorkspaceSignal::Tap => kind == WorkspaceAttentionKind::Periodic,
                WorkspaceSignal::Cc => kind == WorkspaceAttentionKind::DirectedResponse,
                WorkspaceSignal::Council => kind == WorkspaceAttentionKind::Mention,
            }),
        !event_valid(
            SignalData {
                wake_class: Some(WorkspaceWakeClass::Unspecified),
                attention_kind: Some(kind),
                ..event
            },
            BridgeProtocol::V2,
        ),
{
}

/// An event without a stated cause names no source, and every other event names one.
pub proof fn law_only_stated_causes_have_sources(event: SignalData)
    requires
        event_valid(event, BridgeProtocol::V2),
    ensures
        event.wake_class == Some(WorkspaceWakeClass::Unspecified) <==> event.source_count == Some(
            0u64,
        ),
        event.wake_class == Some(WorkspaceWakeClass::Unspecified) ==> event.source_first_ref is None
            && event.source_latest_ref is None,
        event.wake_class != Some(WorkspaceWakeClass::Unspecified) ==> {
            &&& event.source_count matches Some(count)
            &&& 1 <= count <= 100_000_000
            &&& event.source_first_ref matches Some(first)
            &&& event.source_latest_ref matches Some(latest)
            &&& is_atom(first, 64, false)
            &&& is_atom(latest, 64, false)
            &&& namespace(first) == namespace(latest)
        },
{
}

/// Without what only the second protocol has, a valid event of the second protocol is a valid event
/// of the first; and a valid event of the first has nothing of that. Its attention is that of its
/// signal.
pub proof fn law_first_protocol_is_the_second_without_its_cause(event: SignalData)
    ensures
        event_valid(event, BridgeProtocol::V2) ==> event_valid(
            SignalData {
                attention_kind: None,
                batch_count: None,
                first_event_sequence: None,
                latest_event_sequence: None,
                source_count: None,
                source_first_ref: None,
                source_latest_ref: None,
                wake_class: None,
                ..event
            },
            BridgeProtocol::V1,
        ),
        event_valid(event, BridgeProtocol::V1) ==> {
            &&& event.attention_kind is None
            &&& event.batch_count is None
            &&& event.first_event_sequence is None
            &&& event.latest_event_sequence is None
            &&& event.source_count is None
            &&& event.source_first_ref is None
            &&& event.source_latest_ref is None
            &&& event.wake_class is None
            &&& event.signal == WorkspaceSignal::Tap ==> event_attention(event)
                == ThreadAttentionKind::Periodic
            &&& event.signal == WorkspaceSignal::Cc ==> event_attention(event)
                == ThreadAttentionKind::DirectedResponse
            &&& event.signal == WorkspaceSignal::Council ==> event_attention(event)
                == ThreadAttentionKind::Mention
        },
        !(event_valid(event, BridgeProtocol::V1) && event_valid(event, BridgeProtocol::V2)),
{
}

/// What of a valid event may be put in the place of what: a priority of at most two, at most
/// sixteen atoms as targets and those of a cc only, atoms of at most 128 bytes for the id and the
/// sender, and any time and delivery mode.
pub proof fn law_valid_events_may_be_changed_within_bounds(
    event: SignalData,
    protocol: BridgeProtocol,
    priority: u8,
    targets: Seq<Seq<char>>,
    text: Seq<char>,
    predates_runtime: bool,
)
    requires
        event_valid(event, protocol),
    ensures
        event_valid(SignalData { priority, ..event }, protocol) <==> priority <= 2,
        event_valid(SignalData { targets, ..event }, protocol) <==> {
            &&& targets.len() <= 16
            &&& event.signal == WorkspaceSignal::Cc || targets.len() == 0
            &&& forall|i: int| 0 <= i < targets.len() ==> is_atom(#[trigger] targets[i], 128, false)
        },
        event_valid(SignalData { event_id: text, ..event }, protocol) <==> is_atom(
            text,
            128,
            false,
        ),
        event.wake_class != Some(WorkspaceWakeClass::OperatorChat) ==> {
            &&& event_valid(SignalData { from: text, ..event }, protocol) <==> is_atom(
                text,
                128,
                false,
            )
            &&& event_valid(SignalData { to: text, ..event }, protocol) <==> is_atom(
                text,
                128,
                false,
            )
        },
        event.wake_class == Some(WorkspaceWakeClass::OperatorChat) ==> (event_valid(
            SignalData { from: text, ..event },
            protocol,
        ) <==> text == event.to),
        event_valid(
            SignalData { created_at: text, delivery_mode: text, predates_runtime, ..event },
            protocol,
        ),
{
}

/// A batch of a valid event has between one and a hundred events; its first sequence number is
/// that of the event and no larger than its latest. Any such batch may stand in its place.
pub proof fn law_batches_are_ordered(
    event: SignalData,
    count: u16,
    first: Seq<char>,
    latest: Seq<char>,
)
    requires
        event_valid(event, BridgeProtocol::V2),
    ensures
        event_valid(
            SignalData { batch_count: Some(count), ..event },
            BridgeProtocol::V2,
        ) <==> 1 <= count <= 100,
        event_valid(
            SignalData {
                event_sequence: first,
                first_event_sequence: Some(first),
                latest_event_sequence: Some(latest),
                ..event
            },
            BridgeProtocol::V2,
        ) <==> {
            &&& sequence_number(Some(first)) matches Some(low)
            &&& sequence_number(Some(latest)) matches Some(high)
            &&& low <= high
        },
        event_valid(
            SignalData { first_event_sequence: Some(first), ..event },
            BridgeProtocol::V2,
        ) <==> sequence_number(Some(first)) is Some && sequence_number(Some(first))
            == sequence_number(Some(event.event_sequence)),
        !event_valid(SignalData { batch_count: None, ..event }, BridgeProtocol::V2),
        !event_valid(SignalData { first_event_sequence: None, ..event }, BridgeProtocol::V2),
        !event_valid(SignalData { latest_event_sequence: None, ..event }, BridgeProtocol::V2),
{
    if sequence_number(Some(first)) is Some {
        assert forall|i: int| 0 <= i < first.len() implies crate::atom::is_atom_char(
            #[trigger] first[i],
            false,
        ) by {
            assert(crate::text::is_digit(first[i]));
        }
        assert(is_atom(first, 128, false));
    }
}

/// A sequence number is told by between one and twenty digits, as the number that they are in
/// decimal, where that fits in 64 bits.
pub proof fn law_sequence_numbers_are_decimal(text: Seq<char>)
    ensures
        sequence_number(Some(text)) is Some <==> {
            &&& 1 <= text.len() <= 20
            &&& forall|i: int| 0 <= i < text.len() ==> '0' <= #[trigger] text[i] <= '9'
            &&& numeral(text) <= 0xffff_ffff_ffff_ffff
        },
        sequence_number(Some(text)) matches Some(n) ==> n == numeral(text),
        sequence_number(None) is None,
{
    if forall|i: int| 0 <= i < text.len() ==> '0' <= #[trigger] text[i] <= '9' {
        assert(crate::text::all_digits(text));
        crate::text::lemma_digits_are_ascii(text);
    }
    if sequence_number(Some(text)) is Some {
        crate::text::lemma_digits_are_ascii(text);
        assert forall|i: int| 0 <= i < text.len() implies '0' <= #[trigger] text[i] <= '9' by {
            assert(crate::text::is_digit(text[i]));
        }
    }
}

proof fn lemma_last_colon(text: Seq<char>)
    ensures
        match last_colon(text) {
            Some(k) => {
                &&& 0 <= k < text.len()
                &&& text[k] == ':'
                &&& forall|i: int| k < i < text.len() ==> #[trigger] text[i] != ':'
            },
            None => forall|i: int| 0 <= i < text.len() ==> #[trigger] text[i] != ':',
        },
    decreases text.len(),
{
    if text.len() > 0 {
        let rest = text.drop_last();
        lemma_last_colon(rest);
        if text.last() != ':' {
            assert forall|i: int| 0 <= i < rest.len() implies #[trigger] text[i] == rest[i] by {}
        }
    }
}

/// The namespace of a source is what stands before its last colon, where something stands on either
/// side of it.
pub proof fn law_namespace_ends_at_the_last_colon(reference: Seq<char>, k: int)
    requires
        0 <= k < reference.len(),
        reference[k] == ':',
        forall|i: int| k < i < reference.len() ==> #[trigger] reference[i] != ':',
    ensures
        0 < k < reference.len() - 1 ==> namespace(reference) == Some(reference.take(k)),
        k == 0 || k == reference.len() - 1 ==> namespace(reference) is None,
{
    lemma_last_colon(reference);
}

/// A source without a colon has no namespace.
pub proof fn law_namespaces_need_a_colon(reference: Seq<char>)
    requires
        forall|i: int| 0 <= i < reference.len() ==> #[trigger] reference[i] != ':',
    ensures
        namespace(reference) is None,
{
    lemma_last_colon(reference);
}

/// A valid event's sources are of one namespace, or neither has a colon.
pub proof fn law_sources_share_a_namespace(
    event: SignalData,
    first: Seq<char>,
    latest: Seq<char>,
)
    requires
        event_valid(event, BridgeProtocol::V2),
        event.wake_class != Some(WorkspaceWakeClass::Unspecified),
    ensures
        event_valid(
            SignalData { source_first_ref: Some(first), source_latest_ref: Some(latest), ..event },
            BridgeProtocol::V2,
        ) <==> {
            &&& is_atom(first, 64, false)
            &&& is_atom(latest, 64, false)
            &&& namespace(first) == namespace(latest)
            &&& namespace(first) is Some || !first.contains(':') && !latest.contains(':')
        },
{
    lemma_last_colon(first);
    lemma_last_colon(latest);
}

/// How many sources a valid event with a stated cause may have.
pub proof fn law_sources_are_counted(event: SignalData, count: u64)
    requires
        event_valid(event, BridgeProtocol::V2),
        event.wake_class != Some(WorkspaceWakeClass::Unspecified),
    ensures
        event_valid(
            SignalData { source_count: Some(count), ..event },
            BridgeProtocol::V2,
        ) <==> 1 <= count <= 100_000_000,
        !event_valid(SignalData { source_count: None, ..event }, BridgeProtocol::V2),
        !event_valid(SignalData { source_first_ref: None, ..event }, BridgeProtocol::V2),
        !event_valid(SignalData { source_latest_ref: None, ..event }, BridgeProtocol::V2),
{
}

/// A value names an attention.
pub open spec fn names_attention(
    value: Option<JsonTree>,
    kind: Option<WorkspaceAttentionKind>,
) -> bool {
    match kind {
        None => missing(value),
        Some(WorkspaceAttentionKind::Periodic) => names(value, "periodic"@),
        Some(WorkspaceAttentionKind::Mention) => names(value, "mention"@),
        Some(WorkspaceAttentionKind::DirectedResponse) => names(value, "directedResponse"@),
    }
}

/// A value names the cause of a wake-up.
pub open spec fn names_cause(value: Option<JsonTree>, class: Option<WorkspaceWakeClass>) -> bool {
    match class {
        None => missing(value),
        Some(WorkspaceWakeClass::Unspecified) => names(value, "unspecified"@),
        Some(WorkspaceWakeClass::OperatorChat) => names(value, "operatorChat"@),
        Some(WorkspaceWakeClass::PeerMention) => names(value, "peerMention"@),
        Some(WorkspaceWakeClass::PeriodicReview) => names(value, "periodicReview"@),
        Some(WorkspaceWakeClass::Manual) => names(value, "manual"@),
    }
}

/// A value is a text, or missing.
pub open spec fn may_say(value: Option<JsonTree>, text: Option<Seq<char>>) -> bool {
    match text {
        None => missing(value),
        Some(t) => value == Some(JsonTree::Text(t)),
    }
}

/// A value is a number, or missing.
pub open spec fn may_count(value: Option<JsonTree>, n: Option<int>) -> bool {
    match n {
        None => missing(value),
        Some(m) => value matches Some(JsonTree::Unsigned(k)) && k == m,
    }
}

proof fn lemma_names_differ()
    ensures
        "tap"@ != "cc"@ && "tap"@ != "council"@ && "cc"@ != "council"@,
        "periodic"@ != "mention"@ && "periodic"@ != "directedResponse"@ && "mention"@
            != "directedResponse"@,
        "unspecified"@ != "operatorChat"@ && "unspecified"@ != "peerMention"@ && "unspecified"@
            != "periodicReview"@ && "unspecified"@ != "manual"@,
        "operatorChat"@ != "peerMention"@ && "operatorChat"@ != "periodicReview"@ && "operatorChat"@
            != "manual"@,
        "peerMention"@ != "periodicReview"@ && "peerMention"@ != "manual"@ && "periodicReview"@
            != "manual"@,
{
    reveal_strlit("tap");
    reveal_strlit("cc");
    reveal_strlit("council");
    reveal_strlit("periodic");
    reveal_strlit("mention");
    reveal_strlit("directedResponse");
    reveal_strlit("unspecified");
    reveal_strlit("operatorChat");
    reveal_strlit("peerMention");
    reveal_strlit("periodicReview");
    reveal_strlit("manual");
    assert("tap"@.len() == 3 && "cc"@.len() == 2 && "council"@.len() == 7);
    assert("periodic"@.len() == 8 && "mention"@.len() == 7 && "directedResponse"@.len() == 16);
    assert("unspecified"@.len() == 11 && "operatorChat"@.len() == 12 && "peerMention"@.len() == 11
        && "periodicReview"@.len() == 14 && "manual"@.len() == 6);
    assert("unspecified"@[0] == 'u' && "peerMention"@[0] == 'p');
}

/// A document is read as an event exactly where it has nothing but the members of one, and each says
/// what the event holds. What only the second protocol has may be missing.
#[verifier::spinoff_prover]
#[verifier::rlimit(60)]
pub proof fn law_signals_are_read_by_their_members(json: JsonTree, event: SignalData)
    ensures
        decoded_signal(json) == Some(event) <==> {
            &&& shaped(
                json,
                seq![
                    "attentionKind"@,
                    "batchCount"@,
                    "createdAt"@,
                    "deliveryMode"@,
                    "eventId"@,
                    "eventSequence"@,
                    "firstEventSequence"@,
                    "from"@,
                    "predatesRuntime"@,
                    "priority"@,
                    "signal"@,
                    "sourceCount"@,
                    "sourceFirstRef"@,
                    "sourceLatestRef"@,
                    "targets"@,
                    "to"@,
                    "latestEventSequence"@,
                    "wakeClass"@,
                ],
            )
            &&& names_attention(field_of(json, "attentionKind"@, 0), event.attention_kind)
            &&& may_count(
                field_of(json, "batchCount"@, 1),
                match event.batch_count {
                    Some(n) => Some(n as int),
                    None => None,
                },
            )
            &&& field_of(json, "createdAt"@, 2) == Some(JsonTree::Text(event.created_at))
            &&& field_of(json, "deliveryMode"@, 3) == Some(JsonTree::Text(event.delivery_mode))
            &&& field_of(json, "eventId"@, 4) == Some(JsonTree::Text(event.event_id))
            &&& field_of(json, "eventSequence"@, 5) == Some(JsonTree::Text(event.event_sequence))
            &&& may_say(field_of(json, "firstEventSequence"@, 6), event.first_event_sequence)
            &&& field_of(json, "from"@, 7) == Some(JsonTree::Text(event.from))
            &&& field_of(json, "predatesRuntime"@, 8) == Some(JsonTree::Bool(event.predates_runtime))
            &&& field_of(json, "priority"@, 9) == Some(JsonTree::Unsigned(event.priority as u64))
            &&& names(
                field_of(json, "signal"@, 10),
                match event.signal {
                    WorkspaceSignal::Tap => "tap"@,
                    WorkspaceSignal::Cc => "cc"@,
                    WorkspaceSignal::Council => "council"@,
                },
            )
            &&& may_count(
                field_of(json, "sourceCount"@, 11),
                match event.source_count {
                    Some(n) => Some(n as int),
                    None => None,
                },
            )
            &&& may_say(field_of(json, "sourceFirstRef"@, 12), event.source_first_ref)
            &&& may_say(field_of(json, "sourceLatestRef"@, 13), event.source_latest_ref)
            &&& lists(field_of(json, "targets"@, 14), event.targets)
            &&& field_of(json, "to"@, 15) == Some(JsonTree::Text(event.to))
            &&& may_say(field_of(json, "latestEventSequence"@, 16), event.latest_event_sequence)
            &&& names_cause(field_of(json, "wakeClass"@, 17), event.wake_class)
        },
{
    lemma_names_differ();
    law_lists_of_texts(field_of(json, "targets"@, 14), event.targets);
    assert(text_list(field_of(json, "targets"@, 14)) == Some(event.targets) <==> lists(
        field_of(json, "targets"@, 14),
        event.targets,
    ));
}

/// The reference of an event begins with the protocol and the signal. In the second protocol the
/// cause, the number of events, their sequence and then the sources follow, the last only where
/// there are any. At its end stand the targets, or, where that would be longer than 256 bytes, how
/// many there are.
pub proof fn law_references_tell_the_event(event: SignalData, protocol: BridgeProtocol)
    requires
        event_valid(event, protocol),
    ensures
        ({
            let signal = match event.signal {
                WorkspaceSignal::Tap => "tap"@,
                WorkspaceSignal::Cc => "cc"@,
                WorkspaceSignal::Council => "council"@,
            };
            let cause = match event.wake_class {
                Some(WorkspaceWakeClass::OperatorChat) => "operatorChat"@,
                Some(WorkspaceWakeClass::PeerMention) => "peerMention"@,
                Some(WorkspaceWakeClass::PeriodicReview) => "periodicReview"@,
                Some(WorkspaceWakeClass::Manual) => "manual"@,
                _ => "unspecified"@,
            };
            let base = match protocol {
                BridgeProtocol::V1 => "workspace-signal/v1/"@ + signal,
                BridgeProtocol::V2 => {
                    let told = "workspace-signal/v2/"@ + signal + ("/wake/"@ + cause + "/b/"@
                        + decimal(event.batch_count->0 as nat) + "/e/"@
                        + event.first_event_sequence->0 + "-"@ + event.latest_event_sequence->0);
                    if event.wake_class == Some(WorkspaceWakeClass::Unspecified) {
                        told
                    } else {
                        told + ("/s/"@ + decimal(event.source_count->0 as nat) + "/"@
                            + event.source_first_ref->0 + "-"@ + event.source_latest_ref->0)
                    }
                },
            };
            let targets = targets_text(event.targets);
            &&& byte_len(base) + byte_len(targets) <= 256 ==> event_reference(event, protocol)
                == base + targets
            &&& byte_len(base) + byte_len(targets) > 256 ==> event_reference(event, protocol)
                == base + ("/cc-count/"@ + decimal(event.targets.len()))
        }),
{
    let signal = match event.signal {
        WorkspaceSignal::Tap => "tap"@,
        WorkspaceSignal::Cc => "cc"@,
        WorkspaceSignal::Council => "council"@,
    };
    assert("workspace-signal/v2/"@ + signal + Seq::<char>::empty() =~= "workspace-signal/v2/"@
        + signal);
    let base = crate::bridge::event::reference_base(event, protocol);
    if protocol == BridgeProtocol::V2 && event.wake_class == Some(WorkspaceWakeClass::Unspecified) {
        let told = crate::bridge::event::reference_head(event, protocol)
            + crate::bridge::event::reference_batch(event);
        assert(told + Seq::<char>::empty() =~= told);
    }
}

/// Each further target is told behind the others, each under its mark.
pub proof fn law_targets_are_told_in_order(targets: Seq<Seq<char>>, target: Seq<char>)
    ensures
        targets_text(Seq::empty()) == Seq::<char>::empty(),
        targets_text(targets.push(target)) == targets_text(targets) + "/cc/"@ + target,
{
    assert(targets.push(target).drop_last() =~= targets);
    assert(targets_text(targets) + ("/cc/"@ + target) =~= targets_text(targets) + "/cc/"@ + target);
}

/// What a frame is taken for, in a session that is not bound to a protocol: only an object that names
/// one of the two protocols and its type is a frame at all.
#[verifier::spinoff_prover]
#[verifier::rlimit(60)]
pub proof fn law_frames_name_their_protocol(json: JsonTree, scope: ScopeData)
    ensures
        frame_of(None, scope) == Err::<FrameData, FrameError>(FrameError::InvalidJson),
        !(json is Object) ==> frame_of(Some(json), scope) == Err::<FrameData, FrameError>(
            FrameError::InvalidFrame,
        ),
        json is Object ==> {
            let v1 = get(json, "protocol"@) == Some(
                JsonTree::Text("observatory.workspace_signal_bridge.v1"@),
            );
            let v2 = get(json, "protocol"@) == Some(
                JsonTree::Text("observatory.workspace_signal_bridge.v2"@),
            );
            let agreed = (v1 && scope.protocol != Some(BridgeProtocol::V2)) || (v2 && scope.protocol
                != Some(BridgeProtocol::V1));
            &&& !agreed <==> frame_of(Some(json), scope) == Err::<FrameData, FrameError>(
                FrameError::ProtocolMismatch,
            )
            &&& frame_of(Some(json), scope) matches Ok(FrameData::Ready { protocol, .. }) ==> (
            protocol == BridgeProtocol::V1 <==> v1) && (protocol == BridgeProtocol::V2 <==> v2)
            &&& frame_of(Some(json), scope) matches Ok(FrameData::Event { protocol, .. }) ==> (
            protocol == BridgeProtocol::V1 <==> v1) && (protocol == BridgeProtocol::V2 <==> v2)
            &&& agreed ==> (get(json, "type"@) == Some(JsonTree::Text("hold"@)) <==> frame_of(
                Some(json),
                scope,
            ) == Err::<FrameData, FrameError>(FrameError::BridgeHeld))
            &&& agreed ==> (get(json, "type"@) == Some(JsonTree::Text("idle"@)) || get(
                json,
                "type"@,
            ) == Some(JsonTree::Text("resolved"@)) <==> frame_of(Some(json), scope) == Ok::<
                FrameData,
                FrameError,
            >(FrameData::Continue))
            &&& agreed ==> (frame_of(Some(json), scope) == Err::<FrameData, FrameError>(
                FrameError::FrameTypeInvalid,
            ) <==> get(json, "type"@) != Some(JsonTree::Text("ready"@)) && get(json, "type"@)
                != Some(JsonTree::Text("event"@)) && get(json, "type"@) != Some(
                JsonTree::Text("resolved"@),
            ) && get(json, "type"@) != Some(JsonTree::Text("idle"@)) && get(json, "type"@) != Some(
                JsonTree::Text("hold"@),
            ))
        },
{
    lemma_frame_types();
    reveal_strlit("observatory.workspace_signal_bridge.v1");
    reveal_strlit("observatory.workspace_signal_bridge.v2");
    assert("observatory.workspace_signal_bridge.v1"@[37] != "observatory.workspace_signal_bridge.v2"@[37]);
}

proof fn lemma_frame_types()
    ensures
        "ready"@ != "event"@ && "ready"@ != "resolved"@ && "ready"@ != "idle"@ && "ready"@
            != "hold"@,
        "event"@ != "resolved"@ && "event"@ != "idle"@ && "event"@ != "hold"@,
        "resolved"@ != "idle"@ && "resolved"@ != "hold"@ && "idle"@ != "hold"@,
{
    reveal_strlit("ready");
    reveal_strlit("event");
    reveal_strlit("resolved");
    reveal_strlit("idle");
    reveal_strlit("hold");
    assert("ready"@[0] == 'r' && "event"@[0] == 'e' && "idle"@[0] == 'i' && "hold"@[0] == 'h');
    assert("ready"@.len() == 5 && "resolved"@.len() == 8);
}

/// A ready frame tells its session, its member and its workspace, each a safe atom without slashes;
/// its runtime session must be one too. It is at fault exactly where one of them is not.
pub proof fn law_ready_frames_tell_their_scope(
    json: JsonTree,
    scope: ScopeData,
    protocol: BridgeProtocol,
)
    requires
        get(json, "type"@) == Some(JsonTree::Text("ready"@)),
        get(json, "protocol"@) == Some(
            JsonTree::Text(
                match protocol {
                    BridgeProtocol::V1 => "observatory.workspace_signal_bridge.v1"@,
                    BridgeProtocol::V2 => "observatory.workspace_signal_bridge.v2"@,
                },
            ),
        ),
        scope.protocol is None || scope.protocol == Some(protocol),
    ensures
        ({
            let fits = says_atom(get(json, "assertedSessionId"@), 128) && says_atom(
                get(json, "member"@),
                64,
            ) && says_atom(get(json, "runtimeSessionId"@), 128) && says_atom(
                get(json, "workspace"@),
                64,
            );
            &&& fits ==> frame_of(Some(json), scope) == Ok::<FrameData, FrameError>(
                FrameData::Ready {
                    asserted_session_id: get(json, "assertedSessionId"@)->0->Text_0,
                    member: get(json, "member"@)->0->Text_0,
                    protocol,
                    workspace: get(json, "workspace"@)->0->Text_0,
                },
            )
            &&& !fits ==> frame_of(Some(json), scope) == Err::<FrameData, FrameError>(
                FrameError::MetadataInvalid,
            )
        }),
{
    reveal_strlit("observatory.workspace_signal_bridge.v1");
    reveal_strlit("observatory.workspace_signal_bridge.v2");
    assert("observatory.workspace_signal_bridge.v1"@[37] != "observatory.workspace_signal_bridge.v2"@[37]);
}

/// A value is a safe atom without slashes of at most so many bytes.
pub open spec fn says_atom(value: Option<JsonTree>, max: int) -> bool {
    value matches Some(JsonTree::Text(text)) && is_atom(text, max, false)
}

/// An event frame brings a valid event that is addressed to the member that the session is bound
/// to. It comes too early before that, and is at fault where it has no event, where the event does
/// not read as a valid one, and where it is addressed to somebody else.
pub proof fn law_event_frames_bring_addressed_events(
    json: JsonTree,
    scope: ScopeData,
    protocol: BridgeProtocol,
    member: Seq<char>,
    event: SignalData,
)
    requires
        get(json, "type"@) == Some(JsonTree::Text("event"@)),
        get(json, "protocol"@) == Some(
            JsonTree::Text(
                match protocol {
                    BridgeProtocol::V1 => "observatory.workspace_signal_bridge.v1"@,
                    BridgeProtocol::V2 => "observatory.workspace_signal_bridge.v2"@,
                },
            ),
        ),
        scope.protocol is None || scope.protocol == Some(protocol),
    ensures
        scope.member is None || scope.workspace is None <==> frame_of(Some(json), scope) == Err::<
            FrameData,
            FrameError,
        >(FrameError::EventBeforeReady),
        scope.member == Some(member) && scope.workspace is Some ==> {
            let found = get(json, "event"@);
            &&& found is None <==> frame_of(Some(json), scope) == Err::<FrameData, FrameError>(
                FrameError::EventUnavailable,
            )
            &&& found is Some && decoded_signal(found->0) == Some(event) && event_valid(
                event,
                protocol,
            ) ==> {
                &&& event.to == member ==> frame_of(Some(json), scope) == Ok::<
                    FrameData,
                    FrameError,
                >(FrameData::Event { event, protocol })
                &&& event.to != member ==> frame_of(Some(json), scope) == Err::<
                    FrameData,
                    FrameError,
                >(FrameError::EventScopeMismatch)
            }
            &&& found is Some && (decoded_signal(found->0) is None || !event_valid(
                decoded_signal(found->0)->0,
                protocol,
            )) ==> frame_of(Some(json), scope) == Err::<FrameData, FrameError>(
                FrameError::EventInvalid,
            )
        },
{
    lemma_frame_types();
    reveal_strlit("observatory.workspace_signal_bridge.v1");
    reveal_strlit("observatory.workspace_signal_bridge.v2");
    assert("observatory.workspace_signal_bridge.v1"@[37] != "observatory.workspace_signal_bridge.v2"@[37]);
}

/// A line of more than 16384 bytes ends the bridge unread. A ready frame binds an unbound session to
/// its protocol, its member and its workspace where it is for the expected session, and ends the
/// bridge where it is for another one or the session is bound. Everything else leaves the session
/// as it is.
pub proof fn law_lines_bind_the_session_once(
    session: SessionData,
    line: Seq<char>,
    document: Option<JsonTree>,
)
    ensures
        byte_len(line) > 16384 <==> line_taken(session, line, document).1 == (StepData::End {
            end: BridgeEnd::FrameTooLong,
        }),
        byte_len(line) > 16384 ==> line_taken(session, line, document).0 == session,
        byte_len(line) <= 16384 ==> match frame_of(document, session.scope) {
            Ok(FrameData::Ready { asserted_session_id, member, protocol, workspace }) => {
                let (after, step) = line_taken(session, line, document);
                let bound = session.scope.member is Some || session.scope.workspace is Some;
                &&& bound ==> after == session && step == (StepData::End {
                    end: BridgeEnd::Rebound,
                })
                &&& !bound && asserted_session_id != session.expected_session_id ==> after
                    == session && step == (StepData::End { end: BridgeEnd::SessionMismatch })
                &&& !bound && asserted_session_id == session.expected_session_id ==> step
                    == StepData::Continue && after.expected_session_id
                    == session.expected_session_id && after.scope.protocol == Some(protocol)
                    && after.scope.member == Some(member) && after.scope.workspace == Some(workspace)
            },
            Ok(FrameData::Event { event, protocol }) => line_taken(session, line, document) == (
                session,
                StepData::Deliver {
                    request: RequestData { event, protocol, workspace: session.scope.workspace->0 },
                },
            ),
            Ok(FrameData::Continue) => line_taken(session, line, document) == (
                session,
                StepData::Continue,
            ),
            Err(error) => line_taken(session, line, document) == (
                session,
                StepData::End { end: BridgeEnd::Rejected { error } },
            ),
        },
{
}

/// A signal is handed on in the name of its workspace and its sender, under its own id, with its
/// reference.
pub proof fn law_signals_are_handed_on(request: RequestData)
    ensures
        request_attention(request) == (AttentionMetadata {
            version: 1,
            event_id: request.event.event_id,
            kind: event_attention(request.event),
            source_class: "workspace"@,
            source_ref: request.workspace + "/"@ + request.event.from,
            reference: Some(event_reference(request.event, request.protocol)),
        }),
{
}

/// The user is told of a signal exactly where it was started, came over the first protocol from the
/// bootstrap workspace, is a cc and names its sender by a safe atom.
pub proof fn law_only_started_bootstrap_signals_are_shown(
    request: RequestData,
    outcome: WorkspaceSignalOutcome,
)
    ensures
        shows_indicator(request, outcome) <==> {
            &&& outcome == WorkspaceSignalOutcome::Started
            &&& request.protocol == BridgeProtocol::V1
            &&& request.workspace == "global-cc-bootstrap"@
            &&& request.event.signal == WorkspaceSignal::Cc
            &&& is_atom(request.event.from, 128, false)
        },
{
}

/// What the user is told of a signal names its sender, and says when it was queued and whether that
/// was before the runtime, as far as that is so.
#[verifier::spinoff_prover]
#[verifier::rlimit(60)]
pub proof fn law_indicators_tell_the_sender(
    from: Seq<char>,
    queued_at: Option<Seq<char>>,
    predates_runtime: bool,
)
    ensures
        ({
            let text = indicator_text(from, queued_at, predates_runtime);
            &&& ("CC poke received now from reported sender "@ + from).is_prefix_of(text)
            &&& queued_at matches Some(time) ==> stands_in(" (queued "@ + time, text)
            &&& predates_runtime ==> stands_in("delayed/pre-runtime)"@, text)
            &&& queued_at is None && !predates_runtime ==> text
                == "CC poke received now from reported sender "@ + from
                + ". Fresh-state retrieval start is not yet evidenced; delivery and model-turn start do not establish comprehension, acceptance, CC read, or action."@
        }),
{
    let head = "CC poke received now from reported sender "@ + from;
    let end =
        ". Fresh-state retrieval start is not yet evidenced; delivery and model-turn start do not establish comprehension, acceptance, CC read, or action."@;
    let text = indicator_text(from, queued_at, predates_runtime);
    let timing = timing_text(queued_at, predates_runtime);
    assert(text =~= head + timing + end);
    assert(head =~= text.take(head.len() as int));
    if queued_at is Some {
        let time = queued_at->0;
        let rest = timing.skip((" (queued "@ + time).len() as int);
        assert(timing =~= (" (queued "@ + time) + rest);
        lemma_stands_between(head, " (queued "@ + time, rest + end);
        assert(text =~= head + (" (queued "@ + time) + (rest + end));
    }
    if predates_runtime {
        reveal_strlit("delayed/pre-runtime)");
        reveal_strlit("; delayed/pre-runtime)");
        reveal_strlit(" (delayed/pre-runtime)");
        let said = "delayed/pre-runtime)"@;
        let n = timing.len() - said.len();
        assert(timing =~= timing.take(n) + said);
        lemma_stands_between(head + timing.take(n), said, end);
        assert(text =~= (head + timing.take(n)) + said + end);
    }
    if queued_at is None && !predates_runtime {
        assert(text =~= head + end);
    }
}

/// What the bridge is told of an event is read back as just that: that it is resolved, which event it
/// is and what became of it.
#[verifier::spinoff_prover]
#[verifier::rlimit(60)]
pub proof fn law_resolutions_are_read_back(
    event_id: Seq<char>,
    outcome: WorkspaceSignalOutcome,
)
    ensures
        read_object(resolution_text(event_id, outcome)) == Some(
            (
                seq![
                    ("type"@, Told::Text { text: "resolve"@ }),
                    ("eventId"@, Told::Text { text: event_id }),
                    (
                        "outcome"@,
                        Told::Text {
                            text: match outcome {
                                WorkspaceSignalOutcome::Started => "started"@,
                                WorkspaceSignalOutcome::Held => "held"@,
                            },
                        },
                    ),
                ],
                Seq::<char>::empty(),
            ),
        ),
{
    reveal_strlit("\"");
    reveal_strlit(",");
    reveal_strlit("{");
    reveal_strlit("}");
    reveal_strlit("type");
    reveal_strlit("resolve");
    reveal_strlit("eventId");
    reveal_strlit("outcome");
    reveal_strlit("started");
    reveal_strlit("held");
    reveal_strlit("{\"type\":\"resolve\",\"eventId\":");
    reveal_strlit(",\"outcome\":\"");
    reveal_strlit("\"}");
    lemma_plain_text_is_not_escaped("type"@);
    lemma_plain_text_is_not_escaped("resolve"@);
    lemma_plain_text_is_not_escaped("eventId"@);
    lemma_plain_text_is_not_escaped("outcome"@);
    lemma_plain_text_is_not_escaped("started"@);
    lemma_plain_text_is_not_escaped("held"@);
    let name = match outcome {
        WorkspaceSignalOutcome::Started => "started"@,
        WorkspaceSignalOutcome::Held => "held"@,
    };
    let members = seq![
        ("type"@, Told::Text { text: "resolve"@ }),
        ("eventId"@, Told::Text { text: event_id }),
        ("outcome"@, Told::Text { text: name }),
    ];
    let a = json_literal("type"@) + seq![':'] + json_literal("resolve"@);
    let b = json_literal("eventId"@) + seq![':'] + json_literal(event_id);
    let c = json_literal("outcome"@) + seq![':'] + json_literal(name);
    let parts = seq![a, b, c];
    lemma_few_parts_joined(a, b, c);
    assert("{\"type\":\"resolve\",\"eventId\":"@ =~= "{"@ + a + ","@ + json_literal("eventId"@)
        + seq![':']);
    assert(",\"outcome\":\""@ =~= ","@ + json_literal("outcome"@) + seq![':'] + "\""@);
    assert("\"}"@ =~= "\""@ + "}"@);
    assert(resolution_text(event_id, outcome) =~= "{"@ + comma_joined(parts) + "}"@);
    lemma_object_is_read_back(parts, members);
}

/// What is told of a frame that ends the bridge.
#[verifier::spinoff_prover]
#[verifier::rlimit(60)]
pub proof fn law_frame_errors_have_their_names(error: FrameError)
    ensures
        error == FrameError::InvalidJson <==> frame_error_name(error) == "invalidJson"@,
        error == FrameError::InvalidFrame <==> frame_error_name(error) == "invalidFrame"@,
        error == FrameError::ProtocolMismatch <==> frame_error_name(error) == "protocolMismatch"@,
        error == FrameError::MetadataInvalid <==> frame_error_name(error) == "metadataInvalid"@,
        error == FrameError::EventBeforeReady <==> frame_error_name(error) == "eventBeforeReady"@,
        error == FrameError::EventUnavailable <==> frame_error_name(error) == "eventUnavailable"@,
        error == FrameError::EventInvalid <==> frame_error_name(error) == "eventInvalid"@,
        error == FrameError::EventScopeMismatch <==> frame_error_name(error)
            == "eventScopeMismatch"@,
        error == FrameError::BridgeHeld <==> frame_error_name(error) == "bridgeHeld"@,
        error == FrameError::FrameTypeInvalid <==> frame_error_name(error) == "frameTypeInvalid"@,
{
    reveal_strlit("invalidJson");
    reveal_strlit("invalidFrame");
    reveal_strlit("protocolMismatch");
    reveal_strlit("metadataInvalid");
    reveal_strlit("eventBeforeReady");
    reveal_strlit("eventUnavailable");
    reveal_strlit("eventInvalid");
    reveal_strlit("eventScopeMismatch");
    reveal_strlit("bridgeHeld");
    reveal_strlit("frameTypeInvalid");
    let name = frame_error_name(error);
    assert("invalidJson"@.len() == 11 && "invalidFrame"@.len() == 12 && "protocolMismatch"@.len()
        == 16 && "metadataInvalid"@.len() == 15 && "eventBeforeReady"@.len() == 16
        && "eventUnavailable"@.len() == 16 && "eventInvalid"@.len() == 12
        && "eventScopeMismatch"@.len() == 18 && "bridgeHeld"@.len() == 10
        && "frameTypeInvalid"@.len() == 16);
    assert("protocolMismatch"@[0] == 'p' && "frameTypeInvalid"@[0] == 'f' && "invalidFrame"@[0]
        == 'i' && "eventInvalid"@[0] == 'e');
    assert("eventBeforeReady"@[5] == 'B' && "eventUnavailable"@[5] == 'U');
}

/// The limits of the bridge.
pub proof fn law_bridge_limits()
    ensures
        MAX_REFERENCE_BYTES == 256,
        MAX_TARGETS == 16,
        MAX_FRAME_BYTES == 16384,
        RESTART_DELAY_MILLIS == 1000,
        RESTART_POLL_DELAY_MILLIS == 100,
{
}

/// An event counts as started only where that was told, and as held where that was told or nobody will
/// tell any more; it is awaited on exactly while the bridge goes on and nothing was told in time.
pub proof fn law_outcomes_are_settled(awaited: Awaited, stopping: bool)
    ensures
        outcome_settled(awaited, stopping) == Some(WorkspaceSignalOutcome::Started) <==> (
        awaited matches Awaited::Outcome { outcome } && outcome == WorkspaceSignalOutcome::Started),
        outcome_settled(awaited, stopping) is None <==> awaited is Timeout && !stopping,
        awaited is Disconnected || awaited is Timeout && stopping ==> outcome_settled(
            awaited,
            stopping,
        ) == Some(WorkspaceSignalOutcome::Held),
{
}

/// A signal counts as started exactly where the app server says so; no answer counts as held.
pub proof fn law_only_told_starts_count(response: Option<ThreadAttentionResponse>)
    ensures
        outcome_of(response) == WorkspaceSignalOutcome::Started <==> response == Some(
            ThreadAttentionResponse::Started,
        ),
{
}

/// A bridge that ended is started again after a second, slept through in pieces of at most a tenth of
/// a second; it is not started again once it is stopped.
pub proof fn law_restarts_wait_a_second(waited: u64, stop: bool)
    ensures
        restart_step(waited, true) == (RestartStep::Stopped, waited),
        restart_step(waited, false).0 == RestartStep::Restart <==> waited >= 1000,
        restart_step(waited, false).0 matches RestartStep::Sleep { millis } ==> {
            &&& 0 < millis <= 100
            &&& restart_step(waited, false).1 == waited + millis
            &&& waited + millis <= 1000
            &&& waited <= 900 ==> millis == 100
        },
        waited < 1000 ==> restart_step(waited, false).0 is Sleep,
{
}

/// When a signal was queued is told in parentheses, as far as it is known; that it is an old one is
/// told with it, or alone.
pub proof fn law_queueing_is_told_in_parentheses(time: Seq<char>)
    ensures
        timing_text(Some(time), false) == " (queued "@ + time + ")"@,
        timing_text(Some(time), true) == " (queued "@ + time + "; delayed/pre-runtime)"@,
        timing_text(None, true) == " (delayed/pre-runtime)"@,
        timing_text(None, false) == Seq::<char>::empty(),
{
}

/// A signal's time is told in UTC where its text tells a time, and not at all where it does not.
pub proof fn law_queueing_is_told_in_utc(created_at: Seq<char>)
    ensures
        rfc3339_time(created_at) matches Some(time) ==> queued_at(created_at) == utc_millis(
            time.0,
            time.1,
        ),
        rfc3339_time(created_at) is None ==> queued_at(created_at) is None,
{
}

} // verus!
