//! Workspace signals: closed, payload-free event metadata.

use vstd::prelude::*;
use vstd::string::*;

use crate::atom::{check_atom, in_alphabet, is_atom, lemma_atom_bytes};
use crate::attention::ThreadAttentionKind;
use crate::json::{
    as_text, bounded_number, choice, names, optional_number, optional_text, read_choice,
    read_number, read_optional_number, read_optional_text, read_record, read_text_list, read_truth,
    record, slot_tree, slot_trees, text_list, text_slot, text_views, truth, Json, JsonTree,
};
use crate::text::{
    byte_len, chars_of, decimal, digits_up_to, lemma_bytes_of_join, lemma_decimal_len,
    lemma_decimal_numeral, lemma_digits_are_ascii, optional_view, read_digits, same_optional_text,
    same_text, text_bytes, text_of, write_decimal,
};

verus! {

/// The most bytes of a reference.
pub const MAX_REFERENCE_BYTES: usize = 256;

/// The most targets of a signal.
pub const MAX_TARGETS: usize = 16;

/// What a member of the workspace signals.
#[derive(Clone, Copy, Debug, PartialEq, Eq, Structural)]
pub enum WorkspaceSignal {
    Tap,
    Cc,
    Council,
}

/// The name of a signal.
pub open spec fn signal_name(signal: WorkspaceSignal) -> Seq<char> {
    match signal {
        WorkspaceSignal::Tap => "tap"@,
        WorkspaceSignal::Cc => "cc"@,
        WorkspaceSignal::Council => "council"@,
    }
}

/// The attention that a signal asks for by itself.
pub open spec fn signal_attention(signal: WorkspaceSignal) -> WorkspaceAttentionKind {
    match signal {
        WorkspaceSignal::Tap => WorkspaceAttentionKind::Periodic,
        WorkspaceSignal::Cc => WorkspaceAttentionKind::DirectedResponse,
        WorkspaceSignal::Council => WorkspaceAttentionKind::Mention,
    }
}

impl WorkspaceSignal {
    /// The attention that this signal asks for by itself.
    pub fn attention_kind(self) -> (kind: ThreadAttentionKind)
        ensures
            kind == thread_attention(signal_attention(self)),
    {
        match self {
            WorkspaceSignal::Tap => ThreadAttentionKind::Periodic,
            WorkspaceSignal::Cc => ThreadAttentionKind::DirectedResponse,
            WorkspaceSignal::Council => ThreadAttentionKind::Mention,
        }
    }

    /// The name of this signal.
    pub fn as_str(self) -> (name: &'static str)
        ensures
            name@ == signal_name(self),
    {
        match self {
            WorkspaceSignal::Tap => "tap",
            WorkspaceSignal::Cc => "cc",
            WorkspaceSignal::Council => "council",
        }
    }
}

/// The version of the bridge protocol.
#[derive(Clone, Copy, Debug, PartialEq, Eq, Structural)]
pub enum BridgeProtocol {
    V1,
    V2,
}

/// The attention that an event asks for.
#[derive(Clone, Copy, Debug, PartialEq, Eq, Structural)]
pub enum WorkspaceAttentionKind {
    Periodic,
    Mention,
    DirectedResponse,
}

/// The attention of the thread for that of the workspace.
pub open spec fn thread_attention(kind: WorkspaceAttentionKind) -> ThreadAttentionKind {
    match kind {
        WorkspaceAttentionKind::Periodic => ThreadAttentionKind::Periodic,
        WorkspaceAttentionKind::Mention => ThreadAttentionKind::Mention,
        WorkspaceAttentionKind::DirectedResponse => ThreadAttentionKind::DirectedResponse,
    }
}

impl WorkspaceAttentionKind {
    /// The attention of the thread for that of the workspace.
    pub fn into_thread_attention(self) -> (kind: ThreadAttentionKind)
        ensures
            kind == thread_attention(self),
    {
        match self {
            WorkspaceAttentionKind::Periodic => ThreadAttentionKind::Periodic,
            WorkspaceAttentionKind::Mention => ThreadAttentionKind::Mention,
            WorkspaceAttentionKind::DirectedResponse => ThreadAttentionKind::DirectedResponse,
        }
    }
}

/// Why an event wakes a member.
#[derive(Clone, Copy, Debug, PartialEq, Eq, Structural)]
pub enum WorkspaceWakeClass {
    Unspecified,
    OperatorChat,
    PeerMention,
    PeriodicReview,
    Manual,
}

/// The name of a wake class.
pub open spec fn wake_name(class: WorkspaceWakeClass) -> Seq<char> {
    match class {
        WorkspaceWakeClass::Unspecified => "unspecified"@,
        WorkspaceWakeClass::OperatorChat => "operatorChat"@,
        WorkspaceWakeClass::PeerMention => "peerMention"@,
        WorkspaceWakeClass::PeriodicReview => "periodicReview"@,
        WorkspaceWakeClass::Manual => "manual"@,
    }
}

impl WorkspaceWakeClass {
    /// The name of this wake class.
    pub fn as_str(self) -> (name: &'static str)
        ensures
            name@ == wake_name(self),
    {
        match self {
            WorkspaceWakeClass::Unspecified => "unspecified",
            WorkspaceWakeClass::OperatorChat => "operatorChat",
            WorkspaceWakeClass::PeerMention => "peerMention",
            WorkspaceWakeClass::PeriodicReview => "periodicReview",
            WorkspaceWakeClass::Manual => "manual",
        }
    }
}

/// One event of the workspace.
#[derive(Debug, PartialEq, Eq)]
pub struct WorkspaceSignalEvent {
    pub attention_kind: Option<WorkspaceAttentionKind>,
    pub batch_count: Option<u16>,
    pub created_at: String,
    pub delivery_mode: String,
    pub event_id: String,
    pub event_sequence: String,
    pub first_event_sequence: Option<String>,
    pub from: String,
    pub predates_runtime: bool,
    pub priority: u8,
    pub signal: WorkspaceSignal,
    pub source_count: Option<u64>,
    pub source_first_ref: Option<String>,
    pub source_latest_ref: Option<String>,
    pub targets: Vec<String>,
    pub to: String,
    pub latest_event_sequence: Option<String>,
    pub wake_class: Option<WorkspaceWakeClass>,
}

/// What an event of the workspace holds.
pub struct SignalData {
    pub attention_kind: Option<WorkspaceAttentionKind>,
    pub batch_count: Option<u16>,
    pub created_at: Seq<char>,
    pub delivery_mode: Seq<char>,
    pub event_id: Seq<char>,
    pub event_sequence: Seq<char>,
    pub first_event_sequence: Option<Seq<char>>,
    pub from: Seq<char>,
    pub predates_runtime: bool,
    pub priority: u8,
    pub signal: WorkspaceSignal,
    pub source_count: Option<u64>,
    pub source_first_ref: Option<Seq<char>>,
    pub source_latest_ref: Option<Seq<char>>,
    pub targets: Seq<Seq<char>>,
    pub to: Seq<char>,
    pub latest_event_sequence: Option<Seq<char>>,
    pub wake_class: Option<WorkspaceWakeClass>,
}

impl View for WorkspaceSignalEvent {
    type V = SignalData;

    open spec fn view(&self) -> SignalData {
        SignalData {
            attention_kind: self.attention_kind,
            batch_count: self.batch_count,
            created_at: self.created_at@,
            delivery_mode: self.delivery_mode@,
            event_id: self.event_id@,
            event_sequence: self.event_sequence@,
            first_event_sequence: optional_view(self.first_event_sequence),
            from: self.from@,
            predates_runtime: self.predates_runtime,
            priority: self.priority,
            signal: self.signal,
            source_count: self.source_count,
            source_first_ref: optional_view(self.source_first_ref),
            source_latest_ref: optional_view(self.source_latest_ref),
            targets: text_views(self.targets@),
            to: self.to@,
            latest_event_sequence: optional_view(self.latest_event_sequence),
            wake_class: self.wake_class,
        }
    }
}

/// The signal by its name.
pub open spec fn signal_named(name: Option<Seq<char>>) -> Option<WorkspaceSignal> {
    match name {
        Some(n) => if n == "tap"@ {
            Some(WorkspaceSignal::Tap)
        } else if n == "cc"@ {
            Some(WorkspaceSignal::Cc)
        } else if n == "council"@ {
            Some(WorkspaceSignal::Council)
        } else {
            None
        },
        None => None,
    }
}

fn read_signal(slot: Option<&Json>) -> (signal: Option<WorkspaceSignal>)
    ensures
        signal == signal_named(choice(slot_tree(slot))),
{
    match read_choice(slot) {
        Some(name) => if same_text(name.as_str(), "tap") {
            Some(WorkspaceSignal::Tap)
        } else if same_text(name.as_str(), "cc") {
            Some(WorkspaceSignal::Cc)
        } else if same_text(name.as_str(), "council") {
            Some(WorkspaceSignal::Council)
        } else {
            None
        },
        None => None,
    }
}

/// The attention kind of an optional field; the outer option is empty where the field is none.
pub open spec fn optional_kind(slot: Option<JsonTree>) -> Option<Option<WorkspaceAttentionKind>> {
    if slot is None || slot->0 is Null {
        Some(None)
    } else {
        match choice(slot) {
            Some(n) => if n == "periodic"@ {
                Some(Some(WorkspaceAttentionKind::Periodic))
            } else if n == "mention"@ {
                Some(Some(WorkspaceAttentionKind::Mention))
            } else if n == "directedResponse"@ {
                Some(Some(WorkspaceAttentionKind::DirectedResponse))
            } else {
                None
            },
            None => None,
        }
    }
}

fn read_optional_kind(slot: Option<&Json>) -> (kind: Option<Option<WorkspaceAttentionKind>>)
    ensures
        kind == optional_kind(slot_tree(slot)),
{
    match slot {
        None => Some(None),
        Some(Json::Null) => Some(None),
        _ => match read_choice(slot) {
            Some(name) => if same_text(name.as_str(), "periodic") {
                Some(Some(WorkspaceAttentionKind::Periodic))
            } else if same_text(name.as_str(), "mention") {
                Some(Some(WorkspaceAttentionKind::Mention))
            } else if same_text(name.as_str(), "directedResponse") {
                Some(Some(WorkspaceAttentionKind::DirectedResponse))
            } else {
                None
            },
            None => None,
        },
    }
}

/// The wake class of an optional field; the outer option is empty where the field is none.
pub open spec fn optional_wake(slot: Option<JsonTree>) -> Option<Option<WorkspaceWakeClass>> {
    if slot is None || slot->0 is Null {
        Some(None)
    } else {
        match choice(slot) {
            Some(n) => if n == "unspecified"@ {
                Some(Some(WorkspaceWakeClass::Unspecified))
            } else if n == "operatorChat"@ {
                Some(Some(WorkspaceWakeClass::OperatorChat))
            } else if n == "peerMention"@ {
                Some(Some(WorkspaceWakeClass::PeerMention))
            } else if n == "periodicReview"@ {
                Some(Some(WorkspaceWakeClass::PeriodicReview))
            } else if n == "manual"@ {
                Some(Some(WorkspaceWakeClass::Manual))
            } else {
                None
            },
            None => None,
        }
    }
}

fn read_optional_wake(slot: Option<&Json>) -> (class: Option<Option<WorkspaceWakeClass>>)
    ensures
        class == optional_wake(slot_tree(slot)),
{
    match slot {
        None => Some(None),
        Some(Json::Null) => Some(None),
        _ => match read_choice(slot) {
            Some(name) => if same_text(name.as_str(), "unspecified") {
                Some(Some(WorkspaceWakeClass::Unspecified))
            } else if same_text(name.as_str(), "operatorChat") {
                Some(Some(WorkspaceWakeClass::OperatorChat))
            } else if same_text(name.as_str(), "peerMention") {
                Some(Some(WorkspaceWakeClass::PeerMention))
            } else if same_text(name.as_str(), "periodicReview") {
                Some(Some(WorkspaceWakeClass::PeriodicReview))
            } else if same_text(name.as_str(), "manual") {
                Some(Some(WorkspaceWakeClass::Manual))
            } else {
                None
            },
            None => None,
        },
    }
}

/// The fields of an event, in the order in which a list gives them.
pub open spec fn signal_fields() -> Seq<Seq<char>> {
    seq![
        "attentionKind"@,
        "batchCount"@,
        "createdAt"@,
        "deliveryMode"@,
        "eventId"@,
        "eventSequence"@,
        "firstEventSequence"@,
        "from"@,
        "predatesRuntime"@,
        "priority"@,
        "signal"@,
        "sourceCount"@,
        "sourceFirstRef"@,
        "sourceLatestRef"@,
        "targets"@,
        "to"@,
        "latestEventSequence"@,
        "wakeClass"@,
    ]
}

/// The fields of which an event must have each.
pub struct RequiredFields {
    pub created_at: Seq<char>,
    pub delivery_mode: Seq<char>,
    pub event_id: Seq<char>,
    pub event_sequence: Seq<char>,
    pub from: Seq<char>,
    pub predates_runtime: bool,
    pub priority: u64,
    pub signal: WorkspaceSignal,
    pub targets: Seq<Seq<char>>,
    pub to: Seq<char>,
}

/// The required fields among the values of a record.
pub open spec fn required_fields(slots: Seq<Option<JsonTree>>) -> Option<RequiredFields> {
    match (
        as_text(slots[2]),
        as_text(slots[3]),
        as_text(slots[4]),
        as_text(slots[5]),
        as_text(slots[7]),
        truth(slots[8]),
        bounded_number(slots[9], 255),
        signal_named(choice(slots[10])),
        text_list(slots[14]),
        as_text(slots[15]),
    ) {
        (
            Some(created_at),
            Some(delivery_mode),
            Some(event_id),
            Some(event_sequence),
            Some(from),
            Some(predates_runtime),
            Some(priority),
            Some(signal),
            Some(targets),
            Some(to),
        ) => Some(
            RequiredFields {
                created_at,
                delivery_mode,
                event_id,
                event_sequence,
                from,
                predates_runtime,
                priority,
                signal,
                targets,
                to,
            },
        ),
        _ => None,
    }
}

/// The event that the values of a record make.
pub open spec fn signal_of_slots(slots: Seq<Option<JsonTree>>) -> Option<SignalData> {
    match (
        required_fields(slots),
        optional_kind(slots[0]),
        optional_number(slots[1], 65535),
        optional_text(slots[6]),
        optional_number(slots[11], u64::MAX),
        optional_text(slots[12]),
        optional_text(slots[13]),
        optional_text(slots[16]),
        optional_wake(slots[17]),
    ) {
        (
            Some(required),
            Some(attention_kind),
            Some(batch_count),
            Some(first_event_sequence),
            Some(source_count),
            Some(source_first_ref),
            Some(source_latest_ref),
            Some(latest_event_sequence),
            Some(wake_class),
        ) => Some(
            SignalData {
                attention_kind,
                batch_count: match batch_count {
                    Some(n) => Some(n as u16),
                    None => None,
                },
                created_at: required.created_at,
                delivery_mode: required.delivery_mode,
                event_id: required.event_id,
                event_sequence: required.event_sequence,
                first_event_sequence,
                from: required.from,
                predates_runtime: required.predates_runtime,
                priority: required.priority as u8,
                signal: required.signal,
                source_count,
                source_first_ref,
                source_latest_ref,
                targets: required.targets,
                to: required.to,
                latest_event_sequence,
                wake_class,
            },
        ),
        _ => None,
    }
}

/// The event that a document records, whatever its metadata.
pub open spec fn decoded_signal(json: JsonTree) -> Option<SignalData> {
    match record(json, signal_fields()) {
        Some(slots) => signal_of_slots(slots),
        None => None,
    }
}

fn read_slots(slots: &Vec<Option<&Json>>) -> (event: Option<WorkspaceSignalEvent>)
    requires
        slots@.len() == 18,
    ensures
        event is Some <==> signal_of_slots(slot_trees(slots@)) is Some,
        event matches Some(e) ==> signal_of_slots(slot_trees(slots@)) == Some(e@),
{
    let attention_kind = read_optional_kind(slots[0]);
    let batch_count = read_optional_number(slots[1], 65535);
    let first_event_sequence = read_optional_text(slots[6]);
    let source_count = read_optional_number(slots[11], u64::MAX);
    let source_first_ref = read_optional_text(slots[12]);
    let source_latest_ref = read_optional_text(slots[13]);
    let latest_event_sequence = read_optional_text(slots[16]);
    let wake_class = read_optional_wake(slots[17]);
    match (
        text_slot(slots[2]),
        text_slot(slots[3]),
        text_slot(slots[4]),
        text_slot(slots[5]),
        text_slot(slots[7]),
        read_truth(slots[8]),
        read_number(slots[9], 255),
        read_signal(slots[10]),
        read_text_list(slots[14]),
        text_slot(slots[15]),
    ) {
        (
            Some(created_at),
            Some(delivery_mode),
            Some(event_id),
            Some(event_sequence),
            Some(from),
            Some(predates_runtime),
            Some(priority),
            Some(signal),
            Some(targets),
            Some(to),
        ) => match (
            attention_kind,
            batch_count,
            first_event_sequence,
            source_count,
            source_first_ref,
            source_latest_ref,
            latest_event_sequence,
            wake_class,
        ) {
            (
                Some(attention_kind),
                Some(batch_count),
                Some(first_event_sequence),
                Some(source_count),
                Some(source_first_ref),
                Some(source_latest_ref),
                Some(latest_event_sequence),
                Some(wake_class),
            ) => Some(
                WorkspaceSignalEvent {
                    attention_kind,
                    batch_count: match batch_count {
                        Some(n) => Some(n as u16),
                        None => None,
                    },
                    created_at,
                    delivery_mode,
                    event_id,
                    event_sequence,
                    first_event_sequence,
                    from,
                    predates_runtime,
                    priority: priority as u8,
                    signal,
                    source_count,
                    source_first_ref,
                    source_latest_ref,
                    targets,
                    to,
                    latest_event_sequence,
                    wake_class,
                },
            ),
            _ => None,
        },
        _ => None,
    }
}

/// Reads the event that a document records.
pub fn read_signal_event(json: &Json) -> (event: Option<WorkspaceSignalEvent>)
    ensures
        event is Some <==> decoded_signal(json@) is Some,
        event matches Some(e) ==> decoded_signal(json@) == Some(e@),
{
    let fields = [
        "attentionKind",
        "batchCount",
        "createdAt",
        "deliveryMode",
        "eventId",
        "eventSequence",
        "firstEventSequence",
        "from",
        "predatesRuntime",
        "priority",
        "signal",
        "sourceCount",
        "sourceFirstRef",
        "sourceLatestRef",
        "targets",
        "to",
        "latestEventSequence",
        "wakeClass",
    ];
    assert(fields@.len() == 18);
    assert(names(fields@) =~= signal_fields());
    match read_record(json, fields.as_slice()) {
        Some(slots) => read_slots(&slots),
        None => None,
    }
}

/// The number that an event sequence is: a run of at most twenty digits that fits in 64 bits.
pub open spec fn sequence_number(value: Option<Seq<char>>) -> Option<nat> {
    match value {
        Some(v) => if byte_len(v) <= 20 {
            digits_up_to(v, u64::MAX as nat)
        } else {
            None
        },
        None => None,
    }
}

/// Reads an event sequence.
pub fn bounded_sequence(value: &Option<String>) -> (n: Option<u64>)
    ensures
        n is Some <==> sequence_number(optional_view(*value)) is Some,
        n matches Some(v) ==> sequence_number(optional_view(*value)) == Some(v as nat),
{
    match value {
        Some(text) => sequence_of(text.as_str()),
        None => None,
    }
}

fn sequence_of(text: &str) -> (n: Option<u64>)
    ensures
        n is Some <==> sequence_number(Some(text@)) is Some,
        n matches Some(v) ==> sequence_number(Some(text@)) == Some(v as nat),
{
    if text_bytes(text) > 20 {
        return None;
    }
    let chars = chars_of(text);
    read_digits(chars.as_slice(), u64::MAX)
}

/// Where the last colon stands.
pub open spec fn last_colon(text: Seq<char>) -> Option<int>
    decreases text.len(),
{
    if text.len() == 0 {
        None
    } else if text.last() == ':' {
        Some(text.len() - 1)
    } else {
        last_colon(text.drop_last())
    }
}

/// The namespace of a source reference: what stands before its last colon, where there is
/// something on both sides of it.
pub open spec fn namespace(reference: Seq<char>) -> Option<Seq<char>> {
    match last_colon(reference) {
        Some(k) => if 0 < k < reference.len() - 1 {
            Some(reference.take(k))
        } else {
            None
        },
        None => None,
    }
}

fn find_last_colon(chars: &[char]) -> (found: Option<usize>)
    ensures
        found is Some <==> last_colon(chars@) is Some,
        found matches Some(k) ==> k < chars@.len() && last_colon(chars@) == Some(k as int),
{
    let mut i: usize = chars.len();
    assert(chars@.take(i as int) =~= chars@);
    while i > 0
        invariant
            i <= chars@.len(),
            last_colon(chars@) == last_colon(chars@.take(i as int)),
        decreases i,
    {
        assert(chars@.take(i as int).drop_last() =~= chars@.take(i - 1));
        if chars[i - 1] == ':' {
            return Some(i - 1);
        }
        i -= 1;
    }
    None
}

/// Takes the namespace out of a source reference.
pub fn source_namespace(reference: &str) -> (space: Option<String>)
    ensures
        optional_view(space) == namespace(reference@),
{
    let chars = chars_of(reference);
    match find_last_colon(chars.as_slice()) {
        Some(k) => if 0 < k && k < chars.len() - 1 {
            let space = text_of(chars.as_slice(), 0, k);
            assert(space@ =~= reference@.take(k as int));
            Some(space)
        } else {
            None
        },
        None => None,
    }
}

/// A source reference and a later one belong together: both are atoms of at most 64 bytes, and
/// either both lie in the same namespace or neither has a colon at all.
pub open spec fn sources_agree(first: Seq<char>, latest: Seq<char>) -> bool {
    &&& is_atom(first, 64, false)
    &&& is_atom(latest, 64, false)
    &&& namespace(first) == namespace(latest)
    &&& namespace(first) is None ==> last_colon(first) is None && last_colon(latest) is None
}

fn check_sources(first: &str, latest: &str) -> (agree: bool)
    ensures
        agree == sources_agree(first@, latest@),
{
    if !check_atom(first, 64, false) || !check_atom(latest, 64, false) {
        return false;
    }
    let first_space = source_namespace(first);
    let latest_space = source_namespace(latest);
    if !same_optional_text(&first_space, &latest_space) {
        return false;
    }
    if first_space.is_none() {
        let first_chars = chars_of(first);
        let latest_chars = chars_of(latest);
        return find_last_colon(first_chars.as_slice()).is_none() && find_last_colon(
            latest_chars.as_slice(),
        ).is_none();
    }
    true
}

/// Every target is an atom.
pub open spec fn targets_are_atoms(targets: Seq<Seq<char>>) -> bool {
    forall|i: int| 0 <= i < targets.len() ==> is_atom(#[trigger] targets[i], 128, false)
}

/// The attention that an event of the second protocol must ask for.
pub open spec fn expected_attention(
    class: WorkspaceWakeClass,
    signal: WorkspaceSignal,
) -> WorkspaceAttentionKind {
    match class {
        WorkspaceWakeClass::OperatorChat => WorkspaceAttentionKind::DirectedResponse,
        WorkspaceWakeClass::PeerMention => WorkspaceAttentionKind::Mention,
        _ => signal_attention(signal),
    }
}

/// The batch of an event of the second protocol: at most a hundred events, the first of which is
/// the event itself.
pub open spec fn batch_valid(event: SignalData) -> bool {
    &&& event.batch_count matches Some(count) && 1 <= count <= 100
    &&& sequence_number(event.first_event_sequence) matches Some(first)
    &&& sequence_number(event.latest_event_sequence) matches Some(latest)
    &&& sequence_number(Some(event.event_sequence)) == Some(first)
    &&& first <= latest
}

/// The cause of an event of the second protocol: only the member itself passes operator chat on,
/// and the attention is the one that the cause asks for.
pub open spec fn cause_valid(event: SignalData) -> bool {
    &&& event.wake_class matches Some(class)
    &&& class == WorkspaceWakeClass::OperatorChat ==> event.from == event.to && event.signal
        == WorkspaceSignal::Tap
    &&& event.attention_kind == Some(expected_attention(class, event.signal))
}

/// The sources of an event of the second protocol: none where the cause is not specified, and
/// otherwise a bounded number of them that belong together.
pub open spec fn sources_valid(event: SignalData) -> bool {
    &&& event.source_count matches Some(count)
    &&& if event.wake_class == Some(WorkspaceWakeClass::Unspecified) {
        count == 0 && event.source_first_ref is None && event.source_latest_ref is None
    } else {
        &&& 1 <= count <= 100_000_000
        &&& event.source_first_ref matches Some(first)
        &&& event.source_latest_ref matches Some(latest)
        &&& sources_agree(first, latest)
    }
}

/// An event of the second protocol is in order.
pub open spec fn v2_valid(event: SignalData) -> bool {
    batch_valid(event) && cause_valid(event) && sources_valid(event)
}

/// An event of the first protocol carries nothing of the second.
pub open spec fn v1_valid(event: SignalData) -> bool {
    &&& event.attention_kind is None
    &&& event.batch_count is None
    &&& event.first_event_sequence is None
    &&& event.latest_event_sequence is None
    &&& event.source_count is None
    &&& event.source_first_ref is None
    &&& event.source_latest_ref is None
    &&& event.wake_class is None
}

/// The metadata of an event is closed and bounded.
pub open spec fn event_valid(event: SignalData, protocol: BridgeProtocol) -> bool {
    &&& event.priority <= 2
    &&& event.targets.len() <= MAX_TARGETS
    &&& is_atom(event.event_id, 128, false)
    &&& is_atom(event.event_sequence, 128, false)
    &&& is_atom(event.from, 128, false)
    &&& is_atom(event.to, 128, false)
    &&& targets_are_atoms(event.targets)
    &&& event.signal != WorkspaceSignal::Cc ==> event.targets.len() == 0
    &&& match protocol {
        BridgeProtocol::V1 => v1_valid(event),
        BridgeProtocol::V2 => v2_valid(event),
    }
}

/// Checks an event of the second protocol.
pub fn validate_v2_event(event: &WorkspaceSignalEvent) -> (valid: bool)
    ensures
        valid == v2_valid(event@),
{
    let (attention_kind, batch_count): (WorkspaceAttentionKind, u16) = match (
        event.attention_kind,
        event.batch_count,
    ) {
        (Some(kind), Some(count)) => (kind, count),
        _ => {
            return false;
        },
    };
    if !(1 <= batch_count && batch_count <= 100) {
        return false;
    }
    let (first, latest): (u64, u64) = match (
        bounded_sequence(&event.first_event_sequence),
        bounded_sequence(&event.latest_event_sequence),
    ) {
        (Some(first), Some(latest)) => (first, latest),
        _ => {
            return false;
        },
    };
    match sequence_of(event.event_sequence.as_str()) {
        Some(own) => {
            if first != own || latest < first {
                return false;
            }
        },
        None => {
            return false;
        },
    }
    let wake_class = match event.wake_class {
        Some(class) => class,
        None => {
            return false;
        },
    };
    if wake_class == WorkspaceWakeClass::OperatorChat && (!same_text(
        event.from.as_str(),
        event.to.as_str(),
    ) || event.signal != WorkspaceSignal::Tap) {
        return false;
    }
    let expected = match wake_class {
        WorkspaceWakeClass::OperatorChat => WorkspaceAttentionKind::DirectedResponse,
        WorkspaceWakeClass::PeerMention => WorkspaceAttentionKind::Mention,
        WorkspaceWakeClass::Unspecified
        | WorkspaceWakeClass::PeriodicReview
        | WorkspaceWakeClass::Manual => match event.signal {
            WorkspaceSignal::Tap => WorkspaceAttentionKind::Periodic,
            WorkspaceSignal::Cc => WorkspaceAttentionKind::DirectedResponse,
            WorkspaceSignal::Council => WorkspaceAttentionKind::Mention,
        },
    };
    if attention_kind != expected {
        return false;
    }
    let source_count: u64 = match event.source_count {
        Some(count) => count,
        None => {
            return false;
        },
    };
    if wake_class == WorkspaceWakeClass::Unspecified {
        return source_count == 0 && event.source_first_ref.is_none()
            && event.source_latest_ref.is_none();
    }
    if !(1 <= source_count && source_count <= 100_000_000) {
        return false;
    }
    match (&event.source_first_ref, &event.source_latest_ref) {
        (Some(first_ref), Some(latest_ref)) => check_sources(
            first_ref.as_str(),
            latest_ref.as_str(),
        ),
        _ => false,
    }
}

/// Checks the metadata of an event.
pub fn validate_event(event: &WorkspaceSignalEvent, protocol: BridgeProtocol) -> (valid: bool)
    ensures
        valid == event_valid(event@, protocol),
{
    if event.priority > 2 || event.targets.len() > MAX_TARGETS {
        return false;
    }
    if !check_atom(event.event_id.as_str(), 128, false) || !check_atom(
        event.event_sequence.as_str(),
        128,
        false,
    ) || !check_atom(event.from.as_str(), 128, false) || !check_atom(
        event.to.as_str(),
        128,
        false,
    ) {
        return false;
    }
    let mut i: usize = 0;
    while i < event.targets.len()
        invariant
            i <= event.targets@.len(),
            forall|j: int| 0 <= j < i ==> is_atom(#[trigger] event@.targets[j], 128, false),
        decreases event.targets@.len() - i,
    {
        if !check_atom(event.targets[i].as_str(), 128, false) {
            assert(!is_atom(event@.targets[i as int], 128, false));
            return false;
        }
        i += 1;
    }
    if event.signal != WorkspaceSignal::Cc && event.targets.len() != 0 {
        return false;
    }
    match protocol {
        BridgeProtocol::V1 => event.attention_kind.is_none() && event.batch_count.is_none()
            && event.first_event_sequence.is_none() && event.latest_event_sequence.is_none()
            && event.source_count.is_none() && event.source_first_ref.is_none()
            && event.source_latest_ref.is_none() && event.wake_class.is_none(),
        BridgeProtocol::V2 => validate_v2_event(event),
    }
}

/// The attention that an event asks for.
pub open spec fn event_attention(event: SignalData) -> ThreadAttentionKind {
    match event.attention_kind {
        Some(kind) => thread_attention(kind),
        None => thread_attention(signal_attention(event.signal)),
    }
}

/// The targets in a reference.
pub open spec fn targets_text(targets: Seq<Seq<char>>) -> Seq<char>
    decreases targets.len(),
{
    if targets.len() == 0 {
        Seq::empty()
    } else {
        targets_text(targets.drop_last()) + ("/cc/"@ + targets.last())
    }
}

/// The start of a reference: protocol and signal.
pub open spec fn reference_head(event: SignalData, protocol: BridgeProtocol) -> Seq<char> {
    (match protocol {
        BridgeProtocol::V1 => "workspace-signal/v1/"@,
        BridgeProtocol::V2 => "workspace-signal/v2/"@,
    }) + signal_name(event.signal)
}

/// The batch in a reference of the second protocol.
pub open spec fn reference_batch(event: SignalData) -> Seq<char> {
    "/wake/"@ + wake_name(event.wake_class->0) + "/b/"@ + decimal(event.batch_count->0 as nat)
        + "/e/"@ + event.first_event_sequence->0 + "-"@ + event.latest_event_sequence->0
}

/// The sources in a reference of the second protocol, where there are any.
pub open spec fn reference_sources(event: SignalData) -> Seq<char> {
    match (event.source_count, event.source_first_ref, event.source_latest_ref) {
        (Some(count), Some(first), Some(latest)) => if count > 0 {
            "/s/"@ + decimal(count as nat) + "/"@ + first + "-"@ + latest
        } else {
            Seq::empty()
        },
        _ => Seq::empty(),
    }
}

/// A reference without its targets.
pub open spec fn reference_base(event: SignalData, protocol: BridgeProtocol) -> Seq<char> {
    match protocol {
        BridgeProtocol::V1 => reference_head(event, protocol),
        BridgeProtocol::V2 => reference_head(event, protocol) + reference_batch(event)
            + reference_sources(event),
    }
}

/// The reference for an event: with its targets where they fit, and with their number where not.
pub open spec fn event_reference(event: SignalData, protocol: BridgeProtocol) -> Seq<char> {
    let base = reference_base(event, protocol);
    let targets = targets_text(event.targets);
    if byte_len(base) + byte_len(targets) <= MAX_REFERENCE_BYTES {
        base + targets
    } else {
        base + ("/cc-count/"@ + decimal(event.targets.len()))
    }
}

fn write_targets(targets: &Vec<String>) -> (text: String)
    ensures
        text@ == targets_text(text_views(targets@)),
{
    let mut text = String::new();
    let ghost all = text_views(targets@);
    let mut i: usize = 0;
    assert(all.take(0) =~= Seq::<Seq<char>>::empty());
    while i < targets.len()
        invariant
            i <= targets@.len(),
            all == text_views(targets@),
            text@ == targets_text(all.take(i as int)),
        decreases targets@.len() - i,
    {
        let ghost before = text@;
        assert(all.take(i + 1).drop_last() =~= all.take(i as int));
        text.append("/cc/");
        text.append(targets[i].as_str());
        assert(text@ =~= before + ("/cc/"@ + all[i as int]));
        i += 1;
    }
    assert(all.take(i as int) =~= all);
    text
}

impl WorkspaceSignalEvent {
    /// The attention that this event asks for.
    pub fn attention_kind(&self) -> (kind: ThreadAttentionKind)
        ensures
            kind == event_attention(self@),
    {
        match self.attention_kind {
            Some(kind) => kind.into_thread_attention(),
            None => self.signal.attention_kind(),
        }
    }

    /// The reference for this event.
    pub fn reference(&self, protocol: BridgeProtocol) -> (reference: String)
        requires
            protocol == BridgeProtocol::V2 ==> self.wake_class is Some && self.batch_count is Some
                && self.first_event_sequence is Some && self.latest_event_sequence is Some,
        ensures
            reference@ == event_reference(self@, protocol),
            event_valid(self@, protocol) ==> byte_len(reference@) <= MAX_REFERENCE_BYTES,
    {
        let mut reference = match protocol {
            BridgeProtocol::V1 => "workspace-signal/v1/".to_owned(),
            BridgeProtocol::V2 => "workspace-signal/v2/".to_owned(),
        };
        reference.append(self.signal.as_str());
        if let BridgeProtocol::V2 = protocol {
            let ghost head = reference@;
            if let (Some(wake_class), Some(batch_count), Some(first), Some(latest)) = (
                self.wake_class,
                self.batch_count,
                &self.first_event_sequence,
                &self.latest_event_sequence,
            ) {
                reference.append("/wake/");
                reference.append(wake_class.as_str());
                reference.append("/b/");
                reference.append(write_decimal(batch_count as u64).as_str());
                reference.append("/e/");
                reference.append(first.as_str());
                reference.append("-");
                reference.append(latest.as_str());
            }
            assert(reference@ =~= head + reference_batch(self@));
            let ghost batched = reference@;
            if let (Some(source_count), Some(first), Some(latest)) = (
                self.source_count,
                &self.source_first_ref,
                &self.source_latest_ref,
            ) {
                if source_count > 0 {
                    reference.append("/s/");
                    reference.append(write_decimal(source_count).as_str());
                    reference.append("/");
                    reference.append(first.as_str());
                    reference.append("-");
                    reference.append(latest.as_str());
                }
            }
            assert(reference@ =~= batched + reference_sources(self@));
        }
        assert(reference@ =~= reference_base(self@, protocol));
        let targets = write_targets(&self.targets);
        proof {
            lemma_bytes_of_join(reference@, targets@);
            if event_valid(self@, protocol) {
                law_reference_is_bounded(self@, protocol);
            }
        }
        let base_bytes = text_bytes(reference.as_str());
        let target_bytes = text_bytes(targets.as_str());
        if base_bytes <= MAX_REFERENCE_BYTES && target_bytes <= MAX_REFERENCE_BYTES - base_bytes {
            reference.append(targets.as_str());
        } else {
            let ghost base = reference@;
            reference.append("/cc-count/");
            reference.append(write_decimal(self.targets.len() as u64).as_str());
            assert(reference@ =~= base + ("/cc-count/"@ + decimal(self.targets@.len())));
        }
        reference
    }
}

/// The bytes of three texts joined are the sum of theirs.
proof fn lemma_three_bytes(a: Seq<char>, b: Seq<char>, c: Seq<char>)
    ensures
        byte_len(a + b + c) == byte_len(a) + byte_len(b) + byte_len(c),
{
    lemma_bytes_of_join(a, b);
    lemma_bytes_of_join(a + b, c);
}

proof fn lemma_literal_bytes(text: Seq<char>)
    requires
        in_alphabet(text, true),
    ensures
        byte_len(text) == text.len(),
{
    lemma_atom_bytes(text, true);
}

proof fn lemma_head_bytes(event: SignalData, protocol: BridgeProtocol)
    ensures
        byte_len(reference_head(event, protocol)) <= 27,
{
    reveal_strlit("workspace-signal/v1/");
    reveal_strlit("workspace-signal/v2/");
    reveal_strlit("tap");
    reveal_strlit("cc");
    reveal_strlit("council");
    let start = match protocol {
        BridgeProtocol::V1 => "workspace-signal/v1/"@,
        BridgeProtocol::V2 => "workspace-signal/v2/"@,
    };
    lemma_literal_bytes(start);
    lemma_literal_bytes(signal_name(event.signal));
    lemma_bytes_of_join(start, signal_name(event.signal));
}

proof fn lemma_batch_bytes(event: SignalData)
    requires
        batch_valid(event),
        event.wake_class is Some,
    ensures
        byte_len(reference_batch(event)) <= 70,
{
    reveal_strlit("/wake/");
    reveal_strlit("/b/");
    reveal_strlit("/e/");
    reveal_strlit("-");
    reveal_strlit("unspecified");
    reveal_strlit("operatorChat");
    reveal_strlit("peerMention");
    reveal_strlit("periodicReview");
    reveal_strlit("manual");
    let wake = wake_name(event.wake_class->0);
    let count = decimal(event.batch_count->0 as nat);
    let first = event.first_event_sequence->0;
    let latest = event.latest_event_sequence->0;
    lemma_literal_bytes("/wake/"@);
    lemma_literal_bytes("/b/"@);
    lemma_literal_bytes("/e/"@);
    lemma_literal_bytes("-"@);
    lemma_literal_bytes(wake);
    lemma_decimal_numeral(event.batch_count->0 as nat);
    lemma_digits_are_ascii(count);
    assert(vstd::arithmetic::power::pow(10, 3) == 1000) by {
        reveal_with_fuel(vstd::arithmetic::power::pow, 4);
    }
    lemma_decimal_len(event.batch_count->0 as nat, 3);
    let a = "/wake/"@ + wake + "/b/"@;
    lemma_three_bytes("/wake/"@, wake, "/b/"@);
    let b = a + count + "/e/"@;
    lemma_three_bytes(a, count, "/e/"@);
    let c = b + first + "-"@;
    lemma_three_bytes(b, first, "-"@);
    lemma_bytes_of_join(c, latest);
}

proof fn lemma_sources_bytes(event: SignalData)
    requires
        sources_valid(event),
    ensures
        byte_len(reference_sources(event)) <= 142,
{
    reveal_strlit("/s/");
    reveal_strlit("/");
    reveal_strlit("-");
    if let (Some(count), Some(first), Some(latest)) = (
        event.source_count,
        event.source_first_ref,
        event.source_latest_ref,
    ) {
        lemma_literal_bytes("/s/"@);
        lemma_literal_bytes("/"@);
        lemma_literal_bytes("-"@);
        lemma_decimal_numeral(count as nat);
        lemma_digits_are_ascii(decimal(count as nat));
        assert(vstd::arithmetic::power::pow(10, 9) == 1_000_000_000) by {
            reveal_with_fuel(vstd::arithmetic::power::pow, 10);
        }
        lemma_decimal_len(count as nat, 9);
        let a = "/s/"@ + decimal(count as nat) + "/"@;
        lemma_three_bytes("/s/"@, decimal(count as nat), "/"@);
        let b = a + first + "-"@;
        lemma_three_bytes(a, first, "-"@);
        lemma_bytes_of_join(b, latest);
    }
    assert(byte_len(Seq::empty()) == 0);
}

/// The reference for an event that is in order stays within the bound of the app server, whatever
/// the sizes of its metadata.
pub proof fn law_reference_is_bounded(event: SignalData, protocol: BridgeProtocol)
    requires
        event_valid(event, protocol),
    ensures
        byte_len(event_reference(event, protocol)) <= MAX_REFERENCE_BYTES,
{
    let base = reference_base(event, protocol);
    lemma_head_bytes(event, protocol);
    if protocol == BridgeProtocol::V2 {
        lemma_batch_bytes(event);
        lemma_sources_bytes(event);
        lemma_three_bytes(
            reference_head(event, protocol),
            reference_batch(event),
            reference_sources(event),
        );
    }
    let targets = targets_text(event.targets);
    lemma_bytes_of_join(base, targets);
    reveal_strlit("/cc-count/");
    lemma_literal_bytes("/cc-count/"@);
    let count = decimal(event.targets.len());
    lemma_decimal_numeral(event.targets.len());
    lemma_digits_are_ascii(count);
    assert(vstd::arithmetic::power::pow(10, 2) == 100) by {
        reveal_with_fuel(vstd::arithmetic::power::pow, 3);
    }
    lemma_decimal_len(event.targets.len(), 2);
    lemma_bytes_of_join("/cc-count/"@, count);
    lemma_bytes_of_join(base, "/cc-count/"@ + count);
}

/// Operator chat is passed on by the member itself alone, and as a directed response.
pub proof fn law_operator_chat_is_not_claimed_by_peers(event: SignalData)
    requires
        event_valid(event, BridgeProtocol::V2),
        event.wake_class == Some(WorkspaceWakeClass::OperatorChat),
    ensures
        event.from == event.to,
        event_attention(event) == ThreadAttentionKind::DirectedResponse,
{
}

} // verus!
