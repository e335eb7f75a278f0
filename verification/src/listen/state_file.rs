//! The file in which a listener keeps its state.

use std::collections::VecDeque;
use vstd::prelude::*;
use vstd::string::*;
use vstd::utf8::*;

use crate::attention::{attention_kind_name, kind_name, ThreadAttentionKind};
use crate::json::{
    as_text, bounded_number, choice, lemma_member_found, lemma_member_trees,
    lemma_trees, loose_record, member, member_trees, names, optional_number,
    optional_signed, read_choice, read_loose_record,
    read_number, read_optional_number, read_optional_signed, read_record, read_signed,
    read_text_list, record, signed_json, signed_number, signed_tree, slot_tree,
    text_list, text_slot, text_views, tree, trees, writable, write_json_page, json_page, Json,
    JsonTree,
};
use crate::listen::event::InboxIdentity;
use crate::listen::state::{
    attempt_error_message, attempt_fault, initial_state, optional_attempt, AttemptData,
    AttemptError, ListenerState, PendingAttempt, StateData, LISTENER_STATE_VERSION,
};
use crate::listen::state_text::{read_state_document, state_document};
use crate::text::{decimal, same_text, write_decimal};

verus! {

/// Why a state file cannot be taken up.
#[derive(Clone, Copy, Debug, PartialEq, Eq, Structural)]
pub enum LoadError {
    /// The file holds no listener state.
    Unreadable,
    UnsupportedVersion { version: u8 },
    /// There is an offset, but not the inbox that it belongs to.
    UnboundOffset { offset: u64 },
    Attempt { error: AttemptError },
}

/// What is reported of a state file that cannot be taken up.
pub open spec fn load_error_message(error: LoadError, path: Seq<char>) -> Seq<char> {
    match error {
        LoadError::Unreadable => "failed to parse listener state "@ + path,
        LoadError::UnsupportedVersion { version } => "unsupported listener state version "@
            + decimal(version as nat) + "; expected 2"@,
        LoadError::UnboundOffset { offset } => "ATTENTION INBOX HOLD: listener state "@ + path
            + " has durable event offset "@ + decimal(offset as nat)
            + " but no inbox file identity; refusing to bind a legacy offset to an arbitrary current inbox"@,
        LoadError::Attempt { error } => attempt_error_message(error),
    }
}

impl LoadError {
    /// The message of this error for the state file at a path.
    pub fn to_message(&self, path: &str) -> (message: String)
        ensures
            message@ == load_error_message(*self, path@),
    {
        match self {
            LoadError::Unreadable => {
                let mut message = "failed to parse listener state ".to_owned();
                message.append(path);
                message
            },
            LoadError::UnsupportedVersion { version } => {
                let mut message = "unsupported listener state version ".to_owned();
                message.append(write_decimal(*version as u64).as_str());
                message.append("; expected 2");
                message
            },
            LoadError::UnboundOffset { offset } => {
                let mut message = "ATTENTION INBOX HOLD: listener state ".to_owned();
                message.append(path);
                message.append(" has durable event offset ");
                message.append(write_decimal(*offset).as_str());
                message.append(
                    " but no inbox file identity; refusing to bind a legacy offset to an arbitrary current inbox",
                );
                message
            },
            LoadError::Attempt { error } => error.to_message(),
        }
    }
}

/// What keeps a listener from going on with a state.
pub open spec fn load_fault(state: StateData) -> Option<LoadError> {
    if state.version != LISTENER_STATE_VERSION {
        Some(LoadError::UnsupportedVersion { version: state.version })
    } else if state.event_offset > 0 && state.inbox_identity is None {
        Some(LoadError::UnboundOffset { offset: state.event_offset })
    } else if state.pending_attempt is Some && attempt_fault(state.pending_attempt->0) is Some {
        Some(LoadError::Attempt { error: attempt_fault(state.pending_attempt->0)->0 })
    } else {
        None
    }
}

/// The fields of an inbox identity.
pub open spec fn identity_fields() -> Seq<Seq<char>> {
    seq!["device"@, "inode"@]
}

/// The inbox identity of an optional field; the outer option is empty where the field is no
/// identity.
pub open spec fn decoded_identity(slot: Option<JsonTree>) -> Option<Option<InboxIdentity>> {
    match slot {
        None => Some(None),
        Some(JsonTree::Null) => Some(None),
        Some(json) => match loose_record(json, identity_fields()) {
            Some(slots) => match (
                bounded_number(slots[0], u64::MAX),
                bounded_number(slots[1], u64::MAX),
            ) {
                (Some(device), Some(inode)) => Some(Some(InboxIdentity { device, inode })),
                _ => None,
            },
            None => None,
        },
    }
}

fn read_identity(slot: Option<&Json>) -> (identity: Option<Option<InboxIdentity>>)
    ensures
        identity == decoded_identity(slot_tree(slot)),
{
    match slot {
        None => Some(None),
        Some(Json::Null) => Some(None),
        Some(json) => {
            let fields = ["device", "inode"];
            assert(fields@.len() == 2);
            assert(names(fields@) =~= identity_fields());
            match read_loose_record(json, fields.as_slice()) {
                Some(slots) => match (
                    read_number(slots[0], u64::MAX),
                    read_number(slots[1], u64::MAX),
                ) {
                    (Some(device), Some(inode)) => Some(Some(InboxIdentity { device, inode })),
                    _ => None,
                },
                None => None,
            }
        },
    }
}

/// The fields of an attempt.
pub open spec fn attempt_fields() -> Seq<Seq<char>> {
    seq![
        "threadId"@,
        "eventId"@,
        "kind"@,
        "eventOffset"@,
        "nextEventOffset"@,
        "attemptedAt"@,
    ]
}

/// The kind of attention by its name.
pub open spec fn attention_kind_named(name: Option<Seq<char>>) -> Option<ThreadAttentionKind> {
    match name {
        Some(n) => if n == "mention"@ {
            Some(ThreadAttentionKind::Mention)
        } else if n == "directedResponse"@ {
            Some(ThreadAttentionKind::DirectedResponse)
        } else if n == "periodic"@ {
            Some(ThreadAttentionKind::Periodic)
        } else {
            None
        },
        None => None,
    }
}

fn read_attention_kind(slot: Option<&Json>) -> (kind: Option<ThreadAttentionKind>)
    ensures
        kind == attention_kind_named(choice(slot_tree(slot))),
{
    match read_choice(slot) {
        Some(name) => if same_text(name.as_str(), "mention") {
            Some(ThreadAttentionKind::Mention)
        } else if same_text(name.as_str(), "directedResponse") {
            Some(ThreadAttentionKind::DirectedResponse)
        } else if same_text(name.as_str(), "periodic") {
            Some(ThreadAttentionKind::Periodic)
        } else {
            None
        },
        None => None,
    }
}

/// The attempt that a document records.
pub open spec fn decoded_attempt(json: JsonTree) -> Option<AttemptData> {
    match record(json, attempt_fields()) {
        Some(slots) => match (
            as_text(slots[0]),
            as_text(slots[1]),
            attention_kind_named(choice(slots[2])),
            optional_number(slots[3], u64::MAX),
            optional_number(slots[4], u64::MAX),
            signed_number(slots[5]),
        ) {
            (
                Some(thread_id),
                Some(event_id),
                Some(kind),
                Some(event_offset),
                Some(next_event_offset),
                Some(attempted_at),
            ) => Some(
                AttemptData {
                    thread_id,
                    event_id,
                    kind,
                    event_offset,
                    next_event_offset,
                    attempted_at,
                },
            ),
            _ => None,
        },
        None => None,
    }
}

/// The attempt of an optional field; the outer option is empty where the field is no attempt.
pub open spec fn decoded_pending(slot: Option<JsonTree>) -> Option<Option<AttemptData>> {
    match slot {
        None => Some(None),
        Some(JsonTree::Null) => Some(None),
        Some(json) => match decoded_attempt(json) {
            Some(attempt) => Some(Some(attempt)),
            None => None,
        },
    }
}

fn read_attempt(json: &Json) -> (attempt: Option<PendingAttempt>)
    ensures
        attempt is Some <==> decoded_attempt(json@) is Some,
        attempt matches Some(a) ==> decoded_attempt(json@) == Some(a@),
{
    let fields = ["threadId", "eventId", "kind", "eventOffset", "nextEventOffset", "attemptedAt"];
    assert(fields@.len() == 6);
    assert(names(fields@) =~= attempt_fields());
    let slots = match read_record(json, fields.as_slice()) {
        Some(slots) => slots,
        None => {
            return None;
        },
    };
    match (
        text_slot(slots[0]),
        text_slot(slots[1]),
        read_attention_kind(slots[2]),
        read_optional_number(slots[3], u64::MAX),
        read_optional_number(slots[4], u64::MAX),
        read_signed(slots[5]),
    ) {
        (
            Some(thread_id),
            Some(event_id),
            Some(kind),
            Some(event_offset),
            Some(next_event_offset),
            Some(attempted_at),
        ) => Some(
            PendingAttempt {
                thread_id,
                event_id,
                kind,
                event_offset,
                next_event_offset,
                attempted_at,
            },
        ),
        _ => None,
    }
}

fn read_pending(slot: Option<&Json>) -> (attempt: Option<Option<PendingAttempt>>)
    ensures
        attempt is Some <==> decoded_pending(slot_tree(slot)) is Some,
        attempt matches Some(a) ==> decoded_pending(slot_tree(slot)) == Some(optional_attempt(a)),
{
    match slot {
        None => Some(None),
        Some(Json::Null) => Some(None),
        Some(json) => match read_attempt(json) {
            Some(attempt) => Some(Some(attempt)),
            None => None,
        },
    }
}

/// The fields of a listener state.
pub open spec fn state_fields() -> Seq<Seq<char>> {
    seq![
        "version"@,
        "eventOffset"@,
        "inboxIdentity"@,
        "seenEventIds"@,
        "lastPeriodicAt"@,
        "pendingAttempt"@,
    ]
}

/// The state that a document records, whatever it holds.
pub open spec fn decoded_state(json: JsonTree) -> Option<StateData> {
    match record(json, state_fields()) {
        Some(slots) => match (
            bounded_number(slots[0], 255),
            bounded_number(slots[1], u64::MAX),
            decoded_identity(slots[2]),
            text_list(slots[3]),
            optional_signed(slots[4]),
            decoded_pending(slots[5]),
        ) {
            (
                Some(version),
                Some(event_offset),
                Some(inbox_identity),
                Some(seen_event_ids),
                Some(last_periodic_at),
                Some(pending_attempt),
            ) => Some(
                StateData {
                    version: version as u8,
                    event_offset,
                    inbox_identity,
                    seen_event_ids,
                    last_periodic_at,
                    pending_attempt,
                },
            ),
            _ => None,
        },
        None => None,
    }
}

fn read_state(json: &Json) -> (state: Option<ListenerState>)
    ensures
        state is Some <==> decoded_state(json@) is Some,
        state matches Some(s) ==> decoded_state(json@) == Some(s@),
{
    let fields = [
        "version",
        "eventOffset",
        "inboxIdentity",
        "seenEventIds",
        "lastPeriodicAt",
        "pendingAttempt",
    ];
    assert(fields@.len() == 6);
    assert(names(fields@) =~= state_fields());
    let slots = match read_record(json, fields.as_slice()) {
        Some(slots) => slots,
        None => {
            return None;
        },
    };
    match (
        read_number(slots[0], 255),
        read_number(slots[1], u64::MAX),
        read_identity(slots[2]),
        read_text_list(slots[3]),
        read_optional_signed(slots[4]),
        read_pending(slots[5]),
    ) {
        (
            Some(version),
            Some(event_offset),
            Some(inbox_identity),
            Some(ids),
            Some(last_periodic_at),
            Some(pending_attempt),
        ) => Some(
            ListenerState {
                version: version as u8,
                event_offset,
                inbox_identity,
                seen_event_ids: queue_of(ids),
                last_periodic_at,
                pending_attempt,
            },
        ),
        _ => None,
    }
}

fn queue_of(ids: Vec<String>) -> (queue: VecDeque<String>)
    ensures
        text_views(queue@) == text_views(ids@),
{
    let mut queue: VecDeque<String> = VecDeque::new();
    let mut i: usize = 0;
    while i < ids.len()
        invariant
            i <= ids@.len(),
            queue@.len() == i,
            forall|j: int| 0 <= j < i ==> (#[trigger] queue@[j])@ == ids@[j]@,
        decreases ids.len() - i,
    {
        queue.push_back(ids[i].clone());
        i += 1;
    }
    assert(text_views(queue@) =~= text_views(ids@));
    queue
}

/// The state that the contents of a file hold; the initial one where there is no file.
pub open spec fn loaded_state(contents: Option<Seq<u8>>) -> Result<StateData, LoadError> {
    match contents {
        None => Ok(initial_state()),
        Some(bytes) => state_of_document(state_document(bytes)),
    }
}

/// The state of a parsed state file.
pub open spec fn state_of_document(document: Option<JsonTree>) -> Result<StateData, LoadError> {
    match document {
        None => Err(LoadError::Unreadable),
        Some(json) => match decoded_state(json) {
            None => Err(LoadError::Unreadable),
            Some(state) => match load_fault(state) {
                Some(error) => Err(error),
                None => Ok(state),
            },
        },
    }
}

/// The bytes of an optional file.
pub open spec fn optional_bytes(contents: Option<&[u8]>) -> Option<Seq<u8>> {
    match contents {
        Some(bytes) => Some(bytes@),
        None => None,
    }
}

/// The number of an optional field as a document.
pub open spec fn optional_number_tree(n: Option<u64>) -> JsonTree {
    match n {
        Some(v) => JsonTree::Unsigned(v),
        None => JsonTree::Null,
    }
}

/// An inbox identity as a document.
pub open spec fn identity_tree(identity: Option<InboxIdentity>) -> JsonTree {
    match identity {
        Some(i) => JsonTree::Object(
            seq![
                ("device"@, JsonTree::Unsigned(i.device)),
                ("inode"@, JsonTree::Unsigned(i.inode)),
            ],
        ),
        None => JsonTree::Null,
    }
}

/// An attempt as a document.
pub open spec fn attempt_tree(attempt: AttemptData) -> JsonTree {
    JsonTree::Object(
        seq![
            ("threadId"@, JsonTree::Text(attempt.thread_id)),
            ("eventId"@, JsonTree::Text(attempt.event_id)),
            ("kind"@, JsonTree::Text(kind_name(attempt.kind))),
            ("eventOffset"@, optional_number_tree(attempt.event_offset)),
            ("nextEventOffset"@, optional_number_tree(attempt.next_event_offset)),
            ("attemptedAt"@, signed_tree(attempt.attempted_at)),
        ],
    )
}

/// A pending attempt as a document.
pub open spec fn pending_tree(attempt: Option<AttemptData>) -> JsonTree {
    match attempt {
        Some(a) => attempt_tree(a),
        None => JsonTree::Null,
    }
}

/// A time as a document.
pub open spec fn optional_signed_tree(n: Option<i64>) -> JsonTree {
    match n {
        Some(v) => signed_tree(v),
        None => JsonTree::Null,
    }
}

/// Texts as a document.
pub open spec fn text_list_tree(texts: Seq<Seq<char>>) -> JsonTree {
    JsonTree::Array(Seq::new(texts.len(), |i: int| JsonTree::Text(texts[i])))
}

/// A listener state as a document.
pub open spec fn state_tree(state: StateData) -> JsonTree {
    JsonTree::Object(
        seq![
            ("version"@, JsonTree::Unsigned(state.version as u64)),
            ("eventOffset"@, JsonTree::Unsigned(state.event_offset)),
            ("inboxIdentity"@, identity_tree(state.inbox_identity)),
            ("seenEventIds"@, text_list_tree(state.seen_event_ids)),
            ("lastPeriodicAt"@, optional_signed_tree(state.last_periodic_at)),
            ("pendingAttempt"@, pending_tree(state.pending_attempt)),
        ],
    )
}

/// The text of the file for a state.
pub open spec fn state_file(state: StateData) -> Seq<char> {
    json_page(state_tree(state)) + "\n"@
}

proof fn lemma_identity_reads_back(identity: Option<InboxIdentity>)
    ensures
        writable(identity_tree(identity), 99),
        decoded_identity(Some(identity_tree(identity))) == Some(identity),
{
    reveal_with_fuel(writable, 2);
    if identity is Some {
        reveal_strlit("device");
        reveal_strlit("inode");
        let members = identity_tree(identity)->Object_0;
        assert(members[0].0.len() != members[1].0.len());
        lemma_member_found(members, 0);
        lemma_member_found(members, 1);
        assert(members[0].0 == "device"@);
        assert(members[1].0 == "inode"@);
    }
}

proof fn lemma_attempt_reads_back(attempt: AttemptData)
    ensures
        writable(attempt_tree(attempt), 99),
        decoded_attempt(attempt_tree(attempt)) == Some(attempt),
{
    reveal_with_fuel(writable, 2);
    reveal_strlit("threadId");
    reveal_strlit("eventId");
    reveal_strlit("kind");
    reveal_strlit("eventOffset");
    reveal_strlit("nextEventOffset");
    reveal_strlit("attemptedAt");
    let members = attempt_tree(attempt)->Object_0;
    let fields = attempt_fields();
    assert forall|i: int, j: int| 0 <= i < j < members.len() implies (#[trigger] members[i]).0 != (
    #[trigger] members[j]).0 by {
        assert(members[i].0.len() != members[j].0.len() || members[i].0[0] != members[j].0[0]);
    }
    assert forall|k: int| 0 <= k < members.len() implies member(members, #[trigger] fields[k])
        == Some(members[k].1) by {
        assert(members[k].0 == fields[k]);
        lemma_member_found(members, k);
    }
    reveal_strlit("mention");
    reveal_strlit("directedResponse");
    reveal_strlit("periodic");
    assert("mention"@.len() != "directedResponse"@.len());
    assert("mention"@.len() != "periodic"@.len());
    assert("directedResponse"@.len() != "periodic"@.len());
}

/// The document of a state is readable and stands for that state.
proof fn lemma_state_reads_back(state: StateData)
    ensures
        writable(state_tree(state), 100),
        decoded_state(state_tree(state)) == Some(state),
{
    reveal_with_fuel(writable, 3);
    reveal_strlit("version");
    reveal_strlit("eventOffset");
    reveal_strlit("inboxIdentity");
    reveal_strlit("seenEventIds");
    reveal_strlit("lastPeriodicAt");
    reveal_strlit("pendingAttempt");
    let members = state_tree(state)->Object_0;
    let fields = state_fields();
    assert forall|i: int, j: int| 0 <= i < j < members.len() implies (#[trigger] members[i]).0 != (
    #[trigger] members[j]).0 by {
        assert(members[i].0[0] != members[j].0[0]);
    }
    assert forall|k: int| 0 <= k < members.len() implies member(members, #[trigger] fields[k])
        == Some(members[k].1) by {
        assert(members[k].0 == fields[k]);
        lemma_member_found(members, k);
    }
    lemma_identity_reads_back(state.inbox_identity);
    if state.pending_attempt is Some {
        lemma_attempt_reads_back(state.pending_attempt->0);
    }
    assert(text_list(Some(members[3].1))->0 =~= state.seen_event_ids);
}

impl ListenerState {
    /// Takes up the state that the contents of a file hold.
    pub fn load(contents: Option<&[u8]>) -> (result: Result<ListenerState, LoadError>)
        ensures
            match result {
                Ok(state) => loaded_state(optional_bytes(contents)) == Ok::<StateData, LoadError>(
                    state@,
                ),
                Err(error) => loaded_state(optional_bytes(contents)) == Err::<
                    StateData,
                    LoadError,
                >(error),
            },
    {
        let bytes = match contents {
            Some(bytes) => bytes,
            None => {
                return Ok(ListenerState::default());
            },
        };
        let document = read_state_document(bytes);
        ListenerState::from_document(document.as_ref())
    }

    /// Takes up the state of a parsed state file.
    pub fn from_document(document: Option<&Json>) -> (result: Result<ListenerState, LoadError>)
        ensures
            match result {
                Ok(state) => state_of_document(slot_tree(document)) == Ok::<StateData, LoadError>(
                    state@,
                ),
                Err(error) => state_of_document(slot_tree(document)) == Err::<
                    StateData,
                    LoadError,
                >(error),
            },
    {
        let json = match document {
            Some(json) => json,
            None => {
                return Err(LoadError::Unreadable);
            },
        };
        let state = match read_state(json) {
            Some(state) => state,
            None => {
                return Err(LoadError::Unreadable);
            },
        };
        if state.version != LISTENER_STATE_VERSION {
            return Err(LoadError::UnsupportedVersion { version: state.version });
        }
        if state.event_offset > 0 && state.inbox_identity.is_none() {
            return Err(LoadError::UnboundOffset { offset: state.event_offset });
        }
        if let Some(attempt) = &state.pending_attempt {
            if let Err(error) = attempt.validate() {
                return Err(LoadError::Attempt { error });
            }
        }
        Ok(state)
    }

    /// Turns a state into a document.
    pub fn to_json(&self) -> (json: Json)
        ensures
            json@ == state_tree(self@),
    {
        let identity = match &self.inbox_identity {
            Some(identity) => {
                let members = vec![
                    ("device".to_owned(), Json::Unsigned(identity.device)),
                    ("inode".to_owned(), Json::Unsigned(identity.inode)),
                ];
                proof {
                    lemma_member_trees(members@);
                    assert(member_trees(members@) =~= identity_tree(
                        self.inbox_identity,
                    )->Object_0);
                }
                Json::Object(members)
            },
            None => Json::Null,
        };
        let pending = match &self.pending_attempt {
            Some(attempt) => attempt.to_json(),
            None => Json::Null,
        };
        let last_periodic_at = match self.last_periodic_at {
            Some(at) => signed_json(at),
            None => Json::Null,
        };
        let members = vec![
            ("version".to_owned(), Json::Unsigned(self.version as u64)),
            ("eventOffset".to_owned(), Json::Unsigned(self.event_offset)),
            ("inboxIdentity".to_owned(), identity),
            ("seenEventIds".to_owned(), ids_json(&self.seen_event_ids)),
            ("lastPeriodicAt".to_owned(), last_periodic_at),
            ("pendingAttempt".to_owned(), pending),
        ];
        proof {
            lemma_member_trees(members@);
            assert(member_trees(members@) =~= state_tree(self@)->Object_0);
        }
        Json::Object(members)
    }

    /// Writes the file of a state. What was written is taken up as the same state, unless it is
    /// one that is not taken up at all.
    pub fn to_file(&self) -> (text: String)
        ensures
            text@ == state_file(self@),
            load_fault(self@) is None ==> loaded_state(Some(encode_utf8(text@))) == Ok::<
                StateData,
                LoadError,
            >(self@),
            load_fault(self@) matches Some(error) ==> loaded_state(Some(encode_utf8(text@)))
                == Err::<StateData, LoadError>(error),
    {
        let json = self.to_json();
        let mut text = write_json_page(&json);
        text.append("\n");
        proof {
            lemma_state_reads_back(self@);
            encode_utf8_valid_utf8(text@);
            encode_utf8_decode_utf8(text@);
        }
        text
    }
}

impl PendingAttempt {
    /// Turns an attempt into a document.
    pub fn to_json(&self) -> (json: Json)
        ensures
            json@ == attempt_tree(self@),
    {
        let members = vec![
            ("threadId".to_owned(), Json::Text(self.thread_id.clone())),
            ("eventId".to_owned(), Json::Text(self.event_id.clone())),
            ("kind".to_owned(), Json::Text(attention_kind_name(self.kind).to_owned())),
            ("eventOffset".to_owned(), optional_number_json(self.event_offset)),
            ("nextEventOffset".to_owned(), optional_number_json(self.next_event_offset)),
            ("attemptedAt".to_owned(), signed_json(self.attempted_at)),
        ];
        proof {
            lemma_member_trees(members@);
            assert(member_trees(members@) =~= attempt_tree(self@)->Object_0);
        }
        Json::Object(members)
    }
}

/// Turns an optional number into a document.
pub fn optional_number_json(n: Option<u64>) -> (json: Json)
    ensures
        json@ == optional_number_tree(n),
{
    match n {
        Some(v) => Json::Unsigned(v),
        None => Json::Null,
    }
}

fn ids_json(ids: &VecDeque<String>) -> (json: Json)
    ensures
        json@ == text_list_tree(text_views(ids@)),
{
    let mut items: Vec<Json> = Vec::new();
    let mut i: usize = 0;
    while i < ids.len()
        invariant
            i <= ids@.len(),
            items@.len() == i,
            forall|j: int| 0 <= j < i ==> tree(#[trigger] items@[j]) == JsonTree::Text(ids@[j]@),
        decreases ids@.len() - i,
    {
        items.push(Json::Text(ids[i].clone()));
        i += 1;
    }
    proof {
        lemma_trees(items@);
        assert(trees(items@) =~= Seq::new(
            text_views(ids@).len(),
            |j: int| JsonTree::Text(text_views(ids@)[j]),
        ));
    }
    Json::Array(items)
}

} // verus!
