//! Attention events, and the append-only inbox from which a listener takes them line by line.

use vstd::prelude::*;
use vstd::string::*;

use crate::atom::{atom_fault, atom_fault_message, spell_atom_fault, validate_atom, AtomFault};
use crate::attention::{AttentionMetadata, ThreadAttentionEvent, ThreadAttentionKind};
use crate::json::{
    as_text, bounded_number, choice, finds_unknown_field, has_unknown_field, names,
    parse_without_repeats, parsed_without_repeats, read_choice, read_number, read_record, record,
    slot_tree, text_slot, Json, JsonTree,
};
use crate::text::{
    byte_len, decimal, same_text, signed_decimal, text_bytes, write_decimal, write_signed_decimal,
};

verus! {

/// The version of the attention envelope.
pub const ATTENTION_EVENT_VERSION: u8 = 1;

/// The most bytes of an event line.
pub const MAX_EVENT_LINE_BYTES: usize = 4096;

/// How much of the inbox is read at a time.
pub const INBOX_READ_BUFFER_BYTES: usize = 1024;

/// The most bytes inspected in search of the end of one line.
pub const MAX_INBOX_SCAN_BYTES: usize = 4098;

/// The file that an inbox is.
#[derive(Clone, Copy, Debug, PartialEq, Eq, Structural)]
pub struct InboxIdentity {
    pub device: u64,
    pub inode: u64,
}

/// Why an event asks for attention.
#[derive(Clone, Copy, Debug, PartialEq, Eq, Structural)]
pub enum AttentionKind {
    Mention,
    DirectedResponse,
}

/// The kind of attention for a kind of event.
pub open spec fn rpc_kind_of(kind: AttentionKind) -> ThreadAttentionKind {
    match kind {
        AttentionKind::Mention => ThreadAttentionKind::Mention,
        AttentionKind::DirectedResponse => ThreadAttentionKind::DirectedResponse,
    }
}

impl AttentionKind {
    /// The kind of attention that the app server is asked for.
    pub fn rpc_kind(self) -> (kind: ThreadAttentionKind)
        ensures
            kind == rpc_kind_of(self),
    {
        match self {
            AttentionKind::Mention => ThreadAttentionKind::Mention,
            AttentionKind::DirectedResponse => ThreadAttentionKind::DirectedResponse,
        }
    }
}

/// One event of the inbox.
#[derive(Debug, PartialEq, Eq)]
pub struct AttentionEvent {
    pub version: u8,
    pub event_id: String,
    pub kind: AttentionKind,
    pub source: String,
    pub reference: String,
}

/// What an event holds.
pub struct EventData {
    pub version: u8,
    pub event_id: Seq<char>,
    pub kind: AttentionKind,
    pub source: Seq<char>,
    pub reference: Seq<char>,
}

impl View for AttentionEvent {
    type V = EventData;

    open spec fn view(&self) -> EventData {
        EventData {
            version: self.version,
            event_id: self.event_id@,
            kind: self.kind,
            source: self.source@,
            reference: self.reference@,
        }
    }
}

/// The metadata of an event that is held to the alphabet of atoms.
#[derive(Clone, Copy, Debug, PartialEq, Eq, Structural)]
pub enum EventField {
    EventId,
    Source,
    Reference,
}

/// Why a line of the inbox is no event.
#[derive(Clone, Copy, Debug, PartialEq, Eq, Structural)]
pub enum EventError {
    TooLong,
    EmptyLine,
    NotUtf8,
    /// The line is no JSON record of the fields of an event.
    NotTypedJson { unknown_field: bool },
    UnsupportedVersion { version: u8 },
    Metadata { field: EventField, fault: AtomFault },
}

/// The name of a field on the wire.
pub open spec fn event_field_name(field: EventField) -> Seq<char> {
    match field {
        EventField::EventId => "eventId"@,
        EventField::Source => "source"@,
        EventField::Reference => "reference"@,
    }
}

/// The most bytes of a field.
pub open spec fn event_field_limit(field: EventField) -> nat {
    match field {
        EventField::EventId => 128,
        EventField::Source => 128,
        EventField::Reference => 256,
    }
}

/// What is reported of a line that is no event.
pub open spec fn event_error_message(error: EventError) -> Seq<char> {
    match error {
        EventError::TooLong => "attention event exceeds 4096 bytes"@,
        EventError::EmptyLine => "attention event line is empty"@,
        EventError::NotUtf8 => "attention event is not valid UTF-8"@,
        EventError::NotTypedJson { .. } => "attention event is not valid typed JSON"@,
        EventError::UnsupportedVersion { version } => "unsupported attention event version "@
            + decimal(version as nat) + "; expected 1"@,
        EventError::Metadata { field, fault } => atom_fault_message(
            event_field_name(field),
            fault,
            event_field_limit(field),
        ),
    }
}

impl EventError {
    /// The message of this error.
    pub fn to_message(&self) -> (message: String)
        ensures
            message@ == event_error_message(*self),
    {
        match self {
            EventError::TooLong => "attention event exceeds 4096 bytes".to_owned(),
            EventError::EmptyLine => "attention event line is empty".to_owned(),
            EventError::NotUtf8 => "attention event is not valid UTF-8".to_owned(),
            EventError::NotTypedJson { .. } => "attention event is not valid typed JSON".to_owned(),
            EventError::UnsupportedVersion { version } => {
                let mut message = "unsupported attention event version ".to_owned();
                let number = write_decimal(*version as u64);
                message.append(number.as_str());
                message.append("; expected 1");
                message
            },
            EventError::Metadata { field, fault } => match field {
                EventField::EventId => spell_atom_fault("eventId", *fault, 128),
                EventField::Source => spell_atom_fault("source", *fault, 128),
                EventField::Reference => spell_atom_fault("reference", *fault, 256),
            },
        }
    }

    /// The message of this error, followed by its cause where that is known.
    pub fn to_full_message(&self) -> (message: String)
        ensures
            message@ == if *self == (EventError::NotTypedJson { unknown_field: true }) {
                event_error_message(*self) + ": unknown field"@
            } else {
                event_error_message(*self)
            },
    {
        let mut message = self.to_message();
        match self {
            EventError::NotTypedJson { unknown_field } => if *unknown_field {
                message.append(": unknown field");
            },
            _ => {},
        }
        message
    }
}

/// The fields of an event on the wire.
pub open spec fn event_fields() -> Seq<Seq<char>> {
    seq!["version"@, "eventId"@, "kind"@, "source"@, "reference"@]
}

/// The kind of an event by its name on the wire.
pub open spec fn kind_named(name: Option<Seq<char>>) -> Option<AttentionKind> {
    match name {
        Some(n) => if n == "mention"@ {
            Some(AttentionKind::Mention)
        } else if n == "directedResponse"@ {
            Some(AttentionKind::DirectedResponse)
        } else {
            None
        },
        None => None,
    }
}

/// The event that a document records, whatever its metadata.
pub open spec fn decoded_event(json: JsonTree) -> Option<EventData> {
    match record(json, event_fields()) {
        Some(slots) => match (
            bounded_number(slots[0], 255),
            as_text(slots[1]),
            kind_named(choice(slots[2])),
            as_text(slots[3]),
            as_text(slots[4]),
        ) {
            (Some(version), Some(event_id), Some(kind), Some(source), Some(reference)) => Some(
                EventData { version: version as u8, event_id, kind, source, reference },
            ),
            _ => None,
        },
        None => None,
    }
}

/// What is wrong with the metadata of an event; the first fault counts.
pub open spec fn event_fault(event: EventData) -> Option<EventError> {
    if event.version != ATTENTION_EVENT_VERSION {
        Some(EventError::UnsupportedVersion { version: event.version })
    } else if atom_fault(event.event_id, 128) is Some {
        Some(
            EventError::Metadata {
                field: EventField::EventId,
                fault: atom_fault(event.event_id, 128)->0,
            },
        )
    } else if atom_fault(event.source, 128) is Some {
        Some(
            EventError::Metadata {
                field: EventField::Source,
                fault: atom_fault(event.source, 128)->0,
            },
        )
    } else if atom_fault(event.reference, 256) is Some {
        Some(
            EventError::Metadata {
                field: EventField::Reference,
                fault: atom_fault(event.reference, 256)->0,
            },
        )
    } else {
        None
    }
}

/// The event that a line holds, or why it holds none.
pub open spec fn parsed_event(line: Seq<char>) -> Result<EventData, EventError> {
    if byte_len(line) > MAX_EVENT_LINE_BYTES {
        Err(EventError::TooLong)
    } else {
        event_of_document(parsed_without_repeats(line))
    }
}

/// The event of a parsed line, or why it is none.
pub open spec fn event_of_document(document: Option<JsonTree>) -> Result<EventData, EventError> {
    match document {
        None => Err(EventError::NotTypedJson { unknown_field: false }),
        Some(json) => if has_unknown_field(json, event_fields()) {
            Err(EventError::NotTypedJson { unknown_field: true })
        } else {
            match decoded_event(json) {
                None => Err(EventError::NotTypedJson { unknown_field: false }),
                Some(event) => match event_fault(event) {
                    Some(error) => Err(error),
                    None => Ok(event),
                },
            }
        },
    }
}

/// Reads the kind of an event by its name on the wire.
fn read_kind(slot: Option<&Json>) -> (kind: Option<AttentionKind>)
    ensures
        kind == kind_named(choice(slot_tree(slot))),
{
    match read_choice(slot) {
        Some(name) => if same_text(name.as_str(), "mention") {
            Some(AttentionKind::Mention)
        } else if same_text(name.as_str(), "directedResponse") {
            Some(AttentionKind::DirectedResponse)
        } else {
            None
        },
        None => None,
    }
}

impl AttentionEvent {
    /// Reads the event that a line holds.
    pub fn parse(line: &str) -> (result: Result<AttentionEvent, EventError>)
        ensures
            match result {
                Ok(event) => parsed_event(line@) == Ok::<EventData, EventError>(event@),
                Err(error) => parsed_event(line@) == Err::<EventData, EventError>(error),
            },
    {
        if text_bytes(line) > MAX_EVENT_LINE_BYTES {
            return Err(EventError::TooLong);
        }
        let document = parse_without_repeats(line);
        AttentionEvent::from_document(document.as_ref())
    }

    /// Takes the event out of the document that a line was parsed into.
    pub fn from_document(document: Option<&Json>) -> (result: Result<AttentionEvent, EventError>)
        ensures
            match result {
                Ok(event) => event_of_document(slot_tree(document)) == Ok::<
                    EventData,
                    EventError,
                >(event@),
                Err(error) => event_of_document(slot_tree(document)) == Err::<
                    EventData,
                    EventError,
                >(error),
            },
    {
        let json = match document {
            Some(json) => json,
            None => {
                return Err(EventError::NotTypedJson { unknown_field: false });
            },
        };
        let fields = ["version", "eventId", "kind", "source", "reference"];
        assert(fields@.len() == 5);
        assert(names(fields@) =~= event_fields());
        if finds_unknown_field(json, fields.as_slice()) {
            return Err(EventError::NotTypedJson { unknown_field: true });
        }
        let slots = match read_record(json, fields.as_slice()) {
            Some(slots) => slots,
            None => {
                return Err(EventError::NotTypedJson { unknown_field: false });
            },
        };
        match (
            read_number(slots[0], 255),
            text_slot(slots[1]),
            read_kind(slots[2]),
            text_slot(slots[3]),
            text_slot(slots[4]),
        ) {
            (Some(version), Some(event_id), Some(kind), Some(source), Some(reference)) => {
                let event = AttentionEvent {
                    version: version as u8,
                    event_id,
                    kind,
                    source,
                    reference,
                };
                match event.validate() {
                    Ok(()) => Ok(event),
                    Err(error) => Err(error),
                }
            },
            _ => Err(EventError::NotTypedJson { unknown_field: false }),
        }
    }

    /// Checks the version and the metadata of an event.
    pub fn validate(&self) -> (result: Result<(), EventError>)
        ensures
            match result {
                Ok(()) => event_fault(self@) is None,
                Err(error) => event_fault(self@) == Some(error),
            },
    {
        if self.version != ATTENTION_EVENT_VERSION {
            return Err(EventError::UnsupportedVersion { version: self.version });
        }
        if let Err(fault) = validate_atom(self.event_id.as_str(), 128) {
            return Err(EventError::Metadata { field: EventField::EventId, fault });
        }
        if let Err(fault) = validate_atom(self.source.as_str(), 128) {
            return Err(EventError::Metadata { field: EventField::Source, fault });
        }
        if let Err(fault) = validate_atom(self.reference.as_str(), 256) {
            return Err(EventError::Metadata { field: EventField::Reference, fault });
        }
        Ok(())
    }

    /// The request for attention that an event stands for: its metadata and nothing else.
    pub fn rpc_event(&self) -> (attention: ThreadAttentionEvent)
        ensures
            attention@ == rpc_event_of(self@),
    {
        ThreadAttentionEvent {
            version: self.version,
            event_id: self.event_id.clone(),
            kind: self.kind.rpc_kind(),
            source_class: "chat".to_owned(),
            source_ref: self.source.clone(),
            reference: Some(self.reference.clone()),
        }
    }
}

/// The request for attention that an event stands for.
pub open spec fn rpc_event_of(event: EventData) -> AttentionMetadata {
    AttentionMetadata {
        version: event.version,
        event_id: event.event_id,
        kind: rpc_kind_of(event.kind),
        source_class: "chat"@,
        source_ref: event.source,
        reference: Some(event.reference),
    }
}

/// The wake-up at a fixed cadence.
#[derive(Debug, PartialEq, Eq)]
pub struct PeriodicAttention {
    pub event_id: String,
}

/// The id of the wake-up of a slot.
pub open spec fn periodic_event_id(slot: int) -> Seq<char> {
    "periodic/"@ + signed_decimal(slot)
}

/// The request for attention of a wake-up with that id.
pub open spec fn periodic_rpc_event(event_id: Seq<char>) -> AttentionMetadata {
    AttentionMetadata {
        version: ATTENTION_EVENT_VERSION,
        event_id,
        kind: ThreadAttentionKind::Periodic,
        source_class: "listener"@,
        source_ref: "periodic"@,
        reference: None,
    }
}

impl PeriodicAttention {
    /// The wake-up of a slot.
    pub fn for_slot(slot: i64) -> (attention: PeriodicAttention)
        ensures
            attention.event_id@ == periodic_event_id(slot as int),
    {
        let mut event_id = "periodic/".to_owned();
        let number = write_signed_decimal(slot);
        event_id.append(number.as_str());
        PeriodicAttention { event_id }
    }

    /// The request for attention of a wake-up: no external reference, no text.
    pub fn rpc_event(&self) -> (attention: ThreadAttentionEvent)
        ensures
            attention@ == periodic_rpc_event(self.event_id@),
    {
        ThreadAttentionEvent {
            version: ATTENTION_EVENT_VERSION,
            event_id: self.event_id.clone(),
            kind: ThreadAttentionKind::Periodic,
            source_class: "listener".to_owned(),
            source_ref: "periodic".to_owned(),
            reference: None,
        }
    }
}

} // verus!
