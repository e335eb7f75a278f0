//! What the errors of a listener tell.

use vstd::prelude::*;
use vstd::string::*;

use crate::atom::{atom_fault_message, AtomFault};
use crate::listen::app_server::{closed_reason, lost_reason};
use crate::listen::command::{command_error_message, CommandError};
use crate::listen::event::{event_error_message, EventError, EventField, InboxIdentity};
use crate::listen::inbox::{hold_message, InboxHold};
use crate::listen::state::{
    attempt_error_message, confirm_error_message, AttemptError, ConfirmError,
};
use crate::listen::state_file::{load_error_message, LoadError};
use crate::text::decimal;

verus! {

/// A text that is no safe atom is told by its name, and by its length with the most bytes that it may
/// have, or by its alphabet.
pub proof fn law_atoms_are_told_by_name(field: Seq<char>, max: nat)
    ensures
        atom_fault_message(field, AtomFault::Length, max) == field + " must be between 1 and "@
            + decimal(max) + " bytes"@,
        atom_fault_message(field, AtomFault::Alphabet, max) == field
            + " contains a character outside the safe attention metadata alphabet"@,
{
}

/// What is told of a line that is no event: its length, that it is empty, its encoding, its form, its
/// version, or which of its texts is no safe atom of at most 128 bytes, or 256 for the reference.
pub proof fn law_event_errors_are_told(
    version: u8,
    unknown_field: bool,
    field: EventField,
    fault: AtomFault,
)
    ensures
        event_error_message(EventError::TooLong) == "attention event exceeds 4096 bytes"@,
        event_error_message(EventError::EmptyLine) == "attention event line is empty"@,
        event_error_message(EventError::NotUtf8) == "attention event is not valid UTF-8"@,
        event_error_message(EventError::NotTypedJson { unknown_field })
            == "attention event is not valid typed JSON"@,
        event_error_message(EventError::UnsupportedVersion { version })
            == "unsupported attention event version "@ + decimal(version as nat) + "; expected 1"@,
        event_error_message(EventError::Metadata { field: EventField::EventId, fault })
            == atom_fault_message("eventId"@, fault, 128),
        event_error_message(EventError::Metadata { field: EventField::Source, fault })
            == atom_fault_message("source"@, fault, 128),
        event_error_message(EventError::Metadata { field: EventField::Reference, fault })
            == atom_fault_message("reference"@, fault, 256),
{
}

/// What is told of a hold on the inbox: the file, and by which two identities it was replaced, by how
/// much it is too short, or where an unfinished line stands and how much of it was looked at.
pub proof fn law_holds_are_told(
    path: Seq<char>,
    expected: InboxIdentity,
    found: InboxIdentity,
    n: u64,
    offset: u64,
)
    ensures
        hold_message(InboxHold::Replaced { expected, found }, path) == "ATTENTION INBOX HOLD: "@
            + path + " changed file identity from device "@ + decimal(expected.device as nat)
            + " inode "@ + decimal(expected.inode as nat) + " to device "@ + decimal(
            found.device as nat,
        ) + " inode "@ + decimal(found.inode as nat) + "; refusing rotation/replacement replay"@,
        hold_message(InboxHold::Truncated { file_len: n, offset }, path)
            == "ATTENTION INBOX HOLD: "@ + path + " is "@ + decimal(n as nat)
            + " bytes, smaller than durable event offset "@ + decimal(offset as nat)
            + "; refusing rotation/truncation replay"@,
        hold_message(InboxHold::Unterminated { offset, inspected: n }, path)
            == "ATTENTION INBOX HOLD: unterminated event at offset "@ + decimal(offset as nat)
            + " exceeds 4096 bytes in "@ + path + "; inspected only "@ + decimal(n as nat)
            + " bytes and did not advance the durable offset"@,
{
}

/// What is told of a state that is not taken up, and of an attempt that cannot be made.
pub proof fn law_state_errors_are_told(
    path: Seq<char>,
    version: u8,
    offset: u64,
    fault: AtomFault,
    error: AttemptError,
)
    ensures
        load_error_message(LoadError::Unreadable, path) == "failed to parse listener state "@
            + path,
        load_error_message(LoadError::UnsupportedVersion { version }, path)
            == "unsupported listener state version "@ + decimal(version as nat) + "; expected 2"@,
        load_error_message(LoadError::UnboundOffset { offset }, path)
            == "ATTENTION INBOX HOLD: listener state "@ + path + " has durable event offset "@
            + decimal(offset as nat)
            + " but no inbox file identity; refusing to bind a legacy offset to an arbitrary current inbox"@,
        load_error_message(LoadError::Attempt { error }, path) == attempt_error_message(error),
        attempt_error_message(AttemptError::ThreadId { fault }) == atom_fault_message(
            "pendingAttempt.threadId"@,
            fault,
            128,
        ),
        attempt_error_message(AttemptError::EventId { fault }) == atom_fault_message(
            "pendingAttempt.eventId"@,
            fault,
            128,
        ),
        attempt_error_message(AttemptError::MissingOffsets)
            == "event pending attempt requires event offsets"@,
        attempt_error_message(AttemptError::NotAdvancing)
            == "event pending attempt next offset must advance"@,
        attempt_error_message(AttemptError::UnexpectedOffsets)
            == "periodic pending attempt must not contain event offsets"@,
{
}

/// What is told of an answer that cannot be confirmed.
pub proof fn law_confirmation_errors_are_told(error: ConfirmError)
    ensures
        error == ConfirmError::NothingHeld ==> confirm_error_message(error)
            == "cannot confirm held without a pending attention attempt"@,
        error == ConfirmError::NothingRejected ==> confirm_error_message(error)
            == "cannot confirm rejection without a pending attention attempt"@,
        error == ConfirmError::NothingStarted ==> confirm_error_message(error)
            == "cannot confirm started without a pending attention attempt"@,
        error == ConfirmError::MissingNextOffset ==> confirm_error_message(error)
            == "event pending attempt is missing its next offset"@,
{
}

/// What is told of a command that is not carried out.
pub proof fn law_command_errors_are_told(error: CommandError, fault: AtomFault)
    ensures
        command_error_message(CommandError::ThreadId { fault }) == atom_fault_message(
            "threadId"@,
            fault,
            128,
        ),
        error == CommandError::PathsAlias ==> command_error_message(error)
            == "--events must not alias --state or its lock sidecar"@,
        error == CommandError::NothingToDo ==> command_error_message(error)
            == "listen requires --events, --periodic-seconds, or both"@,
        error == CommandError::PeriodTooShort ==> command_error_message(error)
            == "--periodic-seconds must be at least 60"@,
        error == CommandError::PeriodTooLong ==> command_error_message(error)
            == "--periodic-seconds must be at most 9223372036854775807"@,
        error == CommandError::PollTooShort ==> command_error_message(error)
            == "--poll-millis must be at least 100"@,
{
}

/// Why the app server was lost is told as it was found out, or as the end of its monitor where nothing
/// was found out.
pub proof fn law_lost_servers_are_told(reason: Seq<char>)
    ensures
        lost_reason(Some(reason)) == reason,
        lost_reason(None) == "app-server event monitor stopped unexpectedly"@,
        closed_reason() == "app-server event stream closed"@,
{
}

} // verus!
