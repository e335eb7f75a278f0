//! The append-only inbox of a listener: finding the next line in a bounded scan, and the holds
//! that keep a listener from replaying a replaced, truncated or unfinished inbox.

use vstd::prelude::*;
use vstd::slice::*;
use vstd::string::*;
use vstd::utf8::*;

use crate::listen::event::{
    parsed_event, AttentionEvent, EventData, EventError, InboxIdentity, INBOX_READ_BUFFER_BYTES,
    MAX_EVENT_LINE_BYTES, MAX_INBOX_SCAN_BYTES,
};
use crate::text::{decimal, write_decimal};

verus! {

/// How many bytes stand before the first newline; all of them where there is none.
pub open spec fn line_length(bytes: Seq<u8>) -> nat
    decreases bytes.len(),
{
    if bytes.len() == 0 || bytes[0] == 10 {
        0
    } else {
        1 + line_length(bytes.drop_first())
    }
}

/// The length of the first line is where the first newline stands.
pub proof fn lemma_line_length(bytes: Seq<u8>)
    ensures
        line_length(bytes) <= bytes.len(),
        forall|i: int| 0 <= i < line_length(bytes) ==> bytes[i] != 10,
        line_length(bytes) < bytes.len() ==> bytes[line_length(bytes) as int] == 10,
    decreases bytes.len(),
{
    if bytes.len() > 0 && bytes[0] != 10 {
        let rest = bytes.drop_first();
        lemma_line_length(rest);
        assert forall|i: int| 0 <= i < line_length(bytes) implies bytes[i] != 10 by {
            if i > 0 {
                assert(bytes[i] == rest[i - 1]);
            }
        }
    }
}

/// The first newline stands where no byte before it is one.
pub proof fn lemma_line_length_is(bytes: Seq<u8>, n: nat)
    requires
        n <= bytes.len(),
        forall|i: int| 0 <= i < n ==> bytes[i] != 10,
        n == bytes.len() || bytes[n as int] == 10,
    ensures
        line_length(bytes) == n,
{
    lemma_line_length(bytes);
}

/// What a bounded scan finds at the start of some bytes of the inbox.
#[derive(Clone, Copy, Debug, PartialEq, Eq, Structural)]
pub enum LineScan {
    /// No newline yet, and not too long yet.
    Unfinished,
    /// A line of that many bytes, before its newline.
    Line { length: usize },
    /// No newline in the bytes that were inspected, and they are too many for a line.
    Overlong { inspected: usize },
}

/// The outcome of a scan of everything that stands behind an offset.
pub open spec fn line_scan(bytes: Seq<u8>) -> LineScan {
    let n = line_length(bytes);
    if n < bytes.len() && n < MAX_INBOX_SCAN_BYTES {
        LineScan::Line { length: n as usize }
    } else if bytes.len() >= MAX_INBOX_SCAN_BYTES {
        LineScan::Overlong { inspected: MAX_INBOX_SCAN_BYTES }
    } else if bytes.len() > MAX_EVENT_LINE_BYTES {
        LineScan::Overlong { inspected: bytes.len() as usize }
    } else {
        LineScan::Unfinished
    }
}

/// A complete line stays what it is, whatever is appended to the inbox.
pub proof fn law_complete_lines_are_stable(bytes: Seq<u8>, appended: Seq<u8>)
    requires
        line_scan(bytes) is Line,
    ensures
        line_scan(bytes + appended) == line_scan(bytes),
{
    let n = line_length(bytes);
    lemma_line_length(bytes);
    assert forall|i: int| 0 <= i < n implies (bytes + appended)[i] != 10 by {
        assert(bytes[i] != 10);
    }
    assert((bytes + appended)[n as int] == bytes[n as int]);
    lemma_line_length_is(bytes + appended, n);
}

/// A scan never depends on what stands behind the bytes that it may inspect.
pub proof fn law_scan_is_bounded(bytes: Seq<u8>)
    requires
        bytes.len() >= MAX_INBOX_SCAN_BYTES,
    ensures
        line_scan(bytes) == line_scan(bytes.take(MAX_INBOX_SCAN_BYTES as int)),
{
    let head = bytes.take(MAX_INBOX_SCAN_BYTES as int);
    let n = line_length(bytes);
    lemma_line_length(bytes);
    if n < MAX_INBOX_SCAN_BYTES {
        lemma_line_length_is(head, n);
    } else {
        assert forall|i: int| 0 <= i < head.len() implies head[i] != 10 by {
            assert(bytes[i] != 10);
        }
        lemma_line_length_is(head, head.len());
    }
}

/// The running state of a scan for the end of a line.
pub struct InboxScan {
    /// The first bytes of the line, one more than a line may have at most.
    captured: Vec<u8>,
    record_bytes: u64,
    oversized: bool,
    /// Every byte of the line that was seen so far.
    seen: Ghost<Seq<u8>>,
}

/// What one step of a scan came to.
#[derive(Clone, Copy, Debug, PartialEq, Eq, Structural)]
pub enum ScanStep {
    /// The inbox ends here, with no complete line.
    EndOfInbox,
    /// The line is too long and not complete.
    Hold,
    /// The line is complete, with the newline among the consumed bytes.
    Line { consumed: usize },
    /// All of the consumed bytes belong to the line, and more is needed.
    More { consumed: usize },
}

/// The number of bytes of a line that a scan keeps.
pub open spec fn kept(n: nat) -> nat {
    if n <= MAX_EVENT_LINE_BYTES + 1 {
        n
    } else {
        (MAX_EVENT_LINE_BYTES + 1) as nat
    }
}

/// The bytes of a buffer that a scan may still inspect.
pub open spec fn inspectable(seen: nat, buffer: Seq<u8>) -> Seq<u8> {
    if buffer.len() <= MAX_INBOX_SCAN_BYTES - seen {
        buffer
    } else {
        buffer.take(MAX_INBOX_SCAN_BYTES - seen)
    }
}

impl InboxScan {
    /// Every byte of the line that was seen so far.
    pub closed spec fn seen(&self) -> Seq<u8> {
        self.seen@
    }

    /// How many bytes were consumed.
    pub closed spec fn consumed(&self) -> nat {
        self.record_bytes as nat
    }

    /// What was kept of the line is its start, and it counts as oversized once it is too long.
    pub closed spec fn consistent(&self) -> bool {
        &&& self.captured@ == self.seen@.take(kept(self.seen@.len()) as int)
        &&& self.oversized == (self.seen@.len() > MAX_EVENT_LINE_BYTES)
    }

    /// The line is still open: no newline was seen, and more may be inspected.
    pub open spec fn open_line(&self) -> bool {
        &&& self.consistent()
        &&& self.consumed() == self.seen().len()
        &&& self.seen().len() < MAX_INBOX_SCAN_BYTES
        &&& line_length(self.seen()) == self.seen().len()
    }

    /// A scan that has seen nothing.
    pub fn new() -> (scan: InboxScan)
        ensures
            scan.open_line(),
            scan.seen() == Seq::<u8>::empty(),
    {
        let scan = InboxScan {
            captured: Vec::new(),
            record_bytes: 0,
            oversized: false,
            seen: Ghost(Seq::empty()),
        };
        assert(scan.captured@ =~= scan.seen@.take(0));
        scan
    }

    /// Looks for the end of the line in the next bytes of the inbox; none are left where the
    /// buffer is empty.
    pub fn step(&mut self, buffer: &[u8]) -> (step: ScanStep)
        requires
            old(self).open_line(),
        ensures
            final(self).consistent(),
            buffer@.len() == 0 ==> {
                &&& final(self).seen() == old(self).seen()
                &&& final(self).consumed() == old(self).consumed()
                &&& step == if old(self).seen().len() > MAX_EVENT_LINE_BYTES {
                    ScanStep::Hold
                } else {
                    ScanStep::EndOfInbox
                }
            },
            buffer@.len() > 0 ==> {
                let inspected = inspectable(old(self).seen().len(), buffer@);
                let n = line_length(inspected);
                &&& final(self).seen() == old(self).seen() + inspected.take(n as int)
                &&& if n < inspected.len() {
                    &&& step == ScanStep::Line { consumed: (n + 1) as usize }
                    &&& final(self).consumed() == final(self).seen().len() + 1
                } else {
                    &&& final(self).consumed() == final(self).seen().len()
                    &&& if final(self).seen().len() >= MAX_INBOX_SCAN_BYTES {
                        step == ScanStep::Hold
                    } else {
                        &&& step == ScanStep::More { consumed: n as usize }
                        &&& final(self).open_line()
                    }
                }
            },
    {
        if buffer.len() == 0 {
            return if self.oversized {
                ScanStep::Hold
            } else {
                ScanStep::EndOfInbox
            };
        }
        let remaining_scan: usize = MAX_INBOX_SCAN_BYTES - self.record_bytes as usize;
        let inspected: &[u8] = if buffer.len() <= remaining_scan {
            buffer
        } else {
            slice_subrange(buffer, 0, remaining_scan)
        };
        assert(inspected@ =~= inspectable(self.seen@.len(), buffer@));
        let payload_bytes = newline_position(inspected);
        let terminated = payload_bytes < inspected.len();
        let ghost before = self.seen@;
        let ghost payload = inspected@.take(payload_bytes as int);
        proof {
            self.seen@ = before + payload;
        }
        if !self.oversized {
            let remaining_capture: usize = MAX_EVENT_LINE_BYTES + 1 - self.captured.len();
            let capture_bytes: usize = if payload_bytes <= remaining_capture {
                payload_bytes
            } else {
                remaining_capture
            };
            let ghost kept_before = self.captured@;
            self.captured.extend_from_slice(slice_subrange(inspected, 0, capture_bytes));
            assert(self.captured@ =~= kept_before + payload.take(capture_bytes as int));
            self.oversized = payload_bytes > remaining_capture || self.captured.len()
                > MAX_EVENT_LINE_BYTES;
        }
        assert(self.captured@ =~= self.seen@.take(kept(self.seen@.len()) as int));
        let bytes_consumed: usize = if terminated {
            payload_bytes + 1
        } else {
            payload_bytes
        };
        self.record_bytes = self.record_bytes + bytes_consumed as u64;
        proof {
            lemma_line_length(before);
            lemma_line_length(inspected@);
        }
        if terminated {
            return ScanStep::Line { consumed: bytes_consumed };
        }
        proof {
            assert(payload =~= inspected@);
            assert forall|i: int| 0 <= i < self.seen@.len() implies self.seen@[i] != 10 by {
                if i >= before.len() {
                    assert(inspected@[i - before.len()] != 10);
                }
            }
            lemma_line_length_is(self.seen@, self.seen@.len());
        }
        if self.record_bytes >= MAX_INBOX_SCAN_BYTES as u64 {
            ScanStep::Hold
        } else {
            ScanStep::More { consumed: bytes_consumed }
        }
    }

    /// How many bytes the scan has consumed.
    pub fn record_bytes(&self) -> (n: u64)
        ensures
            n == self.consumed(),
    {
        self.record_bytes
    }

    /// Takes the event out of a complete line.
    pub fn finish(self) -> (event: Result<AttentionEvent, EventError>)
        requires
            self.consistent(),
        ensures
            match event {
                Ok(e) => event_of_line(self.seen()) == Ok::<EventData, EventError>(e@),
                Err(error) => event_of_line(self.seen()) == Err::<EventData, EventError>(error),
            },
    {
        if self.oversized {
            return Err(EventError::TooLong);
        }
        assert(self.captured@ =~= self.seen@);
        let mut end: usize = self.captured.len();
        if end > 0 && self.captured[end - 1] == 13 {
            end = end - 1;
        }
        let line_bytes = slice_subrange(self.captured.as_slice(), 0, end);
        assert(line_bytes@ =~= without_return(self.seen@));
        match core::str::from_utf8(line_bytes) {
            Ok(line) => if end == 0 {
                Err(EventError::EmptyLine)
            } else {
                AttentionEvent::parse(line)
            },
            Err(_) => Err(EventError::NotUtf8),
        }
    }
}

/// A line without the carriage return at its end.
pub open spec fn without_return(line: Seq<u8>) -> Seq<u8> {
    if line.len() > 0 && line.last() == 13 {
        line.drop_last()
    } else {
        line
    }
}

/// The event of a complete line of the inbox, or why it holds none.
pub open spec fn event_of_line(line: Seq<u8>) -> Result<EventData, EventError> {
    if line.len() > MAX_EVENT_LINE_BYTES {
        Err(EventError::TooLong)
    } else if !valid_utf8(without_return(line)) {
        Err(EventError::NotUtf8)
    } else if without_return(line).len() == 0 {
        Err(EventError::EmptyLine)
    } else {
        parsed_event(decode_utf8(without_return(line)))
    }
}

/// Finds the first newline.
fn newline_position(bytes: &[u8]) -> (n: usize)
    ensures
        n == line_length(bytes@),
        n <= bytes@.len(),
{
    let mut n: usize = 0;
    while n < bytes.len() && bytes[n] != 10
        invariant
            n <= bytes@.len(),
            forall|i: int| 0 <= i < n ==> bytes@[i] != 10,
        ensures
            n <= bytes@.len(),
            forall|i: int| 0 <= i < n ==> bytes@[i] != 10,
            n == bytes@.len() || bytes@[n as int] == 10,
        decreases bytes.len() - n,
    {
        n += 1;
    }
    proof {
        lemma_line_length_is(bytes@, n as nat);
    }
    n
}

/// What was read of an inbox: which file it is, how long it is, and its bytes from the offset on.
/// The bytes reach to the end of the inbox or at least as far as a scan may inspect.
#[derive(Debug)]
pub struct InboxWindow {
    pub identity: InboxIdentity,
    pub file_len: u64,
    pub bytes: Vec<u8>,
}

/// A complete line of the inbox.
#[derive(Debug)]
pub struct EventRecord {
    pub event_offset: u64,
    pub next_offset: u64,
    pub event: Result<AttentionEvent, EventError>,
}

/// What a complete line of the inbox comes to.
pub struct RecordData {
    pub event_offset: u64,
    pub next_offset: u64,
    pub event: Result<EventData, EventError>,
}

impl View for EventRecord {
    type V = RecordData;

    open spec fn view(&self) -> RecordData {
        RecordData {
            event_offset: self.event_offset,
            next_offset: self.next_offset,
            event: match self.event {
                Ok(event) => Ok(event@),
                Err(error) => Err(error),
            },
        }
    }
}

/// One read of the inbox.
#[derive(Debug)]
pub struct InboxRead {
    pub identity: InboxIdentity,
    pub record: Option<EventRecord>,
}

/// Why nothing may be taken from the inbox.
#[derive(Clone, Copy, Debug, PartialEq, Eq, Structural)]
pub enum InboxHold {
    /// Another file stands in the place of the inbox.
    Replaced { expected: InboxIdentity, found: InboxIdentity },
    /// The inbox is shorter than what was taken from it.
    Truncated { file_len: u64, offset: u64 },
    /// The line at the offset is too long and not complete.
    Unterminated { offset: u64, inspected: u64 },
}

/// The sum of an offset and a length, or the greatest offset.
pub open spec fn offset_after(offset: u64, bytes: nat) -> u64 {
    if offset + bytes <= u64::MAX {
        (offset + bytes) as u64
    } else {
        u64::MAX
    }
}

/// What a read of the inbox at an offset comes to.
pub open spec fn inbox_read(
    inbox: InboxWindow,
    offset: u64,
    expected: Option<InboxIdentity>,
) -> Result<Option<RecordData>, InboxHold> {
    if expected is Some && expected->0 != inbox.identity {
        Err(InboxHold::Replaced { expected: expected->0, found: inbox.identity })
    } else if inbox.file_len < offset {
        Err(InboxHold::Truncated { file_len: inbox.file_len, offset })
    } else {
        match line_scan(inbox.bytes@) {
            LineScan::Unfinished => Ok(None),
            LineScan::Line { length } => Ok(
                Some(
                    RecordData {
                        event_offset: offset,
                        next_offset: offset_after(offset, (length + 1) as nat),
                        event: event_of_line(inbox.bytes@.take(length as int)),
                    },
                ),
            ),
            LineScan::Overlong { inspected } => Err(
                InboxHold::Unterminated { offset, inspected: inspected as u64 },
            ),
        }
    }
}

/// Reads the event at an offset of the inbox, a buffer at a time, and inspects no more than a
/// bounded number of bytes.
pub fn read_next_event(
    inbox: &InboxWindow,
    offset: u64,
    expected_identity: Option<InboxIdentity>,
) -> (result: Result<InboxRead, InboxHold>)
    ensures
        match result {
            Ok(read) => {
                &&& read.identity == inbox.identity
                &&& match read.record {
                    Some(record) => inbox_read(*inbox, offset, expected_identity) == Ok::<
                        Option<RecordData>,
                        InboxHold,
                    >(Some(record@)),
                    None => inbox_read(*inbox, offset, expected_identity) == Ok::<
                        Option<RecordData>,
                        InboxHold,
                    >(None),
                }
            },
            Err(hold) => inbox_read(*inbox, offset, expected_identity) == Err::<
                Option<RecordData>,
                InboxHold,
            >(hold),
        },
{
    if let Some(expected) = expected_identity {
        if expected != inbox.identity {
            return Err(InboxHold::Replaced { expected, found: inbox.identity });
        }
    }
    if inbox.file_len < offset {
        return Err(InboxHold::Truncated { file_len: inbox.file_len, offset });
    }
    let bytes = inbox.bytes.as_slice();
    let mut scan = InboxScan::new();
    let mut position: usize = 0;
    assert(bytes@.take(0) =~= Seq::<u8>::empty());
    loop
        invariant
            bytes@ == inbox.bytes@,
            position <= bytes@.len(),
            scan.open_line(),
            scan.seen() == bytes@.take(position as int),
            !(expected_identity is Some && expected_identity->0 != inbox.identity),
            inbox.file_len >= offset,
        decreases bytes@.len() - position,
    {
        let left: usize = bytes.len() - position;
        let chunk: usize = if left < INBOX_READ_BUFFER_BYTES {
            left
        } else {
            INBOX_READ_BUFFER_BYTES
        };
        let buffer = slice_subrange(bytes, position, position + chunk);
        let ghost inspected = inspectable(scan.seen().len(), buffer@);
        let ghost n = line_length(inspected);
        let step = scan.step(buffer);
        proof {
            lemma_line_length(bytes@);
            lemma_line_length(bytes@.take(position as int));
            lemma_line_length(inspected);
            if chunk > 0 {
                assert(scan.seen() =~= bytes@.take(position + n));
                assert(inspected =~= bytes@.subrange(
                    position as int,
                    position + inspected.len(),
                ));
                lemma_found(bytes@, position as nat, inspected);
            } else {
                assert(bytes@.take(position as int) =~= bytes@);
            }
        }
        match step {
            ScanStep::EndOfInbox => {
                return Ok(InboxRead { identity: inbox.identity, record: None });
            },
            ScanStep::Hold => {
                return Err(InboxHold::Unterminated { offset, inspected: scan.record_bytes() });
            },
            ScanStep::Line { .. } => {
                let record_bytes = scan.record_bytes();
                let next_offset: u64 = if record_bytes <= u64::MAX - offset {
                    offset + record_bytes
                } else {
                    u64::MAX
                };
                let event = scan.finish();
                return Ok(
                    InboxRead {
                        identity: inbox.identity,
                        record: Some(EventRecord { event_offset: offset, next_offset, event }),
                    },
                );
            },
            ScanStep::More { consumed } => {
                position = position + consumed;
            },
        }
    }
}

/// Where the next buffer holds the first newline, so do all bytes; where it holds none, neither do
/// the bytes up to its end.
proof fn lemma_found(bytes: Seq<u8>, position: nat, inspected: Seq<u8>)
    requires
        position + inspected.len() <= bytes.len(),
        inspected == bytes.subrange(position as int, (position + inspected.len()) as int),
        line_length(bytes.take(position as int)) == position,
    ensures
        line_length(inspected) < inspected.len() ==> line_length(bytes) == position + line_length(
            inspected,
        ),
        line_length(inspected) == inspected.len() ==> line_length(bytes) >= position
            + inspected.len(),
{
    let n = line_length(inspected);
    let head = bytes.take(position as int);
    lemma_line_length(inspected);
    lemma_line_length(head);
    lemma_line_length(bytes);
    assert forall|i: int| 0 <= i < position + n implies bytes[i] != 10 by {
        if i < position {
            assert(head[i] != 10);
        } else {
            assert(inspected[i - position] != 10);
        }
    }
    if n < inspected.len() {
        assert(bytes[(position + n) as int] == inspected[n as int]);
        lemma_line_length_is(bytes, position + n);
    }
}

/// A read that finds a line moves the offset exactly behind the newline of that line, and the line
/// holds no newline.
pub proof fn law_read_advances_by_one_line(
    inbox: InboxWindow,
    offset: u64,
    expected: Option<InboxIdentity>,
    record: RecordData,
)
    requires
        inbox_read(inbox, offset, expected) == Ok::<Option<RecordData>, InboxHold>(Some(record)),
        offset + inbox.bytes@.len() <= u64::MAX,
    ensures
        ({
            let n = record.next_offset - offset - 1;
            &&& record.event_offset == offset
            &&& 0 <= n < inbox.bytes@.len()
            &&& inbox.bytes@[n] == 10
            &&& forall|i: int| 0 <= i < n ==> inbox.bytes@[i] != 10
            &&& record.event == event_of_line(inbox.bytes@.take(n))
        }),
{
    lemma_line_length(inbox.bytes@);
}

/// Another file in the place of the inbox, or a shorter one, is never read.
pub proof fn law_replaced_or_truncated_inbox_is_held(
    inbox: InboxWindow,
    offset: u64,
    expected: Option<InboxIdentity>,
)
    requires
        inbox.file_len < offset || (expected is Some && expected->0 != inbox.identity),
    ensures
        inbox_read(inbox, offset, expected) is Err,
{
}

/// What is reported of a hold on the inbox at a path.
pub open spec fn hold_message(hold: InboxHold, path: Seq<char>) -> Seq<char> {
    match hold {
        InboxHold::Replaced { expected, found } => "ATTENTION INBOX HOLD: "@ + path
            + " changed file identity from device "@ + decimal(expected.device as nat) + " inode "@
            + decimal(expected.inode as nat) + " to device "@ + decimal(found.device as nat)
            + " inode "@ + decimal(found.inode as nat)
            + "; refusing rotation/replacement replay"@,
        InboxHold::Truncated { file_len, offset } => "ATTENTION INBOX HOLD: "@ + path + " is "@
            + decimal(file_len as nat) + " bytes, smaller than durable event offset "@ + decimal(
            offset as nat,
        ) + "; refusing rotation/truncation replay"@,
        InboxHold::Unterminated { offset, inspected } =>
        "ATTENTION INBOX HOLD: unterminated event at offset "@ + decimal(offset as nat)
            + " exceeds 4096 bytes in "@ + path + "; inspected only "@ + decimal(inspected as nat)
            + " bytes and did not advance the durable offset"@,
    }
}

impl InboxHold {
    /// The message of this hold on the inbox at a path.
    pub fn to_message(&self, path: &str) -> (message: String)
        ensures
            message@ == hold_message(*self, path@),
    {
        match self {
            InboxHold::Replaced { expected, found } => {
                let mut message = "ATTENTION INBOX HOLD: ".to_owned();
                message.append(path);
                message.append(" changed file identity from device ");
                message.append(write_decimal(expected.device).as_str());
                message.append(" inode ");
                message.append(write_decimal(expected.inode).as_str());
                message.append(" to device ");
                message.append(write_decimal(found.device).as_str());
                message.append(" inode ");
                message.append(write_decimal(found.inode).as_str());
                message.append("; refusing rotation/replacement replay");
                message
            },
            InboxHold::Truncated { file_len, offset } => {
                let mut message = "ATTENTION INBOX HOLD: ".to_owned();
                message.append(path);
                message.append(" is ");
                message.append(write_decimal(*file_len).as_str());
                message.append(" bytes, smaller than durable event offset ");
                message.append(write_decimal(*offset).as_str());
                message.append("; refusing rotation/truncation replay");
                message
            },
            InboxHold::Unterminated { offset, inspected } => {
                let mut message = "ATTENTION INBOX HOLD: unterminated event at offset ".to_owned();
                message.append(write_decimal(*offset).as_str());
                message.append(" exceeds 4096 bytes in ");
                message.append(path);
                message.append("; inspected only ");
                message.append(write_decimal(*inspected).as_str());
                message.append(" bytes and did not advance the durable offset");
                message
            },
        }
    }
}

} // verus!
