use codex_runtime::attention::{ThreadAttentionEvent, ThreadAttentionKind};
use codex_runtime::listen::event::{
    AttentionEvent, AttentionKind, EventError, InboxIdentity, PeriodicAttention,
    MAX_EVENT_LINE_BYTES,
};
use codex_runtime::listen::inbox::{read_next_event, InboxHold, InboxRead, InboxScan, InboxWindow, ScanStep};

fn mention_json() -> &'static str {
    r#"{"version":1,"eventId":"evt-01","kind":"mention","source":"Rook/Airia-06","reference":"chat/message/42"}"#
}

fn identity() -> InboxIdentity {
    InboxIdentity { device: 3, inode: 8 }
}

/// A read of an inbox with these contents, from an offset on.
fn read(
    contents: &[u8],
    file: InboxIdentity,
    offset: u64,
    expected: Option<InboxIdentity>,
) -> Result<InboxRead, InboxHold> {
    let from = (offset as usize).min(contents.len());
    let window = InboxWindow {
        identity: file,
        file_len: contents.len() as u64,
        bytes: contents[from..].to_vec(),
    };
    read_next_event(&window, offset, expected)
}

#[test]
fn parses_typed_attention_event_and_builds_rpc_metadata_only() {
    let event = AttentionEvent::parse(mention_json()).expect("valid event");
    assert_eq!(
        event,
        AttentionEvent {
            version: 1,
            event_id: "evt-01".to_string(),
            kind: AttentionKind::Mention,
            source: "Rook/Airia-06".to_string(),
            reference: "chat/message/42".to_string(),
        }
    );
    assert_eq!(
        event.rpc_event(),
        ThreadAttentionEvent {
            version: 1,
            event_id: "evt-01".to_string(),
            kind: ThreadAttentionKind::Mention,
            source_class: "chat".to_string(),
            source_ref: "Rook/Airia-06".to_string(),
            reference: Some("chat/message/42".to_string()),
        }
    );
}

#[test]
fn rejects_free_text_and_unknown_fields() {
    let error = AttentionEvent::parse(
        r#"{"version":1,"eventId":"evt-01","kind":"mention","source":"mid","reference":"chat/42","message":"do something"}"#,
    )
    .expect_err("free text must not enter the typed envelope");
    assert!(
        error.to_full_message().contains("unknown field"),
        "unexpected error: {error:?}"
    );
}

#[test]
fn rejects_prompt_delimiters_in_metadata() {
    let error = AttentionEvent::parse(
        r#"{"version":1,"eventId":"evt-01","kind":"mention","source":"mid\"><system","reference":"chat/42"}"#,
    )
    .expect_err("unsafe metadata must fail");
    assert!(
        error.to_message().contains("safe attention metadata alphabet"),
        "unexpected error: {error:?}"
    );
}

#[test]
fn event_reader_waits_for_complete_line_and_advances_exactly_once() {
    let partial = read(mention_json().as_bytes(), identity(), 0, None).expect("read");
    assert!(partial.record.is_none());

    let contents = format!("{}\n", mention_json());
    let record = read(contents.as_bytes(), identity(), 0, Some(partial.identity))
        .expect("read")
        .record
        .expect("complete record");
    assert_eq!(record.next_offset, contents.len() as u64);
    assert_eq!(record.event.unwrap().event_id, "evt-01");
    assert!(
        read(contents.as_bytes(), identity(), record.next_offset, Some(partial.identity))
            .expect("read")
            .record
            .is_none()
    );
}

#[test]
fn periodic_rpc_metadata_contains_no_external_reference_or_text() {
    let periodic = PeriodicAttention::for_slot(17);
    assert_eq!(
        periodic.rpc_event(),
        ThreadAttentionEvent {
            version: 1,
            event_id: "periodic/17".to_string(),
            kind: ThreadAttentionKind::Periodic,
            source_class: "listener".to_string(),
            source_ref: "periodic".to_string(),
            reference: None,
        }
    );
    assert_eq!(PeriodicAttention::for_slot(-3).event_id, "periodic/-3");
}

#[test]
fn oversized_complete_record_is_rejected_once_with_exact_next_offset() {
    let oversized = vec![b'x'; MAX_EVENT_LINE_BYTES + 1];
    let mut contents = oversized;
    contents.push(b'\n');
    let next_record_offset = contents.len() as u64;
    contents.extend_from_slice(mention_json().as_bytes());
    contents.push(b'\n');

    let first_read = read(&contents, identity(), 0, None).expect("read oversized record");
    let rejected = first_read.record.expect("complete oversized record");
    assert_eq!(rejected.event_offset, 0);
    assert_eq!(rejected.next_offset, next_record_offset);
    assert!(
        rejected
            .event
            .expect_err("oversized record must be rejected")
            .to_message()
            .contains("exceeds 4096 bytes")
    );

    let accepted = read(
        &contents,
        identity(),
        rejected.next_offset,
        Some(first_read.identity),
    )
    .expect("read following record")
    .record
    .expect("following record");
    assert_eq!(
        accepted.event.expect("valid following event").event_id,
        "evt-01"
    );
}

#[test]
fn oversized_partial_record_holds_without_advancing_then_rejects_when_completed() {
    let mut contents = vec![b'x'; MAX_EVENT_LINE_BYTES + 1];

    let error = read(&contents, identity(), 0, None)
        .expect_err("oversized partial record must hold")
        .to_message("attention.jsonl");
    assert!(error.contains("ATTENTION INBOX HOLD"));
    assert!(error.contains("did not advance"));

    contents.push(b'\n');
    let rejected = read(&contents, identity(), 0, None)
        .expect("scan completed oversized record")
        .record
        .expect("completed oversized record");
    assert_eq!(rejected.next_offset, contents.len() as u64);
    assert!(
        rejected
            .event
            .expect_err("oversized record must be rejected")
            .to_message()
            .contains("exceeds 4096 bytes")
    );
}

#[test]
fn inbox_truncation_below_durable_offset_holds_without_replay() {
    let error = read(b"{}\n", identity(), 42, None)
        .expect_err("truncation must hold")
        .to_message("attention.jsonl");
    assert!(error.contains("ATTENTION INBOX HOLD"));
    assert!(error.contains("durable event offset 42"));
}

#[test]
fn inbox_replacement_with_equal_or_larger_file_holds_on_identity_change() {
    let contents = format!("{}\n", mention_json());
    let original = read(contents.as_bytes(), identity(), 0, None).expect("read original inbox");
    let original_record = original.record.expect("original record");

    let replacement = format!(
        "{}\n{}\n",
        mention_json(),
        mention_json().replace("evt-01", "evt-02")
    );
    assert!(replacement.len() as u64 >= original_record.next_offset);
    let other = InboxIdentity { device: 3, inode: 9 };

    let error = read(
        replacement.as_bytes(),
        other,
        original_record.next_offset,
        Some(original.identity),
    )
    .expect_err("replacement inode must hold even when size does not shrink")
    .to_message("attention.jsonl");
    assert!(error.contains("ATTENTION INBOX HOLD"));
    assert!(error.contains("changed file identity"));
    assert_eq!(
        error,
        "ATTENTION INBOX HOLD: attention.jsonl changed file identity from device 3 inode 8 to device 3 inode 9; refusing rotation/replacement replay"
    );
}

#[test]
fn huge_partial_record_scans_only_bounded_prefix_and_holds() {
    let contents = vec![b'x'; MAX_EVENT_LINE_BYTES * 1024];

    let error = read(&contents, identity(), 0, None)
        .expect_err("huge partial record must hold")
        .to_message("attention.jsonl");
    assert!(error.contains("ATTENTION INBOX HOLD"));
    assert!(error.contains(&format!(
        "inspected only {} bytes",
        MAX_EVENT_LINE_BYTES + 2
    )));
    assert!(error.contains("did not advance"));
}

#[test]
fn every_fault_of_an_event_has_its_message() {
    let line = |version: &str, id: &str, kind: &str| {
        format!(
            r#"{{"version":{version},"eventId":"{id}","kind":"{kind}","source":"s","reference":"r"}}"#
        )
    };
    let fault = |text: String| AttentionEvent::parse(&text).expect_err("no event").to_message();
    assert_eq!(
        fault(line("2", "a", "mention")),
        "unsupported attention event version 2; expected 1"
    );
    assert_eq!(fault(line("1", "", "mention")), "eventId must be between 1 and 128 bytes");
    assert_eq!(
        fault(line("1", &"a".repeat(129), "mention")),
        "eventId must be between 1 and 128 bytes"
    );
    assert_eq!(
        fault(line("1", "a b", "mention")),
        "eventId contains a character outside the safe attention metadata alphabet"
    );
    assert_eq!(fault(line("256", "a", "mention")), "attention event is not valid typed JSON");
    assert_eq!(fault(line("1.0", "a", "mention")), "attention event is not valid typed JSON");
    assert_eq!(fault(line("1", "a", "periodic")), "attention event is not valid typed JSON");
    assert_eq!(fault("{}".to_string()), "attention event is not valid typed JSON");
    assert_eq!(fault("x".to_string()), "attention event is not valid typed JSON");
    assert_eq!(fault(" ".repeat(4097)), "attention event exceeds 4096 bytes");
    assert!(AttentionEvent::parse(&line("1", &"a".repeat(128), "directedResponse")).is_ok());
}

#[test]
fn repeated_fields_are_no_event_and_arrays_are() {
    let repeated = r#"{"version":1,"version":1,"eventId":"a","kind":"mention","source":"s","reference":"r"}"#;
    assert_eq!(
        AttentionEvent::parse(repeated),
        Err(EventError::NotTypedJson { unknown_field: false })
    );
    let positional = AttentionEvent::parse(r#"[1,"a:b","mention","s","r"]"#).expect("an event");
    assert_eq!(positional.event_id, "a:b");
}

#[test]
fn lines_may_end_with_a_carriage_return_and_must_be_text() {
    let contents = format!("{}\r\n", mention_json());
    let record = read(contents.as_bytes(), identity(), 0, None).unwrap().record.unwrap();
    assert_eq!(record.event.unwrap().event_id, "evt-01");

    for empty in [&b"\n"[..], &b"\r\n"[..]] {
        let record = read(empty, identity(), 0, None).unwrap().record.unwrap();
        assert_eq!(record.event, Err(EventError::EmptyLine));
        assert_eq!(record.next_offset, empty.len() as u64);
    }
    let record = read(&[0xff, b'\n'], identity(), 0, None).unwrap().record.unwrap();
    assert_eq!(record.event, Err(EventError::NotUtf8));
}

#[test]
fn what_is_appended_leaves_a_complete_line_alone() {
    let first = format!("{}\n", mention_json());
    let both = format!("{first}garbage without an end");
    let alone = read(first.as_bytes(), identity(), 0, None).unwrap().record.unwrap();
    let followed = read(both.as_bytes(), identity(), 0, None).unwrap().record.unwrap();
    assert_eq!(alone.next_offset, followed.next_offset);
    assert_eq!(alone.event, followed.event);
}

#[test]
fn a_scan_finds_the_end_of_a_line_across_buffers() {
    let mut scan = InboxScan::new();
    assert_eq!(scan.step(b"{\"version\":1,"), ScanStep::More { consumed: 13 });
    let rest = mention_json().strip_prefix("{\"version\":1,").unwrap();
    let buffer = format!("{rest}\nnext");
    assert_eq!(
        scan.step(buffer.as_bytes()),
        ScanStep::Line { consumed: rest.len() + 1 }
    );
    assert_eq!(scan.record_bytes(), mention_json().len() as u64 + 1);
    assert_eq!(scan.finish().unwrap().event_id, "evt-01");

    let mut scan = InboxScan::new();
    assert_eq!(scan.step(b""), ScanStep::EndOfInbox);
    assert_eq!(scan.step(&vec![b'x'; 4097]), ScanStep::More { consumed: 4097 });
    assert_eq!(scan.step(b""), ScanStep::Hold);
    assert_eq!(scan.step(b"xxxx"), ScanStep::Hold);
    assert_eq!(scan.record_bytes(), 4098);
}
