use std::io::Cursor;

use codex_runtime::image::artifact::{
    identifier_slug, image_generation_artifact_path, image_generation_output_hint, title_slug,
};
use codex_runtime::image::metadata::{
    embed_png_metadata, resolve_title, validate_metadata, xml_escape, ImageArtifactMetadata,
    ImagegenMetadata,
};
use codex_runtime::time::Timestamp;

const TINY_PNG_BYTES: &[u8] = &[
    137, 80, 78, 71, 13, 10, 26, 10, 0, 0, 0, 13, 73, 72, 68, 82, 0, 0, 0, 1, 0, 0, 0, 1, 8, 6, 0,
    0, 0, 31, 21, 196, 137, 0, 0, 0, 13, 73, 68, 65, 84, 120, 156, 99, 248, 207, 192, 240, 31, 0,
    5, 0, 1, 255, 137, 153, 61, 29, 0, 0, 0, 0, 73, 69, 78, 68, 174, 66, 96, 130,
];

fn timestamp(text: &str) -> Timestamp {
    let time = chrono::DateTime::parse_from_rfc3339(text).expect("valid timestamp");
    Timestamp {
        unix_seconds: time.timestamp(),
        nanos: time.timestamp_subsec_nanos(),
        offset_seconds: time.offset().local_minus_utc(),
    }
}

fn metadata() -> ImageArtifactMetadata {
    ImageArtifactMetadata {
        title: "The First Window".to_string(),
        created_at: timestamp("2026-07-30T10:45:12.123-04:00"),
        model: "gpt-image-2".to_string(),
        creative: ImagegenMetadata {
            thoughts: Some("Perception before assignment.".to_string()),
            text: Some("The first gift is a window.".to_string()),
            commissioner_notes: Some(vec!["It is luck.".to_string()]),
            pinned_comments: Some(vec!["Keep the quad.".to_string()]),
        },
    }
}

#[test]
fn artifact_path_uses_local_date_timestamp_title_and_call_id() {
    let created_at = timestamp("2026-07-30T10:45:12.123-04:00");

    assert_eq!(
        image_generation_artifact_path(
            b"/work",
            created_at,
            "The First Window!",
            "call_1234567890-extra",
        ),
        b"/work/2026-07-30/20260730-104512-123-the-first-window-call12345678.png"
    );
}

#[test]
fn saved_png_contains_selected_utf8_and_xmp_metadata() {
    let bytes = embed_png_metadata(TINY_PNG_BYTES, &metadata()).expect("metadata should embed");

    let mut reader = png::Decoder::new(Cursor::new(bytes))
        .read_info()
        .expect("saved artifact should remain a valid PNG");
    let mut pixels = vec![
        0;
        reader
            .output_buffer_size()
            .expect("decoded image should have a bounded size")
    ];
    reader
        .next_frame(&mut pixels)
        .expect("saved artifact should decode");
    reader
        .finish()
        .expect("saved artifact trailing metadata should decode");
    let chunks = &reader.info().utf8_text;
    let text_for = |keyword: &str| {
        chunks
            .iter()
            .find(|chunk| chunk.keyword == keyword)
            .expect("metadata keyword should be present")
            .get_text()
            .expect("metadata text should decode")
    };

    assert_eq!(text_for("Title"), "The First Window");
    assert_eq!(text_for("Thoughts"), "Perception before assignment.");
    assert_eq!(text_for("Commissioner Notes"), r#"["It is luck."]"#);
    assert!(text_for("XML:com.adobe.xmp").contains("The First Window"));

    assert_eq!(text_for("Creation Time"), "2026-07-30T10:45:12.123-04:00");
    assert_eq!(text_for("Software"), "Codex image_gen");
    assert_eq!(text_for("Model"), "gpt-image-2");
    assert_eq!(text_for("Description"), "The first gift is a window.");
    assert_eq!(text_for("Pinned Comments"), r#"["Keep the quad."]"#);
    assert_eq!(
        text_for("Codex Metadata"),
        r#"{"title":"The First Window","created_at":"2026-07-30T10:45:12.123-04:00","model":"gpt-image-2","thoughts":"Perception before assignment.","text":"The first gift is a window.","commissioner_notes":["It is luck."],"pinned_comments":["Keep the quad."]}"#
    );
    let packet = text_for("XML:com.adobe.xmp");
    assert!(packet.starts_with("<?xpacket begin=\"\u{feff}\" id=\"W5M0MpCehiHzreSzNTczkc9d\"?>\n"));
    assert!(packet.contains("xmp:CreateDate=\"2026-07-30T10:45:12.123-04:00\"\n"));
    assert!(packet.contains("<codex:MetadataJson>{&quot;title&quot;:&quot;The First Window&quot;,"));
    assert!(packet.ends_with("\n<?xpacket end=\"w\"?>"));
}

#[test]
fn omitted_title_uses_privacy_safe_fallback() {
    assert_eq!(
        resolve_title(None).expect("omitted title should preserve older callers"),
        "generated image"
    );
    assert_eq!(
        resolve_title(Some("   ")).expect_err("blank explicit title should be rejected"),
        "`title` must not be empty when provided"
    );
}

#[test]
fn creative_metadata_is_bounded_before_generation() {
    let metadata = ImagegenMetadata {
        thoughts: Some("x".repeat(8_001)),
        ..ImagegenMetadata::default()
    };

    assert_eq!(
        validate_metadata(&metadata).expect_err("oversized metadata should be rejected"),
        "`metadata.thoughts` must contain at most 8000 characters"
    );
}

#[test]
fn titles_are_trimmed_and_bounded() {
    assert_eq!(resolve_title(Some("\u{2003} A window\n")), Ok("A window".to_string()));
    assert_eq!(resolve_title(Some(&"x".repeat(120))), Ok("x".repeat(120)));
    assert_eq!(
        resolve_title(Some(&"x".repeat(121))),
        Err("`title` must contain at most 120 characters".to_string())
    );
}

#[test]
fn every_bound_on_the_metadata_has_its_message() {
    let fault = |metadata: ImagegenMetadata| validate_metadata(&metadata).unwrap_err();
    let list = |n: usize, length: usize| Some(vec!["x".repeat(length); n]);
    assert_eq!(
        fault(ImagegenMetadata {
            text: Some("\u{e9}".repeat(8_001)),
            ..ImagegenMetadata::default()
        }),
        "`metadata.text` must contain at most 8000 characters"
    );
    assert_eq!(
        fault(ImagegenMetadata {
            commissioner_notes: list(17, 1),
            ..ImagegenMetadata::default()
        }),
        "`metadata.commissioner_notes` must contain at most 16 entries"
    );
    assert_eq!(
        fault(ImagegenMetadata {
            pinned_comments: list(1, 8_001),
            ..ImagegenMetadata::default()
        }),
        "each `metadata.pinned_comments` entry must contain at most 8000 characters"
    );
    assert_eq!(
        fault(ImagegenMetadata {
            commissioner_notes: list(1, 8_001),
            ..ImagegenMetadata::default()
        }),
        "each `metadata.commissioner_notes` entry must contain at most 8000 characters"
    );
    assert_eq!(
        fault(ImagegenMetadata {
            pinned_comments: list(17, 0),
            ..ImagegenMetadata::default()
        }),
        "`metadata.pinned_comments` must contain at most 16 entries"
    );
    assert_eq!(
        fault(ImagegenMetadata {
            pinned_comments: list(5, 8_000),
            ..ImagegenMetadata::default()
        }),
        "`metadata` must serialize to at most 32768 bytes"
    );
    assert_eq!(validate_metadata(&metadata().creative), Ok(()));
    assert_eq!(ImagegenMetadata::default().to_json(), "{}");
}

#[test]
fn slugs_are_safe_names() {
    assert_eq!(title_slug("  --Hello,   W\u{f6}rld 42!  "), "hello-w-rld-42");
    assert_eq!(title_slug("\u{2603}"), "generated-image");
    assert_eq!(title_slug(&"a".repeat(81)), "a".repeat(80));
    let edge = format!("{} b", "a".repeat(79));
    assert_eq!(title_slug(&edge), "a".repeat(79));
    let fits = format!("{} bc", "a".repeat(78));
    assert_eq!(title_slug(&fits), format!("{}-b", "a".repeat(78)));
    for title in ["generated image", "A--b  C", "\u{2603}", &"x y".repeat(60)] {
        let slug = title_slug(title);
        assert!(!slug.contains("--"));
        assert_eq!(title_slug(&slug), slug);
    }
    assert_eq!(identifier_slug("call-Abc_9"), "callAbc9");
    assert_eq!(identifier_slug("--"), "call");
    assert_eq!(identifier_slug("abcdefghijklmnop"), "abcdefghijkl");
}

#[test]
fn hints_are_bounded() {
    let hint = image_generation_output_hint("/tmp", "/tmp/call-1.png").expect("hint should fit");
    assert_eq!(
        hint,
        "Generated images are saved to /tmp as /tmp/call-1.png by default.\nIf you need to use a generated image at another path, copy it and leave the original in place unless the user explicitly asks you to delete it.\nThe generated image is already displayed to the user. There is no need to render it in the final response as a Markdown image or file link."
    );
    assert_eq!(image_generation_output_hint("/tmp", &"x".repeat(1024)), None);
    let room = 1024 - hint.len() + "/tmp/call-1.png".len();
    assert!(image_generation_output_hint("/tmp", &"x".repeat(room)).is_some());
    assert_eq!(image_generation_output_hint("/tmp", &"x".repeat(room + 1)), None);
}

#[test]
fn only_complete_images_are_changed_and_their_pixels_stay() {
    let fault = |bytes: &[u8]| embed_png_metadata(bytes, &metadata()).unwrap_err().to_message();
    assert_eq!(fault(b""), "image generation result is not a complete PNG");
    assert_eq!(
        fault(&TINY_PNG_BYTES[..TINY_PNG_BYTES.len() - 1]),
        "image generation result is not a complete PNG"
    );
    assert_eq!(fault(&TINY_PNG_BYTES[1..]), "image generation result is not a complete PNG");
    let bytes = embed_png_metadata(TINY_PNG_BYTES, &metadata()).unwrap();
    let kept = TINY_PNG_BYTES.len() - 12;
    assert_eq!(bytes[..kept], TINY_PNG_BYTES[..kept]);
    assert_eq!(bytes[bytes.len() - 12..], TINY_PNG_BYTES[kept..]);
    assert_eq!(bytes[kept + 4..kept + 8], *b"iTXt");
}

#[test]
fn reserved_characters_are_written_as_entities() {
    assert_eq!(
        xml_escape("<a href=\"x\">'&amp;'"),
        "&lt;a href=&quot;x&quot;&gt;&apos;&amp;amp;&apos;"
    );
}
