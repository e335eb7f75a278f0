//! What the provenance of an image keeps to: what is written of it can be read back, everything
//! that was selected travels with the image, and nothing grows past its bounds.

use vstd::prelude::*;
use vstd::string::*;
use vstd::utf8::*;

use crate::atom::is_alphanumeric;
use crate::image::artifact::{
    alphanumerics, artifact_name, artifact_path, hint_text, hyphenated, identifier_slug_of, lower,
    title_slug_of, MAX_IMAGE_GENERATION_OUTPUT_HINT_BYTES, MAX_TITLE_SLUG_BYTES,
};
use crate::image::metadata::{
    artifact_json, bytes_at, chunk_bytes, creative_json, creative_members, holds_bytes,
    is_complete_png, itxt_chunk, list_json, literals, metadata_fault, metadata_texts, png_end,
    png_signature, resolved_title, xml_char, xml_escaped, xmp_text, ArtifactData, CreativeData,
    MAX_METADATA_FIELD_CHARS, MAX_METADATA_JSON_BYTES, MAX_METADATA_LIST_ITEMS, MAX_TITLE_CHARS,
};
use crate::json::{comma_joined, json_literal};
use crate::text::{byte_len, trimmed};
use crate::time::{formatted_time, json_time, rfc3339_text, Timestamp};
use crate::writing::{
    lemma_bytes_stand_in, lemma_joined_from_the_front, lemma_list_is_read_back,
    lemma_object_is_read_back, lemma_part_stands_in_join, lemma_plain_text_is_not_escaped,
    lemma_stands_between, lemma_stands_within, list_text, read_list, read_object, stands_at,
    stands_in, value_text, Told,
};

verus! {

/// A written list is read back as the list that it was written for: the same texts, each at its
/// place, with what follows the list left over.
pub proof fn law_lists_are_read_back(texts: Seq<Seq<char>>, rest: Seq<char>)
    ensures
        read_list(list_json(texts) + rest) == Some((texts, rest)),
{
    lemma_list_is_read_back(texts, literals(texts), rest);
}

/// No two lists are written alike.
pub proof fn law_lists_tell_texts_apart(left: Seq<Seq<char>>, right: Seq<Seq<char>>)
    requires
        list_json(left) == list_json(right),
    ensures
        left == right,
{
    law_lists_are_read_back(left, Seq::empty());
    law_lists_are_read_back(right, Seq::empty());
    assert(list_json(left) + Seq::<char>::empty() =~= list_json(left));
    assert(list_json(right) + Seq::<char>::empty() =~= list_json(right));
}

/// The literal of every text stands in the list that is written of them, and so do its bytes.
pub proof fn law_every_text_stands_in_its_list(texts: Seq<Seq<char>>, i: int)
    requires
        0 <= i < texts.len(),
    ensures
        stands_in(json_literal(texts[i]), list_json(texts)),
        stands_in(encode_utf8(json_literal(texts[i])), encode_utf8(list_json(texts))),
{
    let parts = literals(texts);
    assert(parts[i] == json_literal(texts[i]));
    lemma_part_stands_in_join(parts, i);
    lemma_stands_between("["@, comma_joined(parts), "]"@);
    lemma_stands_within(parts[i], comma_joined(parts), list_json(texts));
    lemma_bytes_stand_in(json_literal(texts[i]), list_json(texts));
}

proof fn lemma_member_names()
    ensures
        "\"thoughts\":"@ == json_literal("thoughts"@) + seq![':'],
        "\"text\":"@ == json_literal("text"@) + seq![':'],
        "\"commissioner_notes\":"@ == json_literal("commissioner_notes"@) + seq![':'],
        "\"pinned_comments\":"@ == json_literal("pinned_comments"@) + seq![':'],
{
    reveal_strlit("\"");
    reveal_strlit("thoughts");
    reveal_strlit("text");
    reveal_strlit("commissioner_notes");
    reveal_strlit("pinned_comments");
    reveal_strlit("\"thoughts\":");
    reveal_strlit("\"text\":");
    reveal_strlit("\"commissioner_notes\":");
    reveal_strlit("\"pinned_comments\":");
    lemma_plain_text_is_not_escaped("thoughts"@);
    lemma_plain_text_is_not_escaped("text"@);
    lemma_plain_text_is_not_escaped("commissioner_notes"@);
    lemma_plain_text_is_not_escaped("pinned_comments"@);
    assert("\"thoughts\":"@ =~= json_literal("thoughts"@) + seq![':']);
    assert("\"text\":"@ =~= json_literal("text"@) + seq![':']);
    assert("\"commissioner_notes\":"@ =~= json_literal("commissioner_notes"@) + seq![':']);
    assert("\"pinned_comments\":"@ =~= json_literal("pinned_comments"@) + seq![':']);
}

/// A named text, where there is one.
pub open spec fn named_text(name: Seq<char>, text: Option<Seq<char>>) -> Seq<(Seq<char>, Told)> {
    match text {
        Some(text) => seq![(name, Told::Text { text })],
        None => Seq::empty(),
    }
}

/// A named list, where there is one.
pub open spec fn named_list(name: Seq<char>, texts: Option<Seq<Seq<char>>>) -> Seq<
    (Seq<char>, Told),
> {
    match texts {
        Some(texts) => seq![(name, Told::List { texts })],
        None => Seq::empty(),
    }
}

/// What is written of the selected provenance is read back as just what was selected: the thoughts,
/// the text, the notes and the comments that there are, each under its name.
#[verifier::spinoff_prover]
#[verifier::rlimit(60)]
pub proof fn law_provenance_is_read_back(creative: CreativeData)
    ensures
        read_object(creative_json(creative)) == Some(
            (
                named_text("thoughts"@, creative.thoughts) + named_text("text"@, creative.text)
                    + named_list("commissioner_notes"@, creative.commissioner_notes) + named_list(
                    "pinned_comments"@,
                    creative.pinned_comments,
                ),
                Seq::<char>::empty(),
            ),
        ),
{
    lemma_member_names();
    let members = named_text("thoughts"@, creative.thoughts) + named_text("text"@, creative.text)
        + named_list("commissioner_notes"@, creative.commissioner_notes) + named_list(
        "pinned_comments"@,
        creative.pinned_comments,
    );
    let parts = creative_members(creative);
    lemma_lists_are_written_so(creative);
    assert(parts.len() == members.len());
    assert forall|i: int| 0 <= i < parts.len() implies #[trigger] parts[i] == json_literal(
        members[i].0,
    ) + seq![':'] + value_text(members[i].1) by {}
    lemma_object_is_read_back(parts, members);
}

proof fn lemma_lists_are_written_so(creative: CreativeData)
    ensures
        creative.commissioner_notes matches Some(notes) ==> list_json(notes) == list_text(notes),
        creative.pinned_comments matches Some(comments) ==> list_json(comments) == list_text(
            comments,
        ),
{
    if creative.commissioner_notes is Some {
        let notes = creative.commissioner_notes->0;
        assert(literals(notes) =~= Seq::new(notes.len(), |i: int| json_literal(notes[i])));
    }
    if creative.pinned_comments is Some {
        let comments = creative.pinned_comments->0;
        assert(literals(comments) =~= Seq::new(comments.len(), |i: int| json_literal(comments[i])));
    }
}

proof fn lemma_document_marks()
    ensures
        "{"@.len() == 1,
        "}"@.len() == 1,
        "{}"@ == "{"@ + "}"@,
        "{\"title\":"@ == "{"@ + "\"title\":"@,
        ",\"created_at\":"@ == ","@ + "\"created_at\":"@,
        ",\"model\":"@ == ","@ + "\"model\":"@,
{
    reveal_strlit("{");
    reveal_strlit("}");
    reveal_strlit("{}");
    reveal_strlit(",");
    reveal_strlit("{\"title\":");
    reveal_strlit("\"title\":");
    reveal_strlit(",\"created_at\":");
    reveal_strlit("\"created_at\":");
    reveal_strlit(",\"model\":");
    reveal_strlit("\"model\":");
    assert("{}"@ =~= "{"@ + "}"@);
    assert("{\"title\":"@ =~= "{"@ + "\"title\":"@);
    assert(",\"created_at\":"@ =~= ","@ + "\"created_at\":"@);
    assert(",\"model\":"@ =~= ","@ + "\"model\":"@);
}

/// The document of an image is that of its provenance, with the title, the time and the model of the
/// image put before it.
#[verifier::spinoff_prover]
#[verifier::rlimit(60)]
pub proof fn law_document_extends_the_provenance(metadata: ArtifactData)
    ensures
        ({
            let time = metadata.created_at;
            let head = "{\"title\":"@ + json_literal(metadata.title) + ",\"created_at\":"@ + json_time(
                time.unix_seconds,
                time.nanos,
                time.offset_seconds,
            ) + ",\"model\":"@ + json_literal(metadata.model);
            let own = creative_json(metadata.creative);
            &&& own == "{}"@ ==> artifact_json(metadata) == head + "}"@
            &&& own != "{}"@ ==> artifact_json(metadata) == head + ","@ + own.skip(1)
        }),
{
    lemma_document_marks();
    let time = metadata.created_at;
    let moment = json_time(time.unix_seconds, time.nanos, time.offset_seconds);
    let title = "\"title\":"@ + json_literal(metadata.title);
    let created = "\"created_at\":"@ + moment;
    let model = "\"model\":"@ + json_literal(metadata.model);
    let rest = creative_members(metadata.creative);
    let own = creative_json(metadata.creative);
    let head = "{\"title\":"@ + json_literal(metadata.title) + ",\"created_at\":"@ + moment
        + ",\"model\":"@ + json_literal(metadata.model);
    assert(head =~= "{"@ + title + ","@ + created + ","@ + model);
    lemma_joined_is_empty_or_not(rest, metadata.creative);
    let all = seq![title, created, model] + rest;
    lemma_joined_from_the_front(all);
    assert(all.drop_first() =~= seq![created, model] + rest);
    lemma_joined_from_the_front(all.drop_first());
    let tail = seq![model] + rest;
    assert(all.drop_first().drop_first() =~= tail);
    let joined = title + ","@ + (created + ","@ + comma_joined(tail));
    assert(comma_joined(all) == joined);
    assert(artifact_json(metadata) == "{"@ + joined + "}"@);
    if rest.len() == 0 {
        assert(tail =~= seq![model]);
        assert(comma_joined(tail) == model);
        assert(comma_joined(rest) =~= Seq::<char>::empty());
        assert(own =~= "{"@ + "}"@);
        assert("{"@ + joined + "}"@ =~= head + "}"@);
    } else {
        lemma_joined_from_the_front(tail);
        assert(tail.drop_first() =~= rest);
        assert(comma_joined(tail) == model + ","@ + comma_joined(rest));
        assert(own.len() > 2);
        assert(own.skip(1) =~= comma_joined(rest) + "}"@);
        assert("{"@ + joined + "}"@ =~= head + ","@ + (comma_joined(rest) + "}"@));
    }
}

proof fn lemma_joined_is_empty_or_not(rest: Seq<Seq<char>>, creative: CreativeData)
    requires
        rest == creative_members(creative),
    ensures
        rest.len() > 0 ==> comma_joined(rest).len() > 0,
{
    reveal_strlit("\"thoughts\":");
    reveal_strlit("\"text\":");
    reveal_strlit("\"commissioner_notes\":");
    reveal_strlit("\"pinned_comments\":");
    if rest.len() > 0 {
        assert(rest[0].len() > 0);
        if rest.len() > 1 {
            lemma_joined_from_the_front(rest);
        }
    }
}

/// The texts that travel with an image: its title, its time, the program, the model, its document
/// and its packet always; and of the selected provenance just what there is. Nothing else does.
pub proof fn law_what_travels_with_an_image(metadata: ArtifactData)
    ensures
        ({
            let texts = metadata_texts(metadata);
            let time = metadata.created_at;
            let creative = metadata.creative;
            let some = |b: bool|
                if b {
                    1int
                } else {
                    0int
                };
            &&& texts[0] == ("Title"@, metadata.title)
            &&& texts[1] == (
                "Creation Time"@,
                rfc3339_text(time.unix_seconds, time.nanos, time.offset_seconds),
            )
            &&& texts[2] == ("Software"@, "Codex image_gen"@)
            &&& texts[3] == ("Model"@, metadata.model)
            &&& texts[4] == ("Codex Metadata"@, artifact_json(metadata))
            &&& texts[5] == ("XML:com.adobe.xmp"@, xmp_text(metadata, artifact_json(metadata)))
            &&& creative.thoughts matches Some(text) ==> texts.contains(("Thoughts"@, text))
            &&& creative.text matches Some(text) ==> texts.contains(("Description"@, text))
            &&& creative.commissioner_notes matches Some(notes) ==> texts.contains(
                ("Commissioner Notes"@, list_json(notes)),
            )
            &&& creative.pinned_comments matches Some(comments) ==> texts.contains(
                ("Pinned Comments"@, list_json(comments)),
            )
            &&& texts.len() == 6 + some(creative.thoughts is Some) + some(creative.text is Some)
                + some(creative.commissioner_notes is Some) + some(
                creative.pinned_comments is Some,
            )
        }),
{
    let texts = metadata_texts(metadata);
    let creative = metadata.creative;
    let at_text: int = if creative.thoughts is Some {
        7
    } else {
        6
    };
    let at_notes: int = at_text + if creative.text is Some {
        1int
    } else {
        0int
    };
    let at_comments: int = at_notes + if creative.commissioner_notes is Some {
        1int
    } else {
        0int
    };
    if creative.thoughts is Some {
        assert(texts[6] == ("Thoughts"@, creative.thoughts->0));
    }
    if creative.text is Some {
        assert(texts[at_text] == ("Description"@, creative.text->0));
    }
    if creative.commissioner_notes is Some {
        assert(texts[at_notes] == (
            "Commissioner Notes"@,
            list_json(creative.commissioner_notes->0),
        ));
    }
    if creative.pinned_comments is Some {
        assert(texts[at_comments] == ("Pinned Comments"@, list_json(creative.pinned_comments->0)));
    }
}

proof fn lemma_held_is_standing(image: Seq<u8>, part: Seq<u8>)
    ensures
        holds_bytes(image, part) <==> stands_in(part, image),
{
    if holds_bytes(image, part) {
        let k = choose|k: int| bytes_at(image, part, k);
        assert(stands_at(part, image, k));
    }
    if stands_in(part, image) {
        let k = choose|k: int| stands_at(part, image, k);
        assert(bytes_at(image, part, k));
    }
}

/// In an image that holds each of the texts that travel with it, every selected note and comment
/// stands as the literal of itself.
pub proof fn law_every_note_travels_with_an_image(
    image: Seq<u8>,
    metadata: ArtifactData,
    i: int,
)
    requires
        forall|j: int|
            0 <= j < metadata_texts(metadata).len() ==> holds_bytes(
                image,
                encode_utf8((#[trigger] metadata_texts(metadata)[j]).1),
            ),
    ensures
        metadata.creative.commissioner_notes matches Some(notes) ==> 0 <= i < notes.len()
            ==> holds_bytes(image, encode_utf8(json_literal(notes[i]))),
        metadata.creative.pinned_comments matches Some(comments) ==> 0 <= i < comments.len()
            ==> holds_bytes(image, encode_utf8(json_literal(comments[i]))),
{
    let texts = metadata_texts(metadata);
    law_what_travels_with_an_image(metadata);
    if metadata.creative.commissioner_notes is Some {
        let notes = metadata.creative.commissioner_notes->0;
        let pair = ("Commissioner Notes"@, list_json(notes));
        let j = choose|j: int| 0 <= j < texts.len() && texts[j] == pair;
        assert(texts[j].1 == list_json(notes));
        if 0 <= i < notes.len() {
            law_every_text_stands_in_its_list(notes, i);
            lemma_held_is_standing(image, encode_utf8(list_json(notes)));
            lemma_stands_within(
                encode_utf8(json_literal(notes[i])),
                encode_utf8(list_json(notes)),
                image,
            );
            lemma_held_is_standing(image, encode_utf8(json_literal(notes[i])));
        }
    }
    if metadata.creative.pinned_comments is Some {
        let comments = metadata.creative.pinned_comments->0;
        let pair = ("Pinned Comments"@, list_json(comments));
        let j = choose|j: int| 0 <= j < texts.len() && texts[j] == pair;
        assert(texts[j].1 == list_json(comments));
        if 0 <= i < comments.len() {
            law_every_text_stands_in_its_list(comments, i);
            lemma_held_is_standing(image, encode_utf8(list_json(comments)));
            lemma_stands_within(
                encode_utf8(json_literal(comments[i])),
                encode_utf8(list_json(comments)),
                image,
            );
            lemma_held_is_standing(image, encode_utf8(json_literal(comments[i])));
        }
    }
}

/// The selected provenance is in bounds exactly where no text and no entry has more than 8000
/// characters, no list has more than sixteen entries, and all of it is written in at most 32768
/// bytes. A fault in the thoughts is told before one in the text, one in the notes before one in
/// the comments, and one in the whole last.
pub proof fn law_provenance_is_bounded(creative: CreativeData)
    ensures
        metadata_fault(creative) is None <==> {
            &&& creative.thoughts matches Some(text) ==> text.len() <= 8000
            &&& creative.text matches Some(text) ==> text.len() <= 8000
            &&& creative.commissioner_notes matches Some(notes) ==> notes.len() <= 16 && forall|i: int|
                0 <= i < notes.len() ==> (#[trigger] notes[i]).len() <= 8000
            &&& creative.pinned_comments matches Some(comments) ==> comments.len() <= 16
                && forall|i: int|
                0 <= i < comments.len() ==> (#[trigger] comments[i]).len() <= 8000
            &&& byte_len(creative_json(creative)) <= 32768
        },
        creative.thoughts matches Some(text) ==> text.len() > 8000 ==> metadata_fault(creative)
            == Some("`metadata.thoughts` must contain at most 8000 characters"@),
        creative.thoughts is None ==> (creative.text matches Some(text) ==> text.len() > 8000
            ==> metadata_fault(creative) == Some(
            "`metadata.text` must contain at most 8000 characters"@,
        )),
        creative.thoughts is None && creative.text is None ==> (
        creative.commissioner_notes matches Some(notes) ==> {
            &&& notes.len() > 16 ==> metadata_fault(creative) == Some(
                "`metadata.commissioner_notes` must contain at most 16 entries"@,
            )
            &&& notes.len() <= 16 && (exists|i: int|
                0 <= i < notes.len() && (#[trigger] notes[i]).len() > 8000) ==> metadata_fault(
                creative,
            ) == Some(
                "each `metadata.commissioner_notes` entry must contain at most 8000 characters"@,
            )
        }),
        creative.thoughts is None && creative.text is None && creative.commissioner_notes is None
            ==> (creative.pinned_comments matches Some(comments) ==> {
            &&& comments.len() > 16 ==> metadata_fault(creative) == Some(
                "`metadata.pinned_comments` must contain at most 16 entries"@,
            )
            &&& comments.len() <= 16 && (exists|i: int|
                0 <= i < comments.len() && (#[trigger] comments[i]).len() > 8000)
                ==> metadata_fault(creative) == Some(
                "each `metadata.pinned_comments` entry must contain at most 8000 characters"@,
            )
        }),
{
}

/// A title is taken without the white space around it, where that leaves between one and 120
/// characters; there is one for images that are given none.
pub proof fn law_titles_are_bounded(title: Seq<char>)
    ensures
        resolved_title(None) == Ok::<Seq<char>, Seq<char>>("generated image"@),
        resolved_title(Some(title)) is Ok <==> 1 <= trimmed(title).len() <= 120,
        resolved_title(Some(title)) matches Ok(kept) ==> kept == trimmed(title),
        trimmed(title).len() == 0 ==> resolved_title(Some(title)) == Err::<Seq<char>, Seq<char>>(
            "`title` must not be empty when provided"@,
        ),
        trimmed(title).len() > 120 ==> resolved_title(Some(title)) == Err::<Seq<char>, Seq<char>>(
            "`title` must contain at most 120 characters"@,
        ),
{
}

/// The character that an XML text begins with, and in how many characters it is told.
pub open spec fn told_xml_char(text: Seq<char>) -> (char, int) {
    if text[0] != '&' {
        (text[0], 1)
    } else if text[1] == 'l' {
        ('<', 4)
    } else if text[1] == 'g' {
        ('>', 4)
    } else if text[1] == 'q' {
        ('"', 6)
    } else if text[2] == 'm' {
        ('&', 5)
    } else {
        ('\'', 6)
    }
}

/// What an XML text tells.
pub open spec fn told_xml(text: Seq<char>) -> Seq<char>
    decreases text.len(),
{
    if text.len() == 0 {
        Seq::empty()
    } else {
        let (c, n) = told_xml_char(text);
        if n > text.len() {
            Seq::empty()
        } else {
            seq![c] + told_xml(text.skip(n))
        }
    }
}

proof fn lemma_xml_char_is_told(c: char, rest: Seq<char>)
    ensures
        xml_char(c).len() > 0,
        told_xml_char(xml_char(c) + rest) == (c, xml_char(c).len() as int),
{
    reveal_strlit("&amp;");
    reveal_strlit("&lt;");
    reveal_strlit("&gt;");
    reveal_strlit("&quot;");
    reveal_strlit("&apos;");
    let all = xml_char(c) + rest;
    assert(all[0] == xml_char(c)[0]);
    if xml_char(c).len() > 2 {
        assert(all[1] == xml_char(c)[1]);
        assert(all[2] == xml_char(c)[2]);
    }
}

proof fn lemma_xml_from_the_front(text: Seq<char>)
    requires
        text.len() > 0,
    ensures
        xml_escaped(text) == xml_char(text[0]) + xml_escaped(text.drop_first()),
    decreases text.len(),
{
    if text.len() == 1 {
        assert(text.drop_last() =~= Seq::<char>::empty());
        assert(text.drop_first() =~= Seq::<char>::empty());
        assert(xml_escaped(text) =~= xml_char(text[0]) + xml_escaped(text.drop_first()));
    } else {
        lemma_xml_from_the_front(text.drop_last());
        assert(text.drop_last().drop_first() =~= text.drop_first().drop_last());
        assert(xml_escaped(text) =~= xml_char(text[0]) + xml_escaped(text.drop_first()));
    }
}

/// A text that was written for XML is read back as it was.
pub proof fn law_xml_is_read_back(text: Seq<char>)
    ensures
        told_xml(xml_escaped(text)) == text,
    decreases text.len(),
{
    if text.len() == 0 {
        assert(text =~= Seq::<char>::empty());
    } else {
        let first = xml_char(text[0]);
        let others = xml_escaped(text.drop_first());
        lemma_xml_from_the_front(text);
        lemma_xml_char_is_told(text[0], others);
        assert((first + others).skip(first.len() as int) =~= others);
        law_xml_is_read_back(text.drop_first());
        assert(seq![text[0]] + text.drop_first() =~= text);
    }
}

/// The packet of an image holds its model, its title, its time and its document, each between the
/// marks that stand for it.
#[verifier::spinoff_prover]
#[verifier::rlimit(60)]
pub proof fn law_the_packet_tells_the_image(metadata: ArtifactData, document: Seq<char>)
    ensures
        ({
            let time = metadata.created_at;
            let packet = xmp_text(metadata, document);
            &&& stands_in("\"\n   codex:Model=\""@ + xml_escaped(metadata.model), packet)
            &&& stands_in(
                "<dc:title><rdf:Alt><rdf:li xml:lang=\"x-default\">"@ + xml_escaped(metadata.title)
                    + "</rdf:li>"@,
                packet,
            )
            &&& stands_in(
                "xmp:CreateDate=\""@ + xml_escaped(
                    rfc3339_text(time.unix_seconds, time.nanos, time.offset_seconds),
                ) + "\""@,
                packet,
            )
            &&& stands_in(
                "<codex:MetadataJson>"@ + xml_escaped(document) + "</codex:MetadataJson>"@,
                packet,
            )
        }),
{
    let time = metadata.created_at;
    let packet = xmp_text(metadata, document);
    let date = xml_escaped(rfc3339_text(time.unix_seconds, time.nanos, time.offset_seconds));
    let model = xml_escaped(metadata.model);
    let title = xml_escaped(metadata.title);
    let json = xml_escaped(document);
    let a = "<?xpacket begin=\"\u{feff}\" id=\"W5M0MpCehiHzreSzNTczkc9d\"?>\n<x:xmpmeta xmlns:x=\"adobe:ns:meta/\">\n <rdf:RDF xmlns:rdf=\"http://www.w3.org/1999/02/22-rdf-syntax-ns#\">\n  <rdf:Description rdf:about=\"\"\n   xmlns:dc=\"http://purl.org/dc/elements/1.1/\"\n   xmlns:xmp=\"http://ns.adobe.com/xap/1.0/\"\n   xmlns:codex=\"https://openai.com/ns/codex/1.0/\"\n   xmp:CreatorTool=\"Codex image_gen\"\n   xmp:CreateDate=\""@;
    let b = "\"\n   codex:Model=\""@;
    let c = "\">\n   <dc:title><rdf:Alt><rdf:li xml:lang=\"x-default\">"@;
    let d = "</rdf:li></rdf:Alt></dc:title>\n   <codex:MetadataJson>"@;
    let e = "</codex:MetadataJson>\n  </rdf:Description>\n </rdf:RDF>\n</x:xmpmeta>\n<?xpacket end=\"w\"?>"@;
    assert(packet =~= a + date + b + model + c + title + d + json + e);
    lemma_stands_between(a + date, b + model, c + title + d + json + e);
    assert(packet =~= (a + date) + (b + model) + (c + title + d + json + e));
    assert(stands_in(
        "<dc:title><rdf:Alt><rdf:li xml:lang=\"x-default\">"@ + title + "</rdf:li>"@,
        packet,
    )) by {
        let open = "<dc:title><rdf:Alt><rdf:li xml:lang=\"x-default\">"@;
        let shut = "</rdf:li>"@;
        reveal_strlit("\">\n   <dc:title><rdf:Alt><rdf:li xml:lang=\"x-default\">");
        reveal_strlit("<dc:title><rdf:Alt><rdf:li xml:lang=\"x-default\">");
        reveal_strlit("</rdf:li></rdf:Alt></dc:title>\n   <codex:MetadataJson>");
        reveal_strlit("</rdf:li>");
        assert(c =~= c.take(6) + open);
        assert(d =~= shut + d.skip(9));
        lemma_stands_between(
            a + date + b + model + c.take(6),
            open + title + shut,
            d.skip(9) + json + e,
        );
        assert(packet =~= (a + date + b + model + c.take(6)) + (open + title + shut) + (d.skip(9)
            + json + e));
    }
    assert(stands_in("xmp:CreateDate=\""@ + date + "\""@, packet)) by {
        let open = "xmp:CreateDate=\""@;
        let shut = "\""@;
        reveal_strlit("xmp:CreateDate=\"");
        reveal_strlit("\"");
        reveal_strlit("\"\n   codex:Model=\"");
        reveal_strlit("<?xpacket begin=\"\u{feff}\" id=\"W5M0MpCehiHzreSzNTczkc9d\"?>\n<x:xmpmeta xmlns:x=\"adobe:ns:meta/\">\n <rdf:RDF xmlns:rdf=\"http://www.w3.org/1999/02/22-rdf-syntax-ns#\">\n  <rdf:Description rdf:about=\"\"\n   xmlns:dc=\"http://purl.org/dc/elements/1.1/\"\n   xmlns:xmp=\"http://ns.adobe.com/xap/1.0/\"\n   xmlns:codex=\"https://openai.com/ns/codex/1.0/\"\n   xmp:CreatorTool=\"Codex image_gen\"\n   xmp:CreateDate=\"");
        let n = a.len() - open.len();
        assert(a =~= a.take(n) + open);
        assert(b =~= shut + b.skip(1));
        lemma_stands_between(
            a.take(n),
            open + date + shut,
            b.skip(1) + model + c + title + d + json + e,
        );
        assert(packet =~= a.take(n) + (open + date + shut) + (b.skip(1) + model + c + title + d
            + json + e));
    }
    assert(stands_in("<codex:MetadataJson>"@ + json + "</codex:MetadataJson>"@, packet)) by {
        let open = "<codex:MetadataJson>"@;
        let shut = "</codex:MetadataJson>"@;
        reveal_strlit("<codex:MetadataJson>");
        reveal_strlit("</codex:MetadataJson>");
        reveal_strlit("</rdf:li></rdf:Alt></dc:title>\n   <codex:MetadataJson>");
        reveal_strlit("</codex:MetadataJson>\n  </rdf:Description>\n </rdf:RDF>\n</x:xmpmeta>\n<?xpacket end=\"w\"?>");
        let n = d.len() - open.len();
        assert(d =~= d.take(n) + open);
        assert(e =~= shut + e.skip(21));
        lemma_stands_between(
            a + date + b + model + c + title + d.take(n),
            open + json + shut,
            e.skip(21),
        );
        assert(packet =~= (a + date + b + model + c + title + d.take(n)) + (open + json + shut)
            + e.skip(21));
    }
}

/// What is kept of a joined text is what is kept of its parts; of a single character it is that
/// character where it is a letter or a digit, and nothing else.
pub proof fn law_letters_and_digits_are_kept(left: Seq<char>, right: Seq<char>, c: char)
    ensures
        alphanumerics(left + right) == alphanumerics(left) + alphanumerics(right),
        is_alphanumeric(c) ==> alphanumerics(seq![c]) == seq![c],
        !is_alphanumeric(c) ==> alphanumerics(seq![c]) == Seq::<char>::empty(),
        is_alphanumeric(c) <==> 48 <= c as u32 <= 57 || 65 <= c as u32 <= 90 || 97 <= c as u32 <= 122,
    decreases right.len(),
{
    assert(seq![c].drop_last() =~= Seq::<char>::empty());
    assert(alphanumerics(Seq::<char>::empty()) =~= Seq::<char>::empty());
    assert(Seq::<char>::empty().push(c) =~= seq![c]);
    if right.len() == 0 {
        assert(left + right =~= left);
        assert(alphanumerics(left) + alphanumerics(right) =~= alphanumerics(left));
    } else {
        law_letters_and_digits_are_kept(left, right.drop_last(), c);
        assert((left + right).drop_last() =~= left + right.drop_last());
        assert(alphanumerics(left + right) =~= alphanumerics(left) + alphanumerics(right));
    }
}

/// The slug of an id is its first twelve letters and digits, or all of them where it has no more, or
/// a word for it where it has none.
pub proof fn law_id_slugs_are_the_first_letters(id: Seq<char>)
    ensures
        alphanumerics(id).len() == 0 ==> identifier_slug_of(id) == "call"@,
        alphanumerics(id).len() > 0 ==> identifier_slug_of(id).is_prefix_of(alphanumerics(id)),
        0 < alphanumerics(id).len() <= 12 ==> identifier_slug_of(id) == alphanumerics(id),
        alphanumerics(id).len() > 12 ==> identifier_slug_of(id).len() == 12,
{
    let all = alphanumerics(id);
    assert(all.take(all.len() as int) =~= all);
}

/// A word in small letters.
pub open spec fn small(word: Seq<char>) -> Seq<char> {
    Seq::new(
        word.len(),
        |i: int|
            if 65 <= word[i] as u32 <= 90 {
                (word[i] as u32 + 32) as char
            } else {
                word[i]
            },
    )
}

proof fn lemma_gaps_are_left_out(text: Seq<char>, gap: Seq<char>)
    requires
        forall|i: int| 0 <= i < gap.len() ==> !is_alphanumeric(#[trigger] gap[i]),
    ensures
        hyphenated(text + gap) == hyphenated(text),
    decreases gap.len(),
{
    if gap.len() == 0 {
        assert(text + gap =~= text);
    } else {
        assert(!is_alphanumeric(gap[gap.len() - 1]));
        assert((text + gap).drop_last() =~= text + gap.drop_last());
        lemma_gaps_are_left_out(text, gap.drop_last());
    }
}

/// The slug of a title is made of its words in small letters with a hyphen between each two, however
/// they are kept apart: a further word comes behind a hyphen, and a first one comes alone.
pub proof fn law_words_are_joined_by_hyphens(text: Seq<char>, gap: Seq<char>, word: Seq<char>)
    requires
        forall|i: int| 0 <= i < gap.len() ==> !is_alphanumeric(#[trigger] gap[i]),
        forall|i: int| 0 <= i < word.len() ==> is_alphanumeric(#[trigger] word[i]),
        word.len() > 0,
        gap.len() > 0 || text.len() == 0,
    ensures
        hyphenated(text + gap) == hyphenated(text),
        hyphenated(text + gap + word) == if hyphenated(text).len() == 0 {
            small(word)
        } else {
            hyphenated(text) + seq!['-'] + small(word)
        },
    decreases word.len(),
{
    lemma_gaps_are_left_out(text, gap);
    let all = text + gap + word;
    let c = word[word.len() - 1];
    assert(is_alphanumeric(c));
    let before = word.drop_last();
    assert(all.drop_last() =~= text + gap + before);
    assert(small(word) =~= small(before).push(lower(c)));
    if before.len() == 0 {
        assert(text + gap + before =~= text + gap);
        if hyphenated(text).len() > 0 {
            assert(text.len() > 0);
            assert(all[all.len() - 2] == gap[gap.len() - 1]);
        }
        assert(small(before) =~= Seq::<char>::empty());
        assert(hyphenated(all) =~= if hyphenated(text).len() == 0 {
            small(word)
        } else {
            hyphenated(text) + seq!['-'] + small(word)
        });
    } else {
        law_words_are_joined_by_hyphens(text, gap, before);
        assert(all[all.len() - 2] == before[before.len() - 1]);
        assert(is_alphanumeric(word[word.len() - 2]));
        assert(hyphenated(all) =~= if hyphenated(text).len() == 0 {
            small(word)
        } else {
            hyphenated(text) + seq!['-'] + small(word)
        });
    }
}

/// The slug of a title is all of its words where that takes at most eighty characters, and else the
/// first eighty of them without a hyphen at the end.
pub proof fn law_long_titles_are_cut(title: Seq<char>)
    ensures
        ({
            let whole = hyphenated(title);
            &&& whole.len() == 0 ==> title_slug_of(title) == "generated-image"@
            &&& 0 < whole.len() <= 80 && whole.last() != '-' ==> title_slug_of(title) == whole
            &&& whole.len() > 80 && whole[79] != '-' ==> title_slug_of(title) == whole.take(80)
            &&& whole.len() > 80 && whole[79] == '-' ==> title_slug_of(title) == whole.take(79)
        }),
{
    let whole = hyphenated(title);
    if whole.len() > 80 {
        assert(whole.take(80).drop_last() =~= whole.take(79));
    }
}

/// An image is saved under its day, in a file that begins with its time and ends with its kind, and
/// names its title and its call in between.
#[verifier::spinoff_prover]
#[verifier::rlimit(60)]
pub proof fn law_images_are_saved_under_their_day(
    output_dir: Seq<u8>,
    time: Timestamp,
    title: Seq<char>,
    call_id: Seq<char>,
)
    requires
        output_dir.len() > 0,
        output_dir.last() != 47,
    ensures
        ({
            let day = formatted_time(
                time.unix_seconds,
                time.nanos,
                time.offset_seconds,
                "%Y-%m-%d"@,
            );
            let moment = formatted_time(
                time.unix_seconds,
                time.nanos,
                time.offset_seconds,
                "%Y%m%d-%H%M%S-%3f"@,
            );
            let name = artifact_name(time, title, call_id);
            let path = artifact_path(output_dir, time, title, call_id);
            &&& moment.is_prefix_of(name)
            &&& name.skip(name.len() - 4) == ".png"@
            &&& stands_in("-"@ + title_slug_of(title) + "-"@, name)
            &&& stands_in("-"@ + identifier_slug_of(call_id) + ".png"@, name)
            &&& (output_dir + seq![47u8] + encode_utf8(day)).is_prefix_of(path)
            &&& path.skip(path.len() - encode_utf8(name).len()) == encode_utf8(name)
        }),
{
    reveal_strlit(".png");
    let day = formatted_time(time.unix_seconds, time.nanos, time.offset_seconds, "%Y-%m-%d"@);
    let moment = formatted_time(
        time.unix_seconds,
        time.nanos,
        time.offset_seconds,
        "%Y%m%d-%H%M%S-%3f"@,
    );
    let slug = title_slug_of(title);
    let id = identifier_slug_of(call_id);
    let name = artifact_name(time, title, call_id);
    assert(name =~= moment + ("-"@ + slug + "-"@) + (id + ".png"@));
    lemma_stands_between(moment, "-"@ + slug + "-"@, id + ".png"@);
    assert(name =~= (moment + "-"@ + slug) + ("-"@ + id + ".png"@) + Seq::<char>::empty());
    lemma_stands_between(moment + "-"@ + slug, "-"@ + id + ".png"@, Seq::<char>::empty());
    assert(moment =~= name.take(moment.len() as int));
    assert(name.skip(name.len() - 4) =~= ".png"@);
    let folder = output_dir + seq![47u8] + encode_utf8(day);
    let path = artifact_path(output_dir, time, title, call_id);
    assert(folder =~= path.take(folder.len() as int));
    assert(path.skip(path.len() - encode_utf8(name).len()) =~= encode_utf8(name));
}

/// What the model is told of a saved image names the directory and the path.
pub proof fn law_hints_name_the_image(directory: Seq<char>, path: Seq<char>)
    ensures
        ("Generated images are saved to "@ + directory + " as "@ + path).is_prefix_of(
            hint_text(directory, path),
        ),
{
    let head = "Generated images are saved to "@ + directory + " as "@ + path;
    assert(head =~= hint_text(directory, path).take(head.len() as int));
}

/// Bytes are taken for a complete image exactly where they begin with the eight bytes of the format
/// and end with its last chunk, which is empty.
#[verifier::spinoff_prover]
#[verifier::rlimit(60)]
pub proof fn law_complete_images(bytes: Seq<u8>)
    ensures
        is_complete_png(bytes) <==> {
            let n = bytes.len();
            &&& n >= 12
            &&& bytes[0] == 0x89 && bytes[1] == 0x50 && bytes[2] == 0x4e && bytes[3] == 0x47
            &&& bytes[4] == 0x0d && bytes[5] == 0x0a && bytes[6] == 0x1a && bytes[7] == 0x0a
            &&& bytes[n - 12] == 0 && bytes[n - 11] == 0 && bytes[n - 10] == 0 && bytes[n - 9] == 0
            &&& bytes[n - 8] == 0x49 && bytes[n - 7] == 0x45 && bytes[n - 6] == 0x4e && bytes[n - 5]
                == 0x44
            &&& bytes[n - 4] == 0xae && bytes[n - 3] == 0x42 && bytes[n - 2] == 0x60 && bytes[n - 1]
                == 0x82
        },
{
    let n = bytes.len();
    if n >= 12 {
        let head = bytes.take(8);
        let tail = bytes.skip(n - 12);
        assert(head.len() == 8 && tail.len() == 12);
        assert(forall|i: int| 0 <= i < 8 ==> #[trigger] head[i] == bytes[i]);
        assert(forall|i: int| 0 <= i < 12 ==> #[trigger] tail[i] == bytes[n - 12 + i]);
        assert(png_signature().is_prefix_of(bytes) <==> head =~= png_signature());
        if is_complete_png(bytes) {
            assert(head == png_signature());
            assert(head[0] == 137 && head[1] == 80 && head[2] == 78 && head[3] == 71 && head[4]
                == 13 && head[5] == 10 && head[6] == 26 && head[7] == 10);
            assert(tail[0] == 0 && tail[1] == 0 && tail[2] == 0 && tail[3] == 0 && tail[4] == 73
                && tail[5] == 69 && tail[6] == 78 && tail[7] == 68 && tail[8] == 174 && tail[9]
                == 66 && tail[10] == 96 && tail[11] == 130);
        } else if bytes[0] == 0x89 && bytes[1] == 0x50 && bytes[2] == 0x4e && bytes[3] == 0x47
            && bytes[4] == 0x0d && bytes[5] == 0x0a && bytes[6] == 0x1a && bytes[7] == 0x0a
            && bytes[n - 12] == 0 && bytes[n - 11] == 0 && bytes[n - 10] == 0 && bytes[n - 9] == 0
            && bytes[n - 8] == 0x49 && bytes[n - 7] == 0x45 && bytes[n - 6] == 0x4e && bytes[n - 5]
            == 0x44 && bytes[n - 4] == 0xae && bytes[n - 3] == 0x42 && bytes[n - 2] == 0x60
            && bytes[n - 1] == 0x82 {
            assert(head =~= png_signature());
            assert(tail =~= png_end());
        }
    }
}

/// Every text's chunk stands in the chunks that are embedded, in the order of the texts.
pub proof fn law_chunks_follow_their_texts(
    texts: Seq<(Seq<char>, Seq<char>)>,
    keyword: Seq<char>,
    text: Seq<char>,
)
    ensures
        chunk_bytes(Seq::empty()) == Seq::<u8>::empty(),
        chunk_bytes(texts.push((keyword, text))) == chunk_bytes(texts) + itxt_chunk(keyword, text),
{
    assert(texts.push((keyword, text)).drop_last() =~= texts);
}

/// The limits of the provenance and of what is told of a saved image.
pub proof fn law_image_limits()
    ensures
        MAX_TITLE_CHARS == 120,
        MAX_METADATA_FIELD_CHARS == 8000,
        MAX_METADATA_LIST_ITEMS == 16,
        MAX_METADATA_JSON_BYTES == 32768,
        MAX_TITLE_SLUG_BYTES == 80,
        MAX_IMAGE_GENERATION_OUTPUT_HINT_BYTES == 1024,
{
}

} // verus!
