//! Provenance of a generated image, bounded before it is generated and embedded when it is saved.

use vstd::prelude::*;
use vstd::slice::*;
use vstd::string::*;
use vstd::utf8::*;

use crate::image::laws::law_every_note_travels_with_an_image;
use crate::json::{
    comma_joined, join_commas, json_literal, optional_member, push_member, text_views,
    write_json_literal,
};
use crate::snapshot::{optional_literal, write_optional_literal};
use crate::text::{byte_len, chars_of, copy_optional, optional_view, text_bytes, trim_text, trimmed};
use crate::time::{json_time, rfc3339_text, write_json_time, write_rfc3339, Timestamp};

verus! {

/// The most characters of a title.
pub const MAX_TITLE_CHARS: usize = 120;

/// The most characters of a text.
pub const MAX_METADATA_FIELD_CHARS: usize = 8000;

/// The most entries of a list.
pub const MAX_METADATA_LIST_ITEMS: usize = 16;

/// The most bytes of all metadata together.
pub const MAX_METADATA_JSON_BYTES: usize = 32768;

/// Optional human-readable provenance, deliberately selected for the saved image.
#[derive(Debug, PartialEq, Eq)]
pub struct ImagegenMetadata {
    /// A short creator-side reading or reflection.
    pub thoughts: Option<String>,
    /// Companion text that travels with the image.
    pub text: Option<String>,
    /// Commissioner statements selected for preservation.
    pub commissioner_notes: Option<Vec<String>>,
    /// Comments pinned to the image.
    pub pinned_comments: Option<Vec<String>>,
}

/// What the selected provenance holds.
pub struct CreativeData {
    pub thoughts: Option<Seq<char>>,
    pub text: Option<Seq<char>>,
    pub commissioner_notes: Option<Seq<Seq<char>>>,
    pub pinned_comments: Option<Seq<Seq<char>>>,
}

/// The texts of an optional list.
pub open spec fn optional_texts(texts: Option<Vec<String>>) -> Option<Seq<Seq<char>>> {
    match texts {
        Some(t) => Some(text_views(t@)),
        None => None,
    }
}

impl View for ImagegenMetadata {
    type V = CreativeData;

    open spec fn view(&self) -> CreativeData {
        CreativeData {
            thoughts: optional_view(self.thoughts),
            text: optional_view(self.text),
            commissioner_notes: optional_texts(self.commissioner_notes),
            pinned_comments: optional_texts(self.pinned_comments),
        }
    }
}

impl Default for ImagegenMetadata {
    fn default() -> (metadata: ImagegenMetadata)
        ensures
            metadata@ == (CreativeData {
                thoughts: None,
                text: None,
                commissioner_notes: None,
                pinned_comments: None,
            }),
    {
        ImagegenMetadata {
            thoughts: None,
            text: None,
            commissioner_notes: None,
            pinned_comments: None,
        }
    }
}

/// All metadata of one saved image.
#[derive(Debug, PartialEq, Eq)]
pub struct ImageArtifactMetadata {
    pub title: String,
    pub created_at: Timestamp,
    pub model: String,
    pub creative: ImagegenMetadata,
}

/// What the metadata of a saved image holds.
pub struct ArtifactData {
    pub title: Seq<char>,
    pub created_at: Timestamp,
    pub model: Seq<char>,
    pub creative: CreativeData,
}

impl View for ImageArtifactMetadata {
    type V = ArtifactData;

    open spec fn view(&self) -> ArtifactData {
        ArtifactData {
            title: self.title@,
            created_at: self.created_at,
            model: self.model@,
            creative: self.creative@,
        }
    }
}

/// The characters of an optional title.
pub open spec fn title_view(title: Option<&str>) -> Option<Seq<char>> {
    match title {
        Some(t) => Some(t@),
        None => None,
    }
}

/// The title of an image, or why the one that was given is refused.
pub open spec fn resolved_title(title: Option<Seq<char>>) -> Result<Seq<char>, Seq<char>> {
    match title {
        None => Ok("generated image"@),
        Some(t) => if trimmed(t).len() == 0 {
            Err("`title` must not be empty when provided"@)
        } else if trimmed(t).len() > MAX_TITLE_CHARS {
            Err("`title` must contain at most 120 characters"@)
        } else {
            Ok(trimmed(t))
        },
    }
}

/// Settles on the title of an image.
pub fn resolve_title(title: Option<&str>) -> (result: Result<String, String>)
    ensures
        match result {
            Ok(t) => resolved_title(title_view(title)) == Ok::<Seq<char>, Seq<char>>(t@),
            Err(m) => resolved_title(title_view(title)) == Err::<Seq<char>, Seq<char>>(m@),
        },
{
    if let Some(given) = title {
        let trimmed_title = trim_text(given);
        let count = chars_of(trimmed_title.as_str()).len();
        if count == 0 {
            return Err("`title` must not be empty when provided".to_owned());
        }
        if count > MAX_TITLE_CHARS {
            return Err("`title` must contain at most 120 characters".to_owned());
        }
        return Ok(trimmed_title);
    }
    Ok("generated image".to_owned())
}

/// The literals of some texts.
pub open spec fn literals(texts: Seq<Seq<char>>) -> Seq<Seq<char>> {
    Seq::new(texts.len(), |i: int| json_literal(texts[i]))
}

/// A list of texts as JSON.
pub open spec fn list_json(texts: Seq<Seq<char>>) -> Seq<char> {
    "["@ + comma_joined(literals(texts)) + "]"@
}

/// An optional list as JSON.
pub open spec fn optional_list(texts: Option<Seq<Seq<char>>>) -> Option<Seq<char>> {
    match texts {
        Some(t) => Some(list_json(t)),
        None => None,
    }
}

/// The members for the selected provenance.
pub open spec fn creative_members(creative: CreativeData) -> Seq<Seq<char>> {
    optional_member("\"thoughts\":"@, optional_literal(creative.thoughts)) + optional_member(
        "\"text\":"@,
        optional_literal(creative.text),
    ) + optional_member(
        "\"commissioner_notes\":"@,
        optional_list(creative.commissioner_notes),
    ) + optional_member("\"pinned_comments\":"@, optional_list(creative.pinned_comments))
}

/// The selected provenance as JSON.
pub open spec fn creative_json(creative: CreativeData) -> Seq<char> {
    "{"@ + comma_joined(creative_members(creative)) + "}"@
}

/// All metadata of an image as JSON.
pub open spec fn artifact_json(metadata: ArtifactData) -> Seq<char> {
    let time = metadata.created_at;
    let head = seq![
        "\"title\":"@ + json_literal(metadata.title),
        "\"created_at\":"@ + json_time(time.unix_seconds, time.nanos, time.offset_seconds),
        "\"model\":"@ + json_literal(metadata.model),
    ];
    "{"@ + comma_joined(head + creative_members(metadata.creative)) + "}"@
}

fn write_list(texts: &Vec<String>) -> (text: String)
    ensures
        text@ == list_json(text_views(texts@)),
{
    let mut parts: Vec<String> = Vec::new();
    let mut i: usize = 0;
    while i < texts.len()
        invariant
            i <= texts@.len(),
            parts@.len() == i,
            forall|j: int| 0 <= j < i ==> (#[trigger] parts@[j])@ == json_literal(texts@[j]@),
        decreases texts@.len() - i,
    {
        parts.push(write_json_literal(texts[i].as_str()));
        i += 1;
    }
    assert(text_views(parts@) =~= literals(text_views(texts@)));
    let mut text = "[".to_owned();
    text.append(join_commas(&parts).as_str());
    text.append("]");
    text
}

fn list_of(texts: &Option<Vec<String>>) -> (list: Option<String>)
    ensures
        optional_view(list) == optional_list(optional_texts(*texts)),
{
    match texts {
        Some(t) => Some(write_list(t)),
        None => None,
    }
}

fn push_creative(parts: &mut Vec<String>, creative: &ImagegenMetadata)
    ensures
        text_views(final(parts)@) == text_views(old(parts)@) + creative_members(creative@),
{
    let ghost before = text_views(parts@);
    push_member(parts, "\"thoughts\":", write_optional_literal(&creative.thoughts));
    push_member(parts, "\"text\":", write_optional_literal(&creative.text));
    push_member(parts, "\"commissioner_notes\":", list_of(&creative.commissioner_notes));
    push_member(parts, "\"pinned_comments\":", list_of(&creative.pinned_comments));
    assert(text_views(parts@) =~= before + creative_members(creative@));
}

impl ImagegenMetadata {
    /// Writes the selected provenance as JSON.
    pub fn to_json(&self) -> (json: String)
        ensures
            json@ == creative_json(self@),
    {
        let mut parts: Vec<String> = Vec::new();
        assert(text_views(parts@) =~= Seq::<Seq<char>>::empty());
        push_creative(&mut parts, self);
        assert(text_views(parts@) =~= creative_members(self@));
        let mut json = "{".to_owned();
        json.append(join_commas(&parts).as_str());
        json.append("}");
        json
    }
}

impl ImageArtifactMetadata {
    /// Writes all metadata of an image as JSON.
    pub fn to_json(&self) -> (json: String)
        requires
            self@.created_at.in_calendar(),
        ensures
            json@ == artifact_json(self@),
    {
        let mut parts: Vec<String> = Vec::new();
        assert(text_views(parts@) =~= Seq::<Seq<char>>::empty());
        push_member(&mut parts, "\"title\":", Some(write_json_literal(self.title.as_str())));
        push_member(&mut parts, "\"created_at\":", Some(write_json_time(self.created_at)));
        push_member(&mut parts, "\"model\":", Some(write_json_literal(self.model.as_str())));
        let ghost time = self@.created_at;
        assert(text_views(parts@) =~= seq![
            "\"title\":"@ + json_literal(self@.title),
            "\"created_at\":"@ + json_time(time.unix_seconds, time.nanos, time.offset_seconds),
            "\"model\":"@ + json_literal(self@.model),
        ]);
        push_creative(&mut parts, &self.creative);
        let mut json = "{".to_owned();
        json.append(join_commas(&parts).as_str());
        json.append("}");
        json
    }
}

/// Every text of a list is short enough.
pub open spec fn entries_short(texts: Seq<Seq<char>>) -> bool {
    forall|i: int|
        0 <= i < texts.len() ==> (#[trigger] texts[i]).len() <= MAX_METADATA_FIELD_CHARS
}

/// An optional text is too long.
pub open spec fn too_long(text: Option<Seq<char>>) -> bool {
    text is Some && text->0.len() > MAX_METADATA_FIELD_CHARS
}

/// Why the selected provenance is refused; the first reason counts.
pub open spec fn metadata_fault(creative: CreativeData) -> Option<Seq<char>> {
    if too_long(creative.thoughts) {
        Some("`metadata.thoughts` must contain at most 8000 characters"@)
    } else if too_long(creative.text) {
        Some("`metadata.text` must contain at most 8000 characters"@)
    } else if creative.commissioner_notes is Some && creative.commissioner_notes->0.len()
        > MAX_METADATA_LIST_ITEMS {
        Some("`metadata.commissioner_notes` must contain at most 16 entries"@)
    } else if creative.commissioner_notes is Some && !entries_short(
        creative.commissioner_notes->0,
    ) {
        Some("each `metadata.commissioner_notes` entry must contain at most 8000 characters"@)
    } else if creative.pinned_comments is Some && creative.pinned_comments->0.len()
        > MAX_METADATA_LIST_ITEMS {
        Some("`metadata.pinned_comments` must contain at most 16 entries"@)
    } else if creative.pinned_comments is Some && !entries_short(creative.pinned_comments->0) {
        Some("each `metadata.pinned_comments` entry must contain at most 8000 characters"@)
    } else if byte_len(creative_json(creative)) > MAX_METADATA_JSON_BYTES {
        Some("`metadata` must serialize to at most 32768 bytes"@)
    } else {
        None
    }
}

fn text_too_long(text: &Option<String>) -> (long: bool)
    ensures
        long == too_long(optional_view(*text)),
{
    match text {
        Some(t) => chars_of(t.as_str()).len() > MAX_METADATA_FIELD_CHARS,
        None => false,
    }
}

fn check_entries(texts: &Vec<String>) -> (short: bool)
    ensures
        short == entries_short(text_views(texts@)),
{
    let mut i: usize = 0;
    while i < texts.len()
        invariant
            i <= texts@.len(),
            forall|j: int|
                0 <= j < i ==> (#[trigger] text_views(texts@)[j]).len()
                    <= MAX_METADATA_FIELD_CHARS,
        decreases texts@.len() - i,
    {
        if chars_of(texts[i].as_str()).len() > MAX_METADATA_FIELD_CHARS {
            assert(text_views(texts@)[i as int].len() > MAX_METADATA_FIELD_CHARS);
            return false;
        }
        i += 1;
    }
    true
}

/// Refuses provenance that is too large, before an image is generated for it.
pub fn validate_metadata(metadata: &ImagegenMetadata) -> (result: Result<(), String>)
    ensures
        match result {
            Ok(()) => metadata_fault(metadata@) is None,
            Err(message) => metadata_fault(metadata@) == Some(message@),
        },
{
    if text_too_long(&metadata.thoughts) {
        return Err("`metadata.thoughts` must contain at most 8000 characters".to_owned());
    }
    if text_too_long(&metadata.text) {
        return Err("`metadata.text` must contain at most 8000 characters".to_owned());
    }
    if let Some(notes) = &metadata.commissioner_notes {
        if notes.len() > MAX_METADATA_LIST_ITEMS {
            return Err("`metadata.commissioner_notes` must contain at most 16 entries".to_owned());
        }
        if !check_entries(notes) {
            return Err(
                "each `metadata.commissioner_notes` entry must contain at most 8000 characters".to_owned(),
            );
        }
    }
    if let Some(comments) = &metadata.pinned_comments {
        if comments.len() > MAX_METADATA_LIST_ITEMS {
            return Err("`metadata.pinned_comments` must contain at most 16 entries".to_owned());
        }
        if !check_entries(comments) {
            return Err(
                "each `metadata.pinned_comments` entry must contain at most 8000 characters".to_owned(),
            );
        }
    }
    let json = metadata.to_json();
    if text_bytes(json.as_str()) > MAX_METADATA_JSON_BYTES {
        return Err("`metadata` must serialize to at most 32768 bytes".to_owned());
    }
    Ok(())
}

/// What stands for a character in XML.
pub open spec fn xml_char(c: char) -> Seq<char> {
    if c == '&' {
        "&amp;"@
    } else if c == '<' {
        "&lt;"@
    } else if c == '>' {
        "&gt;"@
    } else if c == '"' {
        "&quot;"@
    } else if c == '\'' {
        "&apos;"@
    } else {
        seq![c]
    }
}

/// A text with what XML reserves written as entities.
pub open spec fn xml_escaped(text: Seq<char>) -> Seq<char>
    decreases text.len(),
{
    if text.len() == 0 {
        Seq::empty()
    } else {
        xml_escaped(text.drop_last()) + xml_char(text.last())
    }
}

/// Writes what XML reserves as entities.
pub fn xml_escape(value: &str) -> (text: String)
    ensures
        text@ == xml_escaped(value@),
{
    let chars = chars_of(value);
    let mut text = String::new();
    let mut i: usize = 0;
    assert(chars@.take(0) =~= Seq::<char>::empty());
    assert(text@ =~= Seq::<char>::empty());
    while i < chars.len()
        invariant
            i <= chars@.len(),
            chars@ == value@,
            text@ == xml_escaped(chars@.take(i as int)),
        decreases chars@.len() - i,
    {
        let c = chars[i];
        let ghost before = text@;
        assert(chars@.take(i + 1).drop_last() =~= chars@.take(i as int));
        if c == '&' {
            text.append("&amp;");
        } else if c == '<' {
            text.append("&lt;");
        } else if c == '>' {
            text.append("&gt;");
        } else if c == '"' {
            text.append("&quot;");
        } else if c == '\'' {
            text.append("&apos;");
        } else {
            text.push(c);
            assert(text@ =~= before + seq![c]);
        }
        i += 1;
    }
    assert(chars@.take(i as int) =~= value@);
    text
}

/// An escaped text holds no character that could end an element or an attribute.
pub proof fn law_escaped_text_is_inert(text: Seq<char>)
    ensures
        forall|i: int|
            0 <= i < xml_escaped(text).len() ==> {
                let c = #[trigger] xml_escaped(text)[i];
                c != '<' && c != '>' && c != '"' && c != '\''
            },
    decreases text.len(),
{
    if text.len() > 0 {
        reveal_strlit("&amp;");
        reveal_strlit("&lt;");
        reveal_strlit("&gt;");
        reveal_strlit("&quot;");
        reveal_strlit("&apos;");
        let before = xml_escaped(text.drop_last());
        law_escaped_text_is_inert(text.drop_last());
        assert forall|i: int| 0 <= i < xml_escaped(text).len() implies {
            let c = #[trigger] xml_escaped(text)[i];
            c != '<' && c != '>' && c != '"' && c != '\''
        } by {
            if i < before.len() {
                assert(xml_escaped(text)[i] == before[i]);
            } else {
                assert(xml_escaped(text)[i] == xml_char(text.last())[i - before.len()]);
            }
        }
    }
}

/// The XMP packet of an image.
pub open spec fn xmp_text(metadata: ArtifactData, metadata_json: Seq<char>) -> Seq<char> {
    let time = metadata.created_at;
    "<?xpacket begin=\"\u{feff}\" id=\"W5M0MpCehiHzreSzNTczkc9d\"?>\n<x:xmpmeta xmlns:x=\"adobe:ns:meta/\">\n <rdf:RDF xmlns:rdf=\"http://www.w3.org/1999/02/22-rdf-syntax-ns#\">\n  <rdf:Description rdf:about=\"\"\n   xmlns:dc=\"http://purl.org/dc/elements/1.1/\"\n   xmlns:xmp=\"http://ns.adobe.com/xap/1.0/\"\n   xmlns:codex=\"https://openai.com/ns/codex/1.0/\"\n   xmp:CreatorTool=\"Codex image_gen\"\n   xmp:CreateDate=\""@
        + xml_escaped(rfc3339_text(time.unix_seconds, time.nanos, time.offset_seconds))
        + "\"\n   codex:Model=\""@ + xml_escaped(metadata.model)
        + "\">\n   <dc:title><rdf:Alt><rdf:li xml:lang=\"x-default\">"@ + xml_escaped(
        metadata.title,
    ) + "</rdf:li></rdf:Alt></dc:title>\n   <codex:MetadataJson>"@ + xml_escaped(metadata_json)
        + "</codex:MetadataJson>\n  </rdf:Description>\n </rdf:RDF>\n</x:xmpmeta>\n<?xpacket end=\"w\"?>"@
}

/// Writes the XMP packet of an image.
pub fn xmp_packet(metadata: &ImageArtifactMetadata, metadata_json: &str) -> (packet: String)
    requires
        metadata@.created_at.in_calendar(),
    ensures
        packet@ == xmp_text(metadata@, metadata_json@),
{
    let mut packet =
        "<?xpacket begin=\"\u{feff}\" id=\"W5M0MpCehiHzreSzNTczkc9d\"?>\n<x:xmpmeta xmlns:x=\"adobe:ns:meta/\">\n <rdf:RDF xmlns:rdf=\"http://www.w3.org/1999/02/22-rdf-syntax-ns#\">\n  <rdf:Description rdf:about=\"\"\n   xmlns:dc=\"http://purl.org/dc/elements/1.1/\"\n   xmlns:xmp=\"http://ns.adobe.com/xap/1.0/\"\n   xmlns:codex=\"https://openai.com/ns/codex/1.0/\"\n   xmp:CreatorTool=\"Codex image_gen\"\n   xmp:CreateDate=\"".to_owned();
    packet.append(xml_escape(write_rfc3339(metadata.created_at).as_str()).as_str());
    packet.append("\"\n   codex:Model=\"");
    packet.append(xml_escape(metadata.model.as_str()).as_str());
    packet.append("\">\n   <dc:title><rdf:Alt><rdf:li xml:lang=\"x-default\">");
    packet.append(xml_escape(metadata.title.as_str()).as_str());
    packet.append("</rdf:li></rdf:Alt></dc:title>\n   <codex:MetadataJson>");
    packet.append(xml_escape(metadata_json).as_str());
    packet.append(
        "</codex:MetadataJson>\n  </rdf:Description>\n </rdf:RDF>\n</x:xmpmeta>\n<?xpacket end=\"w\"?>",
    );
    packet
}

/// A keyword of a PNG text: between one and 79 ASCII characters.
pub open spec fn is_keyword(keyword: Seq<char>) -> bool {
    0 < keyword.len() <= 79 && is_ascii_chars(keyword)
}

/// The contents of an uncompressed PNG text without a language.
pub open spec fn itxt_payload(keyword: Seq<char>, text: Seq<char>) -> Seq<u8> {
    encode_utf8(keyword) + seq![0u8, 0u8, 0u8, 0u8, 0u8] + encode_utf8(text)
}

/// The PNG chunk for a text under a keyword.
pub uninterp spec fn itxt_chunk(keyword: Seq<char>, text: Seq<char>) -> Seq<u8>;

/// `ITXtChunk::encode` of the `png` crate: four bytes of length, the type `iTXt`, the contents and
/// four bytes of checksum. The keyword is one that can be encoded and writing into memory does not
/// fail, so no error is passed over.
#[verifier::external_body]
pub(crate) fn encode_text_chunk(keyword: &str, text: &str) -> (chunk: Vec<u8>)
    requires
        is_keyword(keyword@),
    ensures
        chunk@ == itxt_chunk(keyword@, text@),
        chunk@.len() == itxt_payload(keyword@, text@).len() + 12,
        chunk@.subrange(4, 8) == seq![105u8, 84u8, 88u8, 116u8],
        chunk@.subrange(8, chunk@.len() - 4) == itxt_payload(keyword@, text@),
{
    let mut chunk = Vec::new();
    let itxt = png::text_metadata::ITXtChunk::new(keyword, text);
    let _ = png::text_metadata::EncodableTextChunk::encode(&itxt, &mut chunk);
    chunk
}

/// A chunk for an optional text: none where there is no text.
pub open spec fn optional_chunk(keyword: Seq<char>, text: Option<Seq<char>>) -> Seq<
    (Seq<char>, Seq<char>),
> {
    match text {
        Some(t) => seq![(keyword, t)],
        None => Seq::empty(),
    }
}

/// The keywords and texts that are embedded into an image.
pub open spec fn metadata_texts(metadata: ArtifactData) -> Seq<(Seq<char>, Seq<char>)> {
    let time = metadata.created_at;
    let json = artifact_json(metadata);
    seq![
        ("Title"@, metadata.title),
        ("Creation Time"@, rfc3339_text(time.unix_seconds, time.nanos, time.offset_seconds)),
        ("Software"@, "Codex image_gen"@),
        ("Model"@, metadata.model),
        ("Codex Metadata"@, json),
        ("XML:com.adobe.xmp"@, xmp_text(metadata, json)),
    ] + optional_chunk("Thoughts"@, metadata.creative.thoughts) + optional_chunk(
        "Description"@,
        metadata.creative.text,
    ) + optional_chunk(
        "Commissioner Notes"@,
        optional_list(metadata.creative.commissioner_notes),
    ) + optional_chunk("Pinned Comments"@, optional_list(metadata.creative.pinned_comments))
}

/// The chunks of some texts, one behind the other.
pub open spec fn chunk_bytes(texts: Seq<(Seq<char>, Seq<char>)>) -> Seq<u8>
    decreases texts.len(),
{
    if texts.len() == 0 {
        Seq::empty()
    } else {
        chunk_bytes(texts.drop_last()) + itxt_chunk(texts.last().0, texts.last().1)
    }
}

/// The first eight bytes of a PNG.
pub open spec fn png_signature() -> Seq<u8> {
    seq![137u8, 80u8, 78u8, 71u8, 13u8, 10u8, 26u8, 10u8]
}

/// The last chunk of a PNG.
pub open spec fn png_end() -> Seq<u8> {
    seq![0u8, 0u8, 0u8, 0u8, 73u8, 69u8, 78u8, 68u8, 174u8, 66u8, 96u8, 130u8]
}

/// The bytes start and end as a complete PNG does.
pub open spec fn is_complete_png(bytes: Seq<u8>) -> bool {
    &&& bytes.len() >= 12
    &&& png_signature().is_prefix_of(bytes)
    &&& bytes.skip(bytes.len() - 12) == png_end()
}

/// Some bytes stand somewhere in others.
pub open spec fn holds_bytes(whole: Seq<u8>, part: Seq<u8>) -> bool {
    exists|k: int| bytes_at(whole, part, k)
}

/// Some bytes stand at a place in others.
pub open spec fn bytes_at(whole: Seq<u8>, part: Seq<u8>, k: int) -> bool {
    0 <= k && k + part.len() <= whole.len() && whole.subrange(k, k + part.len()) == part
}

proof fn lemma_held_in_join(left: Seq<u8>, middle: Seq<u8>, right: Seq<u8>, part: Seq<u8>)
    requires
        holds_bytes(middle, part),
    ensures
        holds_bytes(left + middle + right, part),
{
    let k = choose|k: int| bytes_at(middle, part, k);
    let whole = left + middle + right;
    let at = left.len() + k;
    assert(whole.subrange(at, at + part.len()) =~= middle.subrange(k, k + part.len()));
    assert(bytes_at(whole, part, at));
}

fn matches_at(bytes: &[u8], from: usize, expected: &[u8]) -> (same: bool)
    requires
        from + expected@.len() <= bytes@.len(),
    ensures
        same == (bytes@.subrange(from as int, from + expected@.len()) == expected@),
{
    let total = bytes.len();
    let mut i: usize = 0;
    while i < expected.len()
        invariant
            i <= expected@.len(),
            total == bytes@.len(),
            from + expected@.len() <= bytes@.len(),
            forall|j: int| 0 <= j < i ==> bytes@[from + j] == expected@[j],
        decreases expected@.len() - i,
    {
        if bytes[from + i] != expected[i] {
            assert(bytes@.subrange(from as int, from + expected@.len())[i as int] != expected@[i as int]);
            return false;
        }
        i += 1;
    }
    assert(bytes@.subrange(from as int, from + expected@.len()) =~= expected@);
    true
}

/// Tells whether bytes start and end as a complete PNG does.
pub fn check_complete_png(bytes: &[u8]) -> (complete: bool)
    ensures
        complete == is_complete_png(bytes@),
{
    if bytes.len() < 12 {
        return false;
    }
    let signature = [137u8, 80u8, 78u8, 71u8, 13u8, 10u8, 26u8, 10u8];
    let end = [0u8, 0u8, 0u8, 0u8, 73u8, 69u8, 78u8, 68u8, 174u8, 66u8, 96u8, 130u8];
    proof {
        assert(signature@ =~= png_signature());
        assert(end@ =~= png_end());
        assert(bytes@.skip(bytes@.len() - 12) =~= bytes@.subrange(
            bytes@.len() - 12,
            bytes@.len() as int,
        ));
        assert(bytes@.take(8) =~= bytes@.subrange(0, 8));
    }
    matches_at(bytes, 0, signature.as_slice()) && matches_at(
        bytes,
        bytes.len() - 12,
        end.as_slice(),
    )
}

/// The signature and the last chunk of a complete PNG do not overlap.
proof fn lemma_complete_png_length(bytes: Seq<u8>)
    requires
        is_complete_png(bytes),
    ensures
        bytes.len() >= 20,
{
    let at = bytes.len() - 12;
    assert(bytes.skip(at)[0] == 0);
    assert(bytes[at] == 0);
    if at < 8 {
        assert(bytes[at] == png_signature()[at]);
    }
}

/// The bytes are no complete PNG.
#[derive(Clone, Copy, Debug, PartialEq, Eq, Structural)]
pub struct IncompletePng;

impl IncompletePng {
    /// The message of this error.
    pub fn to_message(&self) -> (message: String)
        ensures
            message@ == "image generation result is not a complete PNG"@,
    {
        "image generation result is not a complete PNG".to_owned()
    }
}

/// A PNG with further chunks before its last one. Nothing else of it changes.
pub open spec fn with_chunks(png: Seq<u8>, chunks: Seq<u8>) -> Seq<u8> {
    png.take(png.len() - 12) + chunks + png_end()
}

/// Puts chunks before the last one of a PNG.
pub fn insert_chunks(png_bytes: &[u8], chunks: &[u8]) -> (result: Vec<u8>)
    requires
        is_complete_png(png_bytes@),
    ensures
        result@ == with_chunks(png_bytes@, chunks@),
        is_complete_png(result@),
{
    let offset: usize = png_bytes.len() - 12;
    let mut result: Vec<u8> = Vec::new();
    result.extend_from_slice(slice_subrange(png_bytes, 0, offset));
    result.extend_from_slice(chunks);
    result.extend_from_slice(slice_subrange(png_bytes, offset, png_bytes.len()));
    proof {
        assert(png_bytes@.subrange(offset as int, png_bytes@.len() as int) =~= png_bytes@.skip(
            offset as int,
        ));
        assert(result@ =~= with_chunks(png_bytes@, chunks@));
        assert(result@.skip(result@.len() - 12) =~= png_end());
        lemma_complete_png_length(png_bytes@);
        assert(png_bytes@.take(8) =~= png_signature());
        assert(result@.take(8) =~= png_bytes@.take(8));
    }
    result
}

/// The texts of some pairs.
pub open spec fn pair_views(pairs: Seq<(&'static str, String)>) -> Seq<(Seq<char>, Seq<char>)> {
    Seq::new(pairs.len(), |i: int| (pairs[i].0@, pairs[i].1@))
}

/// Every keyword is one that can be encoded.
pub open spec fn keywords_valid(texts: Seq<(Seq<char>, Seq<char>)>) -> bool {
    forall|i: int| 0 <= i < texts.len() ==> is_keyword((#[trigger] texts[i]).0)
}

fn encode_texts(pairs: &Vec<(&'static str, String)>) -> (bytes: Vec<u8>)
    requires
        keywords_valid(pair_views(pairs@)),
    ensures
        bytes@ == chunk_bytes(pair_views(pairs@)),
        forall|i: int|
            0 <= i < pairs@.len() ==> holds_bytes(
                bytes@,
                encode_utf8((#[trigger] pair_views(pairs@)[i]).1),
            ),
{
    let ghost all = pair_views(pairs@);
    let mut bytes: Vec<u8> = Vec::new();
    let mut i: usize = 0;
    assert(all.take(0) =~= Seq::<(Seq<char>, Seq<char>)>::empty());
    assert(bytes@ =~= chunk_bytes(all.take(0)));
    while i < pairs.len()
        invariant
            i <= pairs@.len(),
            all == pair_views(pairs@),
            keywords_valid(all),
            bytes@ == chunk_bytes(all.take(i as int)),
            forall|j: int| 0 <= j < i ==> holds_bytes(bytes@, encode_utf8((#[trigger] all[j]).1)),
        decreases pairs@.len() - i,
    {
        let ghost before = bytes@;
        let pair = &pairs[i];
        assert(is_keyword(all[i as int].0));
        let chunk = encode_text_chunk(pair.0, pair.1.as_str());
        bytes.extend_from_slice(chunk.as_slice());
        proof {
            assert(all.take(i + 1).drop_last() =~= all.take(i as int));
            assert(bytes@ =~= before + chunk@);
            let text = encode_utf8(all[i as int].1);
            let payload = itxt_payload(all[i as int].0, all[i as int].1);
            let at = 8 + payload.len() - text.len();
            assert(payload.subrange(payload.len() - text.len(), payload.len() as int) =~= text);
            assert(chunk@.subrange(at, at + text.len()) =~= chunk@.subrange(
                8,
                chunk@.len() - 4,
            ).subrange(payload.len() - text.len(), payload.len() as int));
            assert(bytes_at(chunk@, text, at));
            assert(before + chunk@ + Seq::<u8>::empty() =~= bytes@);
            lemma_held_in_join(before, chunk@, Seq::empty(), text);
            assert forall|j: int| 0 <= j < i + 1 implies holds_bytes(
                bytes@,
                encode_utf8((#[trigger] all[j]).1),
            ) by {
                if j < i {
                    lemma_held_in_join(Seq::empty(), before, chunk@, encode_utf8(all[j].1));
                    assert(Seq::<u8>::empty() + before + chunk@ =~= bytes@);
                }
            }
        }
        i += 1;
    }
    assert(all.take(i as int) =~= all);
    bytes
}

fn push_text(pairs: &mut Vec<(&'static str, String)>, keyword: &'static str, text: Option<String>)
    ensures
        pair_views(final(pairs)@) == pair_views(old(pairs)@) + optional_chunk(
            keyword@,
            optional_view(text),
        ),
{
    let ghost before = pair_views(pairs@);
    if let Some(t) = text {
        pairs.push((keyword, t));
    }
    assert(pair_views(pairs@) =~= before + optional_chunk(keyword@, optional_view(text)));
}

fn list_texts(metadata: &ImageArtifactMetadata) -> (pairs: Vec<(&'static str, String)>)
    requires
        metadata@.created_at.in_calendar(),
    ensures
        pair_views(pairs@) == metadata_texts(metadata@),
{
    let json = metadata.to_json();
    let packet = xmp_packet(metadata, json.as_str());
    let mut pairs: Vec<(&'static str, String)> = vec![
        ("Title", metadata.title.clone()),
        ("Creation Time", write_rfc3339(metadata.created_at)),
        ("Software", "Codex image_gen".to_owned()),
        ("Model", metadata.model.clone()),
        ("Codex Metadata", json),
        ("XML:com.adobe.xmp", packet),
    ];
    let ghost head = pair_views(pairs@);
    push_text(&mut pairs, "Thoughts", copy_optional(&metadata.creative.thoughts));
    push_text(&mut pairs, "Description", copy_optional(&metadata.creative.text));
    push_text(&mut pairs, "Commissioner Notes", list_of(&metadata.creative.commissioner_notes));
    push_text(&mut pairs, "Pinned Comments", list_of(&metadata.creative.pinned_comments));
    assert(pair_views(pairs@) =~= metadata_texts(metadata@));
    pairs
}

proof fn lemma_keywords(metadata: ArtifactData)
    ensures
        keywords_valid(metadata_texts(metadata)),
{
    reveal_strlit("Title");
    reveal_strlit("Creation Time");
    reveal_strlit("Software");
    reveal_strlit("Model");
    reveal_strlit("Codex Metadata");
    reveal_strlit("XML:com.adobe.xmp");
    reveal_strlit("Thoughts");
    reveal_strlit("Description");
    reveal_strlit("Commissioner Notes");
    reveal_strlit("Pinned Comments");
    let texts = metadata_texts(metadata);
    assert forall|i: int| 0 <= i < texts.len() implies is_keyword((#[trigger] texts[i]).0) by {
    }
}

/// Embeds metadata into a PNG without touching its pixels: everything that the image held stays,
/// and each of the texts stands in it, and so does each note and comment.
pub fn embed_png_metadata(png_bytes: &[u8], metadata: &ImageArtifactMetadata) -> (result: Result<
    Vec<u8>,
    IncompletePng,
>)
    requires
        metadata@.created_at.in_calendar(),
    ensures
        result is Ok <==> is_complete_png(png_bytes@),
        result matches Ok(bytes) ==> {
            &&& bytes@ == with_chunks(png_bytes@, chunk_bytes(metadata_texts(metadata@)))
            &&& forall|i: int|
                0 <= i < metadata_texts(metadata@).len() ==> holds_bytes(
                    bytes@,
                    encode_utf8((#[trigger] metadata_texts(metadata@)[i]).1),
                )
            &&& metadata@.creative.commissioner_notes matches Some(notes) ==> forall|i: int|
                0 <= i < notes.len() ==> holds_bytes(
                    bytes@,
                    encode_utf8(json_literal(#[trigger] notes[i])),
                )
            &&& metadata@.creative.pinned_comments matches Some(comments) ==> forall|i: int|
                0 <= i < comments.len() ==> holds_bytes(
                    bytes@,
                    encode_utf8(json_literal(#[trigger] comments[i])),
                )
        },
{
    if !check_complete_png(png_bytes) {
        return Err(IncompletePng);
    }
    let pairs = list_texts(metadata);
    proof {
        lemma_keywords(metadata@);
    }
    let chunks = encode_texts(&pairs);
    let bytes = insert_chunks(png_bytes, chunks.as_slice());
    proof {
        let texts = metadata_texts(metadata@);
        assert forall|i: int| 0 <= i < texts.len() implies holds_bytes(
            bytes@,
            encode_utf8((#[trigger] texts[i]).1),
        ) by {
            assert(pair_views(pairs@)[i] == texts[i]);
            lemma_held_in_join(
                png_bytes@.take(png_bytes@.len() - 12),
                chunks@,
                png_end(),
                encode_utf8(texts[i].1),
            );
        }
        if metadata@.creative.commissioner_notes is Some {
            let notes = metadata@.creative.commissioner_notes->0;
            assert forall|i: int| 0 <= i < notes.len() implies holds_bytes(
                bytes@,
                encode_utf8(json_literal(#[trigger] notes[i])),
            ) by {
                law_every_note_travels_with_an_image(bytes@, metadata@, i);
            }
        }
        if metadata@.creative.pinned_comments is Some {
            let comments = metadata@.creative.pinned_comments->0;
            assert forall|i: int| 0 <= i < comments.len() implies holds_bytes(
                bytes@,
                encode_utf8(json_literal(#[trigger] comments[i])),
            ) by {
                law_every_note_travels_with_an_image(bytes@, metadata@, i);
            }
        }
    }
    Ok(bytes)
}

/// Taking the embedded chunks out again gives back the image.
pub proof fn law_image_is_kept(png: Seq<u8>, chunks: Seq<u8>)
    requires
        is_complete_png(png),
    ensures
        with_chunks(png, chunks).take(png.len() - 12) + with_chunks(png, chunks).skip(
            png.len() - 12 + chunks.len(),
        ) == png,
{
    let whole = with_chunks(png, chunks);
    assert(whole.take(png.len() - 12) =~= png.take(png.len() - 12));
    assert(whole.skip(png.len() - 12 + chunks.len()) =~= png_end());
    assert(png.take(png.len() - 12) + png.skip(png.len() - 12) =~= png);
}

} // verus!
