//! Names and paths of saved images, and what the model is told of them.

use vstd::prelude::*;
use vstd::string::*;
use vstd::utf8::*;

use crate::atom::{alphanumeric, is_alphanumeric};
use crate::listen::command::{bytes_copy, joined};
use crate::text::{byte_len, chars_of, text_bytes, text_of};
use crate::time::{format_time, formatted_time, Timestamp};

verus! {

/// The most bytes of what the model is told of a saved image.
pub const MAX_IMAGE_GENERATION_OUTPUT_HINT_BYTES: usize = 1024;

/// The most bytes of the title in a file name.
pub const MAX_TITLE_SLUG_BYTES: usize = 80;

/// An ASCII letter in lower case; any other character as it is.
pub open spec fn lower(c: char) -> char {
    if 'A' <= c <= 'Z' {
        (c as u32 + 32) as char
    } else {
        c
    }
}

/// The words of a text in lower case, with a hyphen between each two: a word is a run of ASCII
/// letters and digits.
pub open spec fn hyphenated(text: Seq<char>) -> Seq<char>
    decreases text.len(),
{
    if text.len() == 0 {
        Seq::empty()
    } else {
        let before = hyphenated(text.drop_last());
        let c = text.last();
        if !is_alphanumeric(c) {
            before
        } else if before.len() > 0 && !is_alphanumeric(text[text.len() - 2]) {
            before.push('-').push(lower(c))
        } else {
            before.push(lower(c))
        }
    }
}

/// The start of a text of at most so many characters, without a hyphen at its end.
pub open spec fn clipped(text: Seq<char>, max: nat) -> Seq<char> {
    let head = if text.len() <= max {
        text
    } else {
        text.take(max as int)
    };
    if head.len() > 0 && head.last() == '-' {
        head.drop_last()
    } else {
        head
    }
}

/// The title in a file name.
pub open spec fn title_slug_of(title: Seq<char>) -> Seq<char> {
    let slug = clipped(hyphenated(title), MAX_TITLE_SLUG_BYTES as nat);
    if slug.len() == 0 {
        "generated-image"@
    } else {
        slug
    }
}

/// Letters and digits in lower case, and hyphens.
pub open spec fn is_slug_char(c: char) -> bool {
    is_alphanumeric(c) && !('A' <= c <= 'Z') || c == '-'
}

proof fn lemma_hyphenated(text: Seq<char>)
    ensures
        forall|i: int|
            0 <= i < hyphenated(text).len() ==> is_slug_char(#[trigger] hyphenated(text)[i]),
        hyphenated(text).len() > 0 ==> hyphenated(text).last() != '-' && hyphenated(text)[0] != '-',
        forall|i: int|
            0 <= i < hyphenated(text).len() - 1 && hyphenated(text)[i] == '-'
                ==> #[trigger] hyphenated(text)[i + 1] != '-',
    decreases text.len(),
{
    if text.len() > 0 {
        let rest = text.drop_last();
        lemma_hyphenated(rest);
        let c = text.last();
        let slug = hyphenated(text);
        let before = hyphenated(rest);
        if is_alphanumeric(c) {
            assert(is_slug_char(lower(c)) && lower(c) != '-');
            assert forall|i: int| 0 <= i < slug.len() - 1 && slug[i] == '-' implies
                #[trigger] slug[i + 1] != '-' by {
                if i + 1 < before.len() {
                    assert(before[i] == '-');
                    assert(before[i + 1] != '-');
                }
            }
        }
    }
}

/// The words of the start of a text are the start of its words.
proof fn lemma_hyphenated_grows(text: Seq<char>, k: int)
    requires
        0 <= k <= text.len(),
    ensures
        hyphenated(text.take(k)).is_prefix_of(hyphenated(text)),
    decreases text.len() - k,
{
    if k < text.len() {
        assert(text.take(k + 1).drop_last() =~= text.take(k));
        lemma_hyphenated_grows(text, k + 1);
    } else {
        assert(text.take(k) =~= text);
    }
}

/// Turns a title into a part of a file name.
pub fn title_slug(value: &str) -> (slug: String)
    ensures
        slug@ == title_slug_of(value@),
{
    let chars = chars_of(value);
    let mut slug: Vec<char> = Vec::new();
    let mut separator_pending: bool = false;
    let mut i: usize = 0;
    let ghost whole = hyphenated(value@);
    assert(chars@.take(0) =~= Seq::<char>::empty());
    assert(chars@.len() == 0 ==> value@ =~= Seq::<char>::empty());
    while i < chars.len()
        invariant_except_break
            i <= chars@.len(),
            slug@ == hyphenated(chars@.take(i as int)),
            slug@.len() <= MAX_TITLE_SLUG_BYTES,
            separator_pending == (i > 0 && !is_alphanumeric(chars@[i - 1])),
            slug@.len() > 0 ==> slug@.last() != '-',
            i == chars@.len() ==> slug@ == whole,
        invariant
            chars@ == value@,
            whole == hyphenated(value@),
        ensures
            clipped(slug@, 80) == clipped(whole, 80),
            slug@.len() <= MAX_TITLE_SLUG_BYTES,
            slug@.len() > 0 ==> slug@.last() != '-',
        decreases chars@.len() - i,
    {
        let c = chars[i];
        proof {
            assert(chars@.take(i + 1).drop_last() =~= chars@.take(i as int));
            lemma_hyphenated_grows(value@, i + 1);
            lemma_hyphenated_grows(value@, i as int);
            lemma_hyphenated(chars@.take(i as int));
            lemma_hyphenated(chars@.take(i + 1));
        }
        if alphanumeric(c) {
            if separator_pending && slug.len() > 0 {
                if slug.len() + 1 >= MAX_TITLE_SLUG_BYTES {
                    proof {
                        let longer = hyphenated(chars@.take(i + 1));
                        assert(longer == slug@.push('-').push(lower(c)));
                        lemma_clip_at_separator(slug@, whole, lower(c));
                    }
                    break;
                }
                slug.push('-');
            }
            separator_pending = false;
            if slug.len() >= MAX_TITLE_SLUG_BYTES {
                proof {
                    lemma_clip_full(slug@, whole);
                }
                break;
            }
            slug.push(to_lower(c));
        } else {
            separator_pending = true;
        }
        i += 1;
        assert(i == chars@.len() ==> chars@.take(i as int) =~= value@);
    }
    assert(clipped(slug@, 80) =~= slug@);
    if slug.len() == 0 {
        "generated-image".to_owned()
    } else {
        let text = text_of(slug.as_slice(), 0, slug.len());
        assert(text@ =~= slug@);
        text
    }
}

proof fn lemma_clip_at_separator(slug: Seq<char>, whole: Seq<char>, c: char)
    requires
        79 <= slug.len() <= 80,
        slug.push('-').push(c).is_prefix_of(whole),
        slug.last() != '-',
    ensures
        clipped(slug, 80) == clipped(whole, 80),
{
    let longer = slug.push('-').push(c);
    assert(whole.take(longer.len() as int) =~= longer);
    if slug.len() == 79 {
        assert(whole.take(80) =~= slug.push('-'));
        assert(slug.push('-').drop_last() =~= slug);
    } else {
        assert(whole.take(80) =~= slug);
    }
}

proof fn lemma_clip_full(slug: Seq<char>, whole: Seq<char>)
    requires
        slug.len() == 80,
        slug.is_prefix_of(whole),
    ensures
        clipped(slug, 80) == clipped(whole, 80),
{
    assert(whole.take(80) =~= slug);
}

fn to_lower(c: char) -> (l: char)
    ensures
        l == lower(c),
{
    if c >= 'A' && c <= 'Z' {
        (c as u8 + 32) as char
    } else {
        c
    }
}

/// The ASCII letters and digits of a text.
pub open spec fn alphanumerics(text: Seq<char>) -> Seq<char>
    decreases text.len(),
{
    if text.len() == 0 {
        Seq::empty()
    } else if is_alphanumeric(text.last()) {
        alphanumerics(text.drop_last()).push(text.last())
    } else {
        alphanumerics(text.drop_last())
    }
}

/// The call id in a file name: its first twelve letters and digits.
pub open spec fn identifier_slug_of(id: Seq<char>) -> Seq<char> {
    let all = alphanumerics(id);
    if all.len() == 0 {
        "call"@
    } else if all.len() <= 12 {
        all
    } else {
        all.take(12)
    }
}

proof fn lemma_alphanumerics_grow(text: Seq<char>, k: int)
    requires
        0 <= k <= text.len(),
    ensures
        alphanumerics(text.take(k)).is_prefix_of(alphanumerics(text)),
    decreases text.len() - k,
{
    if k < text.len() {
        assert(text.take(k + 1).drop_last() =~= text.take(k));
        lemma_alphanumerics_grow(text, k + 1);
    } else {
        assert(text.take(k) =~= text);
    }
}

/// Turns a call id into a part of a file name.
pub fn identifier_slug(value: &str) -> (slug: String)
    ensures
        slug@ == identifier_slug_of(value@),
{
    let chars = chars_of(value);
    let mut slug = String::new();
    let mut kept: usize = 0;
    let mut i: usize = 0;
    assert(chars@.take(0) =~= Seq::<char>::empty());
    assert(slug@ =~= alphanumerics(chars@.take(0)));
    while i < chars.len() && kept < 12
        invariant
            i <= chars@.len(),
            chars@ == value@,
            kept == slug@.len(),
            kept <= 12,
            slug@ == alphanumerics(chars@.take(i as int)),
        decreases chars@.len() - i,
    {
        assert(chars@.take(i + 1).drop_last() =~= chars@.take(i as int));
        if alphanumeric(chars[i]) {
            slug.push(chars[i]);
            kept += 1;
        }
        i += 1;
    }
    proof {
        lemma_alphanumerics_grow(value@, i as int);
        let all = alphanumerics(value@);
        if i == chars@.len() {
            assert(chars@.take(i as int) =~= value@);
        }
        if all.len() > 12 {
            assert(all.take(12) =~= slug@);
        } else if all.len() == 12 {
            assert(all =~= slug@);
        }
    }
    if kept == 0 {
        "call".to_owned()
    } else {
        slug
    }
}

/// The name of the file for an image.
pub open spec fn artifact_name(time: Timestamp, title: Seq<char>, call_id: Seq<char>) -> Seq<char> {
    formatted_time(time.unix_seconds, time.nanos, time.offset_seconds, "%Y%m%d-%H%M%S-%3f"@) + "-"@
        + title_slug_of(title) + "-"@ + identifier_slug_of(call_id) + ".png"@
}

/// The path of the file for an image: a directory for each local day.
pub open spec fn artifact_path(
    output_dir: Seq<u8>,
    time: Timestamp,
    title: Seq<char>,
    call_id: Seq<char>,
) -> Seq<u8> {
    let day = formatted_time(time.unix_seconds, time.nanos, time.offset_seconds, "%Y-%m-%d"@);
    joined(
        joined(output_dir, encode_utf8(day)),
        encode_utf8(artifact_name(time, title, call_id)),
    )
}

fn join_path(directory: &[u8], name: &str) -> (path: Vec<u8>)
    ensures
        path@ == joined(directory@, encode_utf8(name@)),
{
    let mut path = bytes_copy(directory);
    if !(path.len() > 0 && path[path.len() - 1] == 47) {
        path.push(47);
    }
    path.extend_from_slice(name.as_bytes());
    assert(path@ =~= joined(directory@, encode_utf8(name@)));
    path
}

/// The path at which an image is saved.
pub fn image_generation_artifact_path(
    output_dir: &[u8],
    created_at: Timestamp,
    title: &str,
    call_id: &str,
) -> (path: Vec<u8>)
    requires
        created_at.in_calendar(),
    ensures
        path@ == artifact_path(output_dir@, created_at, title@, call_id@),
{
    let day = format_time(created_at, "%Y-%m-%d");
    let mut name = format_time(created_at, "%Y%m%d-%H%M%S-%3f");
    name.append("-");
    name.append(title_slug(title).as_str());
    name.append("-");
    name.append(identifier_slug(call_id).as_str());
    name.append(".png");
    let directory = join_path(output_dir, day.as_str());
    join_path(directory.as_slice(), name.as_str())
}

/// What the model is told of an image that is saved in a directory under a path.
pub open spec fn hint_text(directory: Seq<char>, path: Seq<char>) -> Seq<char> {
    "Generated images are saved to "@ + directory + " as "@ + path
        + " by default.\nIf you need to use a generated image at another path, copy it and leave the original in place unless the user explicitly asks you to delete it.\nThe generated image is already displayed to the user. There is no need to render it in the final response as a Markdown image or file link."@
}

/// Tells the model where an image is saved, unless that takes too many bytes.
pub fn image_generation_output_hint(image_output_dir: &str, image_output_path: &str) -> (hint:
    Option<String>)
    ensures
        match hint {
            Some(text) => text@ == hint_text(image_output_dir@, image_output_path@) && byte_len(
                text@,
            ) <= MAX_IMAGE_GENERATION_OUTPUT_HINT_BYTES,
            None => byte_len(hint_text(image_output_dir@, image_output_path@))
                > MAX_IMAGE_GENERATION_OUTPUT_HINT_BYTES,
        },
{
    let mut hint = "Generated images are saved to ".to_owned();
    hint.append(image_output_dir);
    hint.append(" as ");
    hint.append(image_output_path);
    hint.append(
        " by default.\nIf you need to use a generated image at another path, copy it and leave the original in place unless the user explicitly asks you to delete it.\nThe generated image is already displayed to the user. There is no need to render it in the final response as a Markdown image or file link.",
    );
    if text_bytes(hint.as_str()) <= MAX_IMAGE_GENERATION_OUTPUT_HINT_BYTES {
        Some(hint)
    } else {
        None
    }
}

/// The ASCII letters and digits of a text, the letters in lower case.
pub open spec fn lower_alphanumerics(text: Seq<char>) -> Seq<char> {
    alphanumerics(text).map_values(|c: char| lower(c))
}

/// Letters and digits in lower case with single hyphens between them.
pub open spec fn is_slug(text: Seq<char>) -> bool {
    &&& 0 < text.len() <= MAX_TITLE_SLUG_BYTES
    &&& forall|i: int| 0 <= i < text.len() ==> is_slug_char(#[trigger] text[i])
    &&& text[0] != '-'
    &&& text.last() != '-'
    &&& forall|i: int, j: int|
        0 <= i && j == i + 1 && j < text.len() ==> !(#[trigger] text[i] == '-' && #[trigger] text[j]
            == '-')
}

/// Whatever a title holds, its part in a file name is a short run of lower-case letters, digits
/// and single hyphens that neither starts nor ends with a hyphen. Its letters and digits are the
/// first of those of the title, or it is the fallback where the title has none. A title that is
/// such a part already is its own.
pub proof fn law_title_slug_is_a_safe_name(title: Seq<char>)
    ensures
        is_slug(title_slug_of(title)),
        alphanumerics(title).len() == 0 ==> title_slug_of(title) == "generated-image"@,
        alphanumerics(title).len() > 0 ==> alphanumerics(title_slug_of(title)).is_prefix_of(
            lower_alphanumerics(title),
        ),
        title_slug_of(title_slug_of(title)) == title_slug_of(title),
{
    reveal_strlit("generated-image");
    let words = hyphenated(title);
    let slug = clipped(words, 80);
    lemma_hyphenated(title);
    lemma_letters_of_words(title);
    if words.len() > 0 {
        lemma_clipped_words(words);
        assert(slug =~= words.take(slug.len() as int));
        lemma_alphanumerics_grow(words, slug.len() as int);
        assert(words.drop_last().push(words.last()) =~= words);
        assert(is_alphanumeric(words.last()));
        assert(alphanumerics(words).len() > 0);
    } else {
        assert(alphanumerics(words).len() == 0);
        assert(slug.len() == 0);
    }
    lemma_slug_is_its_own(title_slug_of(title));
}

/// The start of some words is a slug.
proof fn lemma_clipped_words(words: Seq<char>)
    requires
        words.len() > 0,
        forall|i: int| 0 <= i < words.len() ==> is_slug_char(#[trigger] words[i]),
        words[0] != '-',
        words.last() != '-',
        forall|i: int|
            0 <= i < words.len() - 1 && words[i] == '-' ==> #[trigger] words[i + 1] != '-',
    ensures
        is_slug(clipped(words, 80)),
        clipped(words, 80).is_prefix_of(words),
{
    let head = if words.len() <= 80 {
        words
    } else {
        words.take(80)
    };
    let slug = clipped(words, 80);
    assert(head[0] == words[0]);
    if head.last() == '-' {
        let k = head.len() - 2;
        if words[k] == '-' {
            assert(words[k + 1] != '-');
        }
        assert(slug.last() == words[k]);
    }
    assert(slug[0] == words[0]);
    assert forall|i: int| 0 <= i < slug.len() implies is_slug_char(#[trigger] slug[i]) by {
        assert(slug[i] == words[i]);
    }
    assert forall|i: int, j: int| 0 <= i && j == i + 1 && j < slug.len() implies !(
    #[trigger] slug[i] == '-' && #[trigger] slug[j] == '-') by {
        assert(slug[i] == words[i]);
        assert(slug[j] == words[i + 1]);
    }
}

/// The letters and digits of the words of a text are those of the text, in lower case.
proof fn lemma_letters_of_words(text: Seq<char>)
    ensures
        alphanumerics(hyphenated(text)) == lower_alphanumerics(text),
    decreases text.len(),
{
    if text.len() > 0 {
        let rest = text.drop_last();
        lemma_letters_of_words(rest);
        let before = hyphenated(rest);
        let c = text.last();
        if is_alphanumeric(c) {
            assert(is_alphanumeric(lower(c)));
            assert(before.push('-').drop_last() =~= before);
            assert(alphanumerics(before.push('-')) == alphanumerics(before));
            assert(before.push(lower(c)).drop_last() =~= before);
            assert(before.push('-').push(lower(c)).drop_last() =~= before.push('-'));
            assert(lower_alphanumerics(text) =~= lower_alphanumerics(rest).push(lower(c)));
        }
    } else {
        assert(lower_alphanumerics(text) =~= Seq::<char>::empty());
    }
}

/// A slug, or the start of one, holds its own words.
proof fn lemma_words_of_slug(text: Seq<char>)
    requires
        forall|i: int| 0 <= i < text.len() ==> is_slug_char(#[trigger] text[i]),
        text.len() > 0 ==> text[0] != '-',
        forall|i: int, j: int|
            0 <= i && j == i + 1 && j < text.len() ==> !(#[trigger] text[i] == '-'
                && #[trigger] text[j] == '-'),
    ensures
        hyphenated(text) == if text.len() > 0 && text.last() == '-' {
            text.drop_last()
        } else {
            text
        },
    decreases text.len(),
{
    if text.len() > 0 {
        let rest = text.drop_last();
        assert forall|i: int, j: int| 0 <= i && j == i + 1 && j < rest.len() implies !(
        #[trigger] rest[i] == '-' && #[trigger] rest[j] == '-') by {
            assert(rest[i] == text[i] && rest[j] == text[j]);
        }
        lemma_words_of_slug(rest);
        let c = text.last();
        assert(is_slug_char(text[text.len() - 1]));
        if rest.len() > 0 {
            assert(rest.last() == text[text.len() - 2]);
            assert(is_slug_char(text[text.len() - 2]));
            assert(!(text[text.len() - 2] == '-' && text[text.len() - 1] == '-'));
            assert(rest[0] == text[0]);
        }
        if c != '-' {
            assert(lower(c) == c);
            if rest.len() > 0 && rest.last() == '-' {
                assert(rest.drop_last().push('-').push(c) =~= text);
            } else {
                assert(rest.push(c) =~= text);
            }
        }
    }
}

proof fn lemma_slug_is_its_own(slug: Seq<char>)
    requires
        is_slug(slug),
    ensures
        title_slug_of(slug) == slug,
{
    lemma_words_of_slug(slug);
}

/// The call id in a file name is between one and twelve letters and digits.
pub proof fn law_identifier_slug_is_a_safe_name(id: Seq<char>)
    ensures
        0 < identifier_slug_of(id).len() <= 12,
        forall|i: int|
            0 <= i < identifier_slug_of(id).len() ==> is_alphanumeric(
                #[trigger] identifier_slug_of(id)[i],
            ),
{
    reveal_strlit("call");
    lemma_alphanumerics(id);
    let all = alphanumerics(id);
    let slug = identifier_slug_of(id);
    assert forall|i: int| 0 <= i < slug.len() implies is_alphanumeric(#[trigger] slug[i]) by {
        if all.len() > 0 {
            assert(slug[i] == all[i]);
        }
    }
}

proof fn lemma_alphanumerics(text: Seq<char>)
    ensures
        forall|i: int|
            0 <= i < alphanumerics(text).len() ==> is_alphanumeric(
                #[trigger] alphanumerics(text)[i],
            ),
    decreases text.len(),
{
    if text.len() > 0 {
        let before = alphanumerics(text.drop_last());
        lemma_alphanumerics(text.drop_last());
        assert forall|i: int| 0 <= i < alphanumerics(text).len() implies is_alphanumeric(
            #[trigger] alphanumerics(text)[i],
        ) by {
            if i < before.len() {
                assert(is_alphanumeric(before[i]));
            }
        }
    }
}

} // verus!
