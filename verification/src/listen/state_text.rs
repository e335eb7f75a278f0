//! The text of a state file without what is ignored in it: the members of the inbox identity that
//! are neither its device nor its inode may hold anything, also what the rest of the file may not.

use vstd::prelude::*;
use vstd::slice::*;
use vstd::string::*;
use vstd::utf8::*;

use crate::json::{
    json_value_length, measure_value, parse_json, parse_without_repeats, parsed_json,
    parsed_without_repeats, Json, JsonTree,
};
use crate::listen::command::bytes_copy;
use crate::text::same_text;

verus! {

/// White space between the parts of a JSON text.
pub open spec fn is_space(b: u8) -> bool {
    b == 32 || b == 10 || b == 9 || b == 13
}

/// The first place from one on that holds no white space.
pub open spec fn after_space(bytes: Seq<u8>, at: int) -> int
    decreases bytes.len() - at,
{
    if 0 <= at < bytes.len() && is_space(bytes[at]) {
        after_space(bytes, at + 1)
    } else {
        at
    }
}

/// A byte stands at a place.
pub open spec fn holds(bytes: Seq<u8>, at: int, b: u8) -> bool {
    0 <= at < bytes.len() && bytes[at] == b
}

/// The text of a string literal.
pub open spec fn literal_text(bytes: Seq<u8>) -> Option<Seq<char>> {
    if !valid_utf8(bytes) {
        None
    } else {
        match parsed_json(decode_utf8(bytes)) {
            Some(JsonTree::Text(text)) => Some(text),
            _ => None,
        }
    }
}

/// Where the value that begins at a place ends.
pub open spec fn value_end(bytes: Seq<u8>, at: int) -> Option<int> {
    if 0 <= at <= bytes.len() {
        match json_value_length(bytes.skip(at)) {
            Some(n) => Some(at + n),
            None => None,
        }
    } else {
        None
    }
}

/// A part of an object or an array: where it and its value begin, and where both end.
pub struct Span {
    /// The name of a member; nothing for an item of an array.
    pub name: Seq<char>,
    pub start: int,
    pub value: int,
    pub end: int,
    /// The place behind it that holds no white space.
    pub next: int,
}

/// The member of an object, or the item of an array, that is written from a place on.
pub open spec fn span_at(bytes: Seq<u8>, at: int, in_object: bool) -> Option<Span> {
    let start = after_space(bytes, at);
    if !in_object {
        match value_end(bytes, start) {
            Some(end) => Some(
                Span {
                    name: Seq::empty(),
                    start,
                    value: start,
                    end,
                    next: after_space(bytes, end),
                },
            ),
            None => None,
        }
    } else if !holds(bytes, start, 34) {
        None
    } else {
        match value_end(bytes, start) {
            None => None,
            Some(name_end) => {
                let colon = after_space(bytes, name_end);
                let value = after_space(bytes, colon + 1);
                match (literal_text(bytes.subrange(start, name_end)), value_end(bytes, value)) {
                    (Some(name), Some(end)) => if holds(bytes, colon, 58) {
                        Some(Span { name, start, value, end, next: after_space(bytes, end) })
                    } else {
                        None
                    },
                    _ => None,
                }
            },
        }
    }
}

/// Where the value of the inbox identity begins and ends, among the parts of a state from a place
/// on, of which so many stand before it: under its name in an object, the third in an array.
pub open spec fn identity_span(bytes: Seq<u8>, at: int, in_object: bool, before: nat) -> Option<
    (int, int),
>
    decreases bytes.len() - at,
{
    match span_at(bytes, at, in_object) {
        None => None,
        Some(span) => if if in_object {
            span.name == "inboxIdentity"@
        } else {
            before == 2
        } {
            Some((span.value, span.end))
        } else if holds(bytes, span.next, 44) && at <= span.next {
            identity_span(bytes, span.next + 1, in_object, before + 1)
        } else {
            None
        },
    }
}

/// The members that an identity has, as far as they are not ignored.
pub open spec fn is_identity_name(name: Seq<char>) -> bool {
    name == "device"@ || name == "inode"@
}

/// Members with one more behind them.
pub open spec fn with_member(members: Seq<u8>, more: Seq<u8>) -> Seq<u8> {
    if members.len() == 0 {
        more
    } else {
        members.push(44) + more
    }
}

/// The members of an identity that are not ignored: those of an object from a place on, behind
/// others that were found before.
pub open spec fn kept_members(object: Seq<u8>, at: int, found: Seq<u8>) -> Option<Seq<u8>>
    decreases object.len() - at,
{
    match span_at(object, at, true) {
        None => None,
        Some(span) => {
            let kept = if is_identity_name(span.name) {
                with_member(found, object.subrange(span.start, span.end))
            } else {
                found
            };
            if holds(object, span.next, 44) && at <= span.next {
                kept_members(object, span.next + 1, kept)
            } else if holds(object, span.next, 125) {
                Some(kept)
            } else {
                None
            }
        },
    }
}

/// The text of a state file without the ignored members of its inbox identity, where it has an
/// identity that is an object.
pub open spec fn pruned(bytes: Seq<u8>) -> Option<Seq<u8>> {
    let start = after_space(bytes, 0);
    if !holds(bytes, start, 123) && !holds(bytes, start, 91) {
        None
    } else {
        match identity_span(bytes, start + 1, holds(bytes, start, 123), 0) {
            None => None,
            Some((value, end)) => if !holds(bytes, value, 123) {
                None
            } else {
                match kept_members(bytes.subrange(value, end), 1, Seq::empty()) {
                    Some(members) => Some(
                        bytes.take(value).push(123) + members.push(125) + bytes.skip(end),
                    ),
                    None => None,
                }
            },
        }
    }
}

/// The document that some bytes hold, where none of its objects repeats a member name.
pub open spec fn document_of(bytes: Seq<u8>) -> Option<JsonTree> {
    if valid_utf8(bytes) {
        parsed_without_repeats(decode_utf8(bytes))
    } else {
        None
    }
}

/// The document of a state file, apart from what is ignored in it.
pub open spec fn state_document(bytes: Seq<u8>) -> Option<JsonTree> {
    match document_of(bytes) {
        Some(json) => Some(json),
        None => match pruned(bytes) {
            Some(rest) => document_of(rest),
            None => None,
        },
    }
}

fn skip_space(bytes: &[u8], at: usize) -> (next: usize)
    requires
        at <= bytes@.len(),
    ensures
        next == after_space(bytes@, at as int),
        at <= next <= bytes@.len(),
{
    let mut next: usize = at;
    while next < bytes.len() && (bytes[next] == 32 || bytes[next] == 10 || bytes[next] == 9
        || bytes[next] == 13)
        invariant
            at <= next <= bytes@.len(),
            after_space(bytes@, at as int) == after_space(bytes@, next as int),
        decreases bytes@.len() - next,
    {
        next += 1;
    }
    next
}

fn check_holds(bytes: &[u8], at: usize, b: u8) -> (found: bool)
    ensures
        found == holds(bytes@, at as int, b),
        found ==> at < usize::MAX,
{
    at < bytes.len() && bytes[at] == b
}

fn find_value_end(bytes: &[u8], at: usize) -> (end: Option<usize>)
    requires
        at <= bytes@.len(),
    ensures
        end is Some <==> value_end(bytes@, at as int) is Some,
        end matches Some(e) ==> value_end(bytes@, at as int) == Some(e as int) && at <= e
            <= bytes@.len(),
{
    let rest = slice_subrange(bytes, at, bytes.len());
    assert(rest@ =~= bytes@.skip(at as int));
    match measure_value(rest) {
        Some(n) => Some(at + n),
        None => None,
    }
}

fn read_literal(bytes: &[u8]) -> (text: Option<String>)
    ensures
        text is Some <==> literal_text(bytes@) is Some,
        text matches Some(t) ==> literal_text(bytes@) == Some(t@),
{
    match core::str::from_utf8(bytes) {
        Ok(literal) => match parse_json(literal) {
            Some(Json::Text(text)) => Some(text),
            _ => None,
        },
        Err(_) => None,
    }
}

/// A part of an object or an array as it was found.
struct FoundSpan {
    name: String,
    start: usize,
    value: usize,
    end: usize,
    next: usize,
}

impl FoundSpan {
    spec fn span(&self) -> Span {
        Span {
            name: self.name@,
            start: self.start as int,
            value: self.value as int,
            end: self.end as int,
            next: self.next as int,
        }
    }
}

fn read_span(bytes: &[u8], at: usize, in_object: bool) -> (found: Option<FoundSpan>)
    requires
        at <= bytes@.len(),
    ensures
        found is Some <==> span_at(bytes@, at as int, in_object) is Some,
        found matches Some(f) ==> span_at(bytes@, at as int, in_object) == Some(f.span()) && at
            <= f.start <= f.value <= f.end <= f.next <= bytes@.len(),
{
    let start = skip_space(bytes, at);
    if !in_object {
        return match find_value_end(bytes, start) {
            Some(end) => {
                let next = skip_space(bytes, end);
                let name = String::new();
                assert(name@ =~= Seq::<char>::empty());
                Some(FoundSpan { name, start, value: start, end, next })
            },
            None => None,
        };
    }
    if !check_holds(bytes, start, 34) {
        return None;
    }
    let name_end: usize = match find_value_end(bytes, start) {
        Some(end) => end,
        None => {
            return None;
        },
    };
    let colon = skip_space(bytes, name_end);
    if !check_holds(bytes, colon, 58) {
        return None;
    }
    let value = skip_space(bytes, colon + 1);
    let name = match read_literal(slice_subrange(bytes, start, name_end)) {
        Some(name) => name,
        None => {
            return None;
        },
    };
    match find_value_end(bytes, value) {
        Some(end) => {
            let next = skip_space(bytes, end);
            Some(FoundSpan { name, start, value, end, next })
        },
        None => None,
    }
}

fn find_identity(bytes: &[u8], from: usize, in_object: bool) -> (span: Option<(usize, usize)>)
    requires
        from <= bytes@.len(),
    ensures
        match span {
            Some((value, end)) => identity_span(bytes@, from as int, in_object, 0) == Some(
                (value as int, end as int),
            ) && value <= end <= bytes@.len(),
            None => identity_span(bytes@, from as int, in_object, 0) is None,
        },
{
    let mut at: usize = from;
    let mut before: usize = 0;
    loop
        invariant
            at <= bytes@.len(),
            before <= at,
            identity_span(bytes@, from as int, in_object, 0) == identity_span(
                bytes@,
                at as int,
                in_object,
                before as nat,
            ),
        decreases bytes@.len() - at,
    {
        match read_span(bytes, at, in_object) {
            None => {
                return None;
            },
            Some(found) => {
                let is_identity = if in_object {
                    same_text(found.name.as_str(), "inboxIdentity")
                } else {
                    before == 2
                };
                if is_identity {
                    return Some((found.value, found.end));
                }
                if !check_holds(bytes, found.next, 44) {
                    return None;
                }
                at = found.next + 1;
                before += 1;
            },
        }
    }
}

fn keep_members(object: &[u8]) -> (members: Option<Vec<u8>>)
    requires
        object@.len() >= 1,
    ensures
        match members {
            Some(m) => kept_members(object@, 1, Seq::empty()) == Some(m@),
            None => kept_members(object@, 1, Seq::empty()) is None,
        },
{
    let mut at: usize = 1;
    let mut kept: Vec<u8> = Vec::new();
    assert(kept@ =~= Seq::<u8>::empty());
    loop
        invariant
            at <= object@.len(),
            kept_members(object@, 1, Seq::empty()) == kept_members(object@, at as int, kept@),
        decreases object@.len() - at,
    {
        match read_span(object, at, true) {
            None => {
                return None;
            },
            Some(found) => {
                let ghost before = kept@;
                if same_text(found.name.as_str(), "device") || same_text(
                    found.name.as_str(),
                    "inode",
                ) {
                    if kept.len() > 0 {
                        kept.push(44);
                    }
                    kept.extend_from_slice(slice_subrange(object, found.start, found.end));
                    assert(kept@ =~= with_member(
                        before,
                        object@.subrange(found.start as int, found.end as int),
                    ));
                }
                if check_holds(object, found.next, 44) {
                    at = found.next + 1;
                } else if check_holds(object, found.next, 125) {
                    return Some(kept);
                } else {
                    return None;
                }
            },
        }
    }
}

fn prune(bytes: &[u8]) -> (rest: Option<Vec<u8>>)
    ensures
        match rest {
            Some(r) => pruned(bytes@) == Some(r@),
            None => pruned(bytes@) is None,
        },
{
    let start = skip_space(bytes, 0);
    let in_object = check_holds(bytes, start, 123);
    if !in_object && !check_holds(bytes, start, 91) {
        return None;
    }
    let (value, end): (usize, usize) = match find_identity(bytes, start + 1, in_object) {
        Some(span) => span,
        None => {
            return None;
        },
    };
    if !check_holds(bytes, value, 123) || value >= end {
        proof {
            if holds(bytes@, value as int, 123) {
                assert(bytes@.subrange(value as int, end as int).len() == 0);
                lemma_nothing_kept(bytes@.subrange(value as int, end as int));
            }
        }
        return None;
    }
    match keep_members(slice_subrange(bytes, value, end)) {
        Some(members) => {
            let mut rest = bytes_copy(slice_subrange(bytes, 0, value));
            rest.push(123);
            rest.extend_from_slice(members.as_slice());
            rest.push(125);
            rest.extend_from_slice(slice_subrange(bytes, end, bytes.len()));
            assert(rest@ =~= bytes@.take(value as int).push(123) + members@.push(125)
                + bytes@.skip(end as int));
            Some(rest)
        },
        None => None,
    }
}

/// There are no members where there is no text.
proof fn lemma_nothing_kept(object: Seq<u8>)
    requires
        object.len() == 0,
    ensures
        kept_members(object, 1, Seq::empty()) is None,
{
}

fn read_document(bytes: &[u8]) -> (document: Option<Json>)
    ensures
        document is Some <==> document_of(bytes@) is Some,
        document matches Some(json) ==> document_of(bytes@) == Some(json@),
{
    match core::str::from_utf8(bytes) {
        Ok(text) => parse_without_repeats(text),
        Err(_) => None,
    }
}

/// Reads the document of a state file, apart from what is ignored in it.
pub fn read_state_document(bytes: &[u8]) -> (document: Option<Json>)
    ensures
        document is Some <==> state_document(bytes@) is Some,
        document matches Some(json) ==> state_document(bytes@) == Some(json@),
{
    match read_document(bytes) {
        Some(json) => Some(json),
        None => match prune(bytes) {
            Some(rest) => read_document(rest.as_slice()),
            None => None,
        },
    }
}

} // verus!
