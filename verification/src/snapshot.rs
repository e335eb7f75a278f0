//! What published snapshots have in common: the process that they name, the temporary name that
//! they are written under, and the pieces that their text is made of.

use vstd::prelude::*;
use vstd::slice::*;
use vstd::string::*;

use crate::json::{
    comma_joined, join_commas, json_literal, optional_member, push_member, text_views,
    write_json_literal,
};
use crate::text::{
    chars_of, decimal, digits_up_to, optional_view, read_digits, signed_decimal,
    unicode_white_space, write_decimal, write_signed_decimal,
};

verus! {

/// The process that publishes.
#[derive(Clone, Copy, Debug, PartialEq, Eq, Structural)]
pub struct ProcessIdentity {
    pub pid: u32,
    pub linux_start_ticks: Option<u64>,
}

/// A snapshot to be published: written under a temporary name first, then put in its place.
#[derive(Debug, PartialEq, Eq)]
pub struct Publication {
    pub temporary_name: String,
    pub contents: String,
}

/// The name under which a snapshot is written first.
pub open spec fn temporary_name(file_name: Seq<char>, pid: u32, sequence: u64) -> Seq<char> {
    "."@ + file_name + "."@ + decimal(pid as nat) + "."@ + decimal(sequence as nat) + ".tmp"@
}

/// Writes the name under which a snapshot is written first.
pub fn write_temporary_name(file_name: &str, pid: u32, sequence: u64) -> (name: String)
    ensures
        name@ == temporary_name(file_name@, pid, sequence),
{
    let mut name = ".".to_owned();
    name.append(file_name);
    name.append(".");
    name.append(write_decimal(pid as u64).as_str());
    name.append(".");
    name.append(write_decimal(sequence).as_str());
    name.append(".tmp");
    name
}

/// A name in quotes.
pub open spec fn quoted(name: Seq<char>) -> Seq<char> {
    "\""@ + name + "\""@
}

/// Puts a name in quotes.
pub fn quote(name: &str) -> (text: String)
    ensures
        text@ == quoted(name@),
{
    let mut text = "\"".to_owned();
    text.append(name);
    text.append("\"");
    text
}

/// An object of members that are already written.
pub open spec fn braced(members: Seq<Seq<char>>) -> Seq<char> {
    "{"@ + comma_joined(members) + "}"@
}

/// Writes an object of members that are already written.
pub fn brace(members: &Vec<String>) -> (text: String)
    ensures
        text@ == braced(text_views(members@)),
{
    let mut text = "{".to_owned();
    text.append(join_commas(members).as_str());
    text.append("}");
    text
}

/// The numeral of an optional number.
pub open spec fn optional_decimal(n: Option<nat>) -> Option<Seq<char>> {
    match n {
        Some(v) => Some(decimal(v)),
        None => None,
    }
}

/// A number without its width.
pub open spec fn wide_number(n: Option<u64>) -> Option<nat> {
    match n {
        Some(v) => Some(v as nat),
        None => None,
    }
}

/// The name of an optional truth value.
pub open spec fn optional_truth(b: Option<bool>) -> Option<Seq<char>> {
    match b {
        Some(true) => Some("true"@),
        Some(false) => Some("false"@),
        None => None,
    }
}

/// What is published of the process.
pub open spec fn process_json(process: ProcessIdentity) -> Seq<char> {
    braced(
        seq!["\"pid\":"@ + decimal(process.pid as nat)] + optional_member(
            "\"linux_start_ticks\":"@,
            optional_decimal(wide_number(process.linux_start_ticks)),
        ),
    )
}

/// Writes an optional number.
pub fn write_optional(n: Option<u64>) -> (text: Option<String>)
    ensures
        optional_view(text) == optional_decimal(wide_number(n)),
{
    match n {
        Some(v) => Some(write_decimal(v)),
        None => None,
    }
}

/// Writes what is published of the process.
pub fn write_process(process: &ProcessIdentity) -> (text: String)
    ensures
        text@ == process_json(*process),
{
    let mut members: Vec<String> = Vec::new();
    push_member(&mut members, "\"pid\":", Some(write_decimal(process.pid as u64)));
    push_member(
        &mut members,
        "\"linux_start_ticks\":",
        write_optional(process.linux_start_ticks),
    );
    assert(text_views(members@) =~= seq!["\"pid\":"@ + decimal(process.pid as nat)]
        + optional_member(
        "\"linux_start_ticks\":"@,
        optional_decimal(wide_number(process.linux_start_ticks)),
    ));
    brace(&members)
}

/// The numeral of an optional number with a sign.
pub open spec fn optional_signed_decimal(n: Option<i64>) -> Option<Seq<char>> {
    match n {
        Some(v) => Some(signed_decimal(v as int)),
        None => None,
    }
}

/// The literal of an optional text.
pub open spec fn optional_literal(text: Option<Seq<char>>) -> Option<Seq<char>> {
    match text {
        Some(t) => Some(json_literal(t)),
        None => None,
    }
}

/// The word for a truth value.
pub open spec fn truth_word(b: bool) -> Seq<char> {
    if b {
        "true"@
    } else {
        "false"@
    }
}

/// What stands for an optional value: `null` where there is none.
pub open spec fn or_null(value: Option<Seq<char>>) -> Seq<char> {
    match value {
        Some(v) => v,
        None => "null"@,
    }
}

/// Writes an optional number with a sign.
pub fn write_optional_signed(n: Option<i64>) -> (text: Option<String>)
    ensures
        optional_view(text) == optional_signed_decimal(n),
{
    match n {
        Some(v) => Some(write_signed_decimal(v)),
        None => None,
    }
}

/// Writes the literal of an optional text.
pub fn write_optional_literal(text: &Option<String>) -> (literal: Option<String>)
    ensures
        optional_view(literal) == optional_literal(optional_view(*text)),
{
    match text {
        Some(t) => Some(write_json_literal(t.as_str())),
        None => None,
    }
}

/// Writes the word for a truth value.
pub fn write_truth(b: bool) -> (word: String)
    ensures
        word@ == truth_word(b),
{
    if b {
        "true".to_owned()
    } else {
        "false".to_owned()
    }
}

/// Writes what stands for an optional value.
pub fn write_or_null(value: Option<String>) -> (text: String)
    ensures
        text@ == or_null(optional_view(value)),
{
    match value {
        Some(v) => v,
        None => "null".to_owned(),
    }
}

/// The words of a text: its runs of characters that are no white space.
pub open spec fn words(text: Seq<char>) -> Seq<Seq<char>>
    decreases text.len(),
{
    if text.len() == 0 {
        Seq::empty()
    } else {
        let before = words(text.drop_last());
        let c = text.last();
        if unicode_white_space(c) {
            before
        } else if text.len() > 1 && !unicode_white_space(text[text.len() - 2]) {
            before.drop_last().push(before.last().push(c))
        } else {
            before.push(seq![c])
        }
    }
}

/// What stands behind the last closing parenthesis.
pub open spec fn behind_parenthesis(text: Seq<char>) -> Option<Seq<char>>
    decreases text.len(),
{
    if text.len() == 0 {
        None
    } else if text.last() == ')' {
        Some(Seq::empty())
    } else {
        match behind_parenthesis(text.drop_last()) {
            Some(rest) => Some(rest.push(text.last())),
            None => None,
        }
    }
}

/// The number that a text is: digits, with a plus sign before them or not.
pub open spec fn unsigned_number(text: Seq<char>) -> Option<nat> {
    if text.len() > 0 && text[0] == '+' {
        digits_up_to(text.drop_first(), u64::MAX as nat)
    } else {
        digits_up_to(text, u64::MAX as nat)
    }
}

/// When a process started, as its status line says: the twentieth word behind its name.
pub open spec fn start_ticks_of(stat: Seq<char>) -> Option<nat> {
    match behind_parenthesis(stat) {
        Some(rest) => if words(rest).len() > 19 {
            unsigned_number(words(rest)[19])
        } else {
            None
        },
        None => None,
    }
}

/// The characters of each word.
pub open spec fn word_views(all: Seq<Vec<char>>) -> Seq<Seq<char>> {
    Seq::new(all.len(), |i: int| all[i]@)
}

proof fn lemma_words_end(text: Seq<char>)
    ensures
        text.len() > 0 && !unicode_white_space(text.last()) ==> words(text).len() > 0,
{
}

fn split_words(chars: &[char]) -> (all: Vec<Vec<char>>)
    ensures
        word_views(all@) == words(chars@),
{
    let mut all: Vec<Vec<char>> = Vec::new();
    let mut i: usize = 0;
    assert(chars@.take(0) =~= Seq::<char>::empty());
    assert(word_views(all@) =~= Seq::<Seq<char>>::empty());
    while i < chars.len()
        invariant
            i <= chars@.len(),
            word_views(all@) == words(chars@.take(i as int)),
        decreases chars@.len() - i,
    {
        let c = chars[i];
        let ghost before = all@;
        proof {
            assert(chars@.take(i + 1).drop_last() =~= chars@.take(i as int));
            lemma_words_end(chars@.take(i as int));
        }
        if !c.is_whitespace() {
            if i > 0 && !chars[i - 1].is_whitespace() {
                assert(chars@.take(i as int).last() == chars@[i - 1]);
                assert(all@.len() > 0);
                if let Some(mut word) = all.pop() {
                    let ghost start = word@;
                    word.push(c);
                    all.push(word);
                    assert(word_views(all@) =~= word_views(before).drop_last().push(start.push(c)));
                }
            } else {
                let mut word: Vec<char> = Vec::new();
                word.push(c);
                assert(word@ =~= seq![c]);
                all.push(word);
                assert(word_views(all@) =~= word_views(before).push(seq![c]));
            }
        }
        i += 1;
    }
    assert(chars@.take(i as int) =~= chars@);
    all
}

fn find_parenthesis(chars: &[char]) -> (after: Option<usize>)
    ensures
        match after {
            Some(k) => k <= chars@.len() && behind_parenthesis(chars@) == Some(
                chars@.skip(k as int),
            ),
            None => behind_parenthesis(chars@) is None,
        },
{
    let mut i: usize = chars.len();
    assert(chars@.take(i as int) =~= chars@);
    assert(chars@.skip(i as int) =~= Seq::<char>::empty());
    while i > 0
        invariant
            i <= chars@.len(),
            behind_parenthesis(chars@) == match behind_parenthesis(chars@.take(i as int)) {
                Some(rest) => Some(rest + chars@.skip(i as int)),
                None => None,
            },
        decreases i,
    {
        proof {
            let head = chars@.take(i as int);
            assert(head.drop_last() =~= chars@.take(i - 1));
            assert(Seq::<char>::empty() + chars@.skip(i as int) =~= chars@.skip(i as int));
            match behind_parenthesis(chars@.take(i - 1)) {
                Some(rest) => {
                    assert(rest.push(chars@[i - 1]) + chars@.skip(i as int) =~= rest + chars@.skip(
                        i - 1,
                    ));
                },
                None => {},
            }
        }
        if chars[i - 1] == ')' {
            return Some(i);
        }
        i -= 1;
    }
    None
}

fn read_unsigned(word: &[char]) -> (n: Option<u64>)
    ensures
        n is Some <==> unsigned_number(word@) is Some,
        n matches Some(v) ==> unsigned_number(word@) == Some(v as nat),
{
    if word.len() > 0 && word[0] == '+' {
        let rest = slice_subrange(word, 1, word.len());
        assert(rest@ =~= word@.drop_first());
        read_digits(rest, u64::MAX)
    } else {
        read_digits(word, u64::MAX)
    }
}

/// Reads out of the status line of a process when it started.
pub fn process_start_ticks(stat: &str) -> (ticks: Option<u64>)
    ensures
        ticks is Some <==> start_ticks_of(stat@) is Some,
        ticks matches Some(t) ==> start_ticks_of(stat@) == Some(t as nat),
{
    let chars = chars_of(stat);
    match find_parenthesis(chars.as_slice()) {
        Some(after) => {
            let rest = slice_subrange(chars.as_slice(), after, chars.len());
            assert(rest@ =~= chars@.skip(after as int));
            let all = split_words(rest);
            if all.len() > 19 {
                assert(words(rest@)[19] == all@[19]@);
                read_unsigned(all[19].as_slice())
            } else {
                None
            }
        },
        None => None,
    }
}

} // verus!
