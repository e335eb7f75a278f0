//! How what is written can be read back: the literals and lists of JSON texts, and where the parts
//! of a text stand in it.

use vstd::prelude::*;
use vstd::string::*;
use vstd::utf8::*;

use crate::json::{comma_joined, escaped, escaped_char, hex_digit, json_literal};
use crate::text::lemma_bytes_of_join;

verus! {

/// A part stands at a place in a whole.
pub open spec fn stands_at<A>(part: Seq<A>, whole: Seq<A>, k: int) -> bool {
    0 <= k && k + part.len() <= whole.len() && whole.subrange(k, k + part.len()) == part
}

/// A part stands somewhere in a whole.
pub open spec fn stands_in<A>(part: Seq<A>, whole: Seq<A>) -> bool {
    exists|k: int| stands_at(part, whole, k)
}

pub proof fn lemma_stands_between<A>(left: Seq<A>, part: Seq<A>, right: Seq<A>)
    ensures
        stands_in(part, left + part + right),
{
    let whole = left + part + right;
    assert(whole.subrange(left.len() as int, (left.len() + part.len()) as int) =~= part);
    assert(stands_at(part, whole, left.len() as int));
}

pub proof fn lemma_stands_within<A>(part: Seq<A>, middle: Seq<A>, whole: Seq<A>)
    requires
        stands_in(part, middle),
        stands_in(middle, whole),
    ensures
        stands_in(part, whole),
{
    let j = choose|j: int| stands_at(part, middle, j);
    let k = choose|k: int| stands_at(middle, whole, k);
    let at = j + k;
    assert(whole.subrange(at, at + part.len()) =~= middle.subrange(j, j + part.len())) by {
        let found = whole.subrange(at, at + part.len());
        let meant = middle.subrange(j, j + part.len());
        assert forall|i: int| 0 <= i < part.len() implies #[trigger] found[i] == meant[i] by {
            assert(whole.subrange(k, k + middle.len())[j + i] == whole[k + j + i]);
        }
    }
    assert(stands_at(part, whole, at));
}

pub proof fn lemma_bytes_stand_in(part: Seq<char>, whole: Seq<char>)
    requires
        stands_in(part, whole),
    ensures
        stands_in(encode_utf8(part), encode_utf8(whole)),
{
    let k = choose|k: int| stands_at(part, whole, k);
    let left = whole.take(k);
    let right = whole.skip(k + part.len());
    assert(whole =~= left + part + right);
    lemma_bytes_of_join(left + part, right);
    lemma_bytes_of_join(left, part);
    lemma_stands_between(encode_utf8(left), encode_utf8(part), encode_utf8(right));
}

/// Every part stands in what is joined by commas.
pub proof fn lemma_part_stands_in_join(parts: Seq<Seq<char>>, i: int)
    requires
        0 <= i < parts.len(),
    ensures
        stands_in(parts[i], comma_joined(parts)),
    decreases parts.len(),
{
    let all = comma_joined(parts);
    if parts.len() == 1 {
        assert(all =~= Seq::<char>::empty() + parts[i] + Seq::<char>::empty());
        lemma_stands_between(Seq::<char>::empty(), parts[i], Seq::<char>::empty());
    } else {
        let before = comma_joined(parts.drop_last());
        if i == parts.len() - 1 {
            assert(all =~= (before + ","@) + parts[i] + Seq::<char>::empty());
            lemma_stands_between(before + ","@, parts[i], Seq::<char>::empty());
        } else {
            lemma_part_stands_in_join(parts.drop_last(), i);
            assert(all =~= Seq::<char>::empty() + before + (","@ + parts.last()));
            lemma_stands_between(Seq::<char>::empty(), before, ","@ + parts.last());
            lemma_stands_within(parts[i], before, all);
        }
    }
}

/// The value of a hexadecimal digit.
pub open spec fn hex_value(c: char) -> int {
    if '0' <= c <= '9' {
        c as int - 48
    } else if 'a' <= c <= 'f' {
        c as int - 87
    } else {
        c as int - 55
    }
}

/// The character that the inside of a literal begins with, and in how many characters it is told.
pub open spec fn told_char(inside: Seq<char>) -> (char, int) {
    if inside[0] != '\\' {
        (inside[0], 1)
    } else if inside[1] == 'n' {
        ('\n', 2)
    } else if inside[1] == 'r' {
        ('\r', 2)
    } else if inside[1] == 't' {
        ('\t', 2)
    } else if inside[1] == 'b' {
        ('\x08', 2)
    } else if inside[1] == 'f' {
        ('\x0c', 2)
    } else if inside[1] == 'u' {
        (
            (hex_value(inside[2]) * 4096 + hex_value(inside[3]) * 256 + hex_value(inside[4]) * 16
                + hex_value(inside[5])) as char,
            6,
        )
    } else {
        (inside[1], 2)
    }
}

/// The text that the inside of a literal tells up to its closing quote, and what follows from that
/// quote on.
pub open spec fn told_text(inside: Seq<char>) -> (Seq<char>, Seq<char>)
    decreases inside.len(),
{
    if inside.len() == 0 || inside[0] == '"' {
        (Seq::empty(), inside)
    } else {
        let (c, n) = told_char(inside);
        if n > inside.len() {
            (Seq::empty(), inside)
        } else {
            let (more, rest) = told_text(inside.skip(n));
            (seq![c] + more, rest)
        }
    }
}

/// The text that a string literal tells, and what follows it.
pub open spec fn read_literal(text: Seq<char>) -> Option<(Seq<char>, Seq<char>)> {
    if text.len() == 0 || text[0] != '"' {
        None
    } else {
        let (told, rest) = told_text(text.skip(1));
        if rest.len() == 0 {
            None
        } else {
            Some((told, rest.skip(1)))
        }
    }
}

proof fn lemma_char_is_told(c: char, rest: Seq<char>)
    ensures
        escaped_char(c).len() > 0,
        escaped_char(c)[0] != '"',
        told_char(escaped_char(c) + rest) == (c, escaped_char(c).len() as int),
{
    let all = escaped_char(c) + rest;
    let n = c as int;
    assert(all[0] == escaped_char(c)[0]);
    if escaped_char(c).len() >= 2 {
        assert(all[1] == escaped_char(c)[1]);
    }
    if escaped_char(c).len() == 6 {
        assert(all[2] == '0' && all[3] == '0');
        assert(all[4] == hex_digit(n / 16) && all[5] == hex_digit(n % 16));
        assert(0 <= n < 32);
        assert(hex_value(hex_digit(n / 16)) == n / 16);
        assert(hex_value(hex_digit(n % 16)) == n % 16);
    }
}

proof fn lemma_escaped_from_the_front(text: Seq<char>)
    requires
        text.len() > 0,
    ensures
        escaped(text) == escaped_char(text[0]) + escaped(text.drop_first()),
    decreases text.len(),
{
    if text.len() == 1 {
        assert(text.drop_last() =~= Seq::<char>::empty());
        assert(text.drop_first() =~= Seq::<char>::empty());
        assert(escaped(text) =~= escaped_char(text[0]) + escaped(text.drop_first()));
    } else {
        lemma_escaped_from_the_front(text.drop_last());
        assert(text.drop_last().drop_first() =~= text.drop_first().drop_last());
        assert(escaped(text) =~= escaped_char(text[0]) + escaped(text.drop_first()));
    }
}

proof fn lemma_text_is_told(text: Seq<char>, rest: Seq<char>)
    requires
        rest.len() > 0,
        rest[0] == '"',
    ensures
        told_text(escaped(text) + rest) == (text, rest),
    decreases text.len(),
{
    let inside = escaped(text) + rest;
    if text.len() == 0 {
        assert(inside =~= rest);
        assert(text =~= Seq::<char>::empty());
    } else {
        let first = escaped_char(text[0]);
        let others = text.drop_first();
        lemma_escaped_from_the_front(text);
        lemma_char_is_told(text[0], escaped(others) + rest);
        assert(inside =~= first + (escaped(others) + rest));
        assert(inside[0] == first[0]);
        assert(inside.skip(first.len() as int) =~= escaped(others) + rest);
        lemma_text_is_told(others, rest);
        assert(seq![text[0]] + others =~= text);
    }
}

/// A literal that is followed by anything is read back as the text that it was written for, with
/// what follows it left over.
pub proof fn law_literals_are_read_back(text: Seq<char>, rest: Seq<char>)
    ensures
        read_literal(json_literal(text) + rest) == Some((text, rest)),
{
    reveal_strlit("\"");
    let all = json_literal(text) + rest;
    assert(all.skip(1) =~= escaped(text) + ("\""@ + rest));
    lemma_text_is_told(text, "\""@ + rest);
    assert(("\""@ + rest).skip(1) =~= rest);
}

/// No two texts have the same literal.
pub proof fn law_literals_tell_texts_apart(left: Seq<char>, right: Seq<char>)
    requires
        json_literal(left) == json_literal(right),
    ensures
        left == right,
{
    law_literals_are_read_back(left, Seq::empty());
    law_literals_are_read_back(right, Seq::empty());
}

/// A literal holds no control character, so that it stays on its line.
pub proof fn law_literals_stay_on_their_line(text: Seq<char>)
    ensures
        forall|i: int|
            0 <= i < json_literal(text).len() ==> (#[trigger] json_literal(text)[i]) as int >= 32,
{
    reveal_strlit("\"");
    lemma_escapes_stay_on_their_line(text);
}

proof fn lemma_escape_stays_on_its_line(c: char)
    ensures
        forall|i: int|
            0 <= i < escaped_char(c).len() ==> (#[trigger] escaped_char(c)[i]) as int >= 32,
{
    let n = c as int;
    if n < 32 {
        assert(hex_digit(n / 16) as int >= 32);
        assert(hex_digit(n % 16) as int >= 32);
    }
}

proof fn lemma_escapes_stay_on_their_line(text: Seq<char>)
    ensures
        forall|i: int| 0 <= i < escaped(text).len() ==> (#[trigger] escaped(text)[i]) as int >= 32,
    decreases text.len(),
{
    if text.len() > 0 {
        let before = escaped(text.drop_last());
        let last = escaped_char(text.last());
        lemma_escapes_stay_on_their_line(text.drop_last());
        lemma_escape_stays_on_its_line(text.last());
        assert forall|i: int| 0 <= i < escaped(text).len() implies (
        #[trigger] escaped(text)[i]) as int >= 32 by {
            if i < before.len() {
                assert(escaped(text)[i] == before[i]);
            } else {
                assert(escaped(text)[i] == last[i - before.len()]);
            }
        }
    }
}

/// The texts that literals separated by commas tell up to a closing bracket, and what follows it.
pub open spec fn read_items(text: Seq<char>) -> Option<(Seq<Seq<char>>, Seq<char>)>
    decreases text.len(),
{
    match read_literal(text) {
        None => None,
        Some((first, rest)) => if rest.len() == 0 || rest.len() >= text.len() {
            None
        } else if rest[0] == ']' {
            Some((seq![first], rest.skip(1)))
        } else if rest[0] == ',' {
            match read_items(rest.skip(1)) {
                Some((more, rest)) => Some((seq![first] + more, rest)),
                None => None,
            }
        } else {
            None
        },
    }
}

/// The texts that a list of literals tells, and what follows it.
pub open spec fn read_list(text: Seq<char>) -> Option<(Seq<Seq<char>>, Seq<char>)> {
    if text.len() < 2 || text[0] != '[' {
        None
    } else if text[1] == ']' {
        Some((Seq::empty(), text.skip(2)))
    } else {
        read_items(text.skip(1))
    }
}

/// What is joined by commas, from the front.
pub proof fn lemma_joined_from_the_front(parts: Seq<Seq<char>>)
    requires
        parts.len() > 1,
    ensures
        comma_joined(parts) == parts[0] + ","@ + comma_joined(parts.drop_first()),
    decreases parts.len(),
{
    if parts.len() == 2 {
        assert(parts.drop_last() =~= seq![parts[0]]);
        assert(parts.drop_first() =~= seq![parts[1]]);
        assert(comma_joined(seq![parts[0]]) == parts[0]);
        assert(comma_joined(seq![parts[1]]) == parts[1]);
    } else {
        lemma_joined_from_the_front(parts.drop_last());
        assert(parts.drop_last().drop_first() =~= parts.drop_first().drop_last());
        assert(comma_joined(parts) =~= parts[0] + ","@ + comma_joined(parts.drop_first()));
    }
}

proof fn lemma_items_are_read_back(texts: Seq<Seq<char>>, parts: Seq<Seq<char>>, rest: Seq<char>)
    requires
        texts.len() > 0,
        parts.len() == texts.len(),
        forall|i: int| 0 <= i < parts.len() ==> #[trigger] parts[i] == json_literal(texts[i]),
    ensures
        read_items(comma_joined(parts) + seq![']'] + rest) == Some((texts, rest)),
    decreases texts.len(),
{
    reveal_strlit("\"");
    reveal_strlit(",");
    let all = comma_joined(parts) + seq![']'] + rest;
    let first = json_literal(texts[0]);
    assert(parts[0] == first);
    assert(first.len() >= 2);
    if texts.len() == 1 {
        let after = seq![']'] + rest;
        assert(all =~= first + after);
        law_literals_are_read_back(texts[0], after);
        assert(after.skip(1) =~= rest);
        assert(seq![texts[0]] =~= texts);
    } else {
        let later = parts.drop_first();
        let inner = comma_joined(later) + seq![']'] + rest;
        let after = ","@ + inner;
        lemma_joined_from_the_front(parts);
        assert(all =~= first + after);
        law_literals_are_read_back(texts[0], after);
        assert(after.skip(1) =~= inner);
        lemma_items_are_read_back(texts.drop_first(), later, rest);
        assert(seq![texts[0]] + texts.drop_first() =~= texts);
    }
}

/// A bracketed list of literals is read back as the texts that they were written for, each at its
/// place, with what follows the list left over.
pub proof fn lemma_list_is_read_back(
    texts: Seq<Seq<char>>,
    parts: Seq<Seq<char>>,
    rest: Seq<char>,
)
    requires
        parts.len() == texts.len(),
        forall|i: int| 0 <= i < parts.len() ==> #[trigger] parts[i] == json_literal(texts[i]),
    ensures
        read_list("["@ + comma_joined(parts) + "]"@ + rest) == Some((texts, rest)),
{
    reveal_strlit("[");
    reveal_strlit("]");
    reveal_strlit("\"");
    let all = "["@ + comma_joined(parts) + "]"@ + rest;
    assert("]"@ =~= seq![']']);
    if texts.len() == 0 {
        assert(all.skip(2) =~= rest);
        assert(texts =~= Seq::<Seq<char>>::empty());
    } else {
        let inner = comma_joined(parts) + seq![']'] + rest;
        assert(all.skip(1) =~= inner);
        lemma_items_are_read_back(texts, parts, rest);
        assert(inner[0] == '"') by {
            assert(parts[0] == json_literal(texts[0]));
            if texts.len() > 1 {
                lemma_joined_from_the_front(parts);
            }
        }
        assert(all[1] == inner[0]);
    }
}

/// What a value tells: a text, or a list of texts.
pub enum Told {
    Text { text: Seq<char> },
    List { texts: Seq<Seq<char>> },
}

/// What a value tells, and what follows it.
pub open spec fn read_value(text: Seq<char>) -> Option<(Told, Seq<char>)> {
    if text.len() > 0 && text[0] == '[' {
        match read_list(text) {
            Some((texts, rest)) => Some((Told::List { texts }, rest)),
            None => None,
        }
    } else {
        match read_literal(text) {
            Some((text, rest)) => Some((Told::Text { text }, rest)),
            None => None,
        }
    }
}

/// The named values that members separated by commas tell up to a closing brace, and what follows
/// it.
pub open spec fn read_members(text: Seq<char>) -> Option<(Seq<(Seq<char>, Told)>, Seq<char>)>
    decreases text.len(),
{
    match read_literal(text) {
        None => None,
        Some((name, after)) => if after.len() == 0 || after[0] != ':' {
            None
        } else {
            match read_value(after.skip(1)) {
                None => None,
                Some((value, rest)) => if rest.len() == 0 || rest.len() >= text.len() {
                    None
                } else if rest[0] == '}' {
                    Some((seq![(name, value)], rest.skip(1)))
                } else if rest[0] == ',' {
                    match read_members(rest.skip(1)) {
                        Some((more, rest)) => Some((seq![(name, value)] + more, rest)),
                        None => None,
                    }
                } else {
                    None
                },
            }
        },
    }
}

/// The named values that an object tells, and what follows it.
pub open spec fn read_object(text: Seq<char>) -> Option<(Seq<(Seq<char>, Told)>, Seq<char>)> {
    if text.len() < 2 || text[0] != '{' {
        None
    } else if text[1] == '}' {
        Some((Seq::empty(), text.skip(2)))
    } else {
        read_members(text.skip(1))
    }
}

/// A list of texts as it is written.
pub open spec fn list_text(texts: Seq<Seq<char>>) -> Seq<char> {
    "["@ + comma_joined(Seq::new(texts.len(), |i: int| json_literal(texts[i]))) + "]"@
}

/// How a value is written.
pub open spec fn value_text(value: Told) -> Seq<char> {
    match value {
        Told::Text { text } => json_literal(text),
        Told::List { texts } => list_text(texts),
    }
}

proof fn lemma_value_is_read_back(value: Told, rest: Seq<char>)
    ensures
        read_value(value_text(value) + rest) == Some((value, rest)),
        value_text(value).len() >= 2,
{
    reveal_strlit("[");
    reveal_strlit("]");
    reveal_strlit("\"");
    match value {
        Told::Text { text } => {
            law_literals_are_read_back(text, rest);
        },
        Told::List { texts } => {
            let parts = Seq::new(texts.len(), |i: int| json_literal(texts[i]));
            lemma_list_is_read_back(texts, parts, rest);
        },
    }
}

proof fn lemma_member_is_read_back(name: Seq<char>, value: Told, end: Seq<char>)
    ensures
        ({
            let all = json_literal(name) + seq![':'] + value_text(value) + end;
            let after = seq![':'] + (value_text(value) + end);
            &&& read_literal(all) == Some((name, after))
            &&& read_value(after.skip(1)) == Some((value, end))
            &&& end.len() < all.len()
        }),
{
    let all = json_literal(name) + seq![':'] + value_text(value) + end;
    let after = seq![':'] + (value_text(value) + end);
    assert(all =~= json_literal(name) + after);
    law_literals_are_read_back(name, after);
    assert(after.skip(1) =~= value_text(value) + end);
    lemma_value_is_read_back(value, end);
}

#[verifier::spinoff_prover]
#[verifier::rlimit(40)]
pub proof fn lemma_members_are_read_back(
    parts: Seq<Seq<char>>,
    members: Seq<(Seq<char>, Told)>,
    rest: Seq<char>,
)
    requires
        members.len() > 0,
        parts.len() == members.len(),
        forall|i: int|
            0 <= i < parts.len() ==> #[trigger] parts[i] == json_literal(members[i].0) + seq![':']
                + value_text(members[i].1),
    ensures
        read_members(comma_joined(parts) + seq!['}'] + rest) == Some((members, rest)),
    decreases parts.len(),
{
    reveal_strlit(",");
    let all = comma_joined(parts) + seq!['}'] + rest;
    let name = members[0].0;
    let value = members[0].1;
    let first = parts[0];
    assert(first == json_literal(name) + seq![':'] + value_text(value));
    if parts.len() == 1 {
        let end = seq!['}'] + rest;
        assert(all =~= first + end);
        lemma_member_is_read_back(name, value, end);
        assert(end.skip(1) =~= rest);
        assert(members =~= seq![(name, value)]);
    } else {
        let later = parts.drop_first();
        let inner = comma_joined(later) + seq!['}'] + rest;
        let end = ","@ + inner;
        lemma_joined_from_the_front(parts);
        assert(all =~= first + end);
        lemma_member_is_read_back(name, value, end);
        assert(end.skip(1) =~= inner);
        lemma_members_are_read_back(later, members.drop_first(), rest);
        assert(seq![(name, value)] + members.drop_first() =~= members);
    }
}

/// A text without quotes, backslashes and control characters is written as it is.
pub proof fn lemma_plain_text_is_not_escaped(text: Seq<char>)
    requires
        forall|i: int|
            0 <= i < text.len() ==> #[trigger] text[i] != '"' && text[i] != '\\' && text[i] >= ' ',
    ensures
        escaped(text) == text,
    decreases text.len(),
{
    if text.len() > 0 {
        let c = text[text.len() - 1];
        lemma_plain_text_is_not_escaped(text.drop_last());
        assert(escaped_char(c) =~= seq![c]);
        assert(text.drop_last() + seq![c] =~= text);
    }
}

/// An object of named values is read back as just those, in their order.
pub proof fn lemma_object_is_read_back(parts: Seq<Seq<char>>, members: Seq<(Seq<char>, Told)>)
    requires
        parts.len() == members.len(),
        forall|i: int|
            0 <= i < parts.len() ==> #[trigger] parts[i] == json_literal(members[i].0) + seq![':']
                + value_text(members[i].1),
    ensures
        read_object("{"@ + comma_joined(parts) + "}"@) == Some((members, Seq::<char>::empty())),
{
    reveal_strlit("{");
    reveal_strlit("}");
    reveal_strlit("\"");
    let all = "{"@ + comma_joined(parts) + "}"@;
    assert("}"@ =~= seq!['}']);
    if members.len() == 0 {
        assert(all.skip(2) =~= Seq::<char>::empty());
        assert(members =~= Seq::<(Seq<char>, Told)>::empty());
    } else {
        let inner = comma_joined(parts) + seq!['}'] + Seq::<char>::empty();
        assert(all.skip(1) =~= inner);
        lemma_members_are_read_back(parts, members, Seq::empty());
        assert(inner[0] == '"') by {
            assert(parts[0] == json_literal(members[0].0) + seq![':'] + value_text(members[0].1));
            if parts.len() > 1 {
                lemma_joined_from_the_front(parts);
            }
        }
        assert(all[1] == inner[0]);
    }
}

/// Two and three parts with commas between them.
pub proof fn lemma_few_parts_joined(a: Seq<char>, b: Seq<char>, c: Seq<char>)
    ensures
        comma_joined(seq![a]) == a,
        comma_joined(seq![a, b]) == a + ","@ + b,
        comma_joined(seq![a, b, c]) == a + ","@ + b + ","@ + c,
{
    assert(seq![a, b, c].drop_last() =~= seq![a, b]);
    assert(seq![a, b].drop_last() =~= seq![a]);
    assert(comma_joined(seq![a]) == a);
    assert(comma_joined(seq![a, b]) == a + ","@ + b);
}

} // verus!
