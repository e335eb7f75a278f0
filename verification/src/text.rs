//! Text primitives: byte lengths, decimal numerals, trimming and comparison.

use vstd::prelude::*;
use vstd::string::*;
use vstd::utf8::*;

verus! {

/// `String::push` appends one character at the end of the string.
pub assume_specification[ String::push ](text: &mut String, c: char)
    ensures
        final(text)@ == old(text)@.push(c),
;

/// The error of `core::str::from_utf8`.
#[verifier::external_type_specification]
#[verifier::external_body]
pub struct ExUtf8Error(core::str::Utf8Error);

/// `core::str::from_utf8`: the text that the bytes encode, or an error where they are no valid
/// UTF-8.
pub assume_specification[ core::str::from_utf8 ](v: &[u8]) -> (text: Result<
    &str,
    core::str::Utf8Error,
>)
    ensures
        text is Ok <==> valid_utf8(v@),
        text matches Ok(t) ==> t@ == decode_utf8(v@),
;

/// The characters with the Unicode property `White_Space`.
pub open spec fn unicode_white_space(c: char) -> bool {
    let n = c as u32;
    ||| 0x9 <= n <= 0xd
    ||| n == 0x20
    ||| n == 0x85
    ||| n == 0xa0
    ||| n == 0x1680
    ||| 0x2000 <= n <= 0x200a
    ||| n == 0x2028
    ||| n == 0x2029
    ||| n == 0x202f
    ||| n == 0x205f
    ||| n == 0x3000
}

/// `char::is_whitespace`: whether a character has the Unicode property `White_Space`.
pub assume_specification[ char::is_whitespace ](c: char) -> (white: bool)
    ensures
        white == unicode_white_space(c),
;

/// The number of bytes of a text in UTF-8.
pub open spec fn byte_len(text: Seq<char>) -> nat {
    encode_utf8(text).len()
}

/// Measures a text in UTF-8 bytes.
pub fn text_bytes(text: &str) -> (n: usize)
    ensures
        n == byte_len(text@),
{
    text.as_bytes().len()
}

/// Tells whether two texts are the same.
pub fn same_text(left: &str, right: &str) -> (same: bool)
    ensures
        same == (left@ == right@),
{
    let a = left.as_bytes();
    let b = right.as_bytes();
    proof {
        encode_utf8_decode_utf8(left@);
        encode_utf8_decode_utf8(right@);
    }
    if a.len() != b.len() {
        return false;
    }
    let mut i: usize = 0;
    while i < a.len()
        invariant
            i <= a.len(),
            a@.len() == b@.len(),
            a@ == encode_utf8(left@),
            b@ == encode_utf8(right@),
            forall|j: int| 0 <= j < i ==> a@[j] == b@[j],
        decreases a.len() - i,
    {
        if a[i] != b[i] {
            return false;
        }
        i += 1;
    }
    assert(a@ =~= b@);
    true
}

/// The characters of an optional text.
pub open spec fn optional_view(text: Option<String>) -> Option<Seq<char>> {
    match text {
        Some(t) => Some(t@),
        None => None,
    }
}

/// Copies an optional text.
pub fn copy_optional(text: &Option<String>) -> (copy: Option<String>)
    ensures
        optional_view(copy) == optional_view(*text),
{
    match text {
        Some(t) => Some(t.clone()),
        None => None,
    }
}

/// Tells whether two optional texts are the same.
pub fn same_optional_text(left: &Option<String>, right: &Option<String>) -> (same: bool)
    ensures
        same == (optional_view(*left) == optional_view(*right)),
{
    match (left, right) {
        (Some(a), Some(b)) => same_text(a.as_str(), b.as_str()),
        (None, None) => true,
        _ => false,
    }
}

/// Lists the characters of a text.
pub fn chars_of(text: &str) -> (chars: Vec<char>)
    ensures
        chars@ == text@,
{
    let mut chars: Vec<char> = Vec::new();
    for c in iter: text.chars()
        invariant
            chars@ == iter.seq().take(iter.index()),
            iter.seq() == text@,
    {
        chars.push(c);
        assert(iter.seq().take(iter.index() + 1) =~= iter.seq().take(iter.index()).push(c));
    }
    assert(text@.take(text@.len() as int) =~= text@);
    chars
}

/// Joins the characters at positions `from` to `to` into a text.
pub fn text_of(chars: &[char], from: usize, to: usize) -> (text: String)
    requires
        from <= to <= chars@.len(),
    ensures
        text@ == chars@.subrange(from as int, to as int),
{
    let mut text = String::new();
    let mut i: usize = from;
    while i < to
        invariant
            from <= i <= to <= chars@.len(),
            text@ == chars@.subrange(from as int, i as int),
        decreases to - i,
    {
        text.push(chars[i]);
        i += 1;
        assert(chars@.subrange(from as int, i as int) =~= chars@.subrange(from as int, i - 1).push(
            chars@[i - 1],
        ));
    }
    text
}

/// The bytes of two texts joined are the bytes of the one, then of the other.
pub proof fn lemma_bytes_of_join(left: Seq<char>, right: Seq<char>)
    ensures
        encode_utf8(left + right) == encode_utf8(left) + encode_utf8(right),
        byte_len(left + right) == byte_len(left) + byte_len(right),
    decreases left.len(),
{
    if left.len() == 0 {
        assert(left + right =~= right);
        assert(encode_utf8(left) + encode_utf8(right) =~= encode_utf8(right));
    } else {
        assert((left + right).drop_first() =~= left.drop_first() + right);
        lemma_bytes_of_join(left.drop_first(), right);
        assert(encode_utf8(left + right) =~= encode_utf8(left) + encode_utf8(right));
    }
}

/// A text has at least as many bytes as characters, and at most four times as many.
pub proof fn lemma_bytes_per_char(text: Seq<char>)
    ensures
        text.len() <= byte_len(text) <= 4 * text.len(),
    decreases text.len(),
{
    if text.len() > 0 {
        lemma_bytes_per_char(text.drop_first());
    }
}

/// Decimal digits `0` to `9`.
pub open spec fn is_digit(c: char) -> bool {
    '0' <= c <= '9'
}

/// Every character is a decimal digit.
pub open spec fn all_digits(text: Seq<char>) -> bool {
    forall|i: int| 0 <= i < text.len() ==> is_digit(#[trigger] text[i])
}

/// The digit for a number below ten.
pub open spec fn digit_char(digit: nat) -> char {
    (digit + 48) as char
}

/// The number that a digit stands for.
pub open spec fn digit_value(c: char) -> nat {
    if is_digit(c) {
        (c as nat - 48) as nat
    } else {
        0
    }
}

/// The decimal numeral of a number, without leading zeros.
pub open spec fn decimal(n: nat) -> Seq<char>
    decreases n,
{
    if n < 10 {
        seq![digit_char(n)]
    } else {
        decimal(n / 10).push(digit_char(n % 10))
    }
}

/// The decimal numeral of an integer, with a minus sign before a negative one.
pub open spec fn signed_decimal(n: int) -> Seq<char> {
    if n < 0 {
        seq!['-'] + decimal((-n) as nat)
    } else {
        decimal(n as nat)
    }
}

/// The number that a run of digits denotes.
pub open spec fn numeral(digits: Seq<char>) -> nat
    decreases digits.len(),
{
    if digits.len() == 0 {
        0
    } else {
        10 * numeral(digits.drop_last()) + digit_value(digits.last())
    }
}

/// The numeral of a number denotes that number, in digits alone.
pub proof fn lemma_decimal_numeral(n: nat)
    ensures
        all_digits(decimal(n)),
        decimal(n).len() > 0,
        numeral(decimal(n)) == n,
    decreases n,
{
    if n < 10 {
        assert(decimal(n).drop_last() =~= Seq::<char>::empty());
        assert(numeral(decimal(n).drop_last()) == 0);
    } else {
        lemma_decimal_numeral(n / 10);
        assert(decimal(n).drop_last() =~= decimal(n / 10));
    }
}

/// A numeral below the `digits`-th power of ten has at most that many digits.
pub proof fn lemma_decimal_len(n: nat, digits: nat)
    requires
        digits > 0,
        n < vstd::arithmetic::power::pow(10, digits),
    ensures
        decimal(n).len() <= digits,
    decreases digits,
{
    if n >= 10 {
        vstd::arithmetic::power::lemma_pow1(10);
        if digits > 1 {
            let d = (digits - 1) as nat;
            assert(vstd::arithmetic::power::pow(10, digits) == 10 * vstd::arithmetic::power::pow(10, d)) by {
                reveal(vstd::arithmetic::power::pow);
            }
            lemma_decimal_len(n / 10, d);
        }
    }
}

/// A longer run of digits denotes no smaller number.
pub proof fn lemma_numeral_grows(digits: Seq<char>, k: int)
    requires
        0 <= k <= digits.len(),
    ensures
        numeral(digits.take(k)) <= numeral(digits),
    decreases digits.len() - k,
{
    if k < digits.len() {
        assert(digits.take(k + 1).drop_last() =~= digits.take(k));
        lemma_numeral_grows(digits, k + 1);
    } else {
        assert(digits.take(k) =~= digits);
    }
}

/// A run of digits is ASCII: it has as many bytes as characters.
pub proof fn lemma_digits_are_ascii(text: Seq<char>)
    requires
        all_digits(text),
    ensures
        byte_len(text) == text.len(),
{
    assert(is_ascii_chars(text));
    is_ascii_chars_encode_utf8(text);
}

/// Writes a number in decimal.
pub fn write_decimal(n: u64) -> (text: String)
    ensures
        text@ == decimal(n as nat),
    decreases n,
{
    if n < 10 {
        let mut text = String::new();
        text.push((48 + n as u8) as char);
        assert(text@ =~= decimal(n as nat));
        text
    } else {
        let mut text = write_decimal(n / 10);
        text.push((48 + (n % 10) as u8) as char);
        text
    }
}

/// Writes a signed number in decimal.
pub fn write_signed_decimal(n: i64) -> (text: String)
    ensures
        text@ == signed_decimal(n as int),
{
    if n < 0 {
        let magnitude: u64 = if n == i64::MIN {
            0x8000_0000_0000_0000
        } else {
            (-n) as u64
        };
        let mut text = String::new();
        text.push('-');
        let digits = write_decimal(magnitude);
        text.append(digits.as_str());
        assert(text@ =~= signed_decimal(n as int));
        text
    } else {
        write_decimal(n as u64)
    }
}

/// The number that a non-empty run of digits denotes, where it is at most `limit`.
pub open spec fn digits_up_to(text: Seq<char>, limit: nat) -> Option<nat> {
    if text.len() > 0 && all_digits(text) && numeral(text) <= limit {
        Some(numeral(text))
    } else {
        None
    }
}

/// Reads a non-empty run of digits as a number of at most `limit`.
pub fn read_digits(text: &[char], limit: u64) -> (value: Option<u64>)
    ensures
        value is Some <==> digits_up_to(text@, limit as nat) is Some,
        value matches Some(v) ==> digits_up_to(text@, limit as nat) == Some(v as nat),
{
    if text.len() == 0 {
        return None;
    }
    let mut value: u64 = 0;
    let mut beyond: bool = false;
    let mut i: usize = 0;
    while i < text.len()
        invariant
            i <= text.len(),
            all_digits(text@.take(i as int)),
            !beyond ==> value == numeral(text@.take(i as int)) && value <= limit,
            beyond ==> numeral(text@.take(i as int)) > limit,
        decreases text.len() - i,
    {
        let c = text[i];
        proof {
            assert(text@.take(i + 1).drop_last() =~= text@.take(i as int));
            assert(text@.take(i + 1).last() == c);
        }
        if !(c >= '0' && c <= '9') {
            assert(!is_digit(text@[i as int]));
            return None;
        }
        let digit: u64 = c as u64 - 48;
        if !beyond {
            if value > limit / 10 {
                beyond = true;
            } else {
                let shifted: u64 = value * 10;
                if limit - shifted < digit {
                    beyond = true;
                } else {
                    value = shifted + digit;
                }
            }
        }
        assert forall|j: int| 0 <= j < i + 1 implies is_digit(#[trigger] text@.take(i + 1)[j]) by {
            if j < i {
                assert(text@.take(i as int)[j] == text@[j]);
            }
        }
        i += 1;
    }
    assert(text@.take(text@.len() as int) =~= text@);
    if beyond {
        None
    } else {
        Some(value)
    }
}

/// The number of which a text is the numeral, where it fits in 32 bits.
pub open spec fn canonical_number(text: Seq<char>) -> Option<nat> {
    match digits_up_to(text, u32::MAX as nat) {
        Some(v) => if decimal(v) == text {
            Some(v)
        } else {
            None
        },
        None => None,
    }
}

/// Reads a decimal numeral that carries no sign and no leading zero.
pub fn canonical_decimal(text: &[char]) -> (value: Option<u32>)
    ensures
        value is Some <==> canonical_number(text@) is Some,
        value matches Some(v) ==> canonical_number(text@) == Some(v as nat),
{
    match read_digits(text, 4294967295) {
        Some(v) => {
            let written = write_decimal(v);
            let numeral = chars_of(written.as_str());
            if same_chars(numeral.as_slice(), text) {
                Some(v as u32)
            } else {
                None
            }
        },
        None => None,
    }
}

/// Tells whether two lists of characters are the same.
pub fn same_chars(left: &[char], right: &[char]) -> (same: bool)
    ensures
        same == (left@ == right@),
{
    if left.len() != right.len() {
        return false;
    }
    let mut i: usize = 0;
    while i < left.len()
        invariant
            i <= left.len(),
            left@.len() == right@.len(),
            forall|j: int| 0 <= j < i ==> left@[j] == right@[j],
        decreases left.len() - i,
    {
        if left[i] != right[i] {
            return false;
        }
        i += 1;
    }
    assert(left@ =~= right@);
    true
}

/// A text without the white space at its start.
pub open spec fn trim_start(text: Seq<char>) -> Seq<char>
    decreases text.len(),
{
    if text.len() > 0 && unicode_white_space(text[0]) {
        trim_start(text.drop_first())
    } else {
        text
    }
}

/// A text without the white space at its end.
pub open spec fn trim_end(text: Seq<char>) -> Seq<char>
    decreases text.len(),
{
    if text.len() > 0 && unicode_white_space(text.last()) {
        trim_end(text.drop_last())
    } else {
        text
    }
}

/// A text without the white space at both ends.
pub open spec fn trimmed(text: Seq<char>) -> Seq<char> {
    trim_end(trim_start(text))
}

/// Finds where the text starts behind its leading white space.
fn trim_start_index(chars: &[char]) -> (from: usize)
    ensures
        from <= chars@.len(),
        trim_start(chars@) == chars@.skip(from as int),
{
    let mut from: usize = 0;
    assert(chars@.skip(0) =~= chars@);
    while from < chars.len() && chars[from].is_whitespace()
        invariant
            from <= chars@.len(),
            trim_start(chars@) == trim_start(chars@.skip(from as int)),
        ensures
            from <= chars@.len(),
            trim_start(chars@) == trim_start(chars@.skip(from as int)),
            from < chars@.len() ==> !unicode_white_space(chars@[from as int]),
        decreases chars.len() - from,
    {
        assert(chars@.skip(from as int).drop_first() =~= chars@.skip(from + 1));
        from += 1;
    }
    from
}

/// Finds where the text between `from` and the end ends before its trailing white space.
fn trim_end_index(chars: &[char], from: usize) -> (to: usize)
    requires
        from <= chars@.len(),
    ensures
        from <= to <= chars@.len(),
        trim_end(chars@.skip(from as int)) == chars@.subrange(from as int, to as int),
{
    let mut to: usize = chars.len();
    assert(chars@.skip(from as int) =~= chars@.subrange(from as int, to as int));
    while from < to && chars[to - 1].is_whitespace()
        invariant
            from <= to <= chars@.len(),
            trim_end(chars@.skip(from as int)) == trim_end(
                chars@.subrange(from as int, to as int),
            ),
        ensures
            from <= to <= chars@.len(),
            trim_end(chars@.skip(from as int)) == trim_end(
                chars@.subrange(from as int, to as int),
            ),
            from < to ==> !unicode_white_space(chars@[to - 1]),
        decreases to,
    {
        assert(chars@.subrange(from as int, to as int).drop_last() =~= chars@.subrange(
            from as int,
            to - 1,
        ));
        to -= 1;
    }
    to
}

/// Removes the white space at both ends of a text.
pub fn trim_text(text: &str) -> (result: String)
    ensures
        result@ == trimmed(text@),
{
    let chars = chars_of(text);
    let from = trim_start_index(chars.as_slice());
    let to = trim_end_index(chars.as_slice(), from);
    text_of(chars.as_slice(), from, to)
}

/// Removes the white space at the end of a text.
pub fn trim_text_end(text: &str) -> (result: String)
    ensures
        result@ == trim_end(text@),
{
    let chars = chars_of(text);
    assert(chars@.skip(0) =~= chars@);
    let to = trim_end_index(chars.as_slice(), 0);
    text_of(chars.as_slice(), 0, to)
}

/// The first place at which the one text comes before the other.
pub open spec fn before_at(left: Seq<char>, right: Seq<char>, k: int) -> bool {
    &&& 0 <= k <= left.len()
    &&& k < right.len()
    &&& forall|i: int| 0 <= i < k ==> left[i] == right[i]
    &&& k == left.len() || left[k] < right[k]
}

/// The one text comes before the other in the order of their characters.
pub open spec fn text_before(left: Seq<char>, right: Seq<char>) -> bool {
    exists|k: int| before_at(left, right, k)
}

/// Tells whether the one text comes before the other.
pub fn precedes(left: &str, right: &str) -> (before: bool)
    ensures
        before == text_before(left@, right@),
{
    let ours = chars_of(left);
    let theirs = chars_of(right);
    let mut i: usize = 0;
    while i < ours.len() && i < theirs.len() && ours[i] == theirs[i]
        invariant
            ours@ == left@,
            theirs@ == right@,
            i <= ours@.len(),
            i <= theirs@.len(),
            forall|j: int| 0 <= j < i ==> left@[j] == right@[j],
        decreases ours@.len() - i,
    {
        i += 1;
    }
    let before = i < theirs.len() && (i == ours.len() || ours[i] < theirs[i]);
    proof {
        if before {
            assert(before_at(left@, right@, i as int));
        } else {
            assert forall|k: int| !before_at(left@, right@, k) by {
                if before_at(left@, right@, k) {
                    assert(k >= i);
                    assert(k > i ==> left@[i as int] == right@[i as int]);
                }
            }
        }
    }
    before
}

} // verus!
