//! Atoms: short identifiers over a closed alphabet, safe to put into model-visible metadata.

use vstd::prelude::*;
use vstd::string::*;
use vstd::utf8::*;

use crate::text::{byte_len, chars_of, decimal, text_bytes, write_decimal};

verus! {

/// ASCII letters and digits.
pub open spec fn is_alphanumeric(c: char) -> bool {
    ('0' <= c <= '9') || ('a' <= c <= 'z') || ('A' <= c <= 'Z')
}

/// The characters of an atom; a slash is one of them where paths are allowed.
pub open spec fn is_atom_char(c: char, slash: bool) -> bool {
    is_alphanumeric(c) || c == '-' || c == '_' || c == '.' || c == ':' || c == '@' || (slash && c
        == '/')
}

/// Every character is one of an atom.
pub open spec fn in_alphabet(text: Seq<char>, slash: bool) -> bool {
    forall|i: int| 0 <= i < text.len() ==> is_atom_char(#[trigger] text[i], slash)
}

/// A non-empty text of at most `max` bytes over the alphabet.
pub open spec fn is_atom(text: Seq<char>, max: int, slash: bool) -> bool {
    &&& text.len() > 0
    &&& byte_len(text) <= max
    &&& in_alphabet(text, slash)
}

/// An atom has one byte for each character.
pub proof fn lemma_atom_bytes(text: Seq<char>, slash: bool)
    requires
        in_alphabet(text, slash),
    ensures
        byte_len(text) == text.len(),
{
    assert forall|i: int| 0 <= i < text.len() implies '\0' <= #[trigger] text[i] <= '\u{7f}' by {
        assert(is_atom_char(text[i], slash));
    }
    is_ascii_chars_encode_utf8(text);
}

/// Tells an ASCII letter or digit.
pub fn alphanumeric(c: char) -> (b: bool)
    ensures
        b == is_alphanumeric(c),
{
    (c >= '0' && c <= '9') || (c >= 'a' && c <= 'z') || (c >= 'A' && c <= 'Z')
}

/// Tells whether every character of a text is one of an atom.
fn check_alphabet(text: &str, slash: bool) -> (b: bool)
    ensures
        b == in_alphabet(text@, slash),
{
    let chars = chars_of(text);
    let mut i: usize = 0;
    while i < chars.len()
        invariant
            i <= chars@.len(),
            chars@ == text@,
            forall|j: int| 0 <= j < i ==> is_atom_char(#[trigger] text@[j], slash),
        decreases chars.len() - i,
    {
        let c = chars[i];
        if !(alphanumeric(c) || c == '-' || c == '_' || c == '.' || c == ':' || c == '@' || (slash
            && c == '/')) {
            assert(!is_atom_char(text@[i as int], slash));
            return false;
        }
        i += 1;
    }
    true
}

/// Tells whether a text is an atom of at most `max` bytes.
pub fn check_atom(text: &str, max: usize, slash: bool) -> (b: bool)
    ensures
        b == is_atom(text@, max as int, slash),
{
    !text.is_empty() && text_bytes(text) <= max && check_alphabet(text, slash)
}

/// What keeps a text from being an atom.
#[derive(Clone, Copy, Debug, PartialEq, Eq, Structural)]
pub enum AtomFault {
    /// It is empty or has too many bytes.
    Length,
    /// It holds a character outside the alphabet.
    Alphabet,
}

/// What is wrong with a text that should be an atom with slashes; its length is looked at first.
pub open spec fn atom_fault(text: Seq<char>, max: int) -> Option<AtomFault> {
    if text.len() == 0 || byte_len(text) > max {
        Some(AtomFault::Length)
    } else if !in_alphabet(text, true) {
        Some(AtomFault::Alphabet)
    } else {
        None
    }
}

/// Checks that a text is an atom with slashes of at most `max_len` bytes.
pub fn validate_atom(value: &str, max_len: usize) -> (result: Result<(), AtomFault>)
    ensures
        result is Ok <==> is_atom(value@, max_len as int, true),
        result is Ok <==> atom_fault(value@, max_len as int) is None,
        result matches Err(fault) ==> atom_fault(value@, max_len as int) == Some(fault),
{
    if value.is_empty() || text_bytes(value) > max_len {
        return Err(AtomFault::Length);
    }
    if !check_alphabet(value, true) {
        return Err(AtomFault::Alphabet);
    }
    Ok(())
}

/// What is reported of a field that should be an atom of at most `max` bytes.
pub open spec fn atom_fault_message(field: Seq<char>, fault: AtomFault, max: nat) -> Seq<char> {
    match fault {
        AtomFault::Length => field + " must be between 1 and "@ + decimal(max) + " bytes"@,
        AtomFault::Alphabet => field
            + " contains a character outside the safe attention metadata alphabet"@,
    }
}

/// Spells a fault of a field out.
pub fn spell_atom_fault(field: &str, fault: AtomFault, max: usize) -> (message: String)
    ensures
        message@ == atom_fault_message(field@, fault, max as nat),
{
    let mut message = field.to_owned();
    match fault {
        AtomFault::Length => {
            message.append(" must be between 1 and ");
            let number = write_decimal(max as u64);
            message.append(number.as_str());
            message.append(" bytes");
        },
        AtomFault::Alphabet => {
            message.append(" contains a character outside the safe attention metadata alphabet");
        },
    }
    message
}

} // verus!
