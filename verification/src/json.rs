//! JSON documents as a tree of plain values, and the decoding of closed records from them.

use vstd::prelude::*;
use vstd::string::*;

use crate::text::{chars_of, optional_view, same_text};

verus! {

/// A JSON document.
#[derive(Debug, PartialEq, Eq)]
pub enum Json {
    Null,
    Bool(bool),
    /// A whole number from zero on.
    Unsigned(u64),
    /// A whole number below zero.
    Negative(i64),
    /// Any other number, by its numeral.
    Fraction(String),
    Text(String),
    Array(Vec<Json>),
    /// Members in the order in which they are written.
    Object(Vec<(String, Json)>),
}

/// What a JSON document holds.
pub enum JsonTree {
    Null,
    Bool(bool),
    Unsigned(u64),
    Negative(i64),
    Fraction(Seq<char>),
    Text(Seq<char>),
    Array(Seq<JsonTree>),
    Object(Seq<(Seq<char>, JsonTree)>),
}

/// The tree of a document.
pub open spec fn tree(json: Json) -> JsonTree
    decreases json,
{
    match json {
        Json::Null => JsonTree::Null,
        Json::Bool(b) => JsonTree::Bool(b),
        Json::Unsigned(n) => JsonTree::Unsigned(n),
        Json::Negative(n) => JsonTree::Negative(n),
        Json::Fraction(s) => JsonTree::Fraction(s@),
        Json::Text(s) => JsonTree::Text(s@),
        Json::Array(items) => JsonTree::Array(trees(items@)),
        Json::Object(members) => JsonTree::Object(member_trees(members@)),
    }
}

/// The trees of some documents.
pub open spec fn trees(items: Seq<Json>) -> Seq<JsonTree>
    decreases items,
{
    if items.len() == 0 {
        Seq::empty()
    } else {
        trees(items.drop_last()).push(tree(items.last()))
    }
}

/// The names and trees of the members of an object.
pub open spec fn member_trees(members: Seq<(String, Json)>) -> Seq<(Seq<char>, JsonTree)>
    decreases members,
{
    if members.len() == 0 {
        Seq::empty()
    } else {
        member_trees(members.drop_last()).push((members.last().0@, tree(members.last().1)))
    }
}

impl View for Json {
    type V = JsonTree;

    open spec fn view(&self) -> JsonTree {
        tree(*self)
    }
}

pub proof fn lemma_trees(items: Seq<Json>)
    ensures
        trees(items).len() == items.len(),
        forall|i: int| 0 <= i < items.len() ==> #[trigger] trees(items)[i] == tree(items[i]),
    decreases items.len(),
{
    if items.len() > 0 {
        lemma_trees(items.drop_last());
        assert forall|i: int| 0 <= i < items.len() implies #[trigger] trees(items)[i] == tree(
            items[i],
        ) by {
            if i < items.len() - 1 {
                assert(items.drop_last()[i] == items[i]);
            }
        }
    }
}

pub proof fn lemma_member_trees(members: Seq<(String, Json)>)
    ensures
        member_trees(members).len() == members.len(),
        forall|i: int|
            0 <= i < members.len() ==> #[trigger] member_trees(members)[i] == (
                members[i].0@,
                tree(members[i].1),
            ),
    decreases members.len(),
{
    if members.len() > 0 {
        lemma_member_trees(members.drop_last());
        assert forall|i: int| 0 <= i < members.len() implies #[trigger] member_trees(members)[i]
            == (members[i].0@, tree(members[i].1)) by {
            if i < members.len() - 1 {
                assert(members.drop_last()[i] == members[i]);
            }
        }
    }
}

/// A parsed `serde_json` document.
#[verifier::external_type_specification]
#[verifier::external_body]
pub struct ExValue(serde_json::Value);

/// Takes a `serde_json::Value` apart, variant by variant. Nothing is claimed of the result here:
/// `parse_json` says what the tree of a parsed text is.
#[verifier::external_body]
fn from_value(value: serde_json::Value) -> (json: Json) {
    match value {
        serde_json::Value::Null => Json::Null,
        serde_json::Value::Bool(b) => Json::Bool(b),
        serde_json::Value::Number(n) => match (n.as_u64(), n.as_i64()) {
            (Some(u), _) => Json::Unsigned(u),
            (None, Some(i)) => Json::Negative(i),
            (None, None) => Json::Fraction(n.to_string()),
        },
        serde_json::Value::String(s) => Json::Text(s),
        serde_json::Value::Array(items) => Json::Array(items.into_iter().map(from_value).collect()),
        serde_json::Value::Object(map) => Json::Object(
            map.into_iter().map(|(k, v)| (k, from_value(v))).collect(),
        ),
    }
}

/// The tree of the document that a text holds, where `serde_json` reads it as one.
pub uninterp spec fn parsed_json(text: Seq<char>) -> Option<JsonTree>;

/// `serde_json::from_str` into a `Value`: the document of a text, or nothing where the text is no
/// JSON document. The members of an object stand in the order of the text; of members with the same
/// name the map keeps one.
#[verifier::external_body]
pub(crate) fn parse_json(text: &str) -> (json: Option<Json>)
    ensures
        json is Some <==> parsed_json(text@) is Some,
        json matches Some(j) ==> parsed_json(text@) == Some(j@),
{
    serde_json::from_str::<serde_json::Value>(text).ok().map(from_value)
}

/// How many bytes the first JSON value among some bytes takes, with white space before it, where
/// they begin with one. It may hold repeated names, numbers of any size and any nesting.
pub uninterp spec fn json_value_length(bytes: Seq<u8>) -> Option<nat>;

/// `serde_json::StreamDeserializer` over `serde::de::IgnoredAny`: the bytes up to the end of the
/// first value, or nothing where they begin with none. They are some, and none behind the last.
#[verifier::external_body]
pub(crate) fn measure_value(bytes: &[u8]) -> (length: Option<usize>)
    ensures
        length is Some <==> json_value_length(bytes@) is Some,
        length matches Some(n) ==> json_value_length(bytes@) == Some(n as nat) && 0 < n
            <= bytes@.len(),
{
    let mut values = serde_json::Deserializer::from_slice(bytes).into_iter::<
        serde::de::IgnoredAny,
    >();
    values.next()?.ok()?;
    Some(values.byte_offset())
}

/// A digit of a hexadecimal numeral, in lower case.
pub open spec fn hex_digit(n: int) -> char {
    if n < 10 {
        ('0' as int + n) as char
    } else {
        ('a' as int + n - 10) as char
    }
}

/// How a character is written inside a string literal.
pub open spec fn escaped_char(c: char) -> Seq<char> {
    if c == '"' || c == '\\' {
        seq!['\\', c]
    } else if c == '\n' {
        seq!['\\', 'n']
    } else if c == '\r' {
        seq!['\\', 'r']
    } else if c == '\t' {
        seq!['\\', 't']
    } else if c == '\x08' {
        seq!['\\', 'b']
    } else if c == '\x0c' {
        seq!['\\', 'f']
    } else if (c as int) < 32 {
        seq!['\\', 'u', '0', '0', hex_digit(c as int / 16), hex_digit(c as int % 16)]
    } else {
        seq![c]
    }
}

/// How a text is written inside a string literal.
pub open spec fn escaped(text: Seq<char>) -> Seq<char>
    decreases text.len(),
{
    if text.len() == 0 {
        Seq::empty()
    } else {
        escaped(text.drop_last()) + escaped_char(text.last())
    }
}

/// The JSON string literal for a text.
pub open spec fn json_literal(text: Seq<char>) -> Seq<char> {
    "\""@ + escaped(text) + "\""@
}

/// `serde_json::to_string` of a string: the literal in quotes. Quotes, backslashes and control
/// characters are escaped, and everything else stands as it is. Writing a string into memory does
/// not fail, so the fallback of the body is not reached.
#[verifier::external_body]
pub(crate) fn write_json_literal(text: &str) -> (literal: String)
    ensures
        literal@ == json_literal(text@),
{
    serde_json::to_string(text).unwrap_or_default()
}

/// Puts a `serde_json::Value` together, variant by variant. Nothing is claimed of the result here:
/// the writers below say what the text of a tree is.
#[verifier::external_body]
fn to_value(json: &Json) -> (value: serde_json::Value) {
    match json {
        Json::Null => serde_json::Value::Null,
        Json::Bool(b) => serde_json::Value::from(*b),
        Json::Unsigned(n) => serde_json::Value::from(*n),
        Json::Negative(n) => serde_json::Value::from(*n),
        Json::Fraction(s) => s.parse().map_or(serde_json::Value::Null, serde_json::Value::Number),
        Json::Text(s) => serde_json::Value::from(s.as_str()),
        Json::Array(items) => serde_json::Value::Array(items.iter().map(to_value).collect()),
        Json::Object(members) => serde_json::Value::Object(
            members.iter().map(|m| (m.0.clone(), to_value(&m.1))).collect(),
        ),
    }
}

/// The text of a document in one line.
pub uninterp spec fn json_line(json: JsonTree) -> Seq<char>;

/// `serde_json::Value::to_string`: the document without white space between its parts.
#[verifier::external_body]
pub(crate) fn write_json_line(json: &Json) -> (text: String)
    ensures
        text@ == json_line(json@),
{
    to_value(json).to_string()
}

/// The text of a document with one member or item in a line.
pub uninterp spec fn json_page(json: JsonTree) -> Seq<char>;

/// `serde_json::to_string_pretty` of a value, with the members of an object in their order. A
/// document without fractional numbers and without repeated names is read back as it was written,
/// also with a line end behind it, and each of its members is written once. Writing a value into
/// memory does not fail, so the fallback of the body is not reached.
#[verifier::external_body]
pub(crate) fn write_json_page(json: &Json) -> (text: String)
    ensures
        text@ == json_page(json@),
        writable(json@, 100) ==> parsed_without_repeats(text@ + "\n"@) == Some(json@),
{
    serde_json::to_string_pretty(&to_value(json)).unwrap_or_default()
}

/// No name stands twice.
pub open spec fn distinct_names(members: Seq<(Seq<char>, JsonTree)>) -> bool {
    forall|i: int, j: int|
        0 <= i < j < members.len() ==> (#[trigger] members[i]).0 != (#[trigger] members[j]).0
}

/// A document with no more than so many levels of nesting, with whole numbers only, and without a
/// name that stands twice in an object.
pub open spec fn writable(json: JsonTree, levels: nat) -> bool
    decreases levels,
{
    match json {
        JsonTree::Fraction(_) => false,
        JsonTree::Negative(n) => n < 0,
        JsonTree::Array(items) => levels > 0 && forall|i: int|
            0 <= i < items.len() ==> writable(#[trigger] items[i], (levels - 1) as nat),
        JsonTree::Object(members) => {
            &&& levels > 0
            &&& distinct_names(members)
            &&& forall|i: int|
                0 <= i < members.len() ==> writable(
                    (#[trigger] members[i]).1,
                    (levels - 1) as nat,
                )
        },
        _ => true,
    }
}

/// Where a scan of a JSON text stands.
pub struct Lexed {
    pub in_string: bool,
    pub escaped: bool,
    pub colons: nat,
}

/// Scans a JSON text up to its end, counting the colons outside string literals.
pub open spec fn lexed(text: Seq<char>) -> Lexed
    decreases text.len(),
{
    if text.len() == 0 {
        Lexed { in_string: false, escaped: false, colons: 0 }
    } else {
        let before = lexed(text.drop_last());
        let c = text.last();
        if before.in_string {
            Lexed {
                in_string: before.escaped || c != '"',
                escaped: !before.escaped && c == '\\',
                colons: before.colons,
            }
        } else {
            Lexed {
                in_string: c == '"',
                escaped: false,
                colons: before.colons + if c == ':' { 1nat } else { 0nat },
            }
        }
    }
}

/// How many members all objects of a document have together.
pub open spec fn member_count(json: JsonTree) -> nat
    decreases json,
{
    match json {
        JsonTree::Array(items) => member_count_of_items(items),
        JsonTree::Object(members) => member_count_of_members(members),
        _ => 0,
    }
}

/// How many members the objects of some documents have together.
pub open spec fn member_count_of_items(items: Seq<JsonTree>) -> nat
    decreases items,
{
    if items.len() == 0 {
        0
    } else {
        member_count_of_items(items.drop_last()) + member_count(items.last())
    }
}

/// How many members some members count, with those inside them.
pub open spec fn member_count_of_members(members: Seq<(Seq<char>, JsonTree)>) -> nat
    decreases members,
{
    if members.len() == 0 {
        0
    } else {
        member_count_of_members(members.drop_last()) + 1 + member_count(members.last().1)
    }
}

/// The document of a text none of whose objects repeats a member name. Each member of the text
/// has one colon outside string literals, and of members with the same name the parsed document
/// keeps one.
pub open spec fn parsed_without_repeats(text: Seq<char>) -> Option<JsonTree> {
    match parsed_json(text) {
        Some(json) => if lexed(text).colons == member_count(json) {
            Some(json)
        } else {
            None
        },
        None => None,
    }
}

/// Counts the colons of a JSON text outside its string literals.
fn count_colons(text: &str) -> (colons: usize)
    ensures
        colons == lexed(text@).colons,
{
    let chars = chars_of(text);
    let mut in_string: bool = false;
    let mut escaped: bool = false;
    let mut colons: usize = 0;
    let mut i: usize = 0;
    while i < chars.len()
        invariant
            i <= chars@.len(),
            colons <= i,
            chars@ == text@,
            in_string == lexed(chars@.take(i as int)).in_string,
            escaped == lexed(chars@.take(i as int)).escaped,
            colons == lexed(chars@.take(i as int)).colons,
        decreases chars.len() - i,
    {
        let c = chars[i];
        assert(chars@.take(i + 1).drop_last() =~= chars@.take(i as int));
        if in_string {
            in_string = escaped || c != '"';
            escaped = !escaped && c == '\\';
        } else {
            in_string = c == '"';
            escaped = false;
            if c == ':' {
                colons += 1;
            }
        }
        i += 1;
    }
    assert(chars@.take(i as int) =~= text@);
    colons
}

/// Takes the members of a document off a number of members that may be left.
fn take_members(json: &Json, budget: usize) -> (left: Option<usize>)
    ensures
        left is Some <==> member_count(json@) <= budget,
        left matches Some(n) ==> n + member_count(json@) == budget,
    decreases json,
{
    match json {
        Json::Array(items) => {
            let mut left: usize = budget;
            let mut i: usize = 0;
            while i < items.len()
                invariant
                    i <= items@.len(),
                    json == Json::Array(*items),
                    left + member_count_of_items(trees(items@.take(i as int))) == budget,
                decreases items.len() - i,
            {
                proof {
                    assert(items@.take(i + 1).drop_last() =~= items@.take(i as int));
                    let seen = trees(items@.take(i + 1));
                    assert(seen.drop_last() =~= trees(items@.take(i as int)));
                    lemma_trees(items@);
                    lemma_trees(items@.take(i + 1));
                    lemma_member_count_grows(trees(items@), i + 1);
                    assert(decreases_to!(json => json->Array_0));
                    assert(decreases_to!(json->Array_0 => json->Array_0@));
                    assert(decreases_to!(items@ => items@[i as int]));
                    assert(trees(items@).take(i + 1) =~= seen);
                }
                match take_members(&items[i], left) {
                    Some(n) => {
                        left = n;
                    },
                    None => {
                        return None;
                    },
                }
                i += 1;
            }
            assert(items@.take(i as int) =~= items@);
            Some(left)
        },
        Json::Object(members) => {
            let mut left: usize = budget;
            let mut i: usize = 0;
            while i < members.len()
                invariant
                    i <= members@.len(),
                    json == Json::Object(*members),
                    left + member_count_of_members(member_trees(members@.take(i as int))) == budget,
                decreases members.len() - i,
            {
                proof {
                    assert(members@.take(i + 1).drop_last() =~= members@.take(i as int));
                    let seen = member_trees(members@.take(i + 1));
                    assert(seen.drop_last() =~= member_trees(members@.take(i as int)));
                    lemma_member_trees(members@);
                    lemma_member_trees(members@.take(i + 1));
                    lemma_member_count_of_members_grows(member_trees(members@), i + 1);
                    assert(decreases_to!(json => json->Object_0));
                    assert(decreases_to!(json->Object_0 => json->Object_0@));
                    assert(decreases_to!(members@ => members@[i as int]));
                    assert(member_trees(members@).take(i + 1) =~= seen);
                }
                if left == 0 {
                    return None;
                }
                let member = &members[i];
                match take_members(&member.1, left - 1) {
                    Some(n) => {
                        left = n;
                    },
                    None => {
                        return None;
                    },
                }
                i += 1;
            }
            assert(members@.take(i as int) =~= members@);
            Some(left)
        },
        _ => Some(budget),
    }
}

proof fn lemma_member_count_grows(items: Seq<JsonTree>, k: int)
    requires
        0 <= k <= items.len(),
    ensures
        member_count_of_items(items.take(k)) <= member_count_of_items(items),
    decreases items.len() - k,
{
    if k < items.len() {
        assert(items.take(k + 1).drop_last() =~= items.take(k));
        lemma_member_count_grows(items, k + 1);
    } else {
        assert(items.take(k) =~= items);
    }
}

proof fn lemma_member_count_of_members_grows(members: Seq<(Seq<char>, JsonTree)>, k: int)
    requires
        0 <= k <= members.len(),
    ensures
        member_count_of_members(members.take(k)) <= member_count_of_members(members),
    decreases members.len() - k,
{
    if k < members.len() {
        assert(members.take(k + 1).drop_last() =~= members.take(k));
        lemma_member_count_of_members_grows(members, k + 1);
    } else {
        assert(members.take(k) =~= members);
    }
}

/// Parses a text as a JSON document none of whose objects repeats a member name.
pub fn parse_without_repeats(text: &str) -> (json: Option<Json>)
    ensures
        json is Some <==> parsed_without_repeats(text@) is Some,
        json matches Some(j) ==> parsed_without_repeats(text@) == Some(j@),
{
    match parse_json(text) {
        Some(json) => {
            let colons = count_colons(text);
            match take_members(&json, colons) {
                Some(left) => if left == 0 {
                    Some(json)
                } else {
                    None
                },
                None => None,
            }
        },
        None => None,
    }
}

/// The member of that name, among members of an object.
pub open spec fn member(members: Seq<(Seq<char>, JsonTree)>, name: Seq<char>) -> Option<JsonTree>
    decreases members.len(),
{
    if members.len() == 0 {
        None
    } else if members.last().0 == name {
        Some(members.last().1)
    } else {
        member(members.drop_last(), name)
    }
}

/// The member of that name of a document, where it is an object that has one.
pub open spec fn get(json: JsonTree, name: Seq<char>) -> Option<JsonTree> {
    match json {
        JsonTree::Object(members) => member(members, name),
        _ => None,
    }
}

/// The text that a document is, where it is one.
pub open spec fn as_text(json: Option<JsonTree>) -> Option<Seq<char>> {
    match json {
        Some(JsonTree::Text(text)) => Some(text),
        _ => None,
    }
}

/// The tree behind an optional document.
pub open spec fn slot_tree(slot: Option<&Json>) -> Option<JsonTree> {
    match slot {
        Some(json) => Some(json@),
        None => None,
    }
}

/// The trees behind optional documents.
pub open spec fn slot_trees(slots: Seq<Option<&Json>>) -> Seq<Option<JsonTree>> {
    Seq::new(slots.len(), |i: int| slot_tree(slots[i]))
}

/// Looks a member up by its name.
pub fn get_member<'a>(json: &'a Json, name: &str) -> (found: Option<&'a Json>)
    ensures
        slot_tree(found) == get(json@, name@),
{
    match json {
        Json::Object(members) => find_member(members, name),
        _ => None,
    }
}

fn find_member<'a>(members: &'a Vec<(String, Json)>, name: &str) -> (found: Option<&'a Json>)
    ensures
        slot_tree(found) == member(member_trees(members@), name@),
{
    let mut i: usize = members.len();
    proof {
        assert(members@.take(i as int) =~= members@);
    }
    while i > 0
        invariant
            i <= members@.len(),
            member(member_trees(members@), name@) == member(
                member_trees(members@.take(i as int)),
                name@,
            ),
        decreases i,
    {
        proof {
            let seen = members@.take(i as int);
            assert(seen.drop_last() =~= members@.take(i - 1));
            assert(member_trees(seen).drop_last() =~= member_trees(seen.drop_last()));
        }
        let entry = &members[i - 1];
        if same_text(entry.0.as_str(), name) {
            return Some(&entry.1);
        }
        i -= 1;
    }
    None
}

/// The numeral of zero with either sign.
pub open spec fn is_zero_numeral(numeral: Seq<char>) -> bool {
    numeral == "0.0"@ || numeral == "-0.0"@
}

/// Two documents say the same: in an array the order counts, among the members of an object it does
/// not, and zero is the same with either sign.
pub open spec fn alike(left: JsonTree, right: JsonTree) -> bool
    decreases left,
{
    match (left, right) {
        (JsonTree::Array(a), JsonTree::Array(b)) => a.len() == b.len() && forall|i: int|
            0 <= i < a.len() ==> alike(#[trigger] a[i], b[i]),
        (JsonTree::Object(a), JsonTree::Object(b)) => a.len() == b.len() && forall|i: int|
            0 <= i < a.len() ==> match member(b, (#[trigger] a[i]).0) {
                Some(value) => alike(a[i].1, value),
                None => false,
            },
        (JsonTree::Fraction(a), JsonTree::Fraction(b)) => a == b || is_zero_numeral(a)
            && is_zero_numeral(b),
        _ => left == right,
    }
}

fn check_zero_numeral(numeral: &str) -> (zero: bool)
    ensures
        zero == is_zero_numeral(numeral@),
{
    same_text(numeral, "0.0") || same_text(numeral, "-0.0")
}

/// Tells whether two documents say the same.
pub fn same_json(left: &Json, right: &Json) -> (same: bool)
    ensures
        same == alike(left@, right@),
    decreases left,
{
    match (left, right) {
        (Json::Null, Json::Null) => true,
        (Json::Bool(a), Json::Bool(b)) => *a == *b,
        (Json::Unsigned(a), Json::Unsigned(b)) => *a == *b,
        (Json::Negative(a), Json::Negative(b)) => *a == *b,
        (Json::Fraction(a), Json::Fraction(b)) => same_text(a.as_str(), b.as_str())
            || check_zero_numeral(a.as_str()) && check_zero_numeral(b.as_str()),
        (Json::Text(a), Json::Text(b)) => same_text(a.as_str(), b.as_str()),
        (Json::Array(a), Json::Array(b)) => {
            proof {
                lemma_trees(a@);
                lemma_trees(b@);
            }
            if a.len() != b.len() {
                return false;
            }
            let mut i: usize = 0;
            while i < a.len()
                invariant
                    i <= a@.len(),
                    a@.len() == b@.len(),
                    trees(a@).len() == a@.len(),
                    trees(b@).len() == b@.len(),
                    left == Json::Array(*a),
                    right == Json::Array(*b),
                    forall|j: int| 0 <= j < a@.len() ==> #[trigger] trees(a@)[j] == tree(a@[j]),
                    forall|j: int| 0 <= j < b@.len() ==> #[trigger] trees(b@)[j] == tree(b@[j]),
                    forall|j: int|
                        0 <= j < i ==> alike(#[trigger] trees(a@)[j], trees(b@)[j]),
                decreases a.len() - i,
            {
                proof {
                    assert(decreases_to!(left => left->Array_0));
                    assert(decreases_to!(left->Array_0 => left->Array_0@));
                    assert(decreases_to!(a@ => a@[i as int]));
                }
                if !same_json(&a[i], &b[i]) {
                    assert(!alike(trees(a@)[i as int], trees(b@)[i as int]));
                    return false;
                }
                i += 1;
            }
            true
        },
        (Json::Object(a), Json::Object(b)) => {
            proof {
                lemma_member_trees(a@);
                lemma_member_trees(b@);
            }
            if a.len() != b.len() {
                return false;
            }
            let mut i: usize = 0;
            while i < a.len()
                invariant
                    i <= a@.len(),
                    a@.len() == b@.len(),
                    member_trees(a@).len() == a@.len(),
                    member_trees(b@).len() == b@.len(),
                    left == Json::Object(*a),
                    right == Json::Object(*b),
                    forall|j: int|
                        0 <= j < a@.len() ==> #[trigger] member_trees(a@)[j] == (
                            a@[j].0@,
                            tree(a@[j].1),
                        ),
                    forall|j: int|
                        0 <= j < i ==> match member(
                            member_trees(b@),
                            (#[trigger] member_trees(a@)[j]).0,
                        ) {
                            Some(value) => alike(member_trees(a@)[j].1, value),
                            None => false,
                        },
                decreases a.len() - i,
            {
                proof {
                    assert(decreases_to!(left => left->Object_0));
                    assert(decreases_to!(left->Object_0 => left->Object_0@));
                    assert(decreases_to!(a@ => a@[i as int]));
                }
                let entry = &a[i];
                let ghost ours = member_trees(a@)[i as int];
                match find_member(b, entry.0.as_str()) {
                    Some(value) => {
                        if !same_json(&entry.1, value) {
                            assert(!alike(ours.1, value@));
                            return false;
                        }
                    },
                    None => {
                        assert(member(member_trees(b@), ours.0) is None);
                        return false;
                    },
                }
                i += 1;
            }
            true
        },
        _ => false,
    }
}

/// Reads a document as a text.
pub fn text_slot(slot: Option<&Json>) -> (text: Option<String>)
    ensures
        text is Some <==> as_text(slot_tree(slot)) is Some,
        text matches Some(t) ==> as_text(slot_tree(slot)) == Some(t@),
{
    match slot {
        Some(Json::Text(text)) => Some(text.clone()),
        _ => None,
    }
}

/// Field names by their characters.
pub open spec fn names(fields: Seq<&str>) -> Seq<Seq<char>> {
    Seq::new(fields.len(), |i: int| fields[i]@)
}

/// Every member of an object is one of the named fields.
pub open spec fn only_fields(
    members: Seq<(Seq<char>, JsonTree)>,
    fields: Seq<Seq<char>>,
) -> bool {
    forall|i: int| 0 <= i < members.len() ==> fields.contains(#[trigger] members[i].0)
}

/// The values of the fields of a record: those members of an object, or the items of an array with
/// one item for each field in turn. An object may lack a field and have other members.
pub open spec fn loose_record(json: JsonTree, fields: Seq<Seq<char>>) -> Option<
    Seq<Option<JsonTree>>,
> {
    match json {
        JsonTree::Object(members) => Some(
            Seq::new(fields.len(), |i: int| member(members, fields[i])),
        ),
        JsonTree::Array(items) => if items.len() == fields.len() {
            Some(Seq::new(fields.len(), |i: int| Some(items[i])))
        } else {
            None
        },
        _ => None,
    }
}

/// The values of the fields of a closed record: an object that has no other members, or an array
/// with one item for each field in turn. An object may lack a field.
pub open spec fn record(json: JsonTree, fields: Seq<Seq<char>>) -> Option<Seq<Option<JsonTree>>> {
    if has_unknown_field(json, fields) {
        None
    } else {
        loose_record(json, fields)
    }
}

/// The document is an object with a member that is none of the fields.
pub open spec fn has_unknown_field(json: JsonTree, fields: Seq<Seq<char>>) -> bool {
    json is Object && !only_fields(json->Object_0, fields)
}

/// Tells whether a text is one of the names.
fn is_name(text: &str, fields: &[&str]) -> (found: bool)
    ensures
        found == names(fields@).contains(text@),
{
    let mut i: usize = 0;
    while i < fields.len()
        invariant
            i <= fields@.len(),
            forall|j: int| 0 <= j < i ==> names(fields@)[j] != text@,
        decreases fields.len() - i,
    {
        if same_text(text, fields[i]) {
            assert(names(fields@)[i as int] == text@);
            return true;
        }
        i += 1;
    }
    false
}

/// Tells whether a document is an object with a member that is none of the fields.
pub fn finds_unknown_field(json: &Json, fields: &[&str]) -> (found: bool)
    ensures
        found == has_unknown_field(json@, names(fields@)),
{
    match json {
        Json::Object(members) => {
            proof {
                lemma_member_trees(members@);
            }
            let mut i: usize = 0;
            while i < members.len()
                invariant
                    i <= members@.len(),
                    json@ == JsonTree::Object(member_trees(members@)),
                    member_trees(members@).len() == members@.len(),
                    forall|j: int|
                        0 <= j < members@.len() ==> #[trigger] member_trees(members@)[j] == (
                            members@[j].0@,
                            tree(members@[j].1),
                        ),
                    forall|j: int|
                        0 <= j < i ==> names(fields@).contains(
                            #[trigger] member_trees(members@)[j].0,
                        ),
                decreases members.len() - i,
            {
                let entry = &members[i];
                if !is_name(entry.0.as_str(), fields) {
                    assert(!names(fields@).contains(member_trees(members@)[i as int].0));
                    return true;
                }
                i += 1;
            }
            false
        },
        _ => false,
    }
}

/// Reads the fields of a closed record.
pub fn read_record<'a>(json: &'a Json, fields: &[&str]) -> (slots: Option<Vec<Option<&'a Json>>>)
    ensures
        slots is Some <==> record(json@, names(fields@)) is Some,
        slots matches Some(s) ==> s@.len() == fields@.len() && record(json@, names(fields@))
            == Some(slot_trees(s@)),
{
    if finds_unknown_field(json, fields) {
        None
    } else {
        read_loose_record(json, fields)
    }
}

/// Reads the fields of a record.
pub fn read_loose_record<'a>(json: &'a Json, fields: &[&str]) -> (slots: Option<Vec<Option<&'a Json>>>)
    ensures
        slots is Some <==> loose_record(json@, names(fields@)) is Some,
        slots matches Some(s) ==> s@.len() == fields@.len() && loose_record(json@, names(fields@))
            == Some(slot_trees(s@)),
{
    match json {
        Json::Object(members) => {
            let mut slots: Vec<Option<&'a Json>> = Vec::new();
            let mut i: usize = 0;
            while i < fields.len()
                invariant
                    i <= fields@.len(),
                    json@ == JsonTree::Object(member_trees(members@)),
                    slots@.len() == i,
                    forall|j: int|
                        0 <= j < i ==> slot_tree(#[trigger] slots@[j]) == member(
                            member_trees(members@),
                            fields@[j]@,
                        ),
                decreases fields.len() - i,
            {
                slots.push(find_member(members, fields[i]));
                i += 1;
            }
            assert(slot_trees(slots@) =~= Seq::new(
                names(fields@).len(),
                |j: int| member(member_trees(members@), names(fields@)[j]),
            ));
            Some(slots)
        },
        Json::Array(items) => {
            proof {
                lemma_trees(items@);
            }
            if items.len() != fields.len() {
                return None;
            }
            let mut slots: Vec<Option<&'a Json>> = Vec::new();
            let mut i: usize = 0;
            while i < items.len()
                invariant
                    i <= items@.len(),
                    json@ == JsonTree::Array(trees(items@)),
                    slots@.len() == i,
                    forall|j: int| 0 <= j < i ==> #[trigger] slots@[j] == Some(&items@[j]),
                decreases items.len() - i,
            {
                slots.push(Some(&items[i]));
                i += 1;
            }
            assert(slot_trees(slots@) =~= Seq::new(
                names(fields@).len(),
                |j: int| Some(trees(items@)[j]),
            ));
            Some(slots)
        },
        _ => None,
    }
}

/// The text of an optional field: nothing where the field is absent or null. The outer option is
/// empty where the field is of another kind.
pub open spec fn optional_text(slot: Option<JsonTree>) -> Option<Option<Seq<char>>> {
    match slot {
        None => Some(None),
        Some(JsonTree::Null) => Some(None),
        Some(JsonTree::Text(text)) => Some(Some(text)),
        _ => None,
    }
}

/// Reads the text of an optional field.
pub fn read_optional_text(slot: Option<&Json>) -> (text: Option<Option<String>>)
    ensures
        text is Some <==> optional_text(slot_tree(slot)) is Some,
        text matches Some(Some(t)) ==> optional_text(slot_tree(slot)) == Some(Some(t@)),
        text matches Some(None) ==> optional_text(slot_tree(slot)) == Some(None::<Seq<char>>),
{
    match slot {
        None => Some(None),
        Some(Json::Null) => Some(None),
        Some(Json::Text(text)) => Some(Some(text.clone())),
        _ => None,
    }
}

/// The whole number of a field, where it is at most `limit`.
pub open spec fn bounded_number(slot: Option<JsonTree>, limit: u64) -> Option<u64> {
    match slot {
        Some(JsonTree::Unsigned(n)) => if n <= limit {
            Some(n)
        } else {
            None
        },
        _ => None,
    }
}

/// Reads a whole number of at most `limit`.
pub fn read_number(slot: Option<&Json>, limit: u64) -> (n: Option<u64>)
    ensures
        n == bounded_number(slot_tree(slot), limit),
{
    match slot {
        Some(Json::Unsigned(n)) => if *n <= limit {
            Some(*n)
        } else {
            None
        },
        _ => None,
    }
}

/// The whole number of an optional field, as `optional_text`.
pub open spec fn optional_number(slot: Option<JsonTree>, limit: u64) -> Option<Option<u64>> {
    match slot {
        None => Some(None),
        Some(JsonTree::Null) => Some(None),
        _ => match bounded_number(slot, limit) {
            Some(n) => Some(Some(n)),
            None => None,
        },
    }
}

/// Reads the whole number of an optional field.
pub fn read_optional_number(slot: Option<&Json>, limit: u64) -> (n: Option<Option<u64>>)
    ensures
        n == optional_number(slot_tree(slot), limit),
{
    match slot {
        None => Some(None),
        Some(Json::Null) => Some(None),
        _ => match read_number(slot, limit) {
            Some(n) => Some(Some(n)),
            None => None,
        },
    }
}

/// The whole number of a field, where it fits in 64 signed bits.
pub open spec fn signed_number(slot: Option<JsonTree>) -> Option<i64> {
    match slot {
        Some(JsonTree::Unsigned(n)) => if n <= i64::MAX {
            Some(n as i64)
        } else {
            None
        },
        Some(JsonTree::Negative(n)) => Some(n),
        _ => None,
    }
}

/// Reads a whole number of 64 signed bits.
pub fn read_signed(slot: Option<&Json>) -> (n: Option<i64>)
    ensures
        n == signed_number(slot_tree(slot)),
{
    match slot {
        Some(Json::Unsigned(n)) => if *n <= i64::MAX as u64 {
            Some(*n as i64)
        } else {
            None
        },
        Some(Json::Negative(n)) => Some(*n),
        _ => None,
    }
}

/// The whole number of an optional field, as `optional_text`.
pub open spec fn optional_signed(slot: Option<JsonTree>) -> Option<Option<i64>> {
    match slot {
        None => Some(None),
        Some(JsonTree::Null) => Some(None),
        _ => match signed_number(slot) {
            Some(n) => Some(Some(n)),
            None => None,
        },
    }
}

/// Reads the whole number of an optional field.
pub fn read_optional_signed(slot: Option<&Json>) -> (n: Option<Option<i64>>)
    ensures
        n == optional_signed(slot_tree(slot)),
{
    match slot {
        None => Some(None),
        Some(Json::Null) => Some(None),
        _ => match read_signed(slot) {
            Some(n) => Some(Some(n)),
            None => None,
        },
    }
}

/// The whole number as a document.
pub open spec fn signed_tree(n: i64) -> JsonTree {
    if n < 0 {
        JsonTree::Negative(n)
    } else {
        JsonTree::Unsigned(n as u64)
    }
}

/// Turns a whole number into a document.
pub fn signed_json(n: i64) -> (json: Json)
    ensures
        json@ == signed_tree(n),
{
    if n < 0 {
        Json::Negative(n)
    } else {
        Json::Unsigned(n as u64)
    }
}

/// The truth value of a field.
pub open spec fn truth(slot: Option<JsonTree>) -> Option<bool> {
    match slot {
        Some(JsonTree::Bool(b)) => Some(b),
        _ => None,
    }
}

/// Reads a truth value.
pub fn read_truth(slot: Option<&Json>) -> (b: Option<bool>)
    ensures
        b == truth(slot_tree(slot)),
{
    match slot {
        Some(Json::Bool(b)) => Some(*b),
        _ => None,
    }
}

/// The name of a choice without content: the name itself, or an object whose one member is that
/// name with null.
pub open spec fn choice(slot: Option<JsonTree>) -> Option<Seq<char>> {
    match slot {
        Some(JsonTree::Text(name)) => Some(name),
        Some(JsonTree::Object(members)) => if members.len() == 1 && members[0].1 is Null {
            Some(members[0].0)
        } else {
            None
        },
        _ => None,
    }
}

/// Reads the name of a choice without content.
pub fn read_choice(slot: Option<&Json>) -> (name: Option<String>)
    ensures
        name is Some <==> choice(slot_tree(slot)) is Some,
        name matches Some(n) ==> choice(slot_tree(slot)) == Some(n@),
{
    match slot {
        Some(Json::Text(name)) => Some(name.clone()),
        Some(Json::Object(members)) => {
            proof {
                lemma_member_trees(members@);
            }
            if members.len() != 1 {
                return None;
            }
            let entry = &members[0];
            match &entry.1 {
                Json::Null => {
                    assert(member_trees(members@)[0] == (entry.0@, JsonTree::Null));
                    Some(entry.0.clone())
                },
                _ => {
                    assert(member_trees(members@)[0].1 == tree(entry.1));
                    None
                },
            }
        },
        _ => None,
    }
}

/// The characters of each text.
pub open spec fn text_views(texts: Seq<String>) -> Seq<Seq<char>> {
    Seq::new(texts.len(), |i: int| texts[i]@)
}

/// The texts of a list of texts.
pub open spec fn text_list(slot: Option<JsonTree>) -> Option<Seq<Seq<char>>> {
    match slot {
        Some(JsonTree::Array(items)) => if forall|i: int|
            0 <= i < items.len() ==> (#[trigger] items[i]) is Text {
            Some(Seq::new(items.len(), |i: int| items[i]->Text_0))
        } else {
            None
        },
        _ => None,
    }
}

/// Reads a list of texts.
pub fn read_text_list(slot: Option<&Json>) -> (texts: Option<Vec<String>>)
    ensures
        texts is Some <==> text_list(slot_tree(slot)) is Some,
        texts matches Some(t) ==> text_list(slot_tree(slot)) == Some(text_views(t@)),
{
    match slot {
        Some(Json::Array(items)) => {
            proof {
                lemma_trees(items@);
            }
            let mut texts: Vec<String> = Vec::new();
            let mut i: usize = 0;
            while i < items.len()
                invariant
                    i <= items@.len(),
                    slot_tree(slot) == Some(JsonTree::Array(trees(items@))),
                    trees(items@).len() == items@.len(),
                    forall|j: int|
                        0 <= j < items@.len() ==> #[trigger] trees(items@)[j] == tree(items@[j]),
                    texts@.len() == i,
                    forall|j: int|
                        0 <= j < i ==> #[trigger] trees(items@)[j] == JsonTree::Text(texts@[j]@),
                decreases items.len() - i,
            {
                match &items[i] {
                    Json::Text(text) => {
                        texts.push(text.clone());
                        assert(trees(items@)[i as int] == JsonTree::Text(text@));
                    },
                    _ => {
                        assert(!(trees(items@)[i as int] is Text));
                        return None;
                    },
                }
                i += 1;
            }
            assert(text_views(texts@) =~= Seq::new(
                trees(items@).len(),
                |j: int| trees(items@)[j]->Text_0,
            ));
            Some(texts)
        },
        _ => None,
    }
}

/// Where no name occurs twice, each member is found under its name.
pub proof fn lemma_member_found(members: Seq<(Seq<char>, JsonTree)>, k: int)
    requires
        0 <= k < members.len(),
        distinct_names(members),
    ensures
        member(members, members[k].0) == Some(members[k].1),
    decreases members.len(),
{
    if k < members.len() - 1 {
        let rest = members.drop_last();
        assert(members[k].0 != members[members.len() - 1].0);
        assert forall|i: int, j: int| 0 <= i < j < rest.len() implies (#[trigger] rest[i]).0 != (
        #[trigger] rest[j]).0 by {
            assert(members[i].0 != members[j].0);
        }
        lemma_member_found(rest, k);
        assert(rest[k] == members[k]);
    }
}

/// A named member.
pub fn named(name: &str, value: Json) -> (entry: (String, Json))
    ensures
        entry.0@ == name@,
        entry.1 == value,
{
    (name.to_owned(), value)
}

/// A text as a document.
pub fn text_json(text: &str) -> (json: Json)
    ensures
        json@ == JsonTree::Text(text@),
{
    Json::Text(text.to_owned())
}

/// An object of members.
pub fn object_of(members: Vec<(String, Json)>) -> (json: Json)
    ensures
        json@ == JsonTree::Object(member_trees(members@)),
        member_trees(members@).len() == members@.len(),
        forall|i: int|
            0 <= i < members@.len() ==> #[trigger] member_trees(members@)[i] == (
                members@[i].0@,
                members@[i].1@,
            ),
{
    proof {
        lemma_member_trees(members@);
    }
    Json::Object(members)
}

/// Texts with a comma between each two.
pub open spec fn comma_joined(parts: Seq<Seq<char>>) -> Seq<char>
    decreases parts.len(),
{
    if parts.len() == 0 {
        Seq::empty()
    } else if parts.len() == 1 {
        parts[0]
    } else {
        comma_joined(parts.drop_last()) + ","@ + parts.last()
    }
}

/// Joins texts with a comma between each two.
pub fn join_commas(parts: &Vec<String>) -> (text: String)
    ensures
        text@ == comma_joined(text_views(parts@)),
{
    let ghost all = text_views(parts@);
    if parts.len() == 0 {
        let text = String::new();
        assert(text@ =~= comma_joined(all));
        return text;
    }
    let mut text = parts[0].clone();
    assert(all.take(1)[0] == all[0]);
    let mut i: usize = 1;
    while i < parts.len()
        invariant
            1 <= i <= parts@.len(),
            all == text_views(parts@),
            text@ == comma_joined(all.take(i as int)),
        decreases parts@.len() - i,
    {
        assert(all.take(i + 1).drop_last() =~= all.take(i as int));
        text.append(",");
        text.append(parts[i].as_str());
        i += 1;
    }
    assert(all.take(i as int) =~= all);
    text
}

/// A member for an optional value: none where there is no value.
pub open spec fn optional_member(name: Seq<char>, value: Option<Seq<char>>) -> Seq<Seq<char>> {
    match value {
        Some(v) => seq![name + v],
        None => Seq::empty(),
    }
}

/// Adds a member for an optional value.
pub fn push_member(parts: &mut Vec<String>, name: &str, value: Option<String>)
    ensures
        text_views(final(parts)@) == text_views(old(parts)@) + optional_member(
            name@,
            optional_view(value),
        ),
{
    let ghost before = text_views(parts@);
    if let Some(v) = value {
        let mut part = name.to_owned();
        part.append(v.as_str());
        parts.push(part);
    }
    assert(text_views(parts@) =~= before + optional_member(name@, optional_view(value)));
}

/// Copies a document.
pub fn copy_json(json: &Json) -> (copy: Json)
    ensures
        copy@ == json@,
    decreases json,
{
    match json {
        Json::Null => Json::Null,
        Json::Bool(b) => Json::Bool(*b),
        Json::Unsigned(n) => Json::Unsigned(*n),
        Json::Negative(n) => Json::Negative(*n),
        Json::Fraction(text) => Json::Fraction(text.clone()),
        Json::Text(text) => Json::Text(text.clone()),
        Json::Array(items) => {
            let mut copies: Vec<Json> = Vec::new();
            let mut i: usize = 0;
            while i < items.len()
                invariant
                    i <= items@.len(),
                    json == Json::Array(*items),
                    copies@.len() == i,
                    forall|j: int| 0 <= j < i ==> tree(#[trigger] copies@[j]) == tree(items@[j]),
                decreases items.len() - i,
            {
                proof {
                    assert(decreases_to!(json => json->Array_0));
                    assert(decreases_to!(json->Array_0 => json->Array_0@));
                    assert(decreases_to!(items@ => items@[i as int]));
                }
                copies.push(copy_json(&items[i]));
                i += 1;
            }
            proof {
                lemma_trees(items@);
                lemma_trees(copies@);
                assert(trees(copies@) =~= trees(items@));
            }
            Json::Array(copies)
        },
        Json::Object(members) => {
            let mut copies: Vec<(String, Json)> = Vec::new();
            let mut i: usize = 0;
            while i < members.len()
                invariant
                    i <= members@.len(),
                    json == Json::Object(*members),
                    copies@.len() == i,
                    forall|j: int|
                        0 <= j < i ==> (#[trigger] copies@[j]).0@ == members@[j].0@ && tree(
                            copies@[j].1,
                        ) == tree(members@[j].1),
                decreases members.len() - i,
            {
                proof {
                    assert(decreases_to!(json => json->Object_0));
                    assert(decreases_to!(json->Object_0 => json->Object_0@));
                    assert(decreases_to!(members@ => members@[i as int]));
                }
                let entry = &members[i];
                copies.push((entry.0.clone(), copy_json(&entry.1)));
                i += 1;
            }
            proof {
                lemma_member_trees(members@);
                lemma_member_trees(copies@);
                assert(member_trees(copies@) =~= member_trees(members@));
            }
            Json::Object(copies)
        },
    }
}

} // verus!
