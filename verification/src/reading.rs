//! How the documents that are taken are read: by the names of their members, or by position.

use vstd::prelude::*;
use vstd::string::*;

use crate::json::{alike, get, member, text_list, JsonTree};

verus! {

/// What a document holds under a name, or, where it is a list, at a position.
pub open spec fn field_of(json: JsonTree, name: Seq<char>, position: int) -> Option<JsonTree> {
    match json {
        JsonTree::Object(members) => member(members, name),
        JsonTree::Array(items) => Some(items[position]),
        _ => None,
    }
}

/// A document is a list of as many items as there are names, or an object whose members all have one
/// of the names.
pub open spec fn shaped(json: JsonTree, names: Seq<Seq<char>>) -> bool {
    match json {
        JsonTree::Object(members) => forall|i: int|
            0 <= i < members.len() ==> names.contains((#[trigger] members[i]).0),
        JsonTree::Array(items) => items.len() == names.len(),
        _ => false,
    }
}

/// A value names one of several choices: by its name, or as the only member of an object.
pub open spec fn names(value: Option<JsonTree>, name: Seq<char>) -> bool {
    match value {
        Some(JsonTree::Text(text)) => text == name,
        Some(JsonTree::Object(members)) => members.len() == 1 && members[0].0 == name
            && members[0].1 is Null,
        _ => false,
    }
}

/// A value is missing: there is none, or it is null.
pub open spec fn missing(value: Option<JsonTree>) -> bool {
    value is None || value == Some(JsonTree::Null)
}

/// A value is a list of just these texts.
pub open spec fn lists(value: Option<JsonTree>, texts: Seq<Seq<char>>) -> bool {
    value matches Some(JsonTree::Array(items)) && items.len() == texts.len() && forall|i: int|
        0 <= i < items.len() ==> #[trigger] items[i] == JsonTree::Text(texts[i])
}

/// A value is a whole number.
pub open spec fn counts(value: Option<JsonTree>, n: int) -> bool {
    match value {
        Some(JsonTree::Unsigned(m)) => m == n,
        Some(JsonTree::Negative(m)) => m == n,
        _ => false,
    }
}

/// The value under a name is the last one that an object has under it.
pub proof fn law_the_last_member_of_a_name_counts(
    members: Seq<(Seq<char>, JsonTree)>,
    name: Seq<char>,
    i: int,
)
    requires
        0 <= i < members.len(),
        members[i].0 == name,
        forall|j: int| i < j < members.len() ==> (#[trigger] members[j]).0 != name,
    ensures
        member(members, name) == Some(members[i].1),
        get(JsonTree::Object(members), name) == Some(members[i].1),
    decreases members.len(),
{
    if i < members.len() - 1 {
        assert(members[members.len() - 1].0 != name);
        law_the_last_member_of_a_name_counts(members.drop_last(), name, i);
    }
}

/// There is no value under a name that no member has, nor in what is no object.
pub proof fn law_unnamed_values_are_not_found(
    members: Seq<(Seq<char>, JsonTree)>,
    name: Seq<char>,
)
    requires
        forall|j: int| 0 <= j < members.len() ==> (#[trigger] members[j]).0 != name,
    ensures
        member(members, name) is None,
        get(JsonTree::Object(members), name) is None,
        forall|json: JsonTree| !(json is Object) ==> (#[trigger] get(json, name)) is None,
    decreases members.len(),
{
    if members.len() > 0 {
        assert(members[members.len() - 1].0 != name);
        law_unnamed_values_are_not_found(members.drop_last(), name);
    }
}

/// Two documents of different kinds are never alike. Truths, whole numbers and texts are alike only
/// where they are the same; fractions also where both are zero; and lists only where they have the
/// same length and are alike item by item.
pub proof fn law_alike_documents_say_the_same(left: JsonTree, right: JsonTree)
    ensures
        alike(left, right) ==> {
            &&& left is Null <==> right is Null
            &&& left is Bool <==> right is Bool
            &&& left is Unsigned <==> right is Unsigned
            &&& left is Negative <==> right is Negative
            &&& left is Fraction <==> right is Fraction
            &&& left is Text <==> right is Text
            &&& left is Array <==> right is Array
            &&& left is Object <==> right is Object
            &&& left is Bool ==> left->Bool_0 == right->Bool_0
            &&& left is Unsigned ==> left->Unsigned_0 == right->Unsigned_0
            &&& left is Negative ==> left->Negative_0 == right->Negative_0
            &&& left is Text ==> left->Text_0 == right->Text_0
            &&& left is Fraction ==> left->Fraction_0 == right->Fraction_0 || (left->Fraction_0
                == "0.0"@ || left->Fraction_0 == "-0.0"@) && (right->Fraction_0 == "0.0"@
                || right->Fraction_0 == "-0.0"@)
            &&& left is Array ==> left->Array_0.len() == right->Array_0.len() && forall|i: int|
                0 <= i < left->Array_0.len() ==> alike(
                    #[trigger] left->Array_0[i],
                    right->Array_0[i],
                )
            &&& left is Object ==> left->Object_0.len() == right->Object_0.len() && forall|i: int|
                0 <= i < left->Object_0.len() ==> {
                    &&& get(right, (#[trigger] left->Object_0[i]).0) matches Some(value)
                    &&& alike(left->Object_0[i].1, value)
                }
        },
        left == right && !(left is Array) && !(left is Object) ==> alike(left, right),
        left is Array && right is Array && left->Array_0.len() == right->Array_0.len() && (
        forall|i: int|
            0 <= i < left->Array_0.len() ==> alike(#[trigger] left->Array_0[i], right->Array_0[i]))
            ==> alike(left, right),
        left is Object && right is Object && left->Object_0.len() == right->Object_0.len() && (
        forall|i: int|
            0 <= i < left->Object_0.len() ==> {
                &&& get(right, (#[trigger] left->Object_0[i]).0) matches Some(value)
                &&& alike(left->Object_0[i].1, value)
            }) ==> alike(left, right),
{
}

/// A document whose names are not repeated is alike itself.
pub proof fn law_documents_are_alike_themselves(json: JsonTree)
    requires
        unrepeated(json),
    ensures
        alike(json, json),
    decreases json,
{
    match json {
        JsonTree::Array(items) => {
            assert forall|i: int| 0 <= i < items.len() implies alike(#[trigger] items[i], items[i]) by {
                assert(unrepeated(items[i]));
                law_documents_are_alike_themselves(items[i]);
            }
        },
        JsonTree::Object(members) => {
            assert forall|i: int| 0 <= i < members.len() implies match member(
                members,
                (#[trigger] members[i]).0,
            ) {
                Some(value) => alike(members[i].1, value),
                None => false,
            } by {
                law_the_last_member_of_a_name_counts(members, members[i].0, i);
                assert(decreases_to!(members => members[i]));
                assert(decreases_to!(members[i] => members[i].1));
                law_documents_are_alike_themselves(members[i].1);
            }
        },
        _ => {},
    }
}

/// No object in a document repeats a name.
pub open spec fn unrepeated(json: JsonTree) -> bool
    decreases json,
{
    match json {
        JsonTree::Array(items) => forall|i: int|
            0 <= i < items.len() ==> unrepeated(#[trigger] items[i]),
        JsonTree::Object(members) => {
            &&& forall|i: int, j: int|
                0 <= i < j < members.len() ==> (#[trigger] members[i]).0 != (
                #[trigger] members[j]).0
            &&& forall|i: int|
                0 <= i < members.len() ==> unrepeated((#[trigger] members[i]).1)
        },
        _ => true,
    }
}

/// A list of texts is read as just those texts, and what is no list of texts not at all.
pub proof fn law_lists_of_texts(value: Option<JsonTree>, texts: Seq<Seq<char>>)
    ensures
        lists(value, texts) <==> text_list(value) == Some(texts),
{
    if text_list(value) == Some(texts) {
        let items = value->0->Array_0;
        assert forall|i: int| 0 <= i < items.len() implies #[trigger] items[i] == JsonTree::Text(
            texts[i],
        ) by {
            assert(texts[i] == items[i]->Text_0);
        }
    }
    if lists(value, texts) {
        let items = value->0->Array_0;
        assert(text_list(value)->0 =~= texts);
    }
}

} // verus!
