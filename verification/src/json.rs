//! A plain document model for JSON values.
//!
//! The caller parses and prints JSON text; the crate's logic reads and builds
//! documents of this shape. An object keeps its members in the order in which
//! it was handed over.

use vstd::prelude::*;
use vstd::string::StringExecFns;
use crate::text::str_eq;

verus! {

/// A JSON document.
#[derive(Debug, PartialEq, Eq)]
pub enum JsonValue {
    Null,
    Boolean(bool),
    /// A number, kept as the text of its literal.
    Number(String),
    Text(String),
    Array(Vec<JsonValue>),
    Object(Vec<(String, JsonValue)>),
}

/// A JSON document as a mathematical value.
pub enum JsonModel {
    Null,
    Boolean(bool),
    Number(Seq<char>),
    Text(Seq<char>),
    Array(Seq<JsonModel>),
    Object(Seq<(Seq<char>, JsonModel)>),
}

impl View for JsonValue {
    type V = JsonModel;

    open spec fn view(&self) -> JsonModel {
        model_of(*self)
    }
}

/// The mathematical value of a document.
pub open spec fn model_of(value: JsonValue) -> JsonModel
    decreases value, 0nat,
{
    match value {
        JsonValue::Null => JsonModel::Null,
        JsonValue::Boolean(flag) => JsonModel::Boolean(flag),
        JsonValue::Number(literal) => JsonModel::Number(literal@),
        JsonValue::Text(text) => JsonModel::Text(text@),
        JsonValue::Array(items) => JsonModel::Array(items_view(items@)),
        JsonValue::Object(members) => JsonModel::Object(members_view(members@)),
    }
}

/// The first `count` items of an array as mathematical values.
pub open spec fn items_view_upto(items: Seq<JsonValue>, count: nat) -> Seq<JsonModel>
    decreases items, count,
{
    if count == 0 || count > items.len() {
        Seq::empty()
    } else {
        items_view_upto(items, (count - 1) as nat).push(model_of(items[count - 1]))
    }
}

/// The items of an array as mathematical values.
pub open spec fn items_view(items: Seq<JsonValue>) -> Seq<JsonModel>
    decreases items, items.len() + 1,
{
    items_view_upto(items, items.len())
}

/// The first `count` members of an object as mathematical values.
pub open spec fn members_view_upto(members: Seq<(String, JsonValue)>, count: nat) -> Seq<
    (Seq<char>, JsonModel),
>
    decreases members, count,
{
    if count == 0 || count > members.len() {
        Seq::empty()
    } else {
        members_view_upto(members, (count - 1) as nat).push(
            (members[count - 1].0@, model_of(members[count - 1].1)),
        )
    }
}

/// The members of an object as mathematical values.
pub open spec fn members_view(members: Seq<(String, JsonValue)>) -> Seq<(Seq<char>, JsonModel)>
    decreases members, members.len() + 1,
{
    members_view_upto(members, members.len())
}

proof fn lemma_items_view_upto(items: Seq<JsonValue>, count: nat)
    requires
        count <= items.len(),
    ensures
        items_view_upto(items, count).len() == count,
        forall|i: int| 0 <= i < count ==> #[trigger] items_view_upto(items, count)[i] == items[i]@,
    decreases count,
{
    if count > 0 {
        lemma_items_view_upto(items, (count - 1) as nat);
    }
}

proof fn lemma_members_view_upto(members: Seq<(String, JsonValue)>, count: nat)
    requires
        count <= members.len(),
    ensures
        members_view_upto(members, count).len() == count,
        forall|i: int|
            0 <= i < count ==> #[trigger] members_view_upto(members, count)[i] == (
                members[i].0@,
                members[i].1@,
            ),
    decreases count,
{
    if count > 0 {
        lemma_members_view_upto(members, (count - 1) as nat);
    }
}

/// The view of an array holds the view of each item, in order.
pub broadcast proof fn lemma_items_view(items: Seq<JsonValue>)
    ensures
        (#[trigger] items_view(items)).len() == items.len(),
        forall|i: int| 0 <= i < items.len() ==> #[trigger] items_view(items)[i] == items[i]@,
{
    lemma_items_view_upto(items, items.len());
}

/// The view of an object holds the key and the view of the value of each
/// member, in order.
pub broadcast proof fn lemma_members_view(members: Seq<(String, JsonValue)>)
    ensures
        (#[trigger] members_view(members)).len() == members.len(),
        forall|i: int|
            0 <= i < members.len() ==> #[trigger] members_view(members)[i] == (
                members[i].0@,
                members[i].1@,
            ),
{
    lemma_members_view_upto(members, members.len());
}

/// The position of the first member of `members`, at or after `from`, whose
/// key is `key`.
pub open spec fn member_index_from(
    members: Seq<(Seq<char>, JsonModel)>,
    key: Seq<char>,
    from: int,
) -> Option<int>
    decreases members.len() - from,
{
    if from < 0 || from >= members.len() {
        None
    } else if members[from].0 == key {
        Some(from)
    } else {
        member_index_from(members, key, from + 1)
    }
}

/// The position of the first member of `members` whose key is `key`.
pub open spec fn member_index(members: Seq<(Seq<char>, JsonModel)>, key: Seq<char>) -> Option<int> {
    member_index_from(members, key, 0)
}

/// The value of the first member of `members` whose key is `key`.
pub open spec fn member(members: Seq<(Seq<char>, JsonModel)>, key: Seq<char>) -> Option<JsonModel> {
    match member_index(members, key) {
        Some(at) => Some(members[at].1),
        None => None,
    }
}

/// The text of the first member with the given key, where that member holds
/// a string.
pub open spec fn text_member(members: Seq<(Seq<char>, JsonModel)>, key: Seq<char>) -> Option<
    Seq<char>,
> {
    match member(members, key) {
        Some(JsonModel::Text(text)) => Some(text),
        _ => None,
    }
}

/// The position of the first member of an object with the given key.
pub fn find(members: &Vec<(String, JsonValue)>, key: &str) -> (found: Option<usize>)
    ensures
        match found {
            Some(at) => member_index(members_view(members@), key@) == Some(at as int) && at
                < members.len(),
            None => member_index(members_view(members@), key@) is None,
        },
{
    let mut i: usize = 0;
    while i < members.len()
        invariant
            i <= members.len(),
            member_index(members_view(members@), key@) == member_index_from(
                members_view(members@),
                key@,
                i as int,
            ),
        decreases members.len() - i,
    {
        proof {
            lemma_members_view(members@);
        }
        if str_eq(members[i].0.as_str(), key) {
            return Some(i);
        }
        i += 1;
    }
    proof {
        lemma_members_view(members@);
    }
    None
}

/// The first member of an object with the given key.
pub fn get<'a>(members: &'a Vec<(String, JsonValue)>, key: &str) -> (found: Option<&'a JsonValue>)
    ensures
        match found {
            Some(value) => member(members_view(members@), key@) == Some(value@),
            None => member(members_view(members@), key@) is None,
        },
{
    proof {
        lemma_members_view(members@);
    }
    match find(members, key) {
        Some(at) => Some(&members[at].1),
        None => None,
    }
}

/// The text of the first member with the given key, where it holds a string.
pub fn get_text<'a>(members: &'a Vec<(String, JsonValue)>, key: &str) -> (found: Option<&'a String>)
    ensures
        match found {
            Some(text) => text_member(members_view(members@), key@) == Some(text@),
            None => text_member(members_view(members@), key@) is None,
        },
{
    match get(members, key) {
        Some(JsonValue::Text(text)) => Some(text),
        _ => None,
    }
}

impl JsonValue {
    /// A string value that holds `text`.
    pub fn text(text: &str) -> (value: JsonValue)
        ensures
            value@ == JsonModel::Text(text@),
    {
        JsonValue::Text(String::from_str(text))
    }

    /// An object with the given members, in their order.
    pub fn object(members: Vec<(String, JsonValue)>) -> (value: JsonValue)
        ensures
            value@ == JsonModel::Object(members_view(members@)),
    {
        JsonValue::Object(members)
    }

    /// An array with the given items, in their order.
    pub fn array(items: Vec<JsonValue>) -> (value: JsonValue)
        ensures
            value@ == JsonModel::Array(items_view(items@)),
    {
        JsonValue::Array(items)
    }

    /// An object with the one member `key`.
    pub fn object_of(key: &str, member: JsonValue) -> (value: JsonValue)
        ensures
            value@ == JsonModel::Object(seq![(key@, member@)]),
    {
        let mut members: Vec<(String, JsonValue)> = Vec::new();
        members.push((String::from_str(key), member));
        proof {
            lemma_members_view(members@);
            assert(members_view(members@) =~= seq![(key@, member@)]);
        }
        JsonValue::Object(members)
    }
}

} // verus!
