//! The search for an inline image in a generation response.
//!
//! The response is a deeply nested document; the image is located by its
//! shape and not by a fixed path.

use vstd::prelude::*;
use vstd::string::StringExecFns;
use crate::codec::{base64_standard_decoding, decode_standard};
use crate::json::{
    find, get_text, items_view, lemma_items_view, lemma_members_view, member_index, members_view,
    text_member, JsonModel, JsonValue,
};
use crate::text::{trim, trimmed};

verus! {

broadcast use {lemma_items_view, lemma_members_view};

/// A located image: its base64 text and, where the document names one, its
/// content type.
pub type ImageText = (Seq<char>, Option<Seq<char>>);

/// Whether a trimmed string can be an image payload: more than 32 bytes long
/// and accepted by the standard base64 decoder.
pub open spec fn plausible_payload(text: Seq<char>) -> bool {
    vstd::utf8::encode_utf8(text).len() > 32 && base64_standard_decoding(text) is Some
}

/// The trimmed text of the member `key`, where that member is a string and a
/// plausible payload.
pub open spec fn payload_under(members: Seq<(Seq<char>, JsonModel)>, key: Seq<char>) -> Option<
    Seq<char>,
> {
    match text_member(members, key) {
        Some(text) => if plausible_payload(trimmed(text)) {
            Some(trimmed(text))
        } else {
            None
        },
        None => None,
    }
}

/// The payload that an object holds directly, under the first of the keys
/// `data`, `bytesBase64` and `b64_json` that gives one.
pub open spec fn own_payload(members: Seq<(Seq<char>, JsonModel)>) -> Option<Seq<char>> {
    if payload_under(members, "data"@) is Some {
        payload_under(members, "data"@)
    } else if payload_under(members, "bytesBase64"@) is Some {
        payload_under(members, "bytesBase64"@)
    } else {
        payload_under(members, "b64_json"@)
    }
}

/// The first image in `value`, in visiting order: for an object, what lies
/// under its `inlineData` member, then its own payload, then its members in
/// order; for an array, its items in order.
pub open spec fn image_in(value: JsonModel) -> Option<ImageText>
    decreases value, 0nat,
{
    match value {
        JsonModel::Object(members) => {
            let inline = match member_index(members, "inlineData"@) {
                Some(at) => if 0 <= at < members.len() {
                    image_in(members[at].1)
                } else {
                    None
                },
                None => None,
            };
            if inline is Some {
                inline
            } else if own_payload(members) is Some {
                Some((own_payload(members)->0, text_member(members, "mimeType"@)))
            } else {
                image_among_members(members, 0)
            }
        },
        JsonModel::Array(items) => image_among_items(items, 0),
        _ => None,
    }
}

/// The first image in the values of `members`, from position `from` on.
pub open spec fn image_among_members(members: Seq<(Seq<char>, JsonModel)>, from: int) -> Option<
    ImageText,
>
    decreases members, members.len() - from,
{
    if from < 0 || from >= members.len() {
        None
    } else if image_in(members[from].1) is Some {
        image_in(members[from].1)
    } else {
        image_among_members(members, from + 1)
    }
}

/// The first image in `items`, from position `from` on.
pub open spec fn image_among_items(items: Seq<JsonModel>, from: int) -> Option<ImageText>
    decreases items, items.len() - from,
{
    if from < 0 || from >= items.len() {
        None
    } else if image_in(items[from]) is Some {
        image_in(items[from])
    } else {
        image_among_items(items, from + 1)
    }
}

/// Whatever image the search locates is a plausible payload: longer than 32
/// bytes and accepted by the decoder.
pub proof fn lemma_image_is_plausible(value: JsonModel)
    ensures
        image_in(value) matches Some(found) ==> plausible_payload(found.0),
    decreases value, 0nat,
{
    match value {
        JsonModel::Object(members) => {
            match member_index(members, "inlineData"@) {
                Some(at) => {
                    if 0 <= at < members.len() {
                        lemma_image_is_plausible(members[at].1);
                    }
                },
                None => {},
            }
            lemma_member_image_is_plausible(members, 0);
        },
        JsonModel::Array(items) => {
            lemma_item_image_is_plausible(items, 0);
        },
        _ => {},
    }
}

proof fn lemma_member_image_is_plausible(members: Seq<(Seq<char>, JsonModel)>, from: int)
    ensures
        image_among_members(members, from) matches Some(found) ==> plausible_payload(found.0),
    decreases members, members.len() - from,
{
    if 0 <= from < members.len() {
        lemma_image_is_plausible(members[from].1);
        lemma_member_image_is_plausible(members, from + 1);
    }
}

proof fn lemma_item_image_is_plausible(items: Seq<JsonModel>, from: int)
    ensures
        image_among_items(items, from) matches Some(found) ==> plausible_payload(found.0),
    decreases items, items.len() - from,
{
    if 0 <= from < items.len() {
        lemma_image_is_plausible(items[from]);
        lemma_item_image_is_plausible(items, from + 1);
    }
}

/// The located image as character sequences.
pub open spec fn image_text(found: Option<(String, Option<String>)>) -> Option<ImageText> {
    match found {
        Some((data, Some(mime))) => Some((data@, Some(mime@))),
        Some((data, None)) => Some((data@, None)),
        None => None,
    }
}

/// The trimmed payload under `key`, where there is a plausible one.
fn payload_at(members: &Vec<(String, JsonValue)>, key: &str) -> (found: Option<String>)
    ensures
        match found {
            Some(data) => payload_under(members_view(members@), key@) == Some(data@),
            None => payload_under(members_view(members@), key@) is None,
        },
{
    match get_text(members, key) {
        Some(text) => {
            let core = trim(text.as_str());
            if core.as_bytes().len() > 32 && decode_standard(core).is_ok() {
                Some(String::from_str(core))
            } else {
                None
            }
        },
        None => None,
    }
}

/// The payload that an object holds directly.
fn direct_payload(members: &Vec<(String, JsonValue)>) -> (found: Option<String>)
    ensures
        match found {
            Some(data) => own_payload(members_view(members@)) == Some(data@),
            None => own_payload(members_view(members@)) is None,
        },
{
    let data = payload_at(members, "data");
    if data.is_some() {
        return data;
    }
    let bytes = payload_at(members, "bytesBase64");
    if bytes.is_some() {
        return bytes;
    }
    payload_at(members, "b64_json")
}

/// What is left to do of a search: a value to look into, or the members of
/// an object whose `inlineData` member has been looked into without success.
enum Task<'a> {
    Visit(&'a JsonValue),
    Rest(&'a Vec<(String, JsonValue)>),
}

/// The image of an object whose `inlineData` member holds none: its own
/// payload, or else the first image in its members.
spec fn rest_image(members: Seq<(Seq<char>, JsonModel)>) -> Option<ImageText> {
    if own_payload(members) is Some {
        Some((own_payload(members)->0, text_member(members, "mimeType"@)))
    } else {
        image_among_members(members, 0)
    }
}

/// The image that a task comes to.
spec fn task_image<'a>(task: Task<'a>) -> Option<ImageText> {
    match task {
        Task::Visit(value) => image_in(value@),
        Task::Rest(members) => rest_image(members_view(members@)),
    }
}

/// The image that the tasks on a stack come to: that of the topmost task
/// that comes to one.
spec fn stack_image<'a>(stack: Seq<Task<'a>>) -> Option<ImageText>
    decreases stack.len(),
{
    if stack.len() == 0 {
        None
    } else if task_image(stack.last()) is Some {
        task_image(stack.last())
    } else {
        stack_image(stack.drop_last())
    }
}

/// A bound on the tasks that looking into a value takes. An object counts
/// its members twice: once for its `inlineData` member, once for them all.
spec fn weight(value: JsonValue) -> nat
    decreases value, 0nat,
{
    match value {
        JsonValue::Array(items) => 1 + items_weight(items@, items@.len()),
        JsonValue::Object(members) => 2 + 2 * members_weight(members@, members@.len()),
        _ => 1,
    }
}

/// The weight of the first `count` items.
spec fn items_weight(items: Seq<JsonValue>, count: nat) -> nat
    decreases items, count,
{
    if count == 0 || count > items.len() {
        0
    } else {
        items_weight(items, (count - 1) as nat) + weight(items[count - 1])
    }
}

/// The weight of the values of the first `count` members.
spec fn members_weight(members: Seq<(String, JsonValue)>, count: nat) -> nat
    decreases members, count,
{
    if count == 0 || count > members.len() {
        0
    } else {
        members_weight(members, (count - 1) as nat) + weight(members[count - 1].1)
    }
}

/// A bound on the tasks that a task takes.
spec fn task_weight<'a>(task: Task<'a>) -> nat {
    match task {
        Task::Visit(value) => weight(*value),
        Task::Rest(members) => 1 + members_weight(members@, members@.len()),
    }
}

/// A bound on the tasks that a stack takes.
spec fn stack_weight<'a>(stack: Seq<Task<'a>>) -> nat
    decreases stack.len(),
{
    if stack.len() == 0 {
        0
    } else {
        stack_weight(stack.drop_last()) + task_weight(stack.last())
    }
}

/// A member's value weighs no more than the members together.
proof fn lemma_member_weight(members: Seq<(String, JsonValue)>, count: nat, at: int)
    requires
        0 <= at < count <= members.len(),
    ensures
        weight(members[at].1) <= members_weight(members, count),
    decreases count,
{
    if at < count - 1 {
        lemma_member_weight(members, (count - 1) as nat, at);
    }
}

/// A task on top of a stack comes first, and adds its weight.
proof fn lemma_pushed<'a>(stack: Seq<Task<'a>>, task: Task<'a>)
    ensures
        stack_image(stack.push(task)) == if task_image(task) is Some {
            task_image(task)
        } else {
            stack_image(stack)
        },
        stack_weight(stack.push(task)) == stack_weight(stack) + task_weight(task),
{
    assert(stack.push(task).drop_last() =~= stack);
    assert(stack.push(task).last() == task);
}

/// Puts the items of an array on the stack, the first on top.
fn push_items<'a>(stack: &mut Vec<Task<'a>>, items: &'a Vec<JsonValue>)
    ensures
        stack_image(final(stack)@) == if image_among_items(items_view(items@), 0) is Some {
            image_among_items(items_view(items@), 0)
        } else {
            stack_image(old(stack)@)
        },
        stack_weight(final(stack)@) == stack_weight(old(stack)@) + items_weight(
            items@,
            items@.len(),
        ),
{
    let ghost below = stack@;
    let ghost models = items_view(items@);
    let mut k: usize = items.len();
    while k > 0
        invariant
            k <= items.len(),
            models == items_view(items@),
            stack_image(stack@) == if image_among_items(models, k as int) is Some {
                image_among_items(models, k as int)
            } else {
                stack_image(below)
            },
            stack_weight(stack@) + items_weight(items@, k as nat) == stack_weight(below)
                + items_weight(items@, items@.len()),
        decreases k,
    {
        k -= 1;
        proof {
            lemma_pushed(stack@, Task::Visit(&items[k as int]));
            assert(models[k as int] == items@[k as int]@);
        }
        stack.push(Task::Visit(&items[k]));
    }
}

/// Puts the values of the members of an object on the stack, the first on
/// top.
fn push_members<'a>(stack: &mut Vec<Task<'a>>, members: &'a Vec<(String, JsonValue)>)
    ensures
        stack_image(final(stack)@) == if image_among_members(members_view(members@), 0) is Some {
            image_among_members(members_view(members@), 0)
        } else {
            stack_image(old(stack)@)
        },
        stack_weight(final(stack)@) == stack_weight(old(stack)@) + members_weight(
            members@,
            members@.len(),
        ),
{
    let ghost below = stack@;
    let ghost models = members_view(members@);
    let mut k: usize = members.len();
    while k > 0
        invariant
            k <= members.len(),
            models == members_view(members@),
            stack_image(stack@) == if image_among_members(models, k as int) is Some {
                image_among_members(models, k as int)
            } else {
                stack_image(below)
            },
            stack_weight(stack@) + members_weight(members@, k as nat) == stack_weight(below)
                + members_weight(members@, members@.len()),
        decreases k,
    {
        k -= 1;
        proof {
            lemma_pushed(stack@, Task::Visit(&members[k as int].1));
            assert(models[k as int].1 == members@[k as int].1@);
        }
        stack.push(Task::Visit(&members[k].1));
    }
}

/// Searches a document for an inline base64 image and returns its trimmed
/// text with the content type that stands beside it. The document is walked
/// with a stack of its own, so that no nesting is too deep for it.
pub fn extract_base64_image(value: &JsonValue) -> (found: Option<(String, Option<String>)>)
    ensures
        image_text(found) == image_in(value@),
{
    let mut stack: Vec<Task> = Vec::new();
    proof {
        lemma_pushed(stack@, Task::Visit(value));
    }
    stack.push(Task::Visit(value));
    while stack.len() > 0
        invariant
            stack_image(stack@) == image_in(value@),
        decreases stack_weight(stack@),
    {
        let ghost before = stack@;
        let task = stack.pop();
        let ghost below = stack@;
        assert(before.drop_last() == below);
        match task {
            Some(Task::Visit(node)) => {
                assert(before.last() == Task::Visit(node));
                match node {
                    JsonValue::Object(members) => {
                        proof {
                            lemma_pushed(below, Task::Rest(members));
                        }
                        stack.push(Task::Rest(members));
                        if let Some(at) = find(members, "inlineData") {
                            proof {
                                lemma_pushed(stack@, Task::Visit(&members[at as int].1));
                                lemma_member_weight(members@, members@.len(), at as int);
                                assert(members_view(members@)[at as int].1
                                    == members@[at as int].1@);
                            }
                            stack.push(Task::Visit(&members[at].1));
                        }
                    },
                    JsonValue::Array(items) => {
                        push_items(&mut stack, items);
                    },
                    _ => {},
                }
            },
            Some(Task::Rest(members)) => {
                assert(before.last() == Task::Rest(members));
                if let Some(data) = direct_payload(members) {
                    let mime = match get_text(members, "mimeType") {
                        Some(mime) => Some(mime.clone()),
                        None => None,
                    };
                    return Some((data, mime));
                }
                push_members(&mut stack, members);
            },
            None => {},
        }
    }
    None
}

} // verus!
