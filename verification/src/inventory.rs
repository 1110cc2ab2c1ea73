//! The remote model inventory and the set difference against what is required.

use vstd::prelude::*;
use vstd::string::StringExecFns;
use crate::failure::FailureKind;
use crate::http::{is_success, status_is_success};
use crate::json::{get, lemma_items_view, member, JsonModel, JsonValue};
use crate::text::str_eq;

verus! {

/// One entry of the remote inventory. An entry may be listed under several
/// tags, or under none at all.
#[derive(Debug, PartialEq, Eq)]
pub struct DmrModelEntry {
    pub tags: Option<Vec<String>>,
}

impl View for DmrModelEntry {
    type V = Option<Seq<Seq<char>>>;

    open spec fn view(&self) -> Option<Seq<Seq<char>>> {
        match self.tags {
            Some(tags) => Some(names(tags@)),
            None => None,
        }
    }
}

/// Whether an entry lists `id` as one of its tags.
pub open spec fn carries(entry: Option<Seq<Seq<char>>>, id: Seq<char>) -> bool {
    match entry {
        Some(tags) => tags.contains(id),
        None => false,
    }
}

impl DmrModelEntry {
    /// Whether one of this entry's tags is exactly `model_id`.
    pub fn has_tag(&self, model_id: &str) -> (found: bool)
        ensures
            found == carries(self@, model_id@),
    {
        match &self.tags {
            None => false,
            Some(tags) => {
                let mut i: usize = 0;
                while i < tags.len()
                    invariant
                        i <= tags.len(),
                        self@ == Some(names(tags@)),
                        forall|k: int| 0 <= k < i ==> names(tags@)[k] != model_id@,
                    decreases tags.len() - i,
                {
                    if str_eq(tags[i].as_str(), model_id) {
                        assert(names(tags@)[i as int] == model_id@);
                        return true;
                    }
                    i += 1;
                }
                false
            },
        }
    }
}

/// The identifiers that an inventory listing makes available: every tag of
/// every entry.
pub open spec fn snapshot_of(entries: Seq<Option<Seq<Seq<char>>>>) -> Set<Seq<char>> {
    Set::new(
        |id: Seq<char>| exists|i: int| 0 <= i < entries.len() && carries(#[trigger] entries[i], id),
    )
}

/// The views of a list of entries.
pub open spec fn entries_view(entries: Seq<DmrModelEntry>) -> Seq<Option<Seq<Seq<char>>>> {
    entries.map_values(|entry: DmrModelEntry| entry@)
}

/// The character sequences of a list of identifiers.
pub open spec fn names(ids: Seq<String>) -> Seq<Seq<char>> {
    ids.map_values(|id: String| id@)
}

/// The required identifiers that a snapshot does not hold, in the order in
/// which they are required.
pub open spec fn missing(required: Seq<Seq<char>>, snapshot: Set<Seq<char>>) -> Seq<Seq<char>> {
    required.filter(|id: Seq<char>| !snapshot.contains(id))
}

/// Whether the inventory lists `model_id` under any tag of any entry.
pub fn contains_model(models: &[DmrModelEntry], model_id: &str) -> (found: bool)
    ensures
        found == snapshot_of(entries_view(models@)).contains(model_id@),
{
    let mut i: usize = 0;
    while i < models.len()
        invariant
            i <= models.len(),
            forall|k: int| 0 <= k < i ==> !carries(#[trigger] entries_view(models@)[k], model_id@),
        decreases models.len() - i,
    {
        if models[i].has_tag(model_id) {
            assert(carries(entries_view(models@)[i as int], model_id@));
            return true;
        }
        i += 1;
    }
    false
}

/// The required models that the inventory does not list, in required order.
pub fn missing_models(models: &[DmrModelEntry], required_models: &[String]) -> (pending: Vec<
    String,
>)
    ensures
        names(pending@) == missing(names(required_models@), snapshot_of(entries_view(models@))),
{
    let mut pending: Vec<String> = Vec::new();
    let mut i: usize = 0;
    proof {
        reveal(Seq::filter);
        assert(names(required_models@).take(0) =~= Seq::empty());
        assert(names(pending@) =~= Seq::empty());
    }
    while i < required_models.len()
        invariant
            i <= required_models.len(),
            names(pending@) == missing(
                names(required_models@).take(i as int),
                snapshot_of(entries_view(models@)),
            ),
        decreases required_models.len() - i,
    {
        let ghost before = names(pending@);
        let ghost prefix = names(required_models@).take(i as int);
        let ghost next = names(required_models@).take(i + 1);
        proof {
            reveal(Seq::filter);
            assert(next.drop_last() =~= prefix);
            assert(next.last() == required_models@[i as int]@);
        }
        if !contains_model(models, required_models[i].as_str()) {
            pending.push(required_models[i].clone());
            assert(names(pending@) =~= before.push(required_models@[i as int]@));
        }
        i += 1;
    }
    assert(names(required_models@).take(i as int) =~= names(required_models@));
    pending
}

/// Why the inventory could not be listed.
#[derive(Debug, PartialEq, Eq)]
pub enum InventoryError {
    /// The request could not be sent or answered.
    Unreachable { detail: String },
    /// The inventory answered outside the success class.
    Rejected { status: u16, body: String },
    /// The answer was not a list of entries.
    Malformed { detail: String },
}

/// An inventory failure as a mathematical value.
pub enum InventoryFailure {
    Unreachable { detail: Seq<char> },
    Rejected { status: u16, body: Seq<char> },
    Malformed { detail: Seq<char> },
}

impl View for InventoryError {
    type V = InventoryFailure;

    open spec fn view(&self) -> InventoryFailure {
        match self {
            InventoryError::Unreachable { detail } => InventoryFailure::Unreachable {
                detail: detail@,
            },
            InventoryError::Rejected { status, body } => InventoryFailure::Rejected {
                status: *status,
                body: body@,
            },
            InventoryError::Malformed { detail } => InventoryFailure::Malformed { detail: detail@ },
        }
    }
}

impl InventoryFailure {
    /// The kind of this failure.
    pub open spec fn kind(self) -> FailureKind {
        match self {
            InventoryFailure::Unreachable { .. } => FailureKind::Transient,
            InventoryFailure::Rejected { .. } => FailureKind::RemoteRejected,
            InventoryFailure::Malformed { .. } => FailureKind::Fatal,
        }
    }
}

impl InventoryError {
    /// The kind of this failure.
    pub fn kind(&self) -> (kind: FailureKind)
        ensures
            kind == self@.kind(),
    {
        match self {
            InventoryError::Unreachable { .. } => FailureKind::Transient,
            InventoryError::Rejected { .. } => FailureKind::RemoteRejected,
            InventoryError::Malformed { .. } => FailureKind::Fatal,
        }
    }
}

/// What came back from the inventory endpoint.
#[derive(Debug, PartialEq, Eq)]
pub enum ListingReply {
    /// The request failed before a status was received.
    RequestFailed { detail: String },
    /// A status was received. `body` is the text of the body where it could
    /// be read, `document` the body parsed as JSON or the parser's complaint.
    Received { status: u16, body: Option<String>, document: Result<JsonValue, String> },
}

/// The tags of a list of JSON strings; `None` where an item is no string.
pub open spec fn tag_list(items: Seq<JsonModel>) -> Option<Seq<Seq<char>>> {
    if forall|i: int| 0 <= i < items.len() ==> #[trigger] items[i] is Text {
        Some(Seq::new(items.len(), |i: int| items[i]->Text_0))
    } else {
        None
    }
}

/// The entry that a JSON value describes: an object whose member `tags` is
/// absent, null, or a list of strings. `None` where the value is none of
/// these.
pub open spec fn entry_of(value: JsonModel) -> Option<Option<Seq<Seq<char>>>> {
    match value {
        JsonModel::Object(members) => match member(members, "tags"@) {
            None => Some(None),
            Some(JsonModel::Null) => Some(None),
            Some(JsonModel::Array(items)) => match tag_list(items) {
                Some(tags) => Some(Some(tags)),
                None => None,
            },
            Some(_) => None,
        },
        _ => None,
    }
}

/// The entries that a JSON document lists: an array of entries. `None`
/// where the document is no array or one of its items is no entry.
pub open spec fn entries_of(document: JsonModel) -> Option<Seq<Option<Seq<Seq<char>>>>> {
    match document {
        JsonModel::Array(items) => if forall|i: int|
            0 <= i < items.len() ==> entry_of(#[trigger] items[i]) is Some {
            Some(Seq::new(items.len(), |i: int| entry_of(items[i])->0))
        } else {
            None
        },
        _ => None,
    }
}

/// The text that stands for a body that could not be read.
pub open spec fn body_text(body: Option<String>) -> Seq<char> {
    match body {
        Some(body) => body@,
        None => "<unable to read response body>"@,
    }
}

/// The view of an interpreted listing.
pub open spec fn listing_view(listing: Result<Vec<DmrModelEntry>, InventoryError>) -> Result<
    Seq<Option<Seq<Seq<char>>>>,
    InventoryFailure,
> {
    match listing {
        Ok(entries) => Ok(entries_view(entries@)),
        Err(error) => Err(error@),
    }
}

/// What a reply of the inventory endpoint amounts to. A reply outside the
/// success class is rejected with its status and body; otherwise the body
/// must parse as a list of entries.
pub open spec fn listing_of(reply: ListingReply) -> Result<
    Seq<Option<Seq<Seq<char>>>>,
    InventoryFailure,
> {
    match reply {
        ListingReply::RequestFailed { detail } => Err(
            InventoryFailure::Unreachable { detail: detail@ },
        ),
        ListingReply::Received { status, body, document } => if !status_is_success(status) {
            Err(InventoryFailure::Rejected { status, body: body_text(body) })
        } else {
            match document {
                Err(detail) => Err(InventoryFailure::Malformed { detail: detail@ }),
                Ok(document) => match entries_of(document@) {
                    Some(entries) => Ok(entries),
                    None => Err(
                        InventoryFailure::Malformed { detail: "expected a list of entries"@ },
                    ),
                },
            }
        },
    }
}

/// Reads a list of tags from the items of a JSON array.
fn decode_tags(items: &Vec<JsonValue>) -> (tags: Option<Vec<String>>)
    ensures
        match tags {
            Some(tags) => tag_list(crate::json::items_view(items@)) == Some(names(tags@)),
            None => tag_list(crate::json::items_view(items@)) is None,
        },
{
    let ghost models = crate::json::items_view(items@);
    proof {
        lemma_items_view(items@);
    }
    let mut tags: Vec<String> = Vec::new();
    let mut i: usize = 0;
    while i < items.len()
        invariant
            i <= items.len(),
            models == crate::json::items_view(items@),
            models.len() == items@.len(),
            forall|k: int| 0 <= k < items@.len() ==> #[trigger] models[k] == items@[k]@,
            tags@.len() == i,
            forall|k: int| 0 <= k < i ==> #[trigger] models[k] is Text,
            forall|k: int| 0 <= k < i ==> #[trigger] tags@[k]@ == models[k]->Text_0,
        decreases items.len() - i,
    {
        match &items[i] {
            JsonValue::Text(tag) => {
                tags.push(tag.clone());
            },
            _ => {
                assert(!(models[i as int] is Text));
                return None;
            },
        }
        i += 1;
    }
    assert(names(tags@) =~= tag_list(models)->0);
    Some(tags)
}

/// Reads one entry from a JSON value.
fn decode_entry(value: &JsonValue) -> (entry: Option<DmrModelEntry>)
    ensures
        match entry {
            Some(entry) => entry_of(value@) == Some(entry@),
            None => entry_of(value@) is None,
        },
{
    match value {
        JsonValue::Object(members) => match get(members, "tags") {
            None => Some(DmrModelEntry { tags: None }),
            Some(JsonValue::Null) => Some(DmrModelEntry { tags: None }),
            Some(JsonValue::Array(items)) => match decode_tags(items) {
                Some(tags) => Some(DmrModelEntry { tags: Some(tags) }),
                None => None,
            },
            Some(_) => None,
        },
        _ => None,
    }
}

/// Reads the entries that a JSON document lists.
pub fn decode_entries(document: &JsonValue) -> (entries: Option<Vec<DmrModelEntry>>)
    ensures
        match entries {
            Some(entries) => entries_of(document@) == Some(entries_view(entries@)),
            None => entries_of(document@) is None,
        },
{
    match document {
        JsonValue::Array(items) => {
            let ghost models = crate::json::items_view(items@);
            proof {
                lemma_items_view(items@);
            }
            let mut entries: Vec<DmrModelEntry> = Vec::new();
            let mut i: usize = 0;
            while i < items.len()
                invariant
                    i <= items.len(),
                    models == crate::json::items_view(items@),
                    models.len() == items@.len(),
                    forall|k: int| 0 <= k < items@.len() ==> #[trigger] models[k] == items@[k]@,
                    document@ == JsonModel::Array(models),
                    entries@.len() == i,
                    forall|k: int| 0 <= k < i ==> entry_of(#[trigger] models[k]) is Some,
                    forall|k: int|
                        0 <= k < i ==> Some((#[trigger] entries@[k])@) == entry_of(models[k]),
                decreases items.len() - i,
            {
                match decode_entry(&items[i]) {
                    Some(entry) => {
                        entries.push(entry);
                    },
                    None => {
                        assert(entry_of(models[i as int]) is None);
                        return None;
                    },
                }
                i += 1;
            }
            assert(entries_view(entries@) =~= entries_of(document@)->0);
            Some(entries)
        },
        _ => None,
    }
}

/// Interprets the reply of the inventory endpoint.
pub fn interpret_listing(reply: ListingReply) -> (listing: Result<
    Vec<DmrModelEntry>,
    InventoryError,
>)
    ensures
        listing_view(listing) == listing_of(reply),
{
    match reply {
        ListingReply::RequestFailed { detail } => Err(InventoryError::Unreachable { detail }),
        ListingReply::Received { status, body, document } => {
            if !is_success(status) {
                let body = match body {
                    Some(body) => body,
                    None => String::from_str("<unable to read response body>"),
                };
                return Err(InventoryError::Rejected { status, body });
            }
            match document {
                Err(detail) => Err(InventoryError::Malformed { detail }),
                Ok(document) => match decode_entries(&document) {
                    Some(entries) => Ok(entries),
                    None => Err(
                        InventoryError::Malformed {
                            detail: String::from_str("expected a list of entries"),
                        },
                    ),
                },
            }
        },
    }
}

/// An identifier is pending exactly when it is required and no entry of the
/// snapshot lists it under any tag.
pub proof fn lemma_missing_membership(
    required: Seq<Seq<char>>,
    snapshot: Set<Seq<char>>,
    id: Seq<char>,
)
    ensures
        missing(required, snapshot).contains(id) <==> required.contains(id) && !snapshot.contains(
            id,
        ),
{
    let keep = |id: Seq<char>| !snapshot.contains(id);
    let pending = required.filter(keep);
    if pending.contains(id) {
        required.lemma_filter_contains_rev(keep, id);
        let at = choose|at: int| 0 <= at < pending.len() && pending[at] == id;
        required.lemma_filter_pred(keep, at);
    }
    if required.contains(id) && !snapshot.contains(id) {
        let at = choose|at: int| 0 <= at < required.len() && required[at] == id;
        required.lemma_filter_contains(keep, at);
    }
}

/// What is missing is decided identifier by identifier, in required order:
/// nothing is missing of nothing, and one more required identifier is missing
/// as well exactly when the snapshot does not hold it.
pub proof fn lemma_missing_by_identifier(
    required: Seq<Seq<char>>,
    snapshot: Set<Seq<char>>,
    id: Seq<char>,
)
    ensures
        missing(Seq::empty(), snapshot) == Seq::<Seq<char>>::empty(),
        missing(required.push(id), snapshot) == if snapshot.contains(id) {
            missing(required, snapshot)
        } else {
            missing(required, snapshot).push(id)
        },
{
    reveal(Seq::filter);
    assert(required.push(id).drop_last() =~= required);
}

/// What is missing depends on nothing but the listing and the required
/// identifiers: any two results of `missing_models` for the same listing and
/// the same required identifiers hold the same identifiers in the same order.
pub proof fn lemma_missing_is_determined(
    models: Seq<DmrModelEntry>,
    required: Seq<String>,
    first: Seq<String>,
    second: Seq<String>,
)
    requires
        names(first) == missing(names(required), snapshot_of(entries_view(models))),
        names(second) == missing(names(required), snapshot_of(entries_view(models))),
    ensures
        names(first) == names(second),
        first.len() == second.len(),
        forall|i: int| 0 <= i < first.len() ==> (#[trigger] first[i])@ == second[i]@,
{
    assert(names(first).len() == first.len());
    assert(names(second).len() == second.len());
    assert forall|i: int| 0 <= i < first.len() implies (#[trigger] first[i])@ == second[i]@ by {
        assert(names(first)[i] == first[i]@);
        assert(names(second)[i] == second[i]@);
    }
}

/// Nothing is pending exactly when the snapshot holds every required
/// identifier.
pub proof fn lemma_missing_empty(required: Seq<Seq<char>>, snapshot: Set<Seq<char>>)
    ensures
        missing(required, snapshot).len() == 0 <==> forall|i: int|
            0 <= i < required.len() ==> snapshot.contains(#[trigger] required[i]),
{
    let pending = missing(required, snapshot);
    if pending.len() == 0 {
        assert forall|i: int| 0 <= i < required.len() implies snapshot.contains(
            #[trigger] required[i],
        ) by {
            lemma_missing_membership(required, snapshot, required[i]);
            assert(required.contains(required[i]));
        }
    } else {
        lemma_missing_membership(required, snapshot, pending[0]);
        assert(pending.contains(pending[0]));
        let at = choose|at: int| 0 <= at < required.len() && required[at] == pending[0];
        assert(!snapshot.contains(required[at]));
    }
}

/// Polling again never makes the pending identifiers grow: what is still
/// missing after a later snapshot was already missing before, and there are
/// no more of them.
pub proof fn lemma_missing_shrinks(
    required: Seq<Seq<char>>,
    earlier: Set<Seq<char>>,
    later: Set<Seq<char>>,
)
    ensures
        missing(missing(required, earlier), later).len() <= missing(required, earlier).len(),
        forall|id: Seq<char>|
            missing(missing(required, earlier), later).contains(id) ==> #[trigger] missing(
                required,
                earlier,
            ).contains(id),
{
    let before = missing(required, earlier);
    before.lemma_filter_len(|id: Seq<char>| !later.contains(id));
    assert forall|id: Seq<char>| missing(before, later).contains(id) implies #[trigger]
        before.contains(id) by {
        lemma_missing_membership(before, later, id);
    }
}

} // verus!
