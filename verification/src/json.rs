//! JSON documents as trees, read and written by serde_json.
//!
//! The library builds and inspects trees of its own type, `Json`. Turning
//! bytes into a tree and a tree into text is left to serde_json; what it
//! returns is named here and not described further.

use vstd::prelude::*;

verus! {

/// A JSON document.
#[derive(Debug)]
pub enum Json {
    Null,
    Bool(bool),
    /// A number. `None` stands for one that is not an integer of an `i64`.
    Number(Option<i64>),
    Text(String),
    Array(Vec<Json>),
    /// The members of an object, in the order of the document.
    Object(Vec<(String, Json)>),
}

/// What a `Json` holds, as plain values.
pub enum JsonView {
    Null,
    Bool(bool),
    Number(Option<i64>),
    Text(Seq<char>),
    Array(Seq<JsonView>),
    Object(Seq<(Seq<char>, JsonView)>),
}

impl View for Json {
    type V = JsonView;

    open spec fn view(&self) -> JsonView {
        json_view(*self)
    }
}

/// The document that a `Json` holds.
pub open spec fn json_view(json: Json) -> JsonView
    decreases json, 0nat,
{
    match json {
        Json::Null => JsonView::Null,
        Json::Bool(b) => JsonView::Bool(b),
        Json::Number(n) => JsonView::Number(n),
        Json::Text(s) => JsonView::Text(s@),
        Json::Array(items) => JsonView::Array(items_view(items@, items@.len())),
        Json::Object(members) => JsonView::Object(members_view(members@, members@.len())),
    }
}

/// The documents that the first `count` of `items` hold.
pub open spec fn items_view(items: Seq<Json>, count: nat) -> Seq<JsonView>
    decreases items, count,
{
    if count == 0 || count > items.len() {
        Seq::empty()
    } else {
        items_view(items, (count - 1) as nat).push(json_view(items[count - 1]))
    }
}

/// The names and documents that the first `count` of `members` hold.
pub open spec fn members_view(members: Seq<(String, Json)>, count: nat) -> Seq<
    (Seq<char>, JsonView),
>
    decreases members, count,
{
    if count == 0 || count > members.len() {
        Seq::empty()
    } else {
        members_view(members, (count - 1) as nat).push(
            (members[count - 1].0@, json_view(members[count - 1].1)),
        )
    }
}

/// `items_view` goes item by item.
pub proof fn lemma_items_view(items: Seq<Json>, count: nat)
    requires
        count <= items.len(),
    ensures
        items_view(items, count).len() == count,
        forall|i: int| 0 <= i < count ==> items_view(items, count)[i] == items[i]@,
    decreases count,
{
    if count > 0 {
        lemma_items_view(items, (count - 1) as nat);
    }
}

/// `members_view` goes member by member.
pub proof fn lemma_members_view(members: Seq<(String, Json)>, count: nat)
    requires
        count <= members.len(),
    ensures
        members_view(members, count).len() == count,
        forall|i: int|
            0 <= i < count ==> members_view(members, count)[i] == (members[i].0@, members[i].1@),
    decreases count,
{
    if count > 0 {
        lemma_members_view(members, (count - 1) as nat);
    }
}

/// The view of a list is the list of the views of its items.
pub proof fn lemma_array_view(items: Vec<Json>)
    ensures
        Json::Array(items)@ matches JsonView::Array(viewed) && viewed.len() == items@.len()
            && forall|i: int| 0 <= i < items@.len() ==> viewed[i] == items@[i]@,
{
    lemma_items_view(items@, items@.len());
}

/// The view of an object is the list of its members, each with the views of
/// its name and its document.
pub proof fn lemma_object_view(members: Vec<(String, Json)>)
    ensures
        Json::Object(members)@ matches JsonView::Object(viewed) && viewed.len() == members@.len()
            && forall|i: int|
            0 <= i < members@.len() ==> viewed[i] == (members@[i].0@, members@[i].1@),
{
    lemma_members_view(members@, members@.len());
}

/// The names of the members of an object, in order.
pub open spec fn member_names(members: Seq<(Seq<char>, JsonView)>) -> Seq<Seq<char>> {
    members.map_values(|member: (Seq<char>, JsonView)| member.0)
}

impl JsonView {
    /// Whether the document can be written and read back as it is: every
    /// number is an integer of an `i64`, and no object has two members of one
    /// name.
    pub open spec fn plain(self) -> bool
        decreases self,
    {
        match self {
            JsonView::Number(n) => n is Some,
            JsonView::Array(items) => forall|i: int|
                0 <= i < items.len() ==> (#[trigger] items[i]).plain(),
            JsonView::Object(members) => member_names(members).no_duplicates() && forall|i: int|
                0 <= i < members.len() ==> (#[trigger] members[i]).1.plain(),
            _ => true,
        }
    }
}

/// `serde_json::Value`: a document as serde_json holds it.
#[verifier::external_type_specification]
#[verifier::external_body]
pub struct ExValue(serde_json::Value);

/// The document that a `serde_json::Value` holds.
pub uninterp spec fn value_model(value: serde_json::Value) -> JsonView;

/// The document that serde_json reads from `bytes`; `None` where it rejects
/// them.
pub uninterp spec fn json_parse(bytes: Seq<u8>) -> Option<JsonView>;

/// The compact JSON text that serde_json writes for a plain document. Of a
/// document that is not plain nothing is said: a number that is no integer
/// of an `i64` is written by its value, which the document does not hold.
pub uninterp spec fn json_text(document: JsonView) -> Seq<char>;

/// `serde_json::from_slice` at the type `Value`. Whether the bytes are
/// accepted and what they hold depends on the bytes alone; the contract
/// gives that result its name.
#[verifier::external_body]
fn parse_value(bytes: &[u8]) -> (parsed: Option<serde_json::Value>)
    ensures
        match parsed {
            Some(value) => json_parse(bytes@) == Some(value_model(value)),
            None => json_parse(bytes@) is None,
        },
{
    serde_json::from_slice::<serde_json::Value>(bytes).ok()
}

/// Copies a `serde_json::Value` into a `Json`, variant by variant. A number
/// is taken through `Number::as_i64`; the members of an object come in the
/// order in which its map yields them. The contract claims nothing of the
/// outside value: it says that `value_model` is the name of what this copy
/// holds.
#[verifier::external_body]
fn from_value(value: &serde_json::Value) -> (json: Json)
    ensures
        json@ == value_model(*value),
{
    match value {
        serde_json::Value::Null => Json::Null,
        serde_json::Value::Bool(b) => Json::Bool(*b),
        serde_json::Value::Number(n) => Json::Number(n.as_i64()),
        serde_json::Value::String(s) => Json::Text(s.clone()),
        serde_json::Value::Array(items) => Json::Array(items.iter().map(from_value).collect()),
        serde_json::Value::Object(members) => Json::Object(
            members.iter().map(|(name, member)| (name.clone(), from_value(member))).collect(),
        ),
    }
}

/// Copies a `Json` into a `serde_json::Value`, variant by variant. The
/// members of an object are collected into serde_json's map. That map keeps
/// one member per name, and with the `preserve_order` feature, which this
/// crate asks for, it keeps them in the order in which they were put in: so
/// the copy holds the same document where no name occurs twice. A number
/// goes through `Value::from`, which has no number for `None`. Documents
/// that are not `plain` are left out for these two reasons.
#[verifier::external_body]
fn to_value(json: &Json) -> (value: serde_json::Value)
    requires
        json@.plain(),
    ensures
        value_model(value) == json@,
{
    match json {
        Json::Null => serde_json::Value::Null,
        Json::Bool(b) => serde_json::Value::Bool(*b),
        Json::Number(n) => serde_json::Value::from(*n),
        Json::Text(s) => serde_json::Value::String(s.clone()),
        Json::Array(items) => serde_json::Value::Array(items.iter().map(to_value).collect()),
        Json::Object(members) => serde_json::Value::Object(
            members.iter().map(|(name, member)| (name.clone(), to_value(member))).collect(),
        ),
    }
}

/// `serde_json::to_string` on a `Value` that holds a plain document. For
/// such a value the text depends on the document alone; the contract gives
/// it its name. Other values are left out: two of them can hold one document
/// and be written differently.
#[verifier::external_body]
fn value_text(value: &serde_json::Value) -> (text: String)
    requires
        value_model(*value).plain(),
    ensures
        text@ == json_text(value_model(*value)),
{
    serde_json::to_string(value).unwrap_or_default()
}

impl Json {
    /// Reads a document from the bytes of a JSON text.
    pub fn parse(bytes: &[u8]) -> (parsed: Option<Json>)
        ensures
            match parsed {
                Some(json) => json_parse(bytes@) == Some(json@),
                None => json_parse(bytes@) is None,
            },
    {
        match parse_value(bytes) {
            Some(value) => Some(from_value(&value)),
            None => None,
        }
    }

    /// Writes the document as compact JSON text.
    pub(crate) fn to_text(&self) -> (text: String)
        requires
            self@.plain(),
        ensures
            text@ == json_text(self@),
    {
        let value = to_value(self);
        value_text(&value)
    }
}

} // verus!
