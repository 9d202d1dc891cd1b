//! The stored form of an alert.
//!
//! An alert is kept as one JSON object with the members `alert_id`,
//! `last_text`, `last_style`, `name` and `fields`. The fields are a list of
//! triples `[id, name, value]`, and a value is `{"Text": "..."}` or
//! `{"Counter": n}`. A reader accepts the members in any order, ignores
//! members it does not know, and takes an absent `last_style` or `fields` as
//! empty.

use vstd::prelude::*;
use crate::alert::{fields_view, Alert, AlertView, Field, FieldView};
use crate::error::AlertError;
use crate::field::{AlertField, FieldValue};
use crate::ids::{AlertFieldId, AlertFieldName, AlertId, AlertName, AlertText};
use crate::json::{
    json_parse, json_text, lemma_array_view, lemma_object_view, member_names, Json, JsonView,
};
use crate::text::{first_index, lemma_first_index, same_text};

verus! {

/// The value of the first member called `name`.
pub open spec fn lookup(members: Seq<(Seq<char>, JsonView)>, name: Seq<char>) -> Option<JsonView> {
    match first_index(member_names(members), name) {
        Some(i) => Some(members[i].1),
        None => None,
    }
}

pub open spec fn encode_value(value: FieldValue) -> JsonView {
    match value {
        FieldValue::Text(text) => JsonView::Object(seq![("Text"@, JsonView::Text(text))]),
        FieldValue::Counter(count) => JsonView::Object(
            seq![("Counter"@, JsonView::Number(Some(count as i64)))],
        ),
    }
}

pub open spec fn encode_field(field: FieldView) -> JsonView {
    JsonView::Array(
        seq![JsonView::Text(field.id), JsonView::Text(field.name), encode_value(field.value)],
    )
}

pub open spec fn encode_fields(fields: Seq<FieldView>) -> Seq<JsonView> {
    fields.map_values(|field: FieldView| encode_field(field))
}

/// The document that an alert is stored as.
pub open spec fn encode_alert(alert: AlertView) -> JsonView {
    JsonView::Object(
        seq![
            ("alert_id"@, JsonView::Text(alert.alert_id)),
            ("last_text"@, JsonView::Text(alert.last_text)),
            ("last_style"@, JsonView::Text(alert.last_style)),
            ("name"@, JsonView::Text(alert.name)),
            ("fields"@, JsonView::Array(encode_fields(alert.fields))),
        ],
    )
}

pub open spec fn decode_text(document: JsonView) -> Option<Seq<char>> {
    match document {
        JsonView::Text(text) => Some(text),
        _ => None,
    }
}

/// A field value is an object of one member, named after the kind.
pub open spec fn decode_value(document: JsonView) -> Option<FieldValue> {
    match document {
        JsonView::Object(members) => if members.len() != 1 {
            None
        } else if members[0].0 == "Text"@ {
            match members[0].1 {
                JsonView::Text(text) => Some(FieldValue::Text(text)),
                _ => None,
            }
        } else if members[0].0 == "Counter"@ {
            match members[0].1 {
                JsonView::Number(Some(count)) => if i32::MIN <= count <= i32::MAX {
                    Some(FieldValue::Counter(count as i32))
                } else {
                    None
                },
                _ => None,
            }
        } else {
            None
        },
        _ => None,
    }
}

/// A field is a list of three: id, name, value.
pub open spec fn decode_field(document: JsonView) -> Option<FieldView> {
    match document {
        JsonView::Array(items) => if items.len() != 3 {
            None
        } else {
            match (decode_text(items[0]), decode_text(items[1]), decode_value(items[2])) {
                (Some(id), Some(name), Some(value)) => Some(FieldView { id, name, value }),
                _ => None,
            }
        },
        _ => None,
    }
}

/// The fields that a list of documents holds, if each of them is a field.
pub open spec fn decode_fields(items: Seq<JsonView>) -> Option<Seq<FieldView>>
    decreases items.len(),
{
    if items.len() == 0 {
        Some(Seq::empty())
    } else {
        match (decode_fields(items.drop_last()), decode_field(items.last())) {
            (Some(front), Some(last)) => Some(front.push(last)),
            _ => None,
        }
    }
}

/// A member that must be there and be a text.
pub open spec fn required_text(members: Seq<(Seq<char>, JsonView)>, name: Seq<char>) -> Option<
    Seq<char>,
> {
    match lookup(members, name) {
        Some(document) => decode_text(document),
        None => None,
    }
}

/// A member that is a text where it is there, and empty where it is not.
pub open spec fn optional_text(members: Seq<(Seq<char>, JsonView)>, name: Seq<char>) -> Option<
    Seq<char>,
> {
    match lookup(members, name) {
        Some(document) => decode_text(document),
        None => Some(Seq::empty()),
    }
}

/// A member that is a list of fields where it is there, and empty where it
/// is not.
pub open spec fn optional_fields(members: Seq<(Seq<char>, JsonView)>, name: Seq<char>) -> Option<
    Seq<FieldView>,
> {
    match lookup(members, name) {
        Some(JsonView::Array(items)) => decode_fields(items),
        Some(_) => None,
        None => Some(Seq::empty()),
    }
}

/// The alert that a document holds, if it holds one: an object whose members
/// have the kinds described above and whose fields have distinct ids.
pub open spec fn decode_alert(document: JsonView) -> Option<AlertView> {
    match document {
        JsonView::Object(members) => match (
            required_text(members, "alert_id"@),
            required_text(members, "last_text"@),
            optional_text(members, "last_style"@),
            required_text(members, "name"@),
            optional_fields(members, "fields"@),
        ) {
            (Some(alert_id), Some(last_text), Some(last_style), Some(name), Some(fields)) => {
                let alert = AlertView { alert_id, last_text, last_style, name, fields };
                if alert.wf() {
                    Some(alert)
                } else {
                    None
                }
            },
            _ => None,
        },
        _ => None,
    }
}

/// What loading the bytes of a stored document gives.
pub open spec fn load_spec(bytes: Seq<u8>) -> Option<AlertView> {
    match json_parse(bytes) {
        Some(document) => decode_alert(document),
        None => None,
    }
}

/// A list that does not decode does not decode when more is appended.
proof fn lemma_decode_fields_prefix(items: Seq<JsonView>, k: int)
    requires
        0 <= k <= items.len(),
        decode_fields(items.take(k)) is None,
    ensures
        decode_fields(items) is None,
    decreases items.len(),
{
    if k < items.len() {
        assert(items.drop_last().take(k) =~= items.take(k));
        lemma_decode_fields_prefix(items.drop_last(), k);
    } else {
        assert(items.take(k) =~= items);
    }
}

/// A field value is read back from the document written for it.
pub proof fn lemma_value_round_trip(value: FieldValue)
    ensures
        decode_value(encode_value(value)) == Some(value),
{
    reveal_strlit("Text");
    reveal_strlit("Counter");
    match value {
        FieldValue::Text(_) => {},
        FieldValue::Counter(_) => {
            assert("Counter"@.len() != "Text"@.len());
        },
    }
}

/// Fields are read back from the list written for them.
pub proof fn lemma_fields_round_trip(fields: Seq<FieldView>)
    ensures
        decode_fields(encode_fields(fields)) == Some(fields),
    decreases fields.len(),
{
    let items = encode_fields(fields);
    if fields.len() > 0 {
        lemma_fields_round_trip(fields.drop_last());
        assert(items.drop_last() =~= encode_fields(fields.drop_last()));
        lemma_value_round_trip(fields.last().value);
    }
}

/// The five member names of a stored alert differ from one another, and
/// each is found where it was written.
proof fn lemma_alert_members(alert: AlertView)
    ensures
        encode_alert(alert) matches JsonView::Object(members) && {
            &&& member_names(members).no_duplicates()
            &&& lookup(members, "alert_id"@) == Some(members[0].1)
            &&& lookup(members, "last_text"@) == Some(members[1].1)
            &&& lookup(members, "last_style"@) == Some(members[2].1)
            &&& lookup(members, "name"@) == Some(members[3].1)
            &&& lookup(members, "fields"@) == Some(members[4].1)
        },
{
    reveal_strlit("alert_id");
    reveal_strlit("last_text");
    reveal_strlit("last_style");
    reveal_strlit("name");
    reveal_strlit("fields");
    let members = encode_alert(alert)->Object_0;
    let names = member_names(members);
    assert(names[0].len() == 8);
    assert(names[1].len() == 9);
    assert(names[2].len() == 10);
    assert(names[3].len() == 4);
    lemma_first_index(names, "alert_id"@);
    lemma_first_index(names, "last_text"@);
    lemma_first_index(names, "last_style"@);
    lemma_first_index(names, "name"@);
    lemma_first_index(names, "fields"@);
}

/// Loading what was saved gives the alert back: the document written for an
/// alert decodes to that alert.
pub proof fn lemma_alert_round_trip(alert: AlertView)
    requires
        alert.wf(),
    ensures
        decode_alert(encode_alert(alert)) == Some(alert),
{
    lemma_alert_members(alert);
    lemma_fields_round_trip(alert.fields);
}

/// A text as a document.
fn text_json(text: &str) -> (json: Json)
    ensures
        json@ == JsonView::Text(text@),
{
    Json::Text(text.to_owned())
}

/// An object of the given members.
fn object_json(members: Vec<(String, Json)>) -> (json: Json)
    ensures
        json@ matches JsonView::Object(viewed) && viewed.len() == members@.len() && forall|i: int|
            0 <= i < members@.len() ==> viewed[i] == (members@[i].0@, members@[i].1@),
{
    proof {
        lemma_object_view(members);
    }
    Json::Object(members)
}

/// A list of the given items.
fn array_json(items: Vec<Json>) -> (json: Json)
    ensures
        json@ matches JsonView::Array(viewed) && viewed.len() == items@.len() && forall|i: int|
            0 <= i < items@.len() ==> viewed[i] == items@[i]@,
{
    proof {
        lemma_array_view(items);
    }
    Json::Array(items)
}

/// The document written for any alert can be written as text and read back.
pub proof fn lemma_encode_plain(alert: AlertView)
    ensures
        encode_alert(alert).plain(),
{
    lemma_alert_members(alert);
    let members = encode_alert(alert)->Object_0;
    let items = encode_fields(alert.fields);
    assert forall|i: int| 0 <= i < items.len() implies (#[trigger] items[i]).plain() by {
        lemma_field_plain(alert.fields[i]);
    }
    assert forall|i: int| 0 <= i < members.len() implies (#[trigger] members[i]).1.plain() by {
        if i != 4 {
            assert(members[i].1 is Text);
        }
    }
}

/// The document written for a field can be written as text and read back.
proof fn lemma_field_plain(field: FieldView)
    ensures
        encode_field(field).plain(),
{
    let value = encode_value(field.value);
    let members = value->Object_0;
    assert(members[0].1.plain());
    let items = encode_field(field)->Array_0;
    assert forall|i: int| 0 <= i < items.len() implies (#[trigger] items[i]).plain() by {
        if i != 2 {
            assert(items[i] is Text);
        }
    }
}

/// The document for a field value.
pub fn value_to_json(value: &AlertField) -> (json: Json)
    ensures
        json@ == encode_value(value@),
{
    let mut members: Vec<(String, Json)> = Vec::new();
    match value {
        AlertField::Text(text) => {
            members.push(("Text".to_owned(), text_json(text.as_str())));
        },
        AlertField::Counter(count) => {
            members.push(("Counter".to_owned(), Json::Number(Some(*count as i64))));
        },
    }
    let json = object_json(members);
    assert(json@->Object_0 =~= encode_value(value@)->Object_0);
    json
}

/// The document for a field.
pub fn field_to_json(field: &Field) -> (json: Json)
    ensures
        json@ == encode_field(field@),
{
    let mut items: Vec<Json> = Vec::new();
    items.push(text_json(field.id.as_str()));
    items.push(text_json(field.name.as_str()));
    items.push(value_to_json(&field.value));
    let json = array_json(items);
    assert(json@->Array_0 =~= encode_field(field@)->Array_0);
    json
}

/// The document for an alert.
pub fn alert_to_json(alert: &Alert) -> (json: Json)
    ensures
        json@ == encode_alert(alert@),
{
    let fields = alert.fields();
    let mut items: Vec<Json> = Vec::new();
    let mut i: usize = 0;
    while i < fields.len()
        invariant
            i <= fields.len(),
            items@.len() == i,
            forall|j: int| 0 <= j < i ==> items@[j]@ == encode_field(#[trigger] fields@[j]@),
        decreases fields.len() - i,
    {
        items.push(field_to_json(&fields[i]));
        i = i + 1;
    }
    let list = array_json(items);
    assert(list@->Array_0 =~= encode_fields(alert@.fields));
    let mut members: Vec<(String, Json)> = Vec::new();
    members.push(("alert_id".to_owned(), text_json(alert.alert_id().as_str())));
    members.push(("last_text".to_owned(), text_json(alert.last_text().as_str())));
    members.push(("last_style".to_owned(), text_json(alert.last_style().as_str())));
    members.push(("name".to_owned(), text_json(alert.name().as_str())));
    members.push(("fields".to_owned(), list));
    let json = object_json(members);
    assert(json@->Object_0 =~= encode_alert(alert@)->Object_0);
    json
}

/// The value of the first member of an object that is called `name`.
pub fn member<'a>(document: &'a Json, name: &str) -> (found: Option<&'a Json>)
    ensures
        match document@ {
            JsonView::Object(members) => match lookup(members, name@) {
                Some(value) => found is Some && found->0@ == value,
                None => found is None,
            },
            _ => found is None,
        },
{
    match document {
        Json::Object(members) => {
            proof {
                lemma_object_view(*members);
            }
            let ghost viewed = document@->Object_0;
            let ghost names = member_names(viewed);
            let mut i: usize = 0;
            while i < members.len()
                invariant
                    i <= members.len(),
                    document@ == JsonView::Object(viewed),
                    names == member_names(viewed),
                    viewed.len() == members@.len(),
                    forall|j: int|
                        0 <= j < members@.len() ==> viewed[j] == (members@[j].0@, members@[j].1@),
                    forall|j: int| 0 <= j < i ==> names[j] != name@,
                decreases members.len() - i,
            {
                if same_text(members[i].0.as_str(), name) {
                    proof {
                        lemma_first_index(names, name@);
                        assert(names[i as int] == name@);
                    }
                    return Some(&members[i].1);
                }
                i = i + 1;
            }
            proof {
                lemma_first_index(names, name@);
            }
            None
        },
        _ => None,
    }
}

/// The text that a document is, if it is one.
fn text_from_json(document: &Json) -> (text: Option<String>)
    ensures
        match decode_text(document@) {
            Some(viewed) => text is Some && text->0@ == viewed,
            None => text is None,
        },
{
    match document {
        Json::Text(text) => Some(text.clone()),
        _ => None,
    }
}

/// The text of a member that must be there.
fn required_member(document: &Json, name: &str) -> (text: Option<String>)
    requires
        document@ is Object,
    ensures
        match required_text(document@->Object_0, name@) {
            Some(viewed) => text is Some && text->0@ == viewed,
            None => text is None,
        },
{
    match member(document, name) {
        Some(found) => text_from_json(found),
        None => None,
    }
}

/// The field value that a document holds, if it holds one.
pub fn value_from_json(document: &Json) -> (value: Option<AlertField>)
    ensures
        match decode_value(document@) {
            Some(viewed) => value is Some && value->0@ == viewed,
            None => value is None,
        },
{
    match document {
        Json::Object(members) => {
            proof {
                lemma_object_view(*members);
            }
            if members.len() != 1 {
                return None;
            }
            let name = members[0].0.as_str();
            if same_text(name, "Text") {
                match &members[0].1 {
                    Json::Text(text) => Some(AlertField::Text(text.clone())),
                    _ => None,
                }
            } else if same_text(name, "Counter") {
                match &members[0].1 {
                    Json::Number(Some(count)) => {
                        if *count < -2147483648 || *count > 2147483647 {
                            None
                        } else {
                            Some(AlertField::Counter(*count as i32))
                        }
                    },
                    _ => None,
                }
            } else {
                None
            }
        },
        _ => None,
    }
}

/// The field that a document holds, if it holds one.
pub fn field_from_json(document: &Json) -> (field: Option<Field>)
    ensures
        match decode_field(document@) {
            Some(viewed) => field is Some && field->0@ == viewed,
            None => field is None,
        },
{
    match document {
        Json::Array(items) => {
            proof {
                lemma_array_view(*items);
            }
            if items.len() != 3 {
                return None;
            }
            let id = match text_from_json(&items[0]) {
                Some(id) => id,
                None => {
                    return None;
                },
            };
            let name = match text_from_json(&items[1]) {
                Some(name) => name,
                None => {
                    return None;
                },
            };
            let value = match value_from_json(&items[2]) {
                Some(value) => value,
                None => {
                    return None;
                },
            };
            Some(Field { id: AlertFieldId::new(id), name: AlertFieldName::new(name), value })
        },
        _ => None,
    }
}

/// The fields that a list holds, if each of its items holds one.
fn fields_from_json(document: &Json) -> (fields: Option<Vec<Field>>)
    requires
        document@ is Array,
    ensures
        match decode_fields(document@->Array_0) {
            Some(viewed) => fields is Some && fields_view(fields->0@) == viewed,
            None => fields is None,
        },
{
    match document {
        Json::Array(items) => {
            proof {
                lemma_array_view(*items);
            }
            let ghost viewed = document@->Array_0;
            let mut fields: Vec<Field> = Vec::new();
            let mut i: usize = 0;
            while i < items.len()
                invariant
                    i <= items.len(),
                    viewed == document@->Array_0,
                    viewed.len() == items@.len(),
                    forall|j: int| 0 <= j < items@.len() ==> viewed[j] == items@[j]@,
                    decode_fields(viewed.take(i as int)) == Some(fields_view(fields@)),
                decreases items.len() - i,
            {
                assert(viewed.take(i as int + 1).drop_last() =~= viewed.take(i as int));
                match field_from_json(&items[i]) {
                    Some(field) => {
                        fields.push(field);
                    },
                    None => {
                        proof {
                            lemma_decode_fields_prefix(viewed, i as int + 1);
                        }
                        return None;
                    },
                }
                i = i + 1;
            }
            assert(viewed.take(items.len() as int) =~= viewed);
            Some(fields)
        },
        _ => None,
    }
}

/// The alert that a document holds, if it holds one.
pub fn alert_from_json(document: &Json) -> (alert: Option<Alert>)
    ensures
        match decode_alert(document@) {
            Some(viewed) => alert is Some && alert->0@ == viewed,
            None => alert is None,
        },
{
    match document {
        Json::Object(_) => {},
        _ => {
            return None;
        },
    }
    let alert_id = match required_member(document, "alert_id") {
        Some(text) => text,
        None => {
            return None;
        },
    };
    let last_text = match required_member(document, "last_text") {
        Some(text) => text,
        None => {
            return None;
        },
    };
    let last_style = match member(document, "last_style") {
        Some(found) => match text_from_json(found) {
            Some(text) => text,
            None => {
                return None;
            },
        },
        None => String::new(),
    };
    let name = match required_member(document, "name") {
        Some(text) => text,
        None => {
            return None;
        },
    };
    let fields = match member(document, "fields") {
        Some(found) => {
            match found {
                Json::Array(_) => {},
                _ => {
                    return None;
                },
            }
            match fields_from_json(found) {
                Some(fields) => fields,
                None => {
                    return None;
                },
            }
        },
        None => Vec::new(),
    };
    assert(fields_view(Seq::<Field>::empty()) =~= Seq::<FieldView>::empty());
    Alert::from_parts(
        AlertId::new(alert_id),
        AlertText::new(last_text),
        last_style,
        AlertName::new(name),
        fields,
    )
}

impl Alert {
    /// The name of the file that the alert is stored in: its id.
    pub fn file_name(&self) -> (name: &str)
        ensures
            name@ == self@.alert_id,
    {
        self.alert_id().as_str()
    }

    /// The text to store for this alert: its JSON document.
    pub fn save_alert(&self) -> (document: String)
        ensures
            document@ == json_text(encode_alert(self@)),
    {
        let json = alert_to_json(self);
        proof {
            lemma_encode_plain(self@);
        }
        json.to_text()
    }

    /// The alert stored in `bytes`, the content of one file. Bytes that are
    /// not JSON, or not the JSON of an alert, are refused as unreadable.
    pub fn load_alert(bytes: &[u8]) -> (loaded: Result<Self, AlertError>)
        ensures
            match load_spec(bytes@) {
                Some(viewed) => loaded is Ok && loaded->Ok_0@ == viewed,
                None => loaded is Err && loaded->Err_0 == AlertError::Unreadable,
            },
            loaded is Ok ==> loaded->Ok_0@.wf(),
    {
        let document = match Json::parse(bytes) {
            Some(document) => document,
            None => {
                return Err(AlertError::Unreadable);
            },
        };
        match alert_from_json(&document) {
            Some(alert) => Ok(alert),
            None => Err(AlertError::Unreadable),
        }
    }
}

} // verus!
