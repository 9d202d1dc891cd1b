//! An alert document: its templates, its fields and the edits it accepts.

use vstd::prelude::*;
use crate::decimal::{parse_i32, parse_i32_spec};
use crate::error::AlertError;
use crate::field::{AlertField, FieldValue};
use crate::ids::{is_generated_id, AlertFieldId, AlertFieldName, AlertId, AlertMarkdown, AlertName, AlertText};
use crate::render::{pairs_view, render, render_spec};
use crate::text::{first_index, lemma_first_index, same_text};

verus! {

/// One field of an alert.
#[derive(Debug)]
pub struct Field {
    pub id: AlertFieldId,
    pub name: AlertFieldName,
    pub value: AlertField,
}

/// What a `Field` holds, as plain values.
pub struct FieldView {
    pub id: Seq<char>,
    pub name: Seq<char>,
    pub value: FieldValue,
}

impl View for Field {
    type V = FieldView;

    open spec fn view(&self) -> FieldView {
        FieldView { id: self.id@, name: self.name@, value: self.value@ }
    }
}

impl Clone for Field {
    fn clone(&self) -> (copy: Self)
        ensures
            copy@ == self@,
    {
        Field { id: self.id.clone(), name: self.name.clone(), value: self.value.clone() }
    }
}

/// The views of a run of fields.
pub open spec fn fields_view(fields: Seq<Field>) -> Seq<FieldView> {
    fields.map_values(|field: Field| field@)
}

/// The field value that a kind word and a raw text describe: `text` takes
/// the text as it is, `counter` reads it as a numeral.
pub open spec fn field_of_kind(kind: Seq<char>, raw: Seq<char>) -> Result<FieldValue, AlertError> {
    if kind == "counter"@ {
        match parse_i32_spec(raw) {
            Some(count) => Ok(FieldValue::Counter(count)),
            None => Err(AlertError::InvalidNumber),
        }
    } else if kind == "text"@ {
        Ok(FieldValue::Text(raw))
    } else {
        Err(AlertError::InvalidKind)
    }
}

/// A requested change to one field. Exactly one of `incr`, `decr`, `set` and
/// `new` is to be given; `new` needs `kind` beside it, the others ignore it.
#[derive(Debug)]
pub struct UpdateAlertField {
    /// Step a counter up by this much.
    pub incr: Option<i32>,
    /// Step a counter down by this much.
    pub decr: Option<i32>,
    /// Store this text, read as the kind the field has.
    pub set: Option<String>,
    /// Replace the value by this text, read as `kind`.
    pub new: Option<String>,
    /// The kind for `new`: `text` or `counter`.
    pub kind: Option<String>,
}

/// What an `UpdateAlertField` holds, as plain values.
pub struct UpdateView {
    pub incr: Option<i32>,
    pub decr: Option<i32>,
    pub set: Option<Seq<char>>,
    pub new: Option<Seq<char>>,
    pub kind: Option<Seq<char>>,
}

/// The characters of an optional string.
pub open spec fn text_view(text: Option<String>) -> Option<Seq<char>> {
    match text {
        Some(text) => Some(text@),
        None => None,
    }
}

/// The characters of an optional field name.
pub open spec fn name_view(name: Option<AlertFieldName>) -> Option<Seq<char>> {
    match name {
        Some(name) => Some(name@),
        None => None,
    }
}

/// The characters of an optional field id.
pub open spec fn id_view(id: Option<AlertFieldId>) -> Option<Seq<char>> {
    match id {
        Some(id) => Some(id@),
        None => None,
    }
}

impl View for UpdateAlertField {
    type V = UpdateView;

    open spec fn view(&self) -> UpdateView {
        UpdateView {
            incr: self.incr,
            decr: self.decr,
            set: text_view(self.set),
            new: text_view(self.new),
            kind: text_view(self.kind),
        }
    }
}

impl UpdateView {
    /// The value that this update turns `value` into, or why it is refused.
    pub open spec fn apply(self, value: FieldValue) -> Result<FieldValue, AlertError> {
        if self.incr is Some && self.decr is None && self.set is None && self.new is None {
            value.step(self.incr->0 as int)
        } else if self.incr is None && self.decr is Some && self.set is None && self.new is None {
            value.step(-(self.decr->0 as int))
        } else if self.incr is None && self.decr is None && self.set is Some && self.new is None {
            value.set(self.set->0)
        } else if self.incr is None && self.decr is None && self.set is None && self.new is Some
            && self.kind is Some {
            field_of_kind(self.kind->0, self.new->0)
        } else {
            Err(AlertError::InvalidUpdate)
        }
    }
}

/// What an `Alert` holds, as plain values.
pub struct AlertView {
    pub alert_id: Seq<char>,
    pub last_text: Seq<char>,
    pub last_style: Seq<char>,
    pub name: Seq<char>,
    pub fields: Seq<FieldView>,
}

impl AlertView {
    pub open spec fn ids(self) -> Seq<Seq<char>> {
        field_ids(self.fields)
    }

    pub open spec fn names(self) -> Seq<Seq<char>> {
        self.fields.map_values(|field: FieldView| field.name)
    }

    /// No two fields share an id.
    pub open spec fn wf(self) -> bool {
        self.ids().no_duplicates()
    }

    /// The position of the field with this id.
    pub open spec fn find_id(self, id: Seq<char>) -> Option<int> {
        first_index(self.ids(), id)
    }

    /// The position of the first field with this name.
    pub open spec fn find_name(self, name: Seq<char>) -> Option<int> {
        first_index(self.names(), name)
    }

    /// The names and values of the fields, in order: what the templates are
    /// rendered with.
    pub open spec fn pairs(self) -> Seq<(Seq<char>, FieldValue)> {
        self.fields.map_values(|field: FieldView| (field.name, field.value))
    }

    pub open spec fn rendered_text(self) -> Seq<char> {
        render_spec(self.last_text, self.pairs())
    }

    pub open spec fn rendered_style(self) -> Seq<char> {
        render_spec(self.last_style, self.pairs())
    }

    pub open spec fn with_fields(self, fields: Seq<FieldView>) -> AlertView {
        AlertView { fields, ..self }
    }

    /// The alert with `field` in it: in the place of the field that had its
    /// id, or at the end if none had.
    pub open spec fn insert_field(self, field: FieldView) -> AlertView {
        match self.find_id(field.id) {
            Some(i) => self.with_fields(self.fields.update(i, field)),
            None => self.with_fields(self.fields.push(field)),
        }
    }

    /// The alert without the field of this id. No field of this id: nothing
    /// to delete.
    pub open spec fn delete_field(self, id: Seq<char>) -> Result<AlertView, AlertError> {
        match self.find_id(id) {
            Some(i) => Ok(self.with_fields(self.fields.remove(i))),
            None => Err(AlertError::NoSuchField),
        }
    }

    /// The alert with one more field at the end. The id must be one that no
    /// field of the alert holds; the kind and the raw value must make a
    /// field.
    pub open spec fn add_new_field(
        self,
        id: Seq<char>,
        name: Seq<char>,
        kind: Seq<char>,
        raw: Seq<char>,
    ) -> Result<AlertView, AlertError> {
        match field_of_kind(kind, raw) {
            Ok(value) => if self.find_id(id) is Some {
                Err(AlertError::FieldIdTaken)
            } else {
                Ok(self.with_fields(self.fields.push(FieldView { id, name, value })))
            },
            Err(error) => Err(error),
        }
    }

    /// The alert with a field of the given kind under the given id, in the
    /// place of the field that had the id or at the end; or why the kind and
    /// the raw value do not make a field.
    pub open spec fn add_field(
        self,
        id: Seq<char>,
        name: Seq<char>,
        kind: Seq<char>,
        raw: Seq<char>,
    ) -> Result<AlertView, AlertError> {
        match field_of_kind(kind, raw) {
            Ok(value) => Ok(self.insert_field(FieldView { id, name, value })),
            Err(error) => Err(error),
        }
    }

    /// The field at `at` with another value.
    pub open spec fn with_value(self, at: int, value: FieldValue) -> AlertView {
        self.with_fields(self.fields.update(at, FieldView { value, ..self.fields[at] }))
    }

    /// The alert after `raw` was stored in the field of this id and the field
    /// was renamed, if a name is given.
    pub open spec fn set_field(self, id: Seq<char>, name: Option<Seq<char>>, raw: Seq<char>)
        -> Result<AlertView, AlertError> {
        match self.find_id(id) {
            None => Err(AlertError::NoSuchField),
            Some(i) => match self.fields[i].value.set(raw) {
                Err(error) => Err(error),
                Ok(value) => Ok(
                    self.with_fields(
                        self.fields.update(
                            i,
                            FieldView {
                                id: self.fields[i].id,
                                name: match name {
                                    Some(name) => name,
                                    None => self.fields[i].name,
                                },
                                value,
                            },
                        ),
                    ),
                ),
            },
        }
    }

    /// The field that an update is aimed at: the one with the id, if an id is
    /// given, else the first with the name.
    pub open spec fn target(self, name: Option<Seq<char>>, id: Option<Seq<char>>) -> Result<
        int,
        AlertError,
    > {
        match (id, name) {
            (Some(id), _) => match self.find_id(id) {
                Some(i) => Ok(i),
                None => Err(AlertError::NoSuchField),
            },
            (None, Some(name)) => match self.find_name(name) {
                Some(i) => Ok(i),
                None => Err(AlertError::NoSuchField),
            },
            (None, None) => Err(AlertError::NoFieldGiven),
        }
    }

    /// The alert after `update` was applied to its target, or why it was
    /// refused.
    pub open spec fn update_field(
        self,
        name: Option<Seq<char>>,
        id: Option<Seq<char>>,
        update: UpdateView,
    ) -> Result<AlertView, AlertError> {
        match self.target(name, id) {
            Err(error) => Err(error),
            Ok(at) => match update.apply(self.fields[at].value) {
                Err(error) => Err(error),
                Ok(value) => Ok(self.with_value(at, value)),
            },
        }
    }
}

/// Builds a field value from a kind word and a raw text.
pub fn new_field_value(kind: &str, raw: String) -> (made: Result<AlertField, AlertError>)
    ensures
        match field_of_kind(kind@, raw@) {
            Ok(value) => made is Ok && made->Ok_0@ == value,
            Err(error) => made is Err && made->Err_0 == error,
        },
{
    if same_text(kind, "counter") {
        match parse_i32(raw.as_str()) {
            Some(count) => Ok(AlertField::Counter(count)),
            None => Err(AlertError::InvalidNumber),
        }
    } else if same_text(kind, "text") {
        Ok(AlertField::Text(raw))
    } else {
        Err(AlertError::InvalidKind)
    }
}

/// Steps `current` by `delta`, if it is a counter with room for the step.
fn stepped(current: &AlertField, delta: i64) -> (made: Result<AlertField, AlertError>)
    requires
        -2147483648 <= delta <= 2147483648,
    ensures
        match current@.step(delta as int) {
            Ok(value) => made is Ok && made->Ok_0@ == value,
            Err(error) => made is Err && made->Err_0 == error,
        },
{
    match current {
        AlertField::Text(_) => Err(AlertError::InvalidUpdate),
        AlertField::Counter(count) => {
            let moved: i64 = *count as i64 + delta;
            if moved < -2147483648 || moved > 2147483647 {
                Err(AlertError::OutOfRange)
            } else {
                Ok(AlertField::Counter(moved as i32))
            }
        },
    }
}

/// The value that `update` turns `current` into.
pub fn updated_value(current: &AlertField, update: UpdateAlertField) -> (made: Result<
    AlertField,
    AlertError,
>)
    ensures
        match update@.apply(current@) {
            Ok(value) => made is Ok && made->Ok_0@ == value,
            Err(error) => made is Err && made->Err_0 == error,
        },
{
    let UpdateAlertField { incr, decr, set, new, kind } = update;
    match (incr, decr, set, new, kind) {
        (Some(incr), None, None, None, _) => stepped(current, incr as i64),
        (None, Some(decr), None, None, _) => stepped(current, -(decr as i64)),
        (None, None, Some(set), None, _) => {
            let mut value = current.clone();
            match value.set(set) {
                Ok(()) => Ok(value),
                Err(error) => Err(error),
            }
        },
        (None, None, None, Some(new), Some(kind)) => new_field_value(kind.as_str(), new),
        _ => Err(AlertError::InvalidUpdate),
    }
}

/// The ids of a run of fields, in order.
pub open spec fn field_ids(fields: Seq<FieldView>) -> Seq<Seq<char>> {
    fields.map_values(|field: FieldView| field.id)
}

/// Whether no two of `fields` share an id.
pub fn distinct_ids(fields: &Vec<Field>) -> (distinct: bool)
    ensures
        distinct == field_ids(fields_view(fields@)).no_duplicates(),
{
    let ghost ids = field_ids(fields_view(fields@));
    let mut i: usize = 0;
    while i < fields.len()
        invariant
            i <= fields.len(),
            ids == field_ids(fields_view(fields@)),
            forall|a: int, b: int| 0 <= a < b < i ==> ids[a] != ids[b],
        decreases fields.len() - i,
    {
        let mut j: usize = 0;
        while j < i
            invariant
                j <= i < fields.len(),
                ids == field_ids(fields_view(fields@)),
                forall|a: int| 0 <= a < j ==> ids[a] != ids[i as int],
            decreases i - j,
        {
            if fields[j].id == fields[i].id {
                assert(ids[j as int] == ids[i as int]);
                return false;
            }
            j = j + 1;
        }
        i = i + 1;
    }
    assert forall|a: int, b: int| 0 <= a < ids.len() && 0 <= b < ids.len() && a != b implies ids[a]
        != ids[b] by {
        if a < b {
            assert(ids[a] != ids[b]);
        } else {
            assert(ids[b] != ids[a]);
        }
    }
    true
}

/// A named document: a markdown template, a style template and the fields
/// whose values are put into both.
///
/// The fields stand in the order in which they were added: a new field goes
/// to the end, a deleted one leaves a gap that closes, and nothing else moves
/// a field. Templates are rendered with the fields in that order, and a
/// lookup by name finds the first of that name in that order. No two fields
/// share an id.
#[derive(Debug)]
pub struct Alert {
    alert_id: AlertId,
    last_text: AlertText,
    last_style: String,
    name: AlertName,
    fields: Vec<Field>,
}

impl View for Alert {
    type V = AlertView;

    closed spec fn view(&self) -> AlertView {
        AlertView {
            alert_id: self.alert_id@,
            last_text: self.last_text@,
            last_style: self.last_style@,
            name: self.name@,
            fields: fields_view(self.fields@),
        }
    }
}

impl Clone for Alert {
    fn clone(&self) -> (copy: Self)
        ensures
            copy@ == self@,
    {
        let mut fields: Vec<Field> = Vec::new();
        let mut i: usize = 0;
        while i < self.fields.len()
            invariant
                i <= self.fields.len(),
                fields_view(fields@) =~= fields_view(self.fields@).take(i as int),
            decreases self.fields.len() - i,
        {
            let copy = self.fields[i].clone();
            fields.push(copy);
            assert(fields_view(self.fields@).take(i as int + 1) =~= fields_view(self.fields@).take(
                i as int,
            ).push(self.fields@[i as int]@));
            i = i + 1;
        }
        assert(fields_view(fields@) =~= fields_view(self.fields@));
        Alert {
            alert_id: self.alert_id.clone(),
            last_text: self.last_text.clone(),
            last_style: self.last_style.clone(),
            name: self.name.clone(),
            fields,
        }
    }
}

impl Alert {
    /// An alert without style and without fields.
    pub fn new(alert_id: AlertId, last_text: AlertText, name: AlertName) -> (alert: Self)
        ensures
            alert@ == (AlertView {
                alert_id: alert_id@,
                last_text: last_text@,
                last_style: Seq::empty(),
                name: name@,
                fields: Seq::empty(),
            }),
            alert@.wf(),
    {
        let alert = Alert { alert_id, last_text, last_style: String::new(), name, fields: Vec::new() };
        assert(alert@.fields =~= Seq::empty());
        alert
    }

    /// An alert with the given parts, if no two of the fields share an id.
    pub fn from_parts(
        alert_id: AlertId,
        last_text: AlertText,
        last_style: String,
        name: AlertName,
        fields: Vec<Field>,
    ) -> (made: Option<Self>)
        ensures
            ({
                let view = AlertView {
                    alert_id: alert_id@,
                    last_text: last_text@,
                    last_style: last_style@,
                    name: name@,
                    fields: fields_view(fields@),
                };
                if view.wf() {
                    made is Some && made->0@ == view
                } else {
                    made is None
                }
            }),
    {
        if distinct_ids(&fields) {
            Some(Alert { alert_id, last_text, last_style, name, fields })
        } else {
            None
        }
    }

    pub fn alert_id(&self) -> (id: &AlertId)
        ensures
            id@ == self@.alert_id,
    {
        &self.alert_id
    }

    pub fn last_text(&self) -> (text: &AlertText)
        ensures
            text@ == self@.last_text,
    {
        &self.last_text
    }

    pub fn last_style(&self) -> (style: &String)
        ensures
            style@ == self@.last_style,
    {
        &self.last_style
    }

    pub fn name(&self) -> (name: &AlertName)
        ensures
            name@ == self@.name,
    {
        &self.name
    }

    /// The fields in order.
    pub fn fields(&self) -> (fields: &Vec<Field>)
        ensures
            fields_view(fields@) == self@.fields,
    {
        &self.fields
    }

    pub fn set_name(&mut self, name: AlertName)
        requires
            old(self)@.wf(),
        ensures
            final(self)@ == (AlertView { name: name@, ..old(self)@ }),
            final(self)@.wf(),
    {
        self.name = name;
    }

    pub fn set_text(&mut self, text: AlertText)
        requires
            old(self)@.wf(),
        ensures
            final(self)@ == (AlertView { last_text: text@, ..old(self)@ }),
            final(self)@.wf(),
    {
        self.last_text = text;
    }

    pub fn set_style(&mut self, style: String)
        requires
            old(self)@.wf(),
        ensures
            final(self)@ == (AlertView { last_style: style@, ..old(self)@ }),
            final(self)@.wf(),
    {
        self.last_style = style;
    }

    /// The position of the field with this id.
    pub fn field_position(&self, id: &AlertFieldId) -> (found: Option<usize>)
        ensures
            found matches Some(at) ==> at < self@.fields.len() && self@.find_id(id@) == Some(
                at as int,
            ),
            found is None ==> self@.find_id(id@) is None,
    {
        let mut i: usize = 0;
        while i < self.fields.len()
            invariant
                i <= self.fields.len(),
                forall|j: int| 0 <= j < i ==> self@.ids()[j] != id@,
            decreases self.fields.len() - i,
        {
            if self.fields[i].id == *id {
                proof {
                    lemma_first_index(self@.ids(), id@);
                    assert(self@.ids()[i as int] == id@);
                }
                return Some(i);
            }
            i = i + 1;
        }
        proof {
            lemma_first_index(self@.ids(), id@);
        }
        None
    }

    /// The position of the first field with this name. Names need not be
    /// unique; fields behind the first with a name are not found by it.
    pub fn entry_field_name(&self, field_name: &AlertFieldName) -> (found: Option<usize>)
        ensures
            found matches Some(at) ==> at < self@.fields.len() && self@.find_name(field_name@)
                == Some(at as int),
            found is None ==> self@.find_name(field_name@) is None,
    {
        let mut i: usize = 0;
        while i < self.fields.len()
            invariant
                i <= self.fields.len(),
                forall|j: int| 0 <= j < i ==> self@.names()[j] != field_name@,
            decreases self.fields.len() - i,
        {
            if self.fields[i].name == *field_name {
                proof {
                    lemma_first_index(self@.names(), field_name@);
                    assert(self@.names()[i as int] == field_name@);
                }
                return Some(i);
            }
            i = i + 1;
        }
        proof {
            lemma_first_index(self@.names(), field_name@);
        }
        None
    }

    /// Puts `field` into the alert: in the place of the field that has its
    /// id, or at the end if none has.
    pub fn insert_field(&mut self, field: Field)
        requires
            old(self)@.wf(),
        ensures
            final(self)@ == old(self)@.insert_field(field@),
            final(self)@.wf(),
    {
        proof {
            lemma_first_index(self@.ids(), field.id@);
        }
        match self.field_position(&field.id) {
            Some(i) => {
                self.fields.set(i, field);
                assert(self@.fields =~= old(self)@.fields.update(i as int, field@));
                assert(self@.ids() =~= old(self)@.ids());
            },
            None => {
                self.fields.push(field);
                assert(self@.fields =~= old(self)@.fields.push(field@));
                assert(self@.ids() =~= old(self)@.ids().push(field.id@));
            },
        }
    }

    /// Removes the field of this id. The fields behind it move up by one.
    pub fn delete_field(&mut self, id: &AlertFieldId) -> (done: Result<(), AlertError>)
        requires
            old(self)@.wf(),
        ensures
            match old(self)@.delete_field(id@) {
                Ok(after) => done is Ok && final(self)@ == after,
                Err(error) => done == Err::<(), AlertError>(error) && final(self)@ == old(self)@,
            },
            final(self)@.wf(),
    {
        match self.field_position(id) {
            Some(i) => {
                self.fields.remove(i);
                assert(self@.fields =~= old(self)@.fields.remove(i as int));
                assert(self@.ids() =~= old(self)@.ids().remove(i as int));
                Ok(())
            },
            None => Err(AlertError::NoSuchField),
        }
    }

    /// Adds a field at the end, under a random id that is drawn here and
    /// returned. `kind` is `text` or `counter`; `value` is read as that kind.
    /// The fields that were there stay as they are. Should the id that was
    /// drawn be held by a field already, nothing is added: an id is never
    /// given to a second field.
    pub fn add_alert_field(&mut self, name: AlertFieldName, kind: &str, value: String) -> (done:
        Result<AlertFieldId, AlertError>)
        requires
            old(self)@.wf(),
        ensures
            match field_of_kind(kind@, value@) {
                Ok(made) => match done {
                    Ok(id) => {
                        &&& is_generated_id(id@, 4)
                        &&& old(self)@.find_id(id@) is None
                        &&& final(self)@ == old(self)@.with_fields(
                            old(self)@.fields.push(FieldView { id: id@, name: name@, value: made }),
                        )
                    },
                    Err(error) => {
                        &&& error == AlertError::FieldIdTaken
                        &&& final(self)@ == old(self)@
                        &&& exists|id: Seq<char>|
                            is_generated_id(id, 4) && old(self)@.find_id(id) is Some
                    },
                },
                Err(error) => done is Err && done->Err_0 == error && final(self)@ == old(self)@,
            },
            final(self)@.wf(),
    {
        let id = AlertFieldId::new_id();
        match self.add_new_field(id.clone(), name, kind, value) {
            Ok(()) => Ok(id),
            Err(error) => Err(error),
        }
    }

    /// Adds a field at the end, under an id that the caller has drawn. `kind`
    /// is `text` or `counter`; `value` is read as that kind. An id that a
    /// field of the alert holds is refused.
    pub fn add_new_field(
        &mut self,
        id: AlertFieldId,
        name: AlertFieldName,
        kind: &str,
        value: String,
    ) -> (done: Result<(), AlertError>)
        requires
            old(self)@.wf(),
        ensures
            match old(self)@.add_new_field(id@, name@, kind@, value@) {
                Ok(after) => done is Ok && final(self)@ == after,
                Err(error) => done == Err::<(), AlertError>(error) && final(self)@ == old(self)@,
            },
            final(self)@.wf(),
    {
        let value = match new_field_value(kind, value) {
            Ok(value) => value,
            Err(error) => {
                return Err(error);
            },
        };
        if self.field_position(&id).is_some() {
            return Err(AlertError::FieldIdTaken);
        }
        let field = Field { id, name, value };
        proof {
            lemma_first_index(self@.ids(), field.id@);
        }
        self.fields.push(field);
        assert(self@.fields =~= old(self)@.fields.push(field@));
        assert(self@.ids() =~= old(self)@.ids().push(field.id@));
        Ok(())
    }

    /// Puts a field under the given id: in the place of the field that has
    /// the id, or at the end if none has. `kind` is `text` or `counter`;
    /// `value` is read as that kind.
    pub fn add_field_with_id(
        &mut self,
        id: AlertFieldId,
        name: AlertFieldName,
        kind: &str,
        value: String,
    ) -> (done: Result<(), AlertError>)
        requires
            old(self)@.wf(),
        ensures
            match old(self)@.add_field(id@, name@, kind@, value@) {
                Ok(after) => done is Ok && final(self)@ == after,
                Err(error) => done == Err::<(), AlertError>(error) && final(self)@ == old(self)@,
            },
            final(self)@.wf(),
    {
        match new_field_value(kind, value) {
            Ok(value) => {
                self.insert_field(Field { id, name, value });
                Ok(())
            },
            Err(error) => Err(error),
        }
    }

    /// Stores `value` in the field of this id, read as the kind the field
    /// has, and renames the field if a name is given.
    pub fn set_field(&mut self, id: &AlertFieldId, name: Option<AlertFieldName>, value: String) -> (done:
        Result<(), AlertError>)
        requires
            old(self)@.wf(),
        ensures
            match old(self)@.set_field(id@, name_view(name), value@) {
                Ok(after) => done is Ok && final(self)@ == after,
                Err(error) => done == Err::<(), AlertError>(error) && final(self)@ == old(self)@,
            },
            final(self)@.wf(),
    {
        let at = match self.field_position(id) {
            Some(at) => at,
            None => {
                return Err(AlertError::NoSuchField);
            },
        };
        let mut stored = self.fields[at].value.clone();
        match stored.set(value) {
            Ok(()) => {},
            Err(error) => {
                return Err(error);
            },
        }
        let name = match name {
            Some(name) => name,
            None => self.fields[at].name.clone(),
        };
        let field = Field { id: self.fields[at].id.clone(), name, value: stored };
        self.fields.set(at, field);
        assert(self@.fields =~= old(self)@.fields.update(at as int, field@));
        assert(self@.ids() =~= old(self)@.ids());
        Ok(())
    }

    /// Applies `update` to one field: the one with the id if an id is given,
    /// else the first with the name. A refused update changes nothing.
    pub fn update_field(
        &mut self,
        name: Option<AlertFieldName>,
        id: Option<AlertFieldId>,
        update: UpdateAlertField,
    ) -> (done: Result<(), AlertError>)
        requires
            old(self)@.wf(),
        ensures
            match old(self)@.update_field(name_view(name), id_view(id), update@) {
                Ok(after) => done is Ok && final(self)@ == after,
                Err(error) => done == Err::<(), AlertError>(error) && final(self)@ == old(self)@,
            },
            final(self)@.wf(),
    {
        let found = match (id, name) {
            (Some(id), _) => self.field_position(&id),
            (None, Some(name)) => self.entry_field_name(&name),
            (None, None) => {
                return Err(AlertError::NoFieldGiven);
            },
        };
        let at = match found {
            Some(at) => at,
            None => {
                return Err(AlertError::NoSuchField);
            },
        };
        let value = match updated_value(&self.fields[at].value, update) {
            Ok(value) => value,
            Err(error) => {
                return Err(error);
            },
        };
        let field = Field {
            id: self.fields[at].id.clone(),
            name: self.fields[at].name.clone(),
            value,
        };
        self.fields.set(at, field);
        assert(self@.fields =~= old(self)@.fields.update(at as int, field@));
        assert(self@.ids() =~= old(self)@.ids());
        Ok(())
    }

    /// The names and values of the fields, in order: what the templates are
    /// rendered with.
    pub fn pairs(&self) -> (pairs: Vec<(AlertFieldName, AlertField)>)
        ensures
            pairs_view(pairs@) == self@.pairs(),
    {
        let mut pairs: Vec<(AlertFieldName, AlertField)> = Vec::new();
        let mut i: usize = 0;
        while i < self.fields.len()
            invariant
                i <= self.fields.len(),
                pairs_view(pairs@) =~= self@.pairs().take(i as int),
            decreases self.fields.len() - i,
        {
            let pair = (self.fields[i].name.clone(), self.fields[i].value.clone());
            pairs.push(pair);
            assert(self@.pairs().take(i as int + 1) =~= self@.pairs().take(i as int).push(
                (self.fields@[i as int].name@, self.fields@[i as int].value@),
            ));
            i = i + 1;
        }
        pairs
    }

    /// The markdown shown for this alert: its text template with the fields
    /// put in.
    pub fn render(&self) -> (markdown: AlertMarkdown)
        ensures
            markdown@ == self@.rendered_text(),
    {
        AlertMarkdown::new(render(self.last_text.as_str(), &self.pairs()))
    }

    /// The style shown for this alert: its style template with the fields put
    /// in.
    pub fn render_style(&self) -> (style: String)
        ensures
            style@ == self@.rendered_style(),
    {
        render(self.last_style.as_str(), &self.pairs())
    }
}

} // verus!
