//! Edits: the changes that can be asked of an alert, as values.
//!
//! An edit says what to change, not how. Whoever holds the alert applies it;
//! an edit that is refused leaves the alert as it was.

use vstd::prelude::*;
use crate::alert::{id_view, name_view, Alert, AlertView, UpdateAlertField, UpdateView};
use crate::error::AlertError;
use crate::ids::{AlertFieldId, AlertFieldName, AlertName, AlertText};

verus! {

/// A change to one alert.
#[derive(Debug)]
#[allow(inconsistent_fields)]
pub enum AlertEdit {
    /// Give the alert another name.
    SetName(AlertName),
    /// Replace the markdown template.
    SetText(AlertText),
    /// Replace the style template.
    SetStyle(String),
    /// Remove the field of this id.
    DeleteField(AlertFieldId),
    /// Add a field at the end, under an id that the caller has drawn and that
    /// no field of the alert holds. `kind` is `text` or `counter`.
    AddField { id: AlertFieldId, name: AlertFieldName, kind: String, value: String },
    /// Store a value in the field of this id and rename it if a name is
    /// given.
    SetField { id: AlertFieldId, name: Option<AlertFieldName>, value: String },
    /// Step, set or replace the value of one field, found by id or by name.
    UpdateField { name: Option<AlertFieldName>, id: Option<AlertFieldId>, update: UpdateAlertField },
}

/// What an `AlertEdit` holds, as plain values.
#[allow(inconsistent_fields)]
pub enum EditView {
    SetName(Seq<char>),
    SetText(Seq<char>),
    SetStyle(Seq<char>),
    DeleteField(Seq<char>),
    AddField { id: Seq<char>, name: Seq<char>, kind: Seq<char>, value: Seq<char> },
    SetField { id: Seq<char>, name: Option<Seq<char>>, value: Seq<char> },
    UpdateField { name: Option<Seq<char>>, id: Option<Seq<char>>, update: UpdateView },
}

impl View for AlertEdit {
    type V = EditView;

    open spec fn view(&self) -> EditView {
        match self {
            AlertEdit::SetName(name) => EditView::SetName(name@),
            AlertEdit::SetText(text) => EditView::SetText(text@),
            AlertEdit::SetStyle(style) => EditView::SetStyle(style@),
            AlertEdit::DeleteField(id) => EditView::DeleteField(id@),
            AlertEdit::AddField { id, name, kind, value } => EditView::AddField {
                id: id@,
                name: name@,
                kind: kind@,
                value: value@,
            },
            AlertEdit::SetField { id, name, value } => EditView::SetField {
                id: id@,
                name: name_view(*name),
                value: value@,
            },
            AlertEdit::UpdateField { name, id, update } => EditView::UpdateField {
                name: name_view(*name),
                id: id_view(*id),
                update: update@,
            },
        }
    }
}

impl EditView {
    /// The alert after the edit, or why the edit is refused.
    pub open spec fn apply(self, alert: AlertView) -> Result<AlertView, AlertError> {
        match self {
            EditView::SetName(name) => Ok(AlertView { name, ..alert }),
            EditView::SetText(last_text) => Ok(AlertView { last_text, ..alert }),
            EditView::SetStyle(last_style) => Ok(AlertView { last_style, ..alert }),
            EditView::DeleteField(id) => alert.delete_field(id),
            EditView::AddField { id, name, kind, value } => alert.add_new_field(
                id,
                name,
                kind,
                value,
            ),
            EditView::SetField { id, name, value } => alert.set_field(id, name, value),
            EditView::UpdateField { name, id, update } => alert.update_field(name, id, update),
        }
    }

    /// The edit that steps the field of this id up by one.
    pub open spec fn increment(field_id: Seq<char>) -> EditView {
        EditView::UpdateField {
            name: None,
            id: Some(field_id),
            update: UpdateView { incr: Some(1i32), decr: None, set: None, new: None, kind: None },
        }
    }
}

/// No edit changes the id of the alert it is applied to.
pub proof fn lemma_edit_keeps_id(edit: EditView, alert: AlertView)
    ensures
        edit.apply(alert) matches Ok(after) ==> after.alert_id == alert.alert_id,
{
}

impl AlertEdit {
    /// The edit that steps the field of this id up by one.
    pub fn increment(field_id: AlertFieldId) -> (edit: Self)
        ensures
            edit@ == EditView::increment(field_id@),
    {
        AlertEdit::UpdateField {
            name: None,
            id: Some(field_id),
            update: UpdateAlertField { incr: Some(1), decr: None, set: None, new: None, kind: None },
        }
    }
}

impl Alert {
    /// Applies `edit`. A refused edit changes nothing.
    pub fn apply(&mut self, edit: AlertEdit) -> (done: Result<(), AlertError>)
        requires
            old(self)@.wf(),
        ensures
            match edit@.apply(old(self)@) {
                Ok(after) => done is Ok && final(self)@ == after,
                Err(error) => done == Err::<(), AlertError>(error) && final(self)@ == old(self)@,
            },
            final(self)@.wf(),
    {
        match edit {
            AlertEdit::SetName(name) => {
                self.set_name(name);
                Ok(())
            },
            AlertEdit::SetText(text) => {
                self.set_text(text);
                Ok(())
            },
            AlertEdit::SetStyle(style) => {
                self.set_style(style);
                Ok(())
            },
            AlertEdit::DeleteField(id) => self.delete_field(&id),
            AlertEdit::AddField { id, name, kind, value } => self.add_new_field(
                id,
                name,
                kind.as_str(),
                value,
            ),
            AlertEdit::SetField { id, name, value } => self.set_field(&id, name, value),
            AlertEdit::UpdateField { name, id, update } => self.update_field(name, id, update),
        }
    }
}

} // verus!
