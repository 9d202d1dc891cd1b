//! The requests that editors make of the store, one function each.
//!
//! Each request names an alert, is turned into an edit and applied through
//! the store. What comes back is the alert as it is afterwards, to be shown
//! and written to disk, and the event to publish.

use vstd::prelude::*;
use crate::alert::{name_view, Alert, AlertView};
use crate::edit::{lemma_edit_keeps_id, AlertEdit, EditView};
use crate::error::AlertError;
use crate::ids::{is_generated_id, AlertFieldId, AlertFieldName, AlertId, AlertName, AlertText};
use crate::manager::{alert_ids, lemma_edit, AlertManager, ManagerView};
use crate::message::{AlertEvent, EventView};
use crate::text::lemma_first_index;

verus! {

/// What a request that changed an alert gives back.
#[derive(Debug)]
pub struct Updated {
    /// The alert as it is after the change.
    pub alert: Alert,
    /// The event that announces the change.
    pub event: AlertEvent,
}

/// Whether `done` and `after` are what applying `edit` to the alert `id` of
/// the store `before` gives: on success the store holds the edited alert and
/// `done` carries it with its event; on refusal the store is unchanged and
/// `done` carries the reason.
pub open spec fn applied(
    before: ManagerView,
    after: ManagerView,
    id: Seq<char>,
    edit: EditView,
    done: Result<Updated, AlertError>,
) -> bool {
    match before.edit(id, edit) {
        Ok(store) => {
            &&& after == store
            &&& done is Ok
            &&& done->Ok_0.alert@ == before.edited(id, edit)->Ok_0
            &&& done->Ok_0.event@ == EventView::of(before.edited(id, edit)->Ok_0)
        },
        Err(error) => after == before && done is Err && done->Err_0 == error,
    }
}

/// Applies `edit` to the alert of this id and reads the alert back.
pub fn apply_edit(manager: &mut AlertManager, alert_id: &AlertId, edit: AlertEdit) -> (done: Result<
    Updated,
    AlertError,
>)
    requires
        old(manager)@.wf(),
    ensures
        applied(old(manager)@, final(manager)@, alert_id@, edit@, done),
        final(manager)@.wf(),
{
    let alert = match manager.edited(alert_id, edit) {
        Ok(alert) => alert,
        Err(error) => {
            return Err(error);
        },
    };
    proof {
        lemma_edit(manager@, alert_id@, edit@);
        lemma_first_index(alert_ids(manager@.alerts), alert_id@);
        lemma_edit_keeps_id(edit@, manager@.alerts[manager@.find(alert_id@)->0]);
    }
    let copy = alert.clone();
    match manager.edit_alert(alert) {
        Ok(event) => Ok(Updated { alert: copy, event }),
        Err(error) => Err(error),
    }
}

/// Asks the viewers of an alert to fetch it again. Nothing is changed.
pub fn update_alert_refresh(manager: &AlertManager, alert_id: AlertId) -> (event: AlertEvent)
    ensures
        event@ == (EventView::Pinged { alert_id: alert_id@ }),
{
    manager.notify(&alert_id)
}

/// Gives an alert another name.
pub fn update_alert_name(manager: &mut AlertManager, alert_id: AlertId, name: String) -> (done:
    Result<Updated, AlertError>)
    requires
        old(manager)@.wf(),
    ensures
        applied(old(manager)@, final(manager)@, alert_id@, EditView::SetName(name@), done),
        final(manager)@.wf(),
{
    apply_edit(manager, &alert_id, AlertEdit::SetName(AlertName::new(name)))
}

/// Replaces the markdown template of an alert.
pub fn update_alert_text(manager: &mut AlertManager, alert_id: AlertId, text: String) -> (done:
    Result<Updated, AlertError>)
    requires
        old(manager)@.wf(),
    ensures
        applied(old(manager)@, final(manager)@, alert_id@, EditView::SetText(text@), done),
        final(manager)@.wf(),
{
    apply_edit(manager, &alert_id, AlertEdit::SetText(AlertText::new(text)))
}

/// Replaces the style template of an alert.
pub fn update_alert_style(manager: &mut AlertManager, alert_id: AlertId, style: String) -> (done:
    Result<Updated, AlertError>)
    requires
        old(manager)@.wf(),
    ensures
        applied(old(manager)@, final(manager)@, alert_id@, EditView::SetStyle(style@), done),
        final(manager)@.wf(),
{
    apply_edit(manager, &alert_id, AlertEdit::SetStyle(style))
}

/// Stores a value in a field, read as the kind the field has, and renames
/// the field if a name is given.
pub fn update_alert_field(
    manager: &mut AlertManager,
    alert_id: AlertId,
    field_name: Option<AlertFieldName>,
    field_id: AlertFieldId,
    value: String,
) -> (done: Result<Updated, AlertError>)
    requires
        old(manager)@.wf(),
    ensures
        applied(
            old(manager)@,
            final(manager)@,
            alert_id@,
            EditView::SetField { id: field_id@, name: name_view(field_name), value: value@ },
            done,
        ),
        final(manager)@.wf(),
{
    apply_edit(manager, &alert_id, AlertEdit::SetField { id: field_id, name: field_name, value })
}

/// Removes a field from an alert.
pub fn delete_alert_field(manager: &mut AlertManager, alert_id: AlertId, field: AlertFieldId) -> (done:
    Result<Updated, AlertError>)
    requires
        old(manager)@.wf(),
    ensures
        applied(old(manager)@, final(manager)@, alert_id@, EditView::DeleteField(field@), done),
        final(manager)@.wf(),
{
    apply_edit(manager, &alert_id, AlertEdit::DeleteField(field))
}

/// Adds a field at the end of an alert, under a random id that is drawn
/// here. `kind` is `text` or `counter`; `value` is read as that kind. Should
/// the id that was drawn be held by a field of the alert, nothing is added.
pub fn add_alert_field(
    manager: &mut AlertManager,
    alert_id: AlertId,
    name: AlertFieldName,
    kind: String,
    value: String,
) -> (done: Result<Updated, AlertError>)
    requires
        old(manager)@.wf(),
    ensures
        exists|id: Seq<char>|
            is_generated_id(id, 4) && applied(
                old(manager)@,
                final(manager)@,
                alert_id@,
                EditView::AddField { id, name: name@, kind: kind@, value: value@ },
                done,
            ),
        final(manager)@.wf(),
{
    let id = AlertFieldId::new_id();
    apply_edit(manager, &alert_id, AlertEdit::AddField { id, name, kind, value })
}

/// The alert that `new_alert` creates under `id` for `name`: no text, no
/// style, no fields.
pub open spec fn blank(id: Seq<char>, name: Seq<char>) -> AlertView {
    AlertView {
        alert_id: id,
        last_text: Seq::empty(),
        last_style: Seq::empty(),
        name,
        fields: Seq::empty(),
    }
}

/// What a request that created an alert gives back.
#[derive(Debug)]
pub struct Created {
    /// The id that was drawn for the alert.
    pub alert_id: AlertId,
    /// The event that announces the alert.
    pub event: AlertEvent,
}

/// An empty alert called `name` under a random id that is drawn here and
/// that the store does not hold. Nothing is stored: the alert is for
/// `AlertManager::new_alert`, once it has been written to disk. Should the
/// id that was drawn be taken, no alert is made.
pub fn draft_alert(manager: &AlertManager, name: String) -> (done: Result<Alert, AlertError>)
    ensures
        match done {
            Ok(alert) => {
                &&& is_generated_id(alert@.alert_id, 21)
                &&& manager@.find(alert@.alert_id) is None
                &&& alert@ == blank(alert@.alert_id, name@)
            },
            Err(error) => {
                &&& error == AlertError::AlreadyExists
                &&& exists|id: Seq<char>| is_generated_id(id, 21) && manager@.find(id) is Some
            },
        },
{
    let id = AlertId::new_id();
    if manager.position(&id).is_some() {
        return Err(AlertError::AlreadyExists);
    }
    Ok(Alert::new(id, AlertText::new(String::new()), AlertName::new(name)))
}

/// Creates an empty alert called `name` under a random id that is drawn
/// here. Should the id that was drawn be taken, nothing is created; on a
/// store that holds no alert under a generated id this cannot happen.
pub fn new_alert(manager: &mut AlertManager, name: String) -> (done: Result<Created, AlertError>)
    requires
        old(manager)@.wf(),
    ensures
        exists|id: Seq<char>|
            is_generated_id(id, 21) && (match old(manager)@.create(blank(id, name@)) {
                Ok(after) => {
                    &&& done is Ok
                    &&& done->Ok_0.alert_id@ == id
                    &&& final(manager)@ == after
                    &&& done->Ok_0.event@ == EventView::of(blank(id, name@))
                },
                Err(error) => done is Err && done->Err_0 == error && final(manager)@ == old(
                    manager,
                )@,
            }),
        final(manager)@.wf(),
{
    let id = AlertId::new_id();
    let alert = Alert::new(id.clone(), AlertText::new(String::new()), AlertName::new(name));
    match manager.new_alert(alert) {
        Ok(event) => Ok(Created { alert_id: id, event }),
        Err(error) => Err(error),
    }
}

/// A copy of the alert with this id.
pub fn read_alert(manager: &AlertManager, alert: AlertId) -> (found: Result<Alert, AlertError>)
    ensures
        match manager@.get(alert@) {
            Some(view) => found is Ok && found->Ok_0@ == view,
            None => found is Err && found->Err_0 == AlertError::NoSuchAlert,
        },
{
    match manager.get(&alert) {
        Some(found) => Ok(found),
        None => Err(AlertError::NoSuchAlert),
    }
}

/// A copy of every alert with its id, in the order of the store.
pub fn read_all_alerts(manager: &AlertManager) -> (all: Vec<(AlertId, Alert)>)
    ensures
        all@.len() == manager@.alerts.len(),
        forall|i: int|
            0 <= i < all@.len() ==> all@[i].0@ == manager@.alerts[i].alert_id && all@[i].1@
                == manager@.alerts[i],
{
    manager.list()
}

} // verus!
