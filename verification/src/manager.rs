//! The store of alerts: the one place where alerts are kept and changed.
//!
//! The store holds each alert once, under its id. Every change goes through
//! it, one at a time, and every change that succeeds gives exactly one event
//! to announce. Whoever owns the store writes the changed alert to disk and
//! publishes the event; to write before the store changes, ask `edited` for
//! the alert as it would be, write it, and hand it to `edit_alert`.

use vstd::prelude::*;
use crate::alert::{Alert, AlertView};
use crate::codec::load_spec;
use crate::edit::{lemma_edit_keeps_id, AlertEdit, EditView};
use crate::error::AlertError;
use crate::field::FieldValue;
use crate::ids::AlertId;
use crate::message::{AlertEvent, EventView};
use crate::text::{first_index, lemma_first_index};

verus! {

/// The views of a run of alerts.
pub open spec fn alerts_view(alerts: Seq<Alert>) -> Seq<AlertView> {
    alerts.map_values(|alert: Alert| alert@)
}

/// The ids of a run of alerts, in order.
pub open spec fn alert_ids(alerts: Seq<AlertView>) -> Seq<Seq<char>> {
    alerts.map_values(|alert: AlertView| alert.alert_id)
}

/// What a store holds: its alerts in the order in which they came.
pub struct ManagerView {
    pub alerts: Seq<AlertView>,
}

impl ManagerView {
    /// Every alert is well formed and no two share an id.
    pub open spec fn wf(self) -> bool {
        &&& alert_ids(self.alerts).no_duplicates()
        &&& forall|i: int| 0 <= i < self.alerts.len() ==> (#[trigger] self.alerts[i]).wf()
    }

    /// The position of the alert with this id.
    pub open spec fn find(self, id: Seq<char>) -> Option<int> {
        first_index(alert_ids(self.alerts), id)
    }

    /// The alert with this id.
    pub open spec fn get(self, id: Seq<char>) -> Option<AlertView> {
        match self.find(id) {
            Some(i) => Some(self.alerts[i]),
            None => None,
        }
    }

    /// The store after `alert` was created in it.
    pub open spec fn create(self, alert: AlertView) -> Result<ManagerView, AlertError> {
        match self.find(alert.alert_id) {
            Some(_) => Err(AlertError::AlreadyExists),
            None => Ok(ManagerView { alerts: self.alerts.push(alert) }),
        }
    }

    /// The store after the alert that has the id of `alert` was replaced by
    /// `alert`.
    pub open spec fn replace(self, alert: AlertView) -> Result<ManagerView, AlertError> {
        match self.find(alert.alert_id) {
            Some(i) => Ok(ManagerView { alerts: self.alerts.update(i, alert) }),
            None => Err(AlertError::NoSuchAlert),
        }
    }

    /// The alert of this id as `edit` would leave it.
    pub open spec fn edited(self, id: Seq<char>, edit: EditView) -> Result<AlertView, AlertError> {
        match self.get(id) {
            Some(alert) => edit.apply(alert),
            None => Err(AlertError::NoSuchAlert),
        }
    }

    /// The store after `edit` was applied to the alert of this id.
    pub open spec fn edit(self, id: Seq<char>, edit: EditView) -> Result<ManagerView, AlertError> {
        match self.edited(id, edit) {
            Ok(alert) => self.replace(alert),
            Err(error) => Err(error),
        }
    }

    /// The store with `alert` in it, in the place of the alert that had its
    /// id or at the end.
    pub open spec fn put(self, alert: AlertView) -> ManagerView {
        match self.find(alert.alert_id) {
            Some(i) => ManagerView { alerts: self.alerts.update(i, alert) },
            None => ManagerView { alerts: self.alerts.push(alert) },
        }
    }

    /// The store after each of `alerts` was put into it, first to last.
    pub open spec fn put_all(self, alerts: Seq<AlertView>) -> ManagerView
        decreases alerts.len(),
    {
        if alerts.len() == 0 {
            self
        } else {
            self.put_all(alerts.drop_last()).put(alerts.last())
        }
    }

    /// The store after the field of one alert was stepped up by one, `times`
    /// times in a row.
    pub open spec fn incremented(self, alert_id: Seq<char>, field_id: Seq<char>, times: nat) -> Result<
        ManagerView,
        AlertError,
    >
        decreases times,
    {
        if times == 0 {
            Ok(self)
        } else {
            match self.incremented(alert_id, field_id, (times - 1) as nat) {
                Ok(store) => store.edit(alert_id, EditView::increment(field_id)),
                Err(error) => Err(error),
            }
        }
    }
}

/// The contents of a run of files.
pub open spec fn files_view(files: Seq<Vec<u8>>) -> Seq<Seq<u8>> {
    files.map_values(|file: Vec<u8>| file@)
}

/// The alerts stored in a run of files, if every file holds one.
pub open spec fn load_all(files: Seq<Seq<u8>>) -> Option<Seq<AlertView>>
    decreases files.len(),
{
    if files.len() == 0 {
        Some(Seq::empty())
    } else {
        match (load_all(files.drop_last()), load_spec(files.last())) {
            (Some(front), Some(last)) => Some(front.push(last)),
            _ => None,
        }
    }
}

/// Files that cannot all be loaded cannot be loaded when more are added.
proof fn lemma_load_all_prefix(files: Seq<Seq<u8>>, k: int)
    requires
        0 <= k <= files.len(),
        load_all(files.take(k)) is None,
    ensures
        load_all(files) is None,
    decreases files.len(),
{
    if k < files.len() {
        assert(files.drop_last().take(k) =~= files.take(k));
        lemma_load_all_prefix(files.drop_last(), k);
    } else {
        assert(files.take(k) =~= files);
    }
}

/// An edit that succeeds puts the edited alert where the alert was and
/// leaves every other alert alone.
pub proof fn lemma_edit(store: ManagerView, id: Seq<char>, edit: EditView)
    requires
        store.wf(),
    ensures
        match store.find(id) {
            Some(i) => match edit.apply(store.alerts[i]) {
                Ok(after) => store.edit(id, edit) == Ok::<ManagerView, AlertError>(
                    ManagerView { alerts: store.alerts.update(i, after) },
                ),
                Err(error) => store.edit(id, edit) == Err::<ManagerView, AlertError>(error),
            },
            None => store.edit(id, edit) == Err::<ManagerView, AlertError>(AlertError::NoSuchAlert),
        },
{
    lemma_first_index(alert_ids(store.alerts), id);
    match store.find(id) {
        Some(i) => {
            lemma_edit_keeps_id(edit, store.alerts[i]);
        },
        None => {},
    }
}

/// Stepping a counter up by one, `times` times through the store, leaves it
/// exactly `times` higher: no step is lost, and nothing else changes.
pub proof fn lemma_increments_add_up(
    store: ManagerView,
    alert_id: Seq<char>,
    field_id: Seq<char>,
    times: nat,
)
    requires
        store.wf(),
        store.find(alert_id) is Some,
        store.alerts[store.find(alert_id)->0].find_id(field_id) is Some,
        store.alerts[store.find(alert_id)->0].fields[store.alerts[store.find(
            alert_id,
        )->0].find_id(field_id)->0].value is Counter,
        store.alerts[store.find(alert_id)->0].fields[store.alerts[store.find(
            alert_id,
        )->0].find_id(field_id)->0].value->Counter_0 + times <= i32::MAX,
    ensures
        ({
            let a = store.find(alert_id)->0;
            let alert = store.alerts[a];
            let f = alert.find_id(field_id)->0;
            let count = alert.fields[f].value->Counter_0;
            store.incremented(alert_id, field_id, times) == Ok::<ManagerView, AlertError>(
                ManagerView {
                    alerts: store.alerts.update(
                        a,
                        alert.with_value(f, FieldValue::Counter((count + times) as i32)),
                    ),
                },
            )
        }),
    decreases times,
{
    let a = store.find(alert_id)->0;
    let alert = store.alerts[a];
    let f = alert.find_id(field_id)->0;
    let count = alert.fields[f].value->Counter_0;
    lemma_first_index(alert_ids(store.alerts), alert_id);
    lemma_first_index(alert.ids(), field_id);
    if times == 0 {
        assert(alert.fields.update(f, alert.fields[f]) =~= alert.fields);
        assert(store.alerts.update(a, alert) =~= store.alerts);
    } else {
        let before = (times - 1) as nat;
        lemma_increments_add_up(store, alert_id, field_id, before);
        let stepped = alert.with_value(f, FieldValue::Counter((count + before) as i32));
        let mid = ManagerView { alerts: store.alerts.update(a, stepped) };
        assert(alert_ids(mid.alerts) =~= alert_ids(store.alerts));
        assert(stepped.ids() =~= alert.ids());
        assert(mid.wf()) by {
            assert forall|i: int| 0 <= i < mid.alerts.len() implies (#[trigger] mid.alerts[i]).wf() by {
                if i != a {
                    assert(mid.alerts[i] == store.alerts[i]);
                }
            }
        }
        lemma_edit(mid, alert_id, EditView::increment(field_id));
        let last = stepped.with_value(f, FieldValue::Counter((count + times) as i32));
        assert(last.fields =~= alert.with_value(
            f,
            FieldValue::Counter((count + times) as i32),
        ).fields);
        assert(mid.alerts.update(a, last) =~= store.alerts.update(
            a,
            alert.with_value(f, FieldValue::Counter((count + times) as i32)),
        ));
    }
}

/// The store of alerts.
#[derive(Debug)]
pub struct AlertManager {
    alerts: Vec<Alert>,
}

impl View for AlertManager {
    type V = ManagerView;

    closed spec fn view(&self) -> ManagerView {
        ManagerView { alerts: alerts_view(self.alerts@) }
    }
}

impl AlertManager {
    /// A store without alerts.
    pub fn new() -> (store: Self)
        ensures
            store@.alerts == Seq::<AlertView>::empty(),
            store@.wf(),
    {
        let store = AlertManager { alerts: Vec::new() };
        store
    }

    /// The alerts, in the order in which they came into the store.
    pub fn read_alerts(&self) -> (alerts: &Vec<Alert>)
        ensures
            alerts_view(alerts@) == self@.alerts,
    {
        &self.alerts
    }

    /// The position of the alert with this id.
    pub fn position(&self, alert_id: &AlertId) -> (found: Option<usize>)
        ensures
            found matches Some(at) ==> at < self@.alerts.len() && self@.find(alert_id@) == Some(
                at as int,
            ),
            found is None ==> self@.find(alert_id@) is None,
    {
        let mut i: usize = 0;
        while i < self.alerts.len()
            invariant
                i <= self.alerts.len(),
                forall|j: int| 0 <= j < i ==> alert_ids(self@.alerts)[j] != alert_id@,
            decreases self.alerts.len() - i,
        {
            if *self.alerts[i].alert_id() == *alert_id {
                proof {
                    lemma_first_index(alert_ids(self@.alerts), alert_id@);
                    assert(alert_ids(self@.alerts)[i as int] == alert_id@);
                }
                return Some(i);
            }
            i = i + 1;
        }
        proof {
            lemma_first_index(alert_ids(self@.alerts), alert_id@);
        }
        None
    }

    /// A copy of the alert with this id, as it is now.
    pub fn get(&self, alert_id: &AlertId) -> (found: Option<Alert>)
        ensures
            match self@.get(alert_id@) {
                Some(view) => found is Some && found->0@ == view,
                None => found is None,
            },
    {
        match self.position(alert_id) {
            Some(at) => Some(self.alerts[at].clone()),
            None => None,
        }
    }

    /// A copy of every alert with its id, in the order of the store.
    pub fn list(&self) -> (all: Vec<(AlertId, Alert)>)
        ensures
            all@.len() == self@.alerts.len(),
            forall|i: int|
                0 <= i < all@.len() ==> all@[i].0@ == self@.alerts[i].alert_id && all@[i].1@
                    == self@.alerts[i],
    {
        let mut all: Vec<(AlertId, Alert)> = Vec::new();
        let mut i: usize = 0;
        while i < self.alerts.len()
            invariant
                i <= self.alerts.len(),
                all@.len() == i,
                forall|j: int|
                    0 <= j < i ==> all@[j].0@ == self@.alerts[j].alert_id && all@[j].1@
                        == self@.alerts[j],
            decreases self.alerts.len() - i,
        {
            all.push((self.alerts[i].alert_id().clone(), self.alerts[i].clone()));
            i = i + 1;
        }
        all
    }

    /// Creates `alert`. An alert whose id is taken is refused.
    pub fn new_alert(&mut self, alert: Alert) -> (done: Result<AlertEvent, AlertError>)
        requires
            old(self)@.wf(),
            alert@.wf(),
        ensures
            match old(self)@.create(alert@) {
                Ok(after) => final(self)@ == after && done is Ok && done->Ok_0@ == EventView::of(
                    alert@,
                ),
                Err(error) => final(self)@ == old(self)@ && done is Err && done->Err_0 == error,
            },
            final(self)@.wf(),
    {
        match self.position(alert.alert_id()) {
            Some(_) => Err(AlertError::AlreadyExists),
            None => {
                proof {
                    lemma_first_index(alert_ids(self@.alerts), alert@.alert_id);
                }
                let event = AlertEvent::content_changed(&alert);
                self.alerts.push(alert);
                assert(self@.alerts =~= old(self)@.alerts.push(alert@));
                assert(alert_ids(self@.alerts) =~= alert_ids(old(self)@.alerts).push(
                    alert@.alert_id,
                ));
                Ok(event)
            },
        }
    }

    /// The alert of this id as `edit` would leave it. The store does not
    /// change.
    pub fn edited(&self, alert_id: &AlertId, edit: AlertEdit) -> (made: Result<Alert, AlertError>)
        requires
            self@.wf(),
        ensures
            match self@.edited(alert_id@, edit@) {
                Ok(view) => made is Ok && made->Ok_0@ == view && view.wf(),
                Err(error) => made is Err && made->Err_0 == error,
            },
    {
        let at = match self.position(alert_id) {
            Some(at) => at,
            None => {
                return Err(AlertError::NoSuchAlert);
            },
        };
        let mut alert = self.alerts[at].clone();
        match alert.apply(edit) {
            Ok(()) => Ok(alert),
            Err(error) => Err(error),
        }
    }

    /// Puts `alert` in the place of the stored alert that has its id.
    pub fn edit_alert(&mut self, alert: Alert) -> (done: Result<AlertEvent, AlertError>)
        requires
            old(self)@.wf(),
            alert@.wf(),
        ensures
            match old(self)@.replace(alert@) {
                Ok(after) => final(self)@ == after && done is Ok && done->Ok_0@ == EventView::of(
                    alert@,
                ),
                Err(error) => final(self)@ == old(self)@ && done is Err && done->Err_0 == error,
            },
            final(self)@.wf(),
    {
        match self.position(alert.alert_id()) {
            Some(at) => {
                proof {
                    lemma_first_index(alert_ids(self@.alerts), alert@.alert_id);
                }
                let event = AlertEvent::content_changed(&alert);
                self.alerts.set(at, alert);
                assert(self@.alerts =~= old(self)@.alerts.update(at as int, alert@));
                assert(alert_ids(self@.alerts) =~= alert_ids(old(self)@.alerts));
                assert forall|i: int| 0 <= i < self@.alerts.len() implies (
                #[trigger] self@.alerts[i]).wf() by {
                    if i != at {
                        assert(self@.alerts[i] == old(self)@.alerts[i]);
                    }
                }
                Ok(event)
            },
            None => Err(AlertError::NoSuchAlert),
        }
    }

    /// Applies `edit` to the alert of this id. A refused edit changes
    /// nothing and gives no event.
    pub fn try_edit_alert(&mut self, alert_id: &AlertId, edit: AlertEdit) -> (done: Result<
        AlertEvent,
        AlertError,
    >)
        requires
            old(self)@.wf(),
        ensures
            match old(self)@.edit(alert_id@, edit@) {
                Ok(after) => final(self)@ == after && done is Ok && done->Ok_0@ == EventView::of(
                    old(self)@.edited(alert_id@, edit@)->Ok_0,
                ),
                Err(error) => final(self)@ == old(self)@ && done is Err && done->Err_0 == error,
            },
            final(self)@.wf(),
    {
        proof {
            lemma_edit(self@, alert_id@, edit@);
            lemma_first_index(alert_ids(self@.alerts), alert_id@);
            if self@.find(alert_id@) is Some {
                lemma_edit_keeps_id(edit@, self@.alerts[self@.find(alert_id@)->0]);
            }
        }
        match self.edited(alert_id, edit) {
            Ok(alert) => self.edit_alert(alert),
            Err(error) => Err(error),
        }
    }

    /// The event that asks the viewers of an alert to fetch it again.
    /// Nothing is changed, and the alert need not exist.
    pub fn notify(&self, alert_id: &AlertId) -> (event: AlertEvent)
        ensures
            event@ == (EventView::Pinged { alert_id: alert_id@ }),
    {
        AlertEvent::Pinged { alert_id: alert_id.clone() }
    }

    /// Puts `alert` into the store, in the place of the alert that has its
    /// id if there is one. This is how alerts found on disk come in.
    pub fn put(&mut self, alert: Alert)
        requires
            old(self)@.wf(),
            alert@.wf(),
        ensures
            final(self)@ == old(self)@.put(alert@),
            final(self)@.wf(),
    {
        proof {
            lemma_first_index(alert_ids(self@.alerts), alert@.alert_id);
        }
        match self.position(alert.alert_id()) {
            Some(at) => {
                self.alerts.set(at, alert);
                assert(self@.alerts =~= old(self)@.alerts.update(at as int, alert@));
                assert(alert_ids(self@.alerts) =~= alert_ids(old(self)@.alerts));
                assert forall|i: int| 0 <= i < self@.alerts.len() implies (
                #[trigger] self@.alerts[i]).wf() by {
                    if i != at {
                        assert(self@.alerts[i] == old(self)@.alerts[i]);
                    }
                }
            },
            None => {
                self.alerts.push(alert);
                assert(self@.alerts =~= old(self)@.alerts.push(alert@));
                assert(alert_ids(self@.alerts) =~= alert_ids(old(self)@.alerts).push(
                    alert@.alert_id,
                ));
            },
        }
    }
}

/// Takes into the store the alerts that were found on disk, one per file.
/// If any file is unreadable nothing is taken. Where two files hold alerts of
/// one id, the later one stays.
pub fn read_alerts(manager: &mut AlertManager, files: &Vec<Vec<u8>>) -> (done: Result<
    (),
    AlertError,
>)
    requires
        old(manager)@.wf(),
    ensures
        match load_all(files_view(files@)) {
            Some(alerts) => done is Ok && final(manager)@ == old(manager)@.put_all(alerts),
            None => done == Err::<(), AlertError>(AlertError::Unreadable) && final(manager)@ == old(
                manager,
            )@,
        },
        final(manager)@.wf(),
{
    let ghost contents = files_view(files@);
    let mut loaded: Vec<Alert> = Vec::new();
    let mut i: usize = 0;
    while i < files.len()
        invariant
            i <= files.len(),
            contents == files_view(files@),
            manager@ == old(manager)@,
            manager@.wf(),
            load_all(contents.take(i as int)) == Some(alerts_view(loaded@)),
            forall|j: int| 0 <= j < loaded@.len() ==> (#[trigger] loaded@[j])@.wf(),
        decreases files.len() - i,
    {
        assert(contents.take(i as int + 1).drop_last() =~= contents.take(i as int));
        match Alert::load_alert(files[i].as_slice()) {
            Ok(alert) => {
                loaded.push(alert);
            },
            Err(_) => {
                proof {
                    lemma_load_all_prefix(contents, i as int + 1);
                }
                return Err(AlertError::Unreadable);
            },
        }
        i = i + 1;
    }
    assert(contents.take(files.len() as int) =~= contents);
    let ghost alerts = alerts_view(loaded@);
    let mut k: usize = 0;
    while k < loaded.len()
        invariant
            k <= loaded.len(),
            alerts == alerts_view(loaded@),
            forall|j: int| 0 <= j < loaded@.len() ==> (#[trigger] loaded@[j])@.wf(),
            manager@ == old(manager)@.put_all(alerts.take(k as int)),
            manager@.wf(),
        decreases loaded.len() - k,
    {
        assert(alerts.take(k as int + 1).drop_last() =~= alerts.take(k as int));
        manager.put(loaded[k].clone());
        k = k + 1;
    }
    assert(alerts.take(loaded.len() as int) =~= alerts);
    Ok(())
}

/// The store that the service starts with: the alerts found on disk, one per
/// file. Startup fails if any file is unreadable.
pub fn setup(files: &Vec<Vec<u8>>) -> (made: Result<AlertManager, AlertError>)
    ensures
        match load_all(files_view(files@)) {
            Some(alerts) => made is Ok && made->Ok_0@ == (ManagerView {
                alerts: Seq::empty(),
            }).put_all(alerts) && made->Ok_0@.wf(),
            None => made is Err && made->Err_0 == AlertError::Unreadable,
        },
{
    let mut manager = AlertManager::new();
    match read_alerts(&mut manager, files) {
        Ok(()) => Ok(manager),
        Err(error) => Err(error),
    }
}

} // verus!
