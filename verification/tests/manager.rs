use stream_alerts::alert::Alert;
use stream_alerts::edit::AlertEdit;
use stream_alerts::error::{AlertError, ErrorClass};
use stream_alerts::field::AlertField;
use stream_alerts::ids::{AlertFieldId, AlertFieldName, AlertId, AlertName, AlertText};
use stream_alerts::manager::{read_alerts, setup, AlertManager};
use stream_alerts::message::{AlertEvent, AlertMessage};
use stream_alerts::update::{
    add_alert_field, delete_alert_field, draft_alert, new_alert, read_alert, read_all_alerts,
    update_alert_field,
    update_alert_name, update_alert_refresh, update_alert_style, update_alert_text,
};

fn aid(text: &str) -> AlertId {
    AlertId::new(text.to_string())
}

fn fid(text: &str) -> AlertFieldId {
    AlertFieldId::new(text.to_string())
}

fn fname(text: &str) -> AlertFieldName {
    AlertFieldName::new(text.to_string())
}

fn alert(id: &str, text: &str, name: &str) -> Alert {
    Alert::new(aid(id), AlertText::new(text.to_string()), AlertName::new(name.to_string()))
}

fn add(id: &str, name: &str, kind: &str, value: &str) -> AlertEdit {
    AlertEdit::AddField { id: fid(id), name: fname(name), kind: kind.to_string(), value: value.to_string() }
}

fn changed(event: &AlertEvent) -> (String, String, String) {
    match event {
        AlertEvent::ContentChanged { alert_id, rendered_markdown, rendered_style } => {
            (alert_id.as_str().to_string(), rendered_markdown.as_str().to_string(), rendered_style.clone())
        }
        AlertEvent::Pinged { .. } => panic!("expected a change"),
    }
}

#[test]
fn donation_scenario_end_to_end() {
    let mut store = AlertManager::new();
    let created = store.new_alert(alert("A1", "Thanks $who for $amt bits!", "Donation")).unwrap();
    assert_eq!(changed(&created).1, "Thanks $who for $amt bits!");

    store.try_edit_alert(&aid("A1"), add("f1", "who", "text", "viewer1")).unwrap();
    let event = store.try_edit_alert(&aid("A1"), add("f2", "amt", "counter", "100")).unwrap();
    assert_eq!(changed(&event).1, "Thanks viewer1 for 100 bits!");
    assert_eq!(store.get(&aid("A1")).unwrap().render().as_str(), "Thanks viewer1 for 100 bits!");

    let step = AlertEdit::UpdateField {
        name: Some(fname("amt")),
        id: None,
        update: stream_alerts::alert::UpdateAlertField { incr: Some(50), decr: None, set: None, new: None, kind: None },
    };
    let event = store.try_edit_alert(&aid("A1"), step).unwrap();
    assert_eq!(
        changed(&event),
        ("A1".to_string(), "Thanks viewer1 for 150 bits!".to_string(), String::new())
    );
    assert_eq!(store.get(&aid("A1")).unwrap().render().as_str(), "Thanks viewer1 for 150 bits!");
    let messages = event.messages();
    assert_eq!(messages.len(), 2);
    assert!(matches!(&messages[0], AlertMessage::MessageMarkdown { text, .. } if text.as_str() == "Thanks viewer1 for 150 bits!"));
    assert!(matches!(&messages[1], AlertMessage::Style { style, .. } if style.is_empty()));
}

#[test]
fn every_increment_counts() {
    let mut store = AlertManager::new();
    store.new_alert(alert("a", "$n", "other")).unwrap();
    store.new_alert(alert("c", "$n", "counted")).unwrap();
    store.try_edit_alert(&aid("c"), add("n", "n", "counter", "0")).unwrap();
    store.try_edit_alert(&aid("a"), add("n", "n", "counter", "0")).unwrap();
    let times = 1000;
    for _ in 0..times {
        store.try_edit_alert(&aid("c"), AlertEdit::increment(fid("n"))).unwrap();
    }
    let counted = store.get(&aid("c")).unwrap();
    assert!(matches!(counted.fields()[0].value, AlertField::Counter(1000)));
    assert_eq!(counted.render().as_str(), "1000");
    assert_eq!(store.get(&aid("a")).unwrap().render().as_str(), "0");
}

#[test]
fn create_refuses_a_taken_id() {
    let mut store = AlertManager::new();
    store.new_alert(alert("a", "first", "n")).unwrap();
    let again = store.new_alert(alert("a", "second", "n"));
    assert_eq!(again.err(), Some(AlertError::AlreadyExists));
    assert_eq!(AlertError::AlreadyExists.class(), ErrorClass::AlreadyExists);
    assert_eq!(store.read_alerts().len(), 1);
    assert_eq!(store.get(&aid("a")).unwrap().last_text().as_str(), "first");
}

#[test]
fn editing_an_unknown_alert_is_not_found() {
    let mut store = AlertManager::new();
    let done = store.try_edit_alert(&aid("none"), AlertEdit::SetStyle(String::new()));
    assert_eq!(done.err(), Some(AlertError::NoSuchAlert));
    assert_eq!(store.edit_alert(alert("none", "", "")).err(), Some(AlertError::NoSuchAlert));
    assert_eq!(store.edited(&aid("none"), AlertEdit::SetStyle(String::new())).err(), Some(AlertError::NoSuchAlert));
    assert!(store.get(&aid("none")).is_none());
    assert_eq!(AlertError::NoSuchAlert.class(), ErrorClass::NotFound);
}

#[test]
fn a_refused_edit_changes_nothing() {
    let mut store = AlertManager::new();
    store.new_alert(alert("a", "$n", "n")).unwrap();
    store.try_edit_alert(&aid("a"), add("n", "n", "counter", "1")).unwrap();
    let done = store.try_edit_alert(
        &aid("a"),
        AlertEdit::SetField { id: fid("n"), name: Some(fname("m")), value: "x".to_string() },
    );
    assert_eq!(done.err(), Some(AlertError::InvalidNumber));
    let kept = store.get(&aid("a")).unwrap();
    assert_eq!(kept.fields()[0].name.as_str(), "n");
    assert_eq!(kept.render().as_str(), "1");
}

#[test]
fn edited_leaves_the_store_alone_until_handed_back() {
    let mut store = AlertManager::new();
    store.new_alert(alert("a", "old", "n")).unwrap();
    let next = store.edited(&aid("a"), AlertEdit::SetText(AlertText::new("new".to_string()))).unwrap();
    assert_eq!(next.last_text().as_str(), "new");
    assert_eq!(store.get(&aid("a")).unwrap().last_text().as_str(), "old");
    let event = store.edit_alert(next).unwrap();
    assert_eq!(changed(&event).1, "new");
    assert_eq!(store.get(&aid("a")).unwrap().last_text().as_str(), "new");
}

#[test]
fn notify_pings_without_changing() {
    let mut store = AlertManager::new();
    store.new_alert(alert("a", "t", "n")).unwrap();
    let event = store.notify(&aid("a"));
    assert!(matches!(&event, AlertEvent::Pinged { alert_id } if alert_id.as_str() == "a"));
    assert_eq!(event.alert_id().as_str(), "a");
    let messages = event.messages();
    assert_eq!(messages.len(), 1);
    assert!(matches!(&messages[0], AlertMessage::Update { alert_id } if alert_id.as_str() == "a"));
    assert_eq!(store.get(&aid("a")).unwrap().last_text().as_str(), "t");
    let ping = update_alert_refresh(&store, aid("b"));
    assert!(matches!(&ping, AlertEvent::Pinged { alert_id } if alert_id.as_str() == "b"));
}

#[test]
fn list_gives_every_alert_in_store_order() {
    let mut store = AlertManager::new();
    for id in ["b", "a", "c"] {
        store.new_alert(alert(id, id, id)).unwrap();
    }
    let ids: Vec<String> = store.list().iter().map(|(id, _)| id.as_str().to_string()).collect();
    assert_eq!(ids, ["b", "a", "c"]);
    let all = read_all_alerts(&store);
    assert!(all.iter().all(|(id, alert)| id == alert.alert_id()));
    assert_eq!(store.position(&aid("c")), Some(2));
}

#[test]
fn startup_loads_every_file() {
    let first = alert("one", "1", "n").save_alert().into_bytes();
    let second = alert("two", "2", "n").save_alert().into_bytes();
    let later = alert("one", "later", "n").save_alert().into_bytes();
    let store = setup(&vec![first, second, later]).unwrap();
    assert_eq!(store.read_alerts().len(), 2);
    assert_eq!(store.get(&aid("one")).unwrap().last_text().as_str(), "later");
    assert_eq!(store.get(&aid("two")).unwrap().last_text().as_str(), "2");
    assert!(setup(&Vec::new()).unwrap().read_alerts().is_empty());
}

#[test]
fn startup_fails_on_one_unreadable_file() {
    let good = alert("one", "1", "n").save_alert().into_bytes();
    let bad = b"{\"alert_id\":".to_vec();
    assert_eq!(setup(&vec![good.clone(), bad.clone()]).err(), Some(AlertError::Unreadable));
    assert_eq!(AlertError::Unreadable.class(), ErrorClass::Persistence);
    let mut store = AlertManager::new();
    store.new_alert(alert("kept", "k", "n")).unwrap();
    assert_eq!(read_alerts(&mut store, &vec![good, bad]), Err(AlertError::Unreadable));
    assert_eq!(store.read_alerts().len(), 1);
}

#[test]
fn a_draft_is_an_empty_alert_that_is_not_stored() {
    let mut store = AlertManager::new();
    let draft = draft_alert(&store, "Donation".to_string()).unwrap();
    assert_eq!(draft.alert_id().as_str().chars().count(), 21);
    assert_eq!(draft.name().as_str(), "Donation");
    assert_eq!(draft.last_text().as_str(), "");
    assert_eq!(draft.last_style(), "");
    assert!(draft.fields().is_empty());
    assert!(store.read_alerts().is_empty());
    let id = draft.alert_id().clone();
    store.new_alert(draft).unwrap();
    assert_eq!(store.position(&id), Some(0));
}

#[test]
fn new_alerts_come_under_ids_of_their_own() {
    let mut store = AlertManager::new();
    let mut ids = Vec::new();
    for n in 0..40 {
        let created = new_alert(&mut store, "n".to_string()).unwrap();
        assert_eq!(store.read_alerts().len(), n + 1);
        assert!(!ids.contains(&created.alert_id.as_str().to_string()));
        assert_eq!(store.position(&created.alert_id), Some(n));
        ids.push(created.alert_id.into_string());
    }
}

#[test]
fn requests_change_the_named_alert_and_report_it() {
    let mut store = AlertManager::new();
    let created = new_alert(&mut store, "Donation".to_string()).unwrap();
    let id = created.alert_id;
    assert_eq!(id.as_str().len(), 21);
    assert_eq!(changed(&created.event), (id.as_str().to_string(), String::new(), String::new()));

    let done = update_alert_text(&mut store, id.clone(), "$n!".to_string()).unwrap();
    assert_eq!(done.alert.last_text().as_str(), "$n!");
    let done = update_alert_style(&mut store, id.clone(), "b{}".to_string()).unwrap();
    assert_eq!(changed(&done.event).2, "b{}");
    let done = update_alert_name(&mut store, id.clone(), "Renamed".to_string()).unwrap();
    assert_eq!(done.alert.name().as_str(), "Renamed");

    let done = add_alert_field(&mut store, id.clone(), fname("n"), "counter".to_string(), "4".to_string()).unwrap();
    assert_eq!(changed(&done.event).1, "4!");
    let field = done.alert.fields()[0].id.clone();
    assert_eq!(field.as_str().len(), 4);

    let done = update_alert_field(&mut store, id.clone(), Some(fname("m")), field.clone(), "5".to_string()).unwrap();
    assert_eq!(done.alert.fields()[0].name.as_str(), "m");
    assert_eq!(changed(&done.event).1, "$n!");
    let bad = update_alert_field(&mut store, id.clone(), None, field.clone(), "x".to_string());
    assert_eq!(bad.err(), Some(AlertError::InvalidNumber));

    let stored = read_alert(&store, id.clone()).unwrap();
    assert!(matches!(stored.fields()[0].value, AlertField::Counter(5)));
    let done = delete_alert_field(&mut store, id.clone(), field.clone()).unwrap();
    assert!(done.alert.fields().is_empty());
    assert_eq!(delete_alert_field(&mut store, id.clone(), field.clone()).err(), Some(AlertError::NoSuchField));
    assert_eq!(
        update_alert_field(&mut store, id.clone(), None, field, "1".to_string()).err(),
        Some(AlertError::NoSuchField)
    );

    assert_eq!(read_alert(&store, aid("missing")).err(), Some(AlertError::NoSuchAlert));
    assert_eq!(update_alert_name(&mut store, aid("missing"), String::new()).err(), Some(AlertError::NoSuchAlert));
    assert_eq!(
        add_alert_field(&mut store, id, fname("n"), "nope".to_string(), String::new()).err(),
        Some(AlertError::InvalidKind)
    );
}
