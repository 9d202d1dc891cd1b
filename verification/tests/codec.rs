use stream_alerts::alert::{Alert, Field};
use stream_alerts::error::AlertError;
use stream_alerts::field::AlertField;
use stream_alerts::ids::{AlertFieldId, AlertFieldName, AlertId, AlertName, AlertText};

fn sample() -> Alert {
    let mut alert = Alert::new(
        AlertId::new("A1".to_string()),
        AlertText::new("Thanks $who for $amt bits!".to_string()),
        AlertName::new("Donation".to_string()),
    );
    alert.set_style("p { color: \"red\"; }\n".to_string());
    alert.insert_field(Field {
        id: AlertFieldId::new("f1".to_string()),
        name: AlertFieldName::new("who".to_string()),
        value: AlertField::Text("viewer \\ \"one\" \u{1F600}".to_string()),
    });
    alert.insert_field(Field {
        id: AlertFieldId::new("f2".to_string()),
        name: AlertFieldName::new("amt".to_string()),
        value: AlertField::Counter(-100),
    });
    alert
}

fn same(a: &Alert, b: &Alert) -> bool {
    a.alert_id() == b.alert_id()
        && a.name() == b.name()
        && a.last_text() == b.last_text()
        && a.last_style() == b.last_style()
        && a.fields().len() == b.fields().len()
        && a.fields().iter().zip(b.fields().iter()).all(|(x, y)| {
            x.id == y.id
                && x.name == y.name
                && match (&x.value, &y.value) {
                    (AlertField::Text(s), AlertField::Text(t)) => s == t,
                    (AlertField::Counter(m), AlertField::Counter(n)) => m == n,
                    _ => false,
                }
        })
}

#[test]
fn saved_alert_has_the_documented_layout() {
    let mut alert = Alert::new(
        AlertId::new("A1".to_string()),
        AlertText::new("hi".to_string()),
        AlertName::new("n".to_string()),
    );
    alert.insert_field(Field {
        id: AlertFieldId::new("f1".to_string()),
        name: AlertFieldName::new("who".to_string()),
        value: AlertField::Text("v".to_string()),
    });
    alert.insert_field(Field {
        id: AlertFieldId::new("f2".to_string()),
        name: AlertFieldName::new("amt".to_string()),
        value: AlertField::Counter(7),
    });
    assert_eq!(
        alert.save_alert(),
        "{\"alert_id\":\"A1\",\"last_text\":\"hi\",\"last_style\":\"\",\"name\":\"n\",\"fields\":[[\"f1\",\"who\",{\"Text\":\"v\"}],[\"f2\",\"amt\",{\"Counter\":7}]]}"
    );
}

#[test]
fn load_of_save_gives_the_alert_back() {
    let alert = sample();
    let loaded = Alert::load_alert(alert.save_alert().as_bytes()).unwrap();
    assert!(same(&alert, &loaded));
    let empty = Alert::new(
        AlertId::new(String::new()),
        AlertText::new(String::new()),
        AlertName::new(String::new()),
    );
    let loaded = Alert::load_alert(empty.save_alert().as_bytes()).unwrap();
    assert!(same(&empty, &loaded));
}

#[test]
fn counters_at_the_ends_of_the_range_survive() {
    for count in [i32::MIN, -1, 0, 1, i32::MAX] {
        let mut alert = sample();
        alert.insert_field(Field {
            id: AlertFieldId::new("edge".to_string()),
            name: AlertFieldName::new("edge".to_string()),
            value: AlertField::Counter(count),
        });
        let loaded = Alert::load_alert(alert.save_alert().as_bytes()).unwrap();
        assert!(same(&alert, &loaded));
    }
}

#[test]
fn members_may_come_in_any_order_and_with_strangers() {
    let text = b" { \"name\" : \"n\", \"extra\": [1.5, null, {\"a\": true}],
        \"fields\": [ [\"i\", \"f\", {\"Counter\": 3}] ],
        \"last_text\": \"t\", \"alert_id\": \"x\" } ";
    let alert = Alert::load_alert(text).unwrap();
    assert_eq!(alert.alert_id().as_str(), "x");
    assert_eq!(alert.name().as_str(), "n");
    assert_eq!(alert.last_text().as_str(), "t");
    assert_eq!(alert.last_style(), "");
    assert_eq!(alert.fields().len(), 1);
    assert!(matches!(alert.fields()[0].value, AlertField::Counter(3)));
}

#[test]
fn absent_style_and_fields_are_empty() {
    let alert = Alert::load_alert(b"{\"alert_id\":\"x\",\"last_text\":\"t\",\"name\":\"n\"}").unwrap();
    assert_eq!(alert.last_style(), "");
    assert!(alert.fields().is_empty());
}

#[test]
fn unreadable_documents_are_refused() {
    let bad: [&[u8]; 14] = [
        b"",
        b"not json",
        b"[]",
        b"{\"last_text\":\"t\",\"name\":\"n\"}",
        b"{\"alert_id\":\"x\",\"name\":\"n\"}",
        b"{\"alert_id\":\"x\",\"last_text\":\"t\"}",
        b"{\"alert_id\":1,\"last_text\":\"t\",\"name\":\"n\"}",
        b"{\"alert_id\":\"x\",\"last_text\":\"t\",\"name\":\"n\",\"last_style\":null}",
        b"{\"alert_id\":\"x\",\"last_text\":\"t\",\"name\":\"n\",\"fields\":{}}",
        b"{\"alert_id\":\"x\",\"last_text\":\"t\",\"name\":\"n\",\"fields\":[[\"i\",\"f\"]]}",
        b"{\"alert_id\":\"x\",\"last_text\":\"t\",\"name\":\"n\",\"fields\":[[\"i\",\"f\",{\"Counter\":1.5}]]}",
        b"{\"alert_id\":\"x\",\"last_text\":\"t\",\"name\":\"n\",\"fields\":[[\"i\",\"f\",{\"Counter\":2147483648}]]}",
        b"{\"alert_id\":\"x\",\"last_text\":\"t\",\"name\":\"n\",\"fields\":[[\"i\",\"f\",{\"Number\":1}]]}",
        b"{\"alert_id\":\"x\",\"last_text\":\"t\",\"name\":\"n\",\"fields\":[[\"i\",\"f\",{\"Text\":\"a\"}],[\"i\",\"g\",{\"Text\":\"b\"}]]}",
    ];
    for bytes in bad {
        assert_eq!(Alert::load_alert(bytes).err(), Some(AlertError::Unreadable));
    }
    assert_eq!(Alert::load_alert(&[0xff, 0xfe]).err(), Some(AlertError::Unreadable));
}

#[test]
fn file_is_named_by_the_alert_id() {
    assert_eq!(sample().file_name(), "A1");
}
