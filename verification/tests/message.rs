use stream_alerts::ids::{AlertId, AlertMarkdown};
use stream_alerts::json::Json;
use stream_alerts::message::{AlertMessage, AlertMessageRecv, Frame, FrameError};

fn aid(text: &str) -> AlertId {
    AlertId::new(text.to_string())
}

#[test]
fn markdown_message_carries_html() {
    let message = AlertMessage::new_message(aid("A1"), AlertMarkdown::new("Thanks **you**".to_string()));
    assert_eq!(
        message.to_message(),
        "{\"type\":\"message_markdown\",\"alert_id\":\"A1\",\"text\":\"<p>Thanks <strong>you</strong></p>\\n\"}"
    );
    assert_eq!(message.alert_id().as_str(), "A1");
}

#[test]
fn style_and_update_messages() {
    let style = AlertMessage::new_style(aid("A1"), "p { color: red }".to_string());
    assert_eq!(style.to_message(), "{\"type\":\"style\",\"alert_id\":\"A1\",\"style\":\"p { color: red }\"}");
    let update = AlertMessage::Update { alert_id: aid("A\"1") };
    assert_eq!(update.to_message(), "{\"type\":\"update\",\"alert_id\":\"A\\\"1\"}");
    assert_eq!(update.clone().alert_id().as_str(), "A\"1");
}

#[test]
fn markdown_has_tables_and_keeps_raw_html() {
    let table = AlertMarkdown::new("| a | b |\n|---|---|\n| c | d |\n".to_string());
    assert_eq!(
        table.to_markdown(),
        "<table>\n<thead>\n<tr>\n<th>a</th>\n<th>b</th>\n</tr>\n</thead>\n<tbody>\n<tr>\n<td>c</td>\n<td>d</td>\n</tr>\n</tbody>\n</table>\n"
    );
    let raw = AlertMarkdown::new("<marquee>hi</marquee>".to_string());
    assert_eq!(raw.to_markdown(), "<p><marquee>hi</marquee></p>\n");
}

#[test]
fn message_json_is_an_object_with_type_first() {
    let json = AlertMessage::Update { alert_id: aid("x") }.to_json();
    match json {
        Json::Object(members) => {
            assert_eq!(members.len(), 2);
            assert_eq!(members[0].0, "type");
            assert!(matches!(&members[0].1, Json::Text(kind) if kind == "update"));
            assert_eq!(members[1].0, "alert_id");
        }
        _ => panic!("not an object"),
    }
}

#[test]
fn init_message_is_read_from_a_text_frame() {
    let frame = Frame::Text("{\"type\":\"init\",\"alert_id\":\"A1\"}".to_string());
    match AlertMessageRecv::from_ws_message(&frame) {
        Ok(AlertMessageRecv::Init { alert_id }) => assert_eq!(alert_id.as_str(), "A1"),
        Err(error) => panic!("{error:?}"),
    }
    let spaced = Frame::Text(" { \"alert_id\" : \"A2\", \"more\": 1, \"type\" : \"init\" } ".to_string());
    assert!(matches!(
        AlertMessageRecv::from_ws_message(&spaced),
        Ok(AlertMessageRecv::Init { alert_id }) if alert_id.as_str() == "A2"
    ));
}

#[test]
fn other_frames_are_no_messages() {
    assert_eq!(AlertMessageRecv::from_ws_message(&Frame::Other).err(), Some(FrameError::InvalidMessageType));
    for text in ["", "init", "{}", "{\"type\":\"init\"}", "{\"type\":\"update\",\"alert_id\":\"a\"}",
        "{\"type\":\"init\",\"alert_id\":7}", "[\"init\",\"a\"]", "{\"type\":\"Init\",\"alert_id\":\"a\"}"] {
        let frame = Frame::Text(text.to_string());
        assert_eq!(AlertMessageRecv::from_ws_message(&frame).err(), Some(FrameError::Unparsable), "{text}");
    }
}

#[test]
fn json_is_parsed_into_a_tree() {
    let text = "{\"b\":[1,-2,null,true,\"x\\n\"],\"a\":{\"c\":9007199254740993}}";
    match Json::parse(text.as_bytes()).unwrap() {
        Json::Object(members) => {
            assert_eq!(members.len(), 2);
            assert_eq!(members[0].0, "b");
            assert_eq!(members[1].0, "a");
            match &members[0].1 {
                Json::Array(items) => {
                    assert_eq!(items.len(), 5);
                    assert!(matches!(items[0], Json::Number(Some(1))));
                    assert!(matches!(items[1], Json::Number(Some(-2))));
                    assert!(matches!(items[2], Json::Null));
                    assert!(matches!(items[3], Json::Bool(true)));
                    assert!(matches!(&items[4], Json::Text(text) if text == "x\n"));
                }
                other => panic!("{other:?}"),
            }
            assert!(matches!(&members[1].1, Json::Object(inner)
                if matches!(inner[0].1, Json::Number(Some(9007199254740993)))));
        }
        other => panic!("{other:?}"),
    }
    assert!(Json::parse(b"{\"a\":}").is_none());
    assert!(matches!(Json::parse(b"1.5"), Some(Json::Number(None))));
    assert!(matches!(Json::parse(b"-3"), Some(Json::Number(Some(-3)))));
}
