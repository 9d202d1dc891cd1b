use stream_alerts::alert::Alert;
use stream_alerts::ids::{AlertId, AlertMarkdown, AlertName, AlertText};
use stream_alerts::manager::AlertManager;
use stream_alerts::message::{AlertMessage, Frame};
use stream_alerts::session::{
    Incoming, ReaderStep, Received, SendOutcome, Session, WriterStep, HUB_CAPACITY,
};

fn aid(text: &str) -> AlertId {
    AlertId::new(text.to_string())
}

fn bound(id: &str) -> Session {
    let mut session = Session::new();
    assert!(session.bind(aid(id)));
    session
}

fn style(id: &str, style: &str) -> Received {
    Received::Message(AlertMessage::new_style(aid(id), style.to_string()))
}

#[test]
fn session_goes_from_connected_to_bound_to_closed() {
    let mut session = Session::new();
    assert!(matches!(session, Session::Connected));
    assert!(session.alert_id().is_none());
    assert!(session.bind(aid("a")));
    assert_eq!(session.alert_id().unwrap().as_str(), "a");
    assert!(!session.bind(aid("b")));
    assert_eq!(session.alert_id().unwrap().as_str(), "a");
    assert!(!session.is_closed());
    session.close();
    assert!(session.is_closed());
    assert!(!session.bind(aid("c")));
    assert!(session.is_closed());
}

#[test]
fn only_messages_of_the_bound_alert_are_sent() {
    let mut session = bound("a");
    let mut sent = Vec::new();
    for (id, text) in [("a", "1"), ("b", "2"), ("a", "3"), ("b", "4"), ("ab", "5"), ("", "6")] {
        match session.on_received(style(id, text)) {
            WriterStep::Send(frame) => sent.push(frame),
            WriterStep::Receive => {}
            other => panic!("{other:?}"),
        }
    }
    assert_eq!(
        sent,
        [
            "{\"type\":\"style\",\"alert_id\":\"a\",\"style\":\"1\"}",
            "{\"type\":\"style\",\"alert_id\":\"a\",\"style\":\"3\"}"
        ]
    );
}

#[test]
fn markdown_is_sent_as_html() {
    let mut session = bound("a");
    let message = AlertMessage::new_message(aid("a"), AlertMarkdown::new("*hi*".to_string()));
    match session.on_received(Received::Message(message)) {
        WriterStep::Send(frame) => assert_eq!(
            frame,
            "{\"type\":\"message_markdown\",\"alert_id\":\"a\",\"text\":\"<p><em>hi</em></p>\\n\"}"
        ),
        other => panic!("{other:?}"),
    }
}

#[test]
fn falling_behind_does_not_end_the_session() {
    assert_eq!(HUB_CAPACITY, 16);
    let mut session = bound("a");
    for missed in [1, 17, u64::MAX] {
        assert!(matches!(session.on_received(Received::Lagged(missed)), WriterStep::Receive));
        assert_eq!(session.alert_id().unwrap().as_str(), "a");
    }
    assert!(matches!(session.on_received(style("a", "s")), WriterStep::Send(_)));
}

#[test]
fn losing_the_hub_ends_the_session_with_an_error() {
    let mut session = bound("a");
    assert!(matches!(session.on_received(Received::Closed), WriterStep::Fail));
    assert!(session.is_closed());
    assert!(matches!(session.on_received(style("a", "s")), WriterStep::Stop));
}

#[test]
fn a_session_that_is_not_bound_sends_nothing() {
    let mut session = Session::new();
    assert!(matches!(session.on_received(style("a", "s")), WriterStep::Receive));
    assert!(matches!(session, Session::Connected));
}

#[test]
fn a_closed_connection_ends_the_writer_cleanly() {
    let mut session = bound("a");
    assert!(matches!(session.on_sent(SendOutcome::Sent), WriterStep::Receive));
    assert!(!session.is_closed());
    assert!(matches!(session.on_sent(SendOutcome::ConnectionClosed), WriterStep::Stop));
    assert!(session.is_closed());
    let mut session = bound("a");
    assert!(matches!(session.on_sent(SendOutcome::Failed), WriterStep::Fail));
    assert!(session.is_closed());
    assert!(matches!(session.on_sent(SendOutcome::Sent), WriterStep::Stop));
}

#[test]
fn reader_revalidates_on_text_and_ends_with_the_connection() {
    let mut session = bound("a");
    let text = Incoming::Frame(Frame::Text("{\"type\":\"init\",\"alert_id\":\"a\"}".to_string()));
    assert_eq!(session.on_frame(&text), ReaderStep::Revalidate);
    assert_eq!(session.on_frame(&Incoming::Frame(Frame::Text("anything".to_string()))), ReaderStep::Revalidate);
    assert_eq!(session.on_frame(&Incoming::Frame(Frame::Other)), ReaderStep::Continue);
    assert!(!session.is_closed());
    assert_eq!(session.on_frame(&Incoming::End), ReaderStep::Stop);
    assert!(session.is_closed());
    assert_eq!(session.on_frame(&text), ReaderStep::Stop);
    let mut session = bound("a");
    assert_eq!(session.on_frame(&Incoming::Error), ReaderStep::Fail);
    assert!(session.is_closed());
}

#[test]
fn revalidate_looks_the_bound_alert_up() {
    let mut store = AlertManager::new();
    store
        .new_alert(Alert::new(aid("a"), AlertText::new(String::new()), AlertName::new(String::new())))
        .unwrap();
    assert!(bound("a").revalidate(&store));
    assert!(!bound("b").revalidate(&store));
    assert!(!Session::new().revalidate(&store));
}
