//! What the store announces and what travels to and from a viewer.
//!
//! The store announces an `AlertEvent` for each change. On the wire an event
//! becomes one or two `AlertMessage`s, each a JSON object told apart by its
//! `type` member. A viewer may send an `init` message.

use vstd::prelude::*;
use crate::alert::{Alert, AlertView};
use crate::codec::{lookup, member};
use crate::ids::{AlertId, AlertMarkdown};
use crate::json::{json_parse, json_text, lemma_object_view, member_names, Json, JsonView};
use crate::markdown::markdown_html;
use crate::text::same_text;
use vstd::utf8::encode_utf8;

verus! {

/// A notice that the store gives out once for every change it has made.
#[derive(Debug)]
pub enum AlertEvent {
    /// The alert was created or edited; this is how it looks now.
    ContentChanged { alert_id: AlertId, rendered_markdown: AlertMarkdown, rendered_style: String },
    /// Nothing changed; viewers are asked to fetch the alert again.
    Pinged { alert_id: AlertId },
}

/// What an `AlertEvent` holds, as plain values.
pub enum EventView {
    ContentChanged { alert_id: Seq<char>, rendered_markdown: Seq<char>, rendered_style: Seq<char> },
    Pinged { alert_id: Seq<char> },
}

impl View for AlertEvent {
    type V = EventView;

    open spec fn view(&self) -> EventView {
        match self {
            AlertEvent::ContentChanged { alert_id, rendered_markdown, rendered_style } => {
                EventView::ContentChanged {
                    alert_id: alert_id@,
                    rendered_markdown: rendered_markdown@,
                    rendered_style: rendered_style@,
                }
            },
            AlertEvent::Pinged { alert_id } => EventView::Pinged { alert_id: alert_id@ },
        }
    }
}

impl EventView {
    /// The event that tells how `alert` looks.
    pub open spec fn of(alert: AlertView) -> EventView {
        EventView::ContentChanged {
            alert_id: alert.alert_id,
            rendered_markdown: alert.rendered_text(),
            rendered_style: alert.rendered_style(),
        }
    }

    pub open spec fn alert_id(self) -> Seq<char> {
        match self {
            EventView::ContentChanged { alert_id, .. } => alert_id,
            EventView::Pinged { alert_id } => alert_id,
        }
    }

    /// The messages that carry the event to a viewer: the markdown and the
    /// style of a changed alert, or the request to fetch again.
    pub open spec fn messages(self) -> Seq<MessageView> {
        match self {
            EventView::ContentChanged { alert_id, rendered_markdown, rendered_style } => seq![
                MessageView::MessageMarkdown { alert_id, text: rendered_markdown },
                MessageView::Style { alert_id, style: rendered_style },
            ],
            EventView::Pinged { alert_id } => seq![MessageView::Update { alert_id }],
        }
    }
}

/// A message to a viewer.
#[derive(Debug)]
pub enum AlertMessage {
    /// The markdown to show. It is sent as the HTML made from it.
    MessageMarkdown { alert_id: AlertId, text: AlertMarkdown },
    /// A request to fetch the alert again.
    Update { alert_id: AlertId },
    /// The style to apply.
    Style { alert_id: AlertId, style: String },
}

/// What an `AlertMessage` holds, as plain values.
pub enum MessageView {
    MessageMarkdown { alert_id: Seq<char>, text: Seq<char> },
    Update { alert_id: Seq<char> },
    Style { alert_id: Seq<char>, style: Seq<char> },
}

impl View for AlertMessage {
    type V = MessageView;

    open spec fn view(&self) -> MessageView {
        match self {
            AlertMessage::MessageMarkdown { alert_id, text } => MessageView::MessageMarkdown {
                alert_id: alert_id@,
                text: text@,
            },
            AlertMessage::Update { alert_id } => MessageView::Update { alert_id: alert_id@ },
            AlertMessage::Style { alert_id, style } => MessageView::Style {
                alert_id: alert_id@,
                style: style@,
            },
        }
    }
}

impl MessageView {
    pub open spec fn alert_id(self) -> Seq<char> {
        match self {
            MessageView::MessageMarkdown { alert_id, .. } => alert_id,
            MessageView::Update { alert_id } => alert_id,
            MessageView::Style { alert_id, .. } => alert_id,
        }
    }

    /// The JSON object that the message is sent as.
    pub open spec fn json(self) -> JsonView {
        match self {
            MessageView::MessageMarkdown { alert_id, text } => JsonView::Object(
                seq![
                    ("type"@, JsonView::Text("message_markdown"@)),
                    ("alert_id"@, JsonView::Text(alert_id)),
                    ("text"@, JsonView::Text(markdown_html(text, true, true))),
                ],
            ),
            MessageView::Update { alert_id } => JsonView::Object(
                seq![("type"@, JsonView::Text("update"@)), ("alert_id"@, JsonView::Text(alert_id))],
            ),
            MessageView::Style { alert_id, style } => JsonView::Object(
                seq![
                    ("type"@, JsonView::Text("style"@)),
                    ("alert_id"@, JsonView::Text(alert_id)),
                    ("style"@, JsonView::Text(style)),
                ],
            ),
        }
    }
}

impl Clone for AlertMessage {
    fn clone(&self) -> (copy: Self)
        ensures
            copy@ == self@,
    {
        match self {
            AlertMessage::MessageMarkdown { alert_id, text } => AlertMessage::MessageMarkdown {
                alert_id: alert_id.clone(),
                text: text.clone(),
            },
            AlertMessage::Update { alert_id } => AlertMessage::Update { alert_id: alert_id.clone() },
            AlertMessage::Style { alert_id, style } => AlertMessage::Style {
                alert_id: alert_id.clone(),
                style: style.clone(),
            },
        }
    }
}

impl Clone for AlertEvent {
    fn clone(&self) -> (copy: Self)
        ensures
            copy@ == self@,
    {
        match self {
            AlertEvent::ContentChanged { alert_id, rendered_markdown, rendered_style } => {
                AlertEvent::ContentChanged {
                    alert_id: alert_id.clone(),
                    rendered_markdown: rendered_markdown.clone(),
                    rendered_style: rendered_style.clone(),
                }
            },
            AlertEvent::Pinged { alert_id } => AlertEvent::Pinged { alert_id: alert_id.clone() },
        }
    }
}

impl AlertEvent {
    /// The event that tells how `alert` looks now.
    pub fn content_changed(alert: &Alert) -> (event: Self)
        ensures
            event@ == EventView::of(alert@),
    {
        AlertEvent::ContentChanged {
            alert_id: alert.alert_id().clone(),
            rendered_markdown: alert.render(),
            rendered_style: alert.render_style(),
        }
    }

    /// The alert that the event is about.
    pub fn alert_id(&self) -> (id: &AlertId)
        ensures
            id@ == self@.alert_id(),
    {
        match self {
            AlertEvent::ContentChanged { alert_id, .. } => alert_id,
            AlertEvent::Pinged { alert_id } => alert_id,
        }
    }

    /// The messages that carry the event to a viewer, in the order in which
    /// they are sent.
    pub fn messages(&self) -> (messages: Vec<AlertMessage>)
        ensures
            messages@.len() == self@.messages().len(),
            forall|i: int| 0 <= i < messages@.len() ==> messages@[i]@ == self@.messages()[i],
    {
        let mut messages: Vec<AlertMessage> = Vec::new();
        match self {
            AlertEvent::ContentChanged { alert_id, rendered_markdown, rendered_style } => {
                messages.push(AlertMessage::new_message(alert_id.clone(), rendered_markdown.clone()));
                messages.push(AlertMessage::new_style(alert_id.clone(), rendered_style.clone()));
            },
            AlertEvent::Pinged { alert_id } => {
                messages.push(AlertMessage::Update { alert_id: alert_id.clone() });
            },
        }
        messages
    }
}

/// The member names of every message differ from one another.
proof fn lemma_message_plain(message: MessageView)
    ensures
        message.json().plain(),
{
    reveal_strlit("type");
    reveal_strlit("alert_id");
    reveal_strlit("text");
    reveal_strlit("style");
    let members = message.json()->Object_0;
    let names = member_names(members);
    assert(names[0][1] == 'y');
    match message {
        MessageView::MessageMarkdown { .. } => {
            assert(names[2][1] == 'e');
        },
        MessageView::Update { .. } => {},
        MessageView::Style { .. } => {
            assert(names[2].len() == 5);
        },
    }
    assert forall|i: int| 0 <= i < members.len() implies (#[trigger] members[i]).1.plain() by {
        assert(members[i].1 is Text);
    }
}

impl AlertMessage {
    /// The alert that the message is about.
    pub fn alert_id(&self) -> (id: &AlertId)
        ensures
            id@ == self@.alert_id(),
    {
        match self {
            AlertMessage::Update { alert_id } => alert_id,
            AlertMessage::MessageMarkdown { alert_id, .. } => alert_id,
            AlertMessage::Style { alert_id, .. } => alert_id,
        }
    }

    pub fn new_message(alert_id: AlertId, text: AlertMarkdown) -> (message: Self)
        ensures
            message@ == (MessageView::MessageMarkdown { alert_id: alert_id@, text: text@ }),
    {
        AlertMessage::MessageMarkdown { alert_id, text }
    }

    pub fn new_style(alert_id: AlertId, style: String) -> (message: Self)
        ensures
            message@ == (MessageView::Style { alert_id: alert_id@, style: style@ }),
    {
        AlertMessage::Style { alert_id, style }
    }

    /// The JSON object that the message is sent as.
    pub fn to_json(&self) -> (json: Json)
        ensures
            json@ == self@.json(),
    {
        let mut members: Vec<(String, Json)> = Vec::new();
        match self {
            AlertMessage::MessageMarkdown { alert_id, text } => {
                members.push(("type".to_owned(), Json::Text("message_markdown".to_owned())));
                members.push(("alert_id".to_owned(), Json::Text(alert_id.as_str().to_owned())));
                members.push(("text".to_owned(), Json::Text(text.to_markdown())));
            },
            AlertMessage::Update { alert_id } => {
                members.push(("type".to_owned(), Json::Text("update".to_owned())));
                members.push(("alert_id".to_owned(), Json::Text(alert_id.as_str().to_owned())));
            },
            AlertMessage::Style { alert_id, style } => {
                members.push(("type".to_owned(), Json::Text("style".to_owned())));
                members.push(("alert_id".to_owned(), Json::Text(alert_id.as_str().to_owned())));
                members.push(("style".to_owned(), Json::Text(style.clone())));
            },
        }
        proof {
            lemma_object_view(members);
        }
        let json = Json::Object(members);
        assert(json@->Object_0 =~= self@.json()->Object_0);
        json
    }

    /// The text of the frame that the message is sent in.
    pub fn to_message(&self) -> (frame: String)
        ensures
            frame@ == json_text(self@.json()),
    {
        let json = self.to_json();
        proof {
            lemma_message_plain(self@);
        }
        json.to_text()
    }
}

/// A frame that came from a viewer, as far as the session reads it.
#[derive(Debug)]
pub enum Frame {
    Text(String),
    /// Any frame that is not text: binary, ping, pong or close.
    Other,
}

/// A message from a viewer.
#[derive(Debug)]
pub enum AlertMessageRecv {
    /// The viewer says which alert it shows.
    Init { alert_id: AlertId },
}

/// Why a frame from a viewer was not taken as a message.
#[derive(Debug, Clone, Copy, PartialEq, Eq, Structural)]
pub enum FrameError {
    /// The frame is not a text frame.
    InvalidMessageType,
    /// The text is not the JSON of a known message.
    Unparsable,
}

/// The alert id that a document of the form `{"type":"init","alert_id":..}`
/// names.
pub open spec fn decode_init(document: JsonView) -> Option<Seq<char>> {
    match document {
        JsonView::Object(members) => match (lookup(members, "type"@), lookup(members, "alert_id"@)) {
            (Some(JsonView::Text(kind)), Some(JsonView::Text(alert_id))) => if kind == "init"@ {
                Some(alert_id)
            } else {
                None
            },
            _ => None,
        },
        _ => None,
    }
}

impl AlertMessageRecv {
    pub open spec fn alert_id_spec(self) -> Seq<char> {
        match self {
            AlertMessageRecv::Init { alert_id } => alert_id@,
        }
    }

    /// Reads a message from a frame. Only a text frame that holds the JSON of
    /// an `init` message is one.
    pub fn from_ws_message(message: &Frame) -> (received: Result<Self, FrameError>)
        ensures
            match message {
                Frame::Text(text) => match json_parse(encode_utf8(text@)) {
                    Some(document) => match decode_init(document) {
                        Some(alert_id) => received is Ok && received->Ok_0.alert_id_spec()
                            == alert_id,
                        None => received == Err::<Self, FrameError>(FrameError::Unparsable),
                    },
                    None => received == Err::<Self, FrameError>(FrameError::Unparsable),
                },
                Frame::Other => received == Err::<Self, FrameError>(FrameError::InvalidMessageType),
            },
    {
        match message {
            Frame::Text(text) => {
                let document = match Json::parse(text.as_str().as_bytes()) {
                    Some(document) => document,
                    None => {
                        return Err(FrameError::Unparsable);
                    },
                };
                let kind = match member(&document, "type") {
                    Some(Json::Text(kind)) => kind,
                    _ => {
                        return Err(FrameError::Unparsable);
                    },
                };
                let alert_id = match member(&document, "alert_id") {
                    Some(Json::Text(alert_id)) => alert_id,
                    _ => {
                        return Err(FrameError::Unparsable);
                    },
                };
                if same_text(kind.as_str(), "init") {
                    Ok(AlertMessageRecv::Init { alert_id: AlertId::new(alert_id.clone()) })
                } else {
                    Err(FrameError::Unparsable)
                }
            },
            Frame::Other => Err(FrameError::InvalidMessageType),
        }
    }
}

} // verus!
