//! One viewer's connection, as a state machine.
//!
//! A session is bound to one alert and ends when its connection ends. Two
//! loops serve it: the writer waits for messages from the hub and sends the
//! ones that concern its alert; the reader takes the frames that the viewer
//! sends. The loops themselves wait on the hub and on the socket and so live
//! outside this library; each time something has happened they ask the
//! session what to do next.

use vstd::prelude::*;
use crate::ids::AlertId;
use crate::json::json_text;
use crate::manager::AlertManager;
use crate::message::{AlertMessage, Frame, MessageView};

verus! {

/// How many events the hub keeps for a writer that is not keeping up. A
/// writer that falls further behind loses the oldest ones and is told how
/// many it lost.
pub const HUB_CAPACITY: usize = 16;

/// Where a session stands.
#[derive(Debug)]
pub enum Session {
    /// The connection is open and no alert has been named yet.
    Connected,
    /// The session serves the viewers of one alert.
    Bound { alert_id: AlertId },
    /// The session is over.
    Closed,
}

/// What a `Session` holds, as plain values.
pub enum SessionView {
    Connected,
    Bound { alert_id: Seq<char> },
    Closed,
}

impl View for Session {
    type V = SessionView;

    open spec fn view(&self) -> SessionView {
        match self {
            Session::Connected => SessionView::Connected,
            Session::Bound { alert_id } => SessionView::Bound { alert_id: alert_id@ },
            Session::Closed => SessionView::Closed,
        }
    }
}

/// What the hub handed to a waiting writer.
#[derive(Debug)]
pub enum Received {
    /// The next message.
    Message(AlertMessage),
    /// The writer fell behind and this many messages were dropped for it. The
    /// next receive gives the oldest message that is still kept.
    Lagged(u64),
    /// The hub is gone.
    Closed,
}

/// What a `Received` holds, as plain values.
pub enum ReceivedView {
    Message(MessageView),
    Lagged(u64),
    Closed,
}

impl View for Received {
    type V = ReceivedView;

    open spec fn view(&self) -> ReceivedView {
        match self {
            Received::Message(message) => ReceivedView::Message(message@),
            Received::Lagged(missed) => ReceivedView::Lagged(*missed),
            Received::Closed => ReceivedView::Closed,
        }
    }
}

/// How sending a frame to the viewer went.
#[derive(Debug, Clone, Copy, PartialEq, Eq, Structural)]
pub enum SendOutcome {
    Sent,
    /// The transport says that the connection is closed.
    ConnectionClosed,
    /// Any other failure of the transport.
    Failed,
}

/// What the writer does next.
#[derive(Debug)]
pub enum WriterStep {
    /// Send this text frame, then report how it went.
    Send(String),
    /// Wait for the next message from the hub.
    Receive,
    /// End the loop; nothing went wrong.
    Stop,
    /// End the loop and report an error.
    Fail,
}

/// What a `WriterStep` holds, as plain values.
pub enum WriterStepView {
    Send(Seq<char>),
    Receive,
    Stop,
    Fail,
}

impl View for WriterStep {
    type V = WriterStepView;

    open spec fn view(&self) -> WriterStepView {
        match self {
            WriterStep::Send(frame) => WriterStepView::Send(frame@),
            WriterStep::Receive => WriterStepView::Receive,
            WriterStep::Stop => WriterStepView::Stop,
            WriterStep::Fail => WriterStepView::Fail,
        }
    }
}

/// What came from the viewer's side of the socket.
#[derive(Debug)]
pub enum Incoming {
    Frame(Frame),
    /// The socket reported an error.
    Error,
    /// The viewer has no more frames: the connection is closed.
    End,
}

/// What the reader does next.
#[derive(Debug, Clone, Copy, PartialEq, Eq, Structural)]
pub enum ReaderStep {
    /// Look up whether the alert of the session still exists, then wait for
    /// the next frame.
    Revalidate,
    /// Wait for the next frame.
    Continue,
    /// End the loop; nothing went wrong.
    Stop,
    /// End the loop and report an error.
    Fail,
}

impl SessionView {
    /// The state and the step after the hub handed `received` to the writer.
    /// A message is sent only by a bound session and only if it is about the
    /// alert of that session. Falling behind is no reason to stop; the loss
    /// of the hub is.
    pub open spec fn on_received(self, received: ReceivedView) -> (SessionView, WriterStepView) {
        match self {
            SessionView::Connected => (self, WriterStepView::Receive),
            SessionView::Closed => (self, WriterStepView::Stop),
            SessionView::Bound { alert_id } => match received {
                ReceivedView::Message(message) => if message.alert_id() == alert_id {
                    (self, WriterStepView::Send(json_text(message.json())))
                } else {
                    (self, WriterStepView::Receive)
                },
                ReceivedView::Lagged(_) => (self, WriterStepView::Receive),
                ReceivedView::Closed => (SessionView::Closed, WriterStepView::Fail),
            },
        }
    }

    /// The state and the step after a frame was handed to the transport.
    pub open spec fn on_sent(self, outcome: SendOutcome) -> (SessionView, WriterStepView) {
        match self {
            SessionView::Closed => (self, WriterStepView::Stop),
            _ => match outcome {
                SendOutcome::Sent => (self, WriterStepView::Receive),
                SendOutcome::ConnectionClosed => (SessionView::Closed, WriterStepView::Stop),
                SendOutcome::Failed => (SessionView::Closed, WriterStepView::Fail),
            },
        }
    }

    /// Whether `incoming` is a text frame.
    pub open spec fn is_text(incoming: Incoming) -> bool {
        incoming matches Incoming::Frame(Frame::Text(_))
    }

    /// The state and the step after the reader took `incoming`.
    pub open spec fn on_frame(self, incoming: Incoming) -> (SessionView, ReaderStep) {
        match self {
            SessionView::Closed => (self, ReaderStep::Stop),
            _ => match incoming {
                Incoming::Frame(Frame::Text(_)) => (self, ReaderStep::Revalidate),
                Incoming::Frame(Frame::Other) => (self, ReaderStep::Continue),
                Incoming::Error => (SessionView::Closed, ReaderStep::Fail),
                Incoming::End => (SessionView::Closed, ReaderStep::Stop),
            },
        }
    }
}

/// A session sends a message only if it is bound to the alert that the
/// message is about; what it sends is that message.
pub proof fn lemma_only_own_alert(session: SessionView, received: ReceivedView)
    ensures
        session.on_received(received).1 matches WriterStepView::Send(frame) ==> {
            &&& session matches SessionView::Bound { alert_id }
            &&& received matches ReceivedView::Message(message)
            &&& message.alert_id() == alert_id
            &&& frame == json_text(message.json())
        },
{
}

/// A writer that fell behind stays bound to its alert and goes on
/// receiving, however much it missed.
pub proof fn lemma_lag_is_survived(alert_id: Seq<char>, missed: u64)
    ensures
        (SessionView::Bound { alert_id }).on_received(ReceivedView::Lagged(missed)) == (
            SessionView::Bound { alert_id },
            WriterStepView::Receive,
        ),
{
}

/// Once closed, a session stays closed and every loop is told to stop.
pub proof fn lemma_closed_is_final(received: ReceivedView, outcome: SendOutcome, incoming: Incoming)
    ensures
        SessionView::Closed.on_received(received) == (SessionView::Closed, WriterStepView::Stop),
        SessionView::Closed.on_sent(outcome) == (SessionView::Closed, WriterStepView::Stop),
        SessionView::Closed.on_frame(incoming) == (SessionView::Closed, ReaderStep::Stop),
{
}

impl Session {
    /// A session whose connection has just been opened.
    pub fn new() -> (session: Self)
        ensures
            session@ == SessionView::Connected,
    {
        Session::Connected
    }

    /// Binds a fresh session to an alert. A session that is bound or closed
    /// stays as it is; the result says whether the session was bound by this
    /// call.
    pub fn bind(&mut self, alert_id: AlertId) -> (bound: bool)
        ensures
            bound == (old(self)@ is Connected),
            final(self)@ == (if old(self)@ is Connected {
                SessionView::Bound { alert_id: alert_id@ }
            } else {
                old(self)@
            }),
    {
        match self {
            Session::Connected => {
                *self = Session::Bound { alert_id };
                true
            },
            _ => false,
        }
    }

    /// Ends the session.
    pub fn close(&mut self)
        ensures
            final(self)@ == SessionView::Closed,
    {
        *self = Session::Closed;
    }

    /// The alert that the session is bound to.
    pub fn alert_id(&self) -> (alert_id: Option<&AlertId>)
        ensures
            match self@ {
                SessionView::Bound { alert_id: bound } => alert_id is Some && alert_id->0@ == bound,
                _ => alert_id is None,
            },
    {
        match self {
            Session::Bound { alert_id } => Some(alert_id),
            _ => None,
        }
    }

    /// Whether the session is over.
    pub fn is_closed(&self) -> (closed: bool)
        ensures
            closed == (self@ is Closed),
    {
        match self {
            Session::Closed => true,
            _ => false,
        }
    }

    /// The writer's next step after the hub handed it `received`.
    pub fn on_received(&mut self, received: Received) -> (step: WriterStep)
        ensures
            (final(self)@, step@) == old(self)@.on_received(received@),
    {
        match self {
            Session::Connected => WriterStep::Receive,
            Session::Closed => WriterStep::Stop,
            Session::Bound { alert_id } => match received {
                Received::Message(message) => {
                    if *message.alert_id() == *alert_id {
                        WriterStep::Send(message.to_message())
                    } else {
                        WriterStep::Receive
                    }
                },
                Received::Lagged(_) => WriterStep::Receive,
                Received::Closed => {
                    *self = Session::Closed;
                    WriterStep::Fail
                },
            },
        }
    }

    /// The writer's next step after it handed a frame to the transport.
    pub fn on_sent(&mut self, outcome: SendOutcome) -> (step: WriterStep)
        ensures
            (final(self)@, step@) == old(self)@.on_sent(outcome),
    {
        match self {
            Session::Closed => WriterStep::Stop,
            _ => match outcome {
                SendOutcome::Sent => WriterStep::Receive,
                SendOutcome::ConnectionClosed => {
                    *self = Session::Closed;
                    WriterStep::Stop
                },
                SendOutcome::Failed => {
                    *self = Session::Closed;
                    WriterStep::Fail
                },
            },
        }
    }

    /// The reader's next step after it took `incoming` from the socket.
    pub fn on_frame(&mut self, incoming: &Incoming) -> (step: ReaderStep)
        ensures
            (final(self)@, step) == old(self)@.on_frame(*incoming),
    {
        match self {
            Session::Closed => ReaderStep::Stop,
            _ => match incoming {
                Incoming::Frame(Frame::Text(_)) => ReaderStep::Revalidate,
                Incoming::Frame(Frame::Other) => ReaderStep::Continue,
                Incoming::Error => {
                    *self = Session::Closed;
                    ReaderStep::Fail
                },
                Incoming::End => {
                    *self = Session::Closed;
                    ReaderStep::Stop
                },
            },
        }
    }

    /// Whether the alert of this session is in the store. A session that is
    /// not bound has none.
    pub fn revalidate(&self, manager: &AlertManager) -> (exists: bool)
        ensures
            exists == (self@ matches SessionView::Bound { alert_id } && manager@.find(alert_id)
                is Some),
    {
        match self {
            Session::Bound { alert_id } => manager.position(alert_id).is_some(),
            _ => false,
        }
    }
}

} // verus!
