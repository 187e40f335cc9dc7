//! A session: one connected client, from its connection to its end.

use crate::connections::Outbound;
use crate::protocol::{McpRequest, McpResponse, RequestView, ResponseView};
use uuid::Uuid;
use vstd::prelude::*;

verus! {

/// Where a session stands.
#[derive(Debug, Clone, Copy, PartialEq, Eq, Structural)]
pub enum SessionState {
    /// The session has its identity and its place in the connection set.
    Connected,
    /// The reader has taken a frame and goes on reading.
    Streaming,
    /// The reader has stopped and the session has left the connection set.
    Closing,
    /// The writer has stopped as well.
    Closed,
}

impl SessionState {
    /// The reader still takes frames.
    pub open spec fn reading(self) -> bool {
        self is Connected || self is Streaming
    }
}

/// What the reader got from the transport.
#[derive(Debug)]
pub enum Inbound {
    /// A text frame that holds a request.
    Request(McpRequest),
    /// A text frame that holds no request.
    Malformed,
    /// A close frame.
    Close,
    /// A frame of any other kind.
    Other,
    /// An error of the transport.
    Failed,
    /// The end of the stream, with no close frame before it.
    End,
}

/// What the reader does next.
#[derive(Debug)]
pub enum Step {
    /// Put the response on the session's outbound queue, through the sender
    /// given, and go on reading.
    Reply(Outbound, McpResponse),
    /// Go on reading.
    Continue,
    /// Stop reading.
    Stop,
}

/// What an inbound frame says.
pub enum InboundView {
    Request(RequestView),
    Malformed,
    Close,
    Other,
    Failed,
    End,
}

/// What a step says.
pub enum StepView {
    Reply(Outbound, ResponseView),
    Continue,
    Stop,
}

impl View for Inbound {
    type V = InboundView;

    open spec fn view(&self) -> InboundView {
        match self {
            Inbound::Request(request) => InboundView::Request(request@),
            Inbound::Malformed => InboundView::Malformed,
            Inbound::Close => InboundView::Close,
            Inbound::Other => InboundView::Other,
            Inbound::Failed => InboundView::Failed,
            Inbound::End => InboundView::End,
        }
    }
}

impl View for Step {
    type V = StepView;

    open spec fn view(&self) -> StepView {
        match self {
            Step::Reply(outbound, response) => StepView::Reply(*outbound, response@),
            Step::Continue => StepView::Continue,
            Step::Stop => StepView::Stop,
        }
    }
}

impl InboundView {
    /// The frame ends the session: the peer closed, the transport failed, or
    /// the stream ended.
    pub open spec fn ends_session(self) -> bool {
        self is Close || self is Failed || self is End
    }
}

/// A digit of lower-case hexadecimal.
pub open spec fn is_lower_hex(c: char) -> bool {
    ('0' <= c && c <= '9') || ('a' <= c && c <= 'f')
}

/// The shape of a session identity: a random UUID in its hyphenated
/// lower-case form.
pub open spec fn is_identity(id: Seq<char>) -> bool {
    &&& id.len() == 36
    &&& forall|i: int|
        0 <= i < 36 ==> if i == 8 || i == 13 || i == 18 || i == 23 {
            #[trigger] id[i] == '-'
        } else {
            is_lower_hex(id[i])
        }
    &&& id[14] == '4'
    &&& (id[19] == '8' || id[19] == '9' || id[19] == 'a' || id[19] == 'b')
}

/// `Uuid::new_v4`, written out by `to_string`: a random UUID of version 4 in
/// the hyphenated lower-case form. Which one is left to chance; the call
/// panics where the system has no random bytes to give.
#[verifier::external_body]
pub(crate) fn fresh_identity() -> (id: String)
    ensures
        is_identity(id@),
{
    Uuid::new_v4().to_string()
}

/// A session: its identity and where it stands.
#[derive(Debug)]
pub struct Session {
    id: String,
    state: SessionState,
}

/// What a session says.
pub struct SessionView {
    pub id: Seq<char>,
    pub state: SessionState,
}

impl View for Session {
    type V = SessionView;

    closed spec fn view(&self) -> SessionView {
        SessionView { id: self.id@, state: self.state }
    }
}

impl Session {
    /// The session `id`, just connected.
    pub(crate) fn connected(id: String) -> (session: Session)
        ensures
            session@ == (SessionView { id: id@, state: SessionState::Connected }),
    {
        Session { id, state: SessionState::Connected }
    }

    /// Moves the session to `state`.
    pub(crate) fn enter(&mut self, state: SessionState)
        ensures
            final(self)@ == (SessionView { id: old(self)@.id, state }),
    {
        self.state = state;
    }

    /// The session's identity.
    pub fn id(&self) -> (id: &str)
        ensures
            id@ == self@.id,
    {
        self.id.as_str()
    }

    /// Where the session stands.
    pub fn state(&self) -> (state: SessionState)
        ensures
            state == self@.state,
    {
        self.state
    }

    /// The writer has stopped: a session whose reader had stopped is closed.
    /// A session that still reads goes on.
    pub fn writer_stopped(&mut self)
        ensures
            final(self)@.id == old(self)@.id,
            final(self)@.state == after_writer(old(self)@.state),
    {
        match self.state {
            SessionState::Closing => {
                self.state = SessionState::Closed;
            },
            _ => {},
        }
    }
}

/// Where a session stands once its writer has stopped.
pub open spec fn after_writer(state: SessionState) -> SessionState {
    if state is Closing {
        SessionState::Closed
    } else {
        state
    }
}

/// What happened to the writer.
#[derive(Debug, Clone, Copy, PartialEq, Eq, Structural)]
pub enum WriterEvent {
    /// The queue handed out its next message.
    Dequeued,
    /// The queue is closed and empty.
    QueueClosed,
    /// The transport took the message.
    Written,
    /// The transport refused the message.
    WriteFailed,
}

/// What the writer does next.
#[derive(Debug, Clone, Copy, PartialEq, Eq, Structural)]
pub enum WriterAction {
    /// Write the message just taken from the queue to the transport.
    Write,
    /// Wait for the next message of the queue.
    Wait,
    /// Stop, and leave what the queue still holds.
    Stop,
}

/// The action that follows `event`: messages go to the transport one by
/// one, in the order in which the queue hands them out, until the queue is
/// closed or the transport refuses one.
pub open spec fn writer_action_after(event: WriterEvent) -> WriterAction {
    match event {
        WriterEvent::Dequeued => WriterAction::Write,
        WriterEvent::Written => WriterAction::Wait,
        WriterEvent::QueueClosed => WriterAction::Stop,
        WriterEvent::WriteFailed => WriterAction::Stop,
    }
}

/// What the writer does after `event`.
pub fn writer_action(event: WriterEvent) -> (action: WriterAction)
    ensures
        action == writer_action_after(event),
{
    match event {
        WriterEvent::Dequeued => WriterAction::Write,
        WriterEvent::Written => WriterAction::Wait,
        WriterEvent::QueueClosed => WriterAction::Stop,
        WriterEvent::WriteFailed => WriterAction::Stop,
    }
}

} // verus!
