//! The per-connection state machine.
//!
//! A connection reads a request, has it served, writes the reply, and
//! starts over, until the peer closes the socket, a frame cannot be decoded
//! or a write fails. The machine decides; its driver does the work: it
//! performs the action that a step hands out and comes back with the event
//! that resulted.

use crate::command::error_frame;
use crate::frame::{Frame, FrameView};
use vstd::prelude::*;
use vstd::string::StringExecFns;

verus! {

/// Where a connection stands.
#[derive(Debug, Clone, Copy, PartialEq, Eq, Structural)]
pub enum ConnectionState {
    /// Waiting for the next request frame.
    Reading,
    /// A request is being served.
    Dispatching,
    /// A reply is being written; reading resumes after it.
    Writing,
    /// The report of a decode failure is being written; the connection
    /// closes after it.
    Closing,
    /// The connection is closed. No event is accepted any more.
    Closed,
}

/// What happened to the work that the driver was asked to do.
#[derive(Debug, PartialEq, Eq)]
pub enum ConnectionEvent {
    /// A request frame was read.
    FrameDecoded(Frame),
    /// The bytes read are no frame; the text describes why.
    DecodeFailed(String),
    /// The peer closed the socket.
    PeerClosed,
    /// The request was served; this is its reply.
    Replied(Frame),
    /// The worker that served the request was lost; the text describes how.
    WorkerFailed(String),
    /// The frame was written.
    Written,
    /// The frame could not be written; the text describes why.
    WriteFailed(String),
}

/// What the driver is to do next.
#[derive(Debug, PartialEq, Eq)]
pub enum ConnectionAction {
    /// Read the next request frame.
    Read,
    /// Serve this request.
    Dispatch(Frame),
    /// Write this frame to the peer.
    Write(Frame),
    /// Close the connection; nothing went wrong.
    Close,
    /// Close the connection and report this error to the operator.
    Abort(String),
}

/// The mathematical value of a [`ConnectionEvent`].
pub enum EventView {
    FrameDecoded(FrameView),
    DecodeFailed(Seq<char>),
    PeerClosed,
    Replied(FrameView),
    WorkerFailed(Seq<char>),
    Written,
    WriteFailed(Seq<char>),
}

/// The mathematical value of a [`ConnectionAction`].
pub enum ActionView {
    Read,
    Dispatch(FrameView),
    Write(FrameView),
    Close,
    Abort(Seq<char>),
}

impl View for ConnectionEvent {
    type V = EventView;

    open spec fn view(&self) -> EventView {
        match self {
            ConnectionEvent::FrameDecoded(frame) => EventView::FrameDecoded(frame@),
            ConnectionEvent::DecodeFailed(detail) => EventView::DecodeFailed(detail@),
            ConnectionEvent::PeerClosed => EventView::PeerClosed,
            ConnectionEvent::Replied(frame) => EventView::Replied(frame@),
            ConnectionEvent::WorkerFailed(detail) => EventView::WorkerFailed(detail@),
            ConnectionEvent::Written => EventView::Written,
            ConnectionEvent::WriteFailed(detail) => EventView::WriteFailed(detail@),
        }
    }
}

impl View for ConnectionAction {
    type V = ActionView;

    open spec fn view(&self) -> ActionView {
        match self {
            ConnectionAction::Read => ActionView::Read,
            ConnectionAction::Dispatch(frame) => ActionView::Dispatch(frame@),
            ConnectionAction::Write(frame) => ActionView::Write(frame@),
            ConnectionAction::Close => ActionView::Close,
            ConnectionAction::Abort(detail) => ActionView::Abort(detail@),
        }
    }
}

/// The frame that reports a decode failure to the peer: `"ERR <detail>"`.
pub open spec fn decode_failure(detail: Seq<char>) -> FrameView {
    error_frame("ERR "@ + detail)
}

/// The frame that answers a request whose worker was lost:
/// `"ERR task error: <detail>"`.
pub open spec fn worker_failure(detail: Seq<char>) -> FrameView {
    error_frame("ERR task error: "@ + detail)
}

/// The transition that an event causes in a state: the next state and the
/// action to perform, or `None` where the event cannot occur in the state.
///
/// - `Reading`: a decoded frame is dispatched; a decode failure is reported
///   to the peer, after which the connection closes; when the peer closes
///   the socket, the connection closes cleanly.
/// - `Dispatching`: the reply is written; if the worker was lost, an error
///   frame is written in the reply's place.
/// - `Writing`: after the write, the next frame is read; a failed write
///   closes the connection and is reported to the operator.
/// - `Closing`: after the write the connection closes; a failed write is
///   reported to the operator.
/// - `Closed`: nothing.
pub open spec fn transition(state: ConnectionState, event: EventView) -> Option<
    (ConnectionState, ActionView),
> {
    match (state, event) {
        (ConnectionState::Reading, EventView::FrameDecoded(frame)) => Some(
            (ConnectionState::Dispatching, ActionView::Dispatch(frame)),
        ),
        (ConnectionState::Reading, EventView::DecodeFailed(detail)) => Some(
            (ConnectionState::Closing, ActionView::Write(decode_failure(detail))),
        ),
        (ConnectionState::Reading, EventView::PeerClosed) => Some(
            (ConnectionState::Closed, ActionView::Close),
        ),
        (ConnectionState::Dispatching, EventView::Replied(reply)) => Some(
            (ConnectionState::Writing, ActionView::Write(reply)),
        ),
        (ConnectionState::Dispatching, EventView::WorkerFailed(detail)) => Some(
            (ConnectionState::Writing, ActionView::Write(worker_failure(detail))),
        ),
        (ConnectionState::Writing, EventView::Written) => Some(
            (ConnectionState::Reading, ActionView::Read),
        ),
        (ConnectionState::Writing, EventView::WriteFailed(detail)) => Some(
            (ConnectionState::Closed, ActionView::Abort(detail)),
        ),
        (ConnectionState::Closing, EventView::Written) => Some(
            (ConnectionState::Closed, ActionView::Close),
        ),
        (ConnectionState::Closing, EventView::WriteFailed(detail)) => Some(
            (ConnectionState::Closed, ActionView::Abort(detail)),
        ),
        _ => None,
    }
}

/// The value of the result of a step.
pub open spec fn step_view(result: Option<(ConnectionState, ConnectionAction)>) -> Option<
    (ConnectionState, ActionView),
> {
    match result {
        Some((state, action)) => Some((state, action@)),
        None => None,
    }
}

/// The state and the action with which a connection starts: it reads.
pub fn open_connection() -> (start: (ConnectionState, ConnectionAction))
    ensures
        start.0 == ConnectionState::Reading,
        start.1@ == ActionView::Read,
{
    (ConnectionState::Reading, ConnectionAction::Read)
}

/// Takes one step: given the state and the event that the last action
/// resulted in, returns the next state and the next action, or `None` if
/// the event cannot occur in the state.
pub fn step(state: ConnectionState, event: ConnectionEvent) -> (result: Option<
    (ConnectionState, ConnectionAction),
>)
    ensures
        step_view(result) == transition(state, event@),
{
    match state {
        ConnectionState::Reading => match event {
            ConnectionEvent::FrameDecoded(frame) => Some(
                (ConnectionState::Dispatching, ConnectionAction::Dispatch(frame)),
            ),
            ConnectionEvent::DecodeFailed(detail) => {
                let text = String::from_str("ERR ").concat(detail.as_str());
                Some((ConnectionState::Closing, ConnectionAction::Write(Frame::Error(text))))
            },
            ConnectionEvent::PeerClosed => Some((ConnectionState::Closed, ConnectionAction::Close)),
            _ => None,
        },
        ConnectionState::Dispatching => match event {
            ConnectionEvent::Replied(reply) => Some(
                (ConnectionState::Writing, ConnectionAction::Write(reply)),
            ),
            ConnectionEvent::WorkerFailed(detail) => {
                let text = String::from_str("ERR task error: ").concat(detail.as_str());
                Some((ConnectionState::Writing, ConnectionAction::Write(Frame::Error(text))))
            },
            _ => None,
        },
        ConnectionState::Writing => match event {
            ConnectionEvent::Written => Some((ConnectionState::Reading, ConnectionAction::Read)),
            ConnectionEvent::WriteFailed(detail) => Some(
                (ConnectionState::Closed, ConnectionAction::Abort(detail)),
            ),
            _ => None,
        },
        ConnectionState::Closing => match event {
            ConnectionEvent::Written => Some((ConnectionState::Closed, ConnectionAction::Close)),
            ConnectionEvent::WriteFailed(detail) => Some(
                (ConnectionState::Closed, ConnectionAction::Abort(detail)),
            ),
            _ => None,
        },
        ConnectionState::Closed => None,
    }
}

/// The state that a run of events leads to from `state`, or `None` if one
/// of the events cannot occur where it stands.
pub open spec fn run(state: ConnectionState, events: Seq<EventView>) -> Option<ConnectionState>
    decreases events.len(),
{
    if events.len() == 0 {
        Some(state)
    } else {
        match run(state, events.drop_last()) {
            None => None,
            Some(before) => match transition(before, events.last()) {
                None => None,
                Some((after, _)) => Some(after),
            },
        }
    }
}

/// How many of the events are decoded requests.
pub open spec fn requests_read(events: Seq<EventView>) -> nat
    decreases events.len(),
{
    if events.len() == 0 {
        0
    } else {
        requests_read(events.drop_last()) + if events.last() is FrameDecoded {
            1nat
        } else {
            0nat
        }
    }
}

/// How many of the events hand a frame to write in answer to a request: a
/// reply, or the loss of the worker.
pub open spec fn requests_answered(events: Seq<EventView>) -> nat
    decreases events.len(),
{
    if events.len() == 0 {
        0
    } else {
        requests_answered(events.drop_last()) + if events.last() is Replied || events.last()
            is WorkerFailed {
            1nat
        } else {
            0nat
        }
    }
}

/// How many writes have ended, well or not.
pub open spec fn writes_ended(events: Seq<EventView>) -> nat
    decreases events.len(),
{
    if events.len() == 0 {
        0
    } else {
        writes_ended(events.drop_last()) + if events.last() is Written || events.last()
            is WriteFailed {
            1nat
        } else {
            0nat
        }
    }
}

/// How many of the events are decode failures.
pub open spec fn decode_failures(events: Seq<EventView>) -> nat
    decreases events.len(),
{
    if events.len() == 0 {
        0
    } else {
        decode_failures(events.drop_last()) + if events.last() is DecodeFailed {
            1nat
        } else {
            0nat
        }
    }
}

/// A closed connection accepts no event: `Closed` is terminal.
pub proof fn lemma_closed_is_terminal(event: EventView)
    ensures
        transition(ConnectionState::Closed, event) is None,
{
}

/// Requests are answered one at a time and in order. In every run from the
/// start, each request read has been answered with exactly one frame,
/// except the one being served while the state is `Dispatching`; and every
/// frame handed out for writing has seen its write end before the next
/// request is read, except the one being written while the state is
/// `Writing` or `Closing`. At most one decode failure occurs, and after it
/// no request is read.
pub proof fn lemma_one_reply_per_request(events: Seq<EventView>)
    requires
        run(ConnectionState::Reading, events) is Some,
    ensures
        ({
            let state = run(ConnectionState::Reading, events)->Some_0;
            let read = requests_read(events);
            let answered = requests_answered(events);
            let ended = writes_ended(events);
            let failures = decode_failures(events);
            &&& failures <= 1
            &&& state is Dispatching ==> read == answered + 1 && ended == answered && failures == 0
            &&& state is Reading ==> read == answered && ended == answered && failures == 0
            &&& state is Writing ==> read == answered && ended + 1 == answered && failures == 0
            &&& state is Closing ==> read == answered && ended == answered && failures == 1
            &&& state is Closed ==> read == answered && ended <= answered + failures
        }),
    decreases events.len(),
{
    if events.len() > 0 {
        lemma_one_reply_per_request(events.drop_last());
    }
}

} // verus!
