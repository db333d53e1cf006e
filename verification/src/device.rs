//! The device connection manager: one connection to the scale, kept alive
//! for as long as the process runs.
//!
//! The manager is a state machine. Its owner performs each action that the
//! machine asks for (connect, read, sleep) and hands back what happened as
//! the next event. No event stops the machine, and no failure leaves it:
//! a connection that cannot be opened or that ends is followed by a wait and
//! a new attempt.

use crate::reading::{event_for_line, event_of, LineEvent, LineEventView};
use vstd::prelude::*;

verus! {

/// How long the manager waits after an attempt to connect has failed, in
/// milliseconds.
pub const CONNECT_BACKOFF_MS: u64 = 3000;

/// How long the manager waits after a connection has ended, in
/// milliseconds.
pub const RECONNECT_BACKOFF_MS: u64 = 2000;

/// The state of the connection to the device.
#[derive(Clone, Copy, Debug, PartialEq, Eq, Structural)]
pub enum LinkState {
    /// No connection, and no attempt under way.
    Disconnected,
    /// An attempt to connect is under way.
    Connecting,
    /// The connection is open and its writer is shared.
    Connected,
}

/// What happened to the connection.
pub enum LinkEventView {
    RetryDue,
    ConnectFailed,
    ConnectSucceeded,
    Line(Seq<char>),
    StreamEnded,
}

/// What the owner of the manager does next.
pub enum LinkActionView {
    Connect,
    ShareWriter,
    Publish(LineEventView),
    DropWriterAndWait(u64),
    Wait(u64),
    Nothing,
}

/// The state after `event`, and what is to be done.
///
/// An event that the state does not expect changes nothing and asks for
/// nothing.
pub open spec fn step_of(state: LinkState, event: LinkEventView) -> (LinkState, LinkActionView) {
    match (state, event) {
        (LinkState::Disconnected, LinkEventView::RetryDue) => (
            LinkState::Connecting,
            LinkActionView::Connect,
        ),
        (LinkState::Connecting, LinkEventView::ConnectSucceeded) => (
            LinkState::Connected,
            LinkActionView::ShareWriter,
        ),
        (LinkState::Connecting, LinkEventView::ConnectFailed) => (
            LinkState::Disconnected,
            LinkActionView::Wait(CONNECT_BACKOFF_MS),
        ),
        (LinkState::Connected, LinkEventView::Line(line)) => (
            LinkState::Connected,
            LinkActionView::Publish(event_of(line)),
        ),
        (LinkState::Connected, LinkEventView::StreamEnded) => (
            LinkState::Disconnected,
            LinkActionView::DropWriterAndWait(RECONNECT_BACKOFF_MS),
        ),
        _ => (state, LinkActionView::Nothing),
    }
}

/// Whether the state may change from `from` to `to`: along the cycle from
/// disconnected over connecting to connected and back, or from connecting
/// back to disconnected where the attempt failed.
pub open spec fn follows(from: LinkState, to: LinkState) -> bool {
    ||| from == LinkState::Disconnected && to == LinkState::Connecting
    ||| from == LinkState::Connecting && to == LinkState::Connected
    ||| from == LinkState::Connecting && to == LinkState::Disconnected
    ||| from == LinkState::Connected && to == LinkState::Disconnected
}

/// Whether a writer to the device is shared in `state`.
pub open spec fn writer_shared(state: LinkState) -> bool {
    state == LinkState::Connected
}

/// The state after a run of events.
pub open spec fn state_after(state: LinkState, events: Seq<LinkEventView>) -> LinkState
    decreases events.len(),
{
    if events.len() == 0 {
        state
    } else {
        step_of(state_after(state, events.drop_last()), events.last()).0
    }
}

/// What happened to the connection.
#[derive(Debug, PartialEq, Eq)]
pub enum LinkEvent {
    /// The manager was started, or a wait is over.
    RetryDue,
    /// The attempt to connect failed.
    ConnectFailed,
    /// The attempt to connect succeeded.
    ConnectSucceeded,
    /// The device sent this line.
    Line(String),
    /// The connection ended, or reading from it failed.
    StreamEnded,
}

impl View for LinkEvent {
    type V = LinkEventView;

    open spec fn view(&self) -> LinkEventView {
        match self {
            LinkEvent::RetryDue => LinkEventView::RetryDue,
            LinkEvent::ConnectFailed => LinkEventView::ConnectFailed,
            LinkEvent::ConnectSucceeded => LinkEventView::ConnectSucceeded,
            LinkEvent::Line(line) => LinkEventView::Line(line@),
            LinkEvent::StreamEnded => LinkEventView::StreamEnded,
        }
    }
}

/// What the owner of the manager does next.
#[derive(Debug, PartialEq, Eq)]
pub enum LinkAction {
    /// Try to open the connection, without a time limit of its own.
    Connect,
    /// Share the writer of the new connection, then read its lines.
    ShareWriter,
    /// Pass this on to the subscribers, then read the next line.
    Publish(LineEvent),
    /// Take the shared writer away, then wait for so many milliseconds.
    DropWriterAndWait(u64),
    /// Wait for so many milliseconds.
    Wait(u64),
    /// Nothing: the event was not expected.
    Nothing,
}

impl View for LinkAction {
    type V = LinkActionView;

    open spec fn view(&self) -> LinkActionView {
        match self {
            LinkAction::Connect => LinkActionView::Connect,
            LinkAction::ShareWriter => LinkActionView::ShareWriter,
            LinkAction::Publish(event) => LinkActionView::Publish(event@),
            LinkAction::DropWriterAndWait(millis) => LinkActionView::DropWriterAndWait(*millis),
            LinkAction::Wait(millis) => LinkActionView::Wait(*millis),
            LinkAction::Nothing => LinkActionView::Nothing,
        }
    }
}

/// The state after `event`, and what is to be done.
pub fn step(state: LinkState, event: LinkEvent) -> (r: (LinkState, LinkAction))
    ensures
        (r.0, r.1@) == step_of(state, event@),
{
    match (state, event) {
        (LinkState::Disconnected, LinkEvent::RetryDue) => (
            LinkState::Connecting,
            LinkAction::Connect,
        ),
        (LinkState::Connecting, LinkEvent::ConnectSucceeded) => (
            LinkState::Connected,
            LinkAction::ShareWriter,
        ),
        (LinkState::Connecting, LinkEvent::ConnectFailed) => (
            LinkState::Disconnected,
            LinkAction::Wait(CONNECT_BACKOFF_MS),
        ),
        (LinkState::Connected, LinkEvent::Line(line)) => (
            LinkState::Connected,
            LinkAction::Publish(event_for_line(line.as_str())),
        ),
        (LinkState::Connected, LinkEvent::StreamEnded) => (
            LinkState::Disconnected,
            LinkAction::DropWriterAndWait(RECONNECT_BACKOFF_MS),
        ),
        (state, _) => (state, LinkAction::Nothing),
    }
}

/// The manager of the connection to the device. It alone changes the state
/// of the connection.
#[derive(Debug)]
pub struct ConnectionManager {
    state: LinkState,
}

impl View for ConnectionManager {
    type V = LinkState;

    closed spec fn view(&self) -> LinkState {
        self.state
    }
}

impl ConnectionManager {
    /// A manager without a connection. `RetryDue` starts it.
    pub fn new() -> (r: Self)
        ensures
            r@ == LinkState::Disconnected,
    {
        ConnectionManager { state: LinkState::Disconnected }
    }

    /// The state of the connection.
    pub fn state(&self) -> (r: LinkState)
        ensures
            r == self@,
    {
        self.state
    }

    /// Whether a writer to the device is shared.
    pub fn is_connected(&self) -> (r: bool)
        ensures
            r == writer_shared(self@),
    {
        self.state == LinkState::Connected
    }

    /// Takes in what happened and says what is to be done.
    pub fn handle(&mut self, event: LinkEvent) -> (r: LinkAction)
        ensures
            (final(self)@, r@) == step_of(old(self)@, event@),
    {
        let (next, action) = step(self.state, event);
        self.state = next;
        action
    }
}

/// The state changes along the cycle only: each step leaves it as it is or
/// moves it to a state that may follow. Connecting never follows
/// connecting, and connected never follows connected by a new connection.
pub proof fn lemma_step_follows(state: LinkState, event: LinkEventView)
    ensures
        step_of(state, event).0 == state || follows(state, step_of(state, event).0),
        step_of(state, event).0 == state ==> step_of(state, event).1 is Nothing || step_of(
            state,
            event,
        ).1 is Publish,
{
}

/// A writer is shared exactly when the connected state is entered, and
/// taken away exactly when it is left: at most one writer exists at a time.
pub proof fn lemma_writer_with_connection(state: LinkState, event: LinkEventView)
    ensures
        step_of(state, event).1 is ShareWriter <==> !writer_shared(state) && writer_shared(
            step_of(state, event).0,
        ),
        step_of(state, event).1 is DropWriterAndWait <==> writer_shared(state) && !writer_shared(
            step_of(state, event).0,
        ),
{
}

/// Lines are published while connected and at no other time, each as the
/// event that the line parser gives for it.
pub proof fn lemma_publishes_while_connected(state: LinkState, event: LinkEventView)
    ensures
        step_of(state, event).1 is Publish <==> state == LinkState::Connected && event is Line,
        event matches LinkEventView::Line(line) ==> step_of(LinkState::Connected, event).1
            == LinkActionView::Publish(event_of(line)),
{
}

/// No state is final: in each state some event makes the manager act.
pub proof fn lemma_never_stuck(state: LinkState)
    ensures
        exists|event: LinkEventView| !(#[trigger] step_of(state, event).1 is Nothing),
{
    match state {
        LinkState::Disconnected => {
            assert(!(step_of(state, LinkEventView::RetryDue).1 is Nothing));
        },
        LinkState::Connecting => {
            assert(!(step_of(state, LinkEventView::ConnectFailed).1 is Nothing));
        },
        LinkState::Connected => {
            assert(!(step_of(state, LinkEventView::StreamEnded).1 is Nothing));
        },
    }
}

/// A failure is never final: a failed attempt and an ended connection both
/// leave the manager disconnected with a wait of at most three seconds, and
/// the end of the wait makes it connect again.
pub proof fn lemma_failure_is_retried(state: LinkState, failure: LinkEventView)
    requires
        (state == LinkState::Connecting && failure is ConnectFailed) || (state
            == LinkState::Connected && failure is StreamEnded),
    ensures
        step_of(state, failure).0 == LinkState::Disconnected,
        step_of(state, failure).1 == LinkActionView::Wait(CONNECT_BACKOFF_MS) || step_of(
            state,
            failure,
        ).1 == LinkActionView::DropWriterAndWait(RECONNECT_BACKOFF_MS),
        step_of(step_of(state, failure).0, LinkEventView::RetryDue) == (
            LinkState::Connecting,
            LinkActionView::Connect,
        ),
{
}

/// Whatever events arrive, in whatever order, a manager that starts
/// disconnected is in one of its three states along the cycle, and each
/// further event moves it as `lemma_step_follows` says.
pub proof fn lemma_run_follows(events: Seq<LinkEventView>, event: LinkEventView)
    ensures
        ({
            let before = state_after(LinkState::Disconnected, events);
            let after = state_after(LinkState::Disconnected, events.push(event));
            after == before || follows(before, after)
        }),
{
    assert(events.push(event).drop_last() == events);
    assert(events.push(event).last() == event);
}

} // verus!
