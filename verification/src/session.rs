//! The connection handler: what one client's frames ask for, and when the
//! client's session ends.
//!
//! A client sends text frames that hold JSON. An object with a `ping` key is
//! a keep-alive and asks for nothing. An object with a `cmd` key whose value
//! is a string is a command. Any other text is put on record and dropped;
//! the client is told nothing. Frames that are no text are passed over, but
//! for the close frame, which ends the session.
//!
//! A session has two duties, to read the client's frames and to relay the
//! hub's messages to the client. When one of them ends, the session is torn
//! down, once and for good: a client that wants to go on connects again.

use crate::text::text_of;
use vstd::prelude::*;

verus! {

/// `serde_json::Value`: a JSON value in memory.
#[verifier::external_type_specification]
#[verifier::external_body]
pub struct ExJsonValue(serde_json::Value);

/// The members of the JSON object `value`, by their keys: the text of each
/// member whose value is a JSON string, and `None` for each member whose
/// value is anything else. Empty where `value` is no object.
pub uninterp spec fn json_members(value: serde_json::Value) -> Map<Seq<char>, Option<Seq<char>>>;

/// The members of the JSON object that `text` spells, as `json_members`
/// gives them for the value that `serde_json::from_str` reads from `text`.
/// `None` where `text` is no JSON.
pub uninterp spec fn parsed_members(text: Seq<char>) -> Option<Map<Seq<char>, Option<Seq<char>>>>;

/// What a frame asks for.
pub enum InboundView {
    Ignore,
    Command(Seq<char>),
    Discard,
    Close,
}

/// What a frame holds, as far as it is read.
pub enum FrameView {
    Text(Seq<char>),
    Binary,
    Ping,
    Pong,
    Close,
    Other,
}

/// The text of the member `key`, where there is such a member and its value
/// is a string.
pub open spec fn member_text(
    members: Map<Seq<char>, Option<Seq<char>>>,
    key: Seq<char>,
) -> Option<Seq<char>> {
    if members.dom().contains(key) {
        members[key]
    } else {
        None
    }
}

/// What a JSON text asks for, given whether it has a `ping` key and what
/// text its `cmd` key holds: a keep-alive is passed over, whatever else it
/// holds; a command is carried out; anything else is dropped.
pub open spec fn decided(has_ping: bool, command: Option<Seq<char>>) -> InboundView {
    if has_ping {
        InboundView::Ignore
    } else {
        match command {
            Some(name) => InboundView::Command(name),
            None => InboundView::Discard,
        }
    }
}

/// What a JSON value with these members asks for.
pub open spec fn inbound_of_members(members: Map<Seq<char>, Option<Seq<char>>>) -> InboundView {
    decided(members.dom().contains("ping"@), member_text(members, "cmd"@))
}

/// What a text frame with this text asks for. Text that is no JSON is
/// dropped.
pub open spec fn inbound_of_text(text: Seq<char>) -> InboundView {
    match parsed_members(text) {
        Some(members) => inbound_of_members(members),
        None => InboundView::Discard,
    }
}

/// What a frame asks for.
pub open spec fn inbound_of(frame: FrameView) -> InboundView {
    match frame {
        FrameView::Text(text) => inbound_of_text(text),
        FrameView::Binary => InboundView::Ignore,
        FrameView::Ping => InboundView::Ignore,
        FrameView::Pong => InboundView::Ignore,
        FrameView::Close => InboundView::Close,
        FrameView::Other => InboundView::Ignore,
    }
}

/// A frame from the client. Of a frame that is no text only its kind is
/// kept.
#[derive(Debug, PartialEq, Eq)]
pub enum Frame {
    Text(String),
    Binary,
    Ping,
    Pong,
    Close,
    /// A frame of any other kind, such as a part of a longer message.
    Other,
}

impl View for Frame {
    type V = FrameView;

    open spec fn view(&self) -> FrameView {
        match self {
            Frame::Text(text) => FrameView::Text(text@),
            Frame::Binary => FrameView::Binary,
            Frame::Ping => FrameView::Ping,
            Frame::Pong => FrameView::Pong,
            Frame::Close => FrameView::Close,
            Frame::Other => FrameView::Other,
        }
    }
}

/// What a frame asks for.
#[derive(Debug, PartialEq, Eq)]
pub enum Inbound {
    /// Nothing: a keep-alive, or a frame that is no text.
    Ignore,
    /// Carry out this symbolic command.
    Command(String),
    /// Put the text on record and drop it.
    Discard,
    /// End the session.
    Close,
}

impl View for Inbound {
    type V = InboundView;

    open spec fn view(&self) -> InboundView {
        match self {
            Inbound::Ignore => InboundView::Ignore,
            Inbound::Command(name) => InboundView::Command(name@),
            Inbound::Discard => InboundView::Discard,
            Inbound::Close => InboundView::Close,
        }
    }
}

/// `serde_json::from_str` at the type `serde_json::Value`: reads `text` as
/// JSON. The contract names what was read, `parsed_members`, and claims no
/// more than that the same text always reads the same.
#[verifier::external_body]
fn read_json(text: &str) -> (r: Option<serde_json::Value>)
    ensures
        match r {
            Some(value) => parsed_members(text@) == Some(json_members(value)),
            None => parsed_members(text@) is None,
        },
{
    serde_json::from_str::<serde_json::Value>(text).ok()
}

/// `serde_json::Value::get` with a string for its index: whether `value`
/// is an object that has a member `key`.
#[verifier::external_body]
fn has_member(value: &serde_json::Value, key: &str) -> (r: bool)
    ensures
        r == json_members(*value).dom().contains(key@),
{
    value.get(key).is_some()
}

/// `serde_json::Value::get` with a string for its index, then
/// `serde_json::Value::as_str`: the text of the member `key` of the object
/// `value`, where there is such a member and its value is a JSON string.
#[verifier::external_body]
fn text_member(value: &serde_json::Value, key: &str) -> (r: Option<String>)
    ensures
        text_of(r) == member_text(json_members(*value), key@),
{
    value.get(key).and_then(serde_json::Value::as_str).map(String::from)
}

/// Decides what a JSON text asks for from whether it has a `ping` key and
/// what text its `cmd` key holds.
pub fn decide(has_ping: bool, command: Option<String>) -> (r: Inbound)
    ensures
        r@ == decided(has_ping, text_of(command)),
{
    if has_ping {
        Inbound::Ignore
    } else {
        match command {
            Some(name) => Inbound::Command(name),
            None => Inbound::Discard,
        }
    }
}

/// Decides what a JSON value asks for.
pub fn classify_value(value: &serde_json::Value) -> (r: Inbound)
    ensures
        r@ == inbound_of_members(json_members(*value)),
{
    let has_ping = has_member(value, "ping");
    let command = if has_ping {
        None
    } else {
        text_member(value, "cmd")
    };
    decide(has_ping, command)
}

/// Decides what the text of a text frame asks for.
pub fn classify(text: &str) -> (r: Inbound)
    ensures
        r@ == inbound_of_text(text@),
{
    match read_json(text) {
        Some(value) => classify_value(&value),
        None => Inbound::Discard,
    }
}

/// Decides what a frame asks for.
pub fn on_frame(frame: &Frame) -> (r: Inbound)
    ensures
        r@ == inbound_of(frame@),
{
    match frame {
        Frame::Text(text) => classify(text.as_str()),
        Frame::Binary => Inbound::Ignore,
        Frame::Ping => Inbound::Ignore,
        Frame::Pong => Inbound::Ignore,
        Frame::Close => Inbound::Close,
        Frame::Other => Inbound::Ignore,
    }
}

/// Whether a session goes on.
#[derive(Clone, Copy, Debug, PartialEq, Eq, Structural)]
pub enum SessionState {
    Open,
    Closed,
}

/// What happened in a session.
pub enum SessionEventView {
    Received(InboundView),
    ReadFailed,
    RelayFailed,
}

/// What the owner of a session does next.
pub enum SessionActionView {
    Nothing,
    Dispatch(Seq<char>),
    Discard,
    Teardown,
}

/// The state of a session after `event`, and what is to be done.
///
/// An open session carries out commands, drops what it cannot read, and is
/// torn down when the client closes it or when reading or relaying fails.
/// A closed session stays closed and asks for nothing.
pub open spec fn session_step(state: SessionState, event: SessionEventView) -> (
    SessionState,
    SessionActionView,
) {
    match state {
        SessionState::Closed => (SessionState::Closed, SessionActionView::Nothing),
        SessionState::Open => match event {
            SessionEventView::Received(InboundView::Ignore) => (
                SessionState::Open,
                SessionActionView::Nothing,
            ),
            SessionEventView::Received(InboundView::Command(name)) => (
                SessionState::Open,
                SessionActionView::Dispatch(name),
            ),
            SessionEventView::Received(InboundView::Discard) => (
                SessionState::Open,
                SessionActionView::Discard,
            ),
            SessionEventView::Received(InboundView::Close) => (
                SessionState::Closed,
                SessionActionView::Teardown,
            ),
            SessionEventView::ReadFailed => (SessionState::Closed, SessionActionView::Teardown),
            SessionEventView::RelayFailed => (SessionState::Closed, SessionActionView::Teardown),
        },
    }
}

/// The state of a session after a run of events.
pub open spec fn session_after(state: SessionState, events: Seq<SessionEventView>) -> SessionState
    decreases events.len(),
{
    if events.len() == 0 {
        state
    } else {
        session_step(session_after(state, events.drop_last()), events.last()).0
    }
}

/// How often a session is torn down in a run of events.
pub open spec fn teardowns(state: SessionState, events: Seq<SessionEventView>) -> nat
    decreases events.len(),
{
    if events.len() == 0 {
        0
    } else {
        let before = session_after(state, events.drop_last());
        let count = teardowns(state, events.drop_last());
        if session_step(before, events.last()).1 is Teardown {
            count + 1
        } else {
            count
        }
    }
}

/// What happened in a session.
#[derive(Debug, PartialEq, Eq)]
pub enum SessionEvent {
    /// The client sent a frame that asks for this.
    Received(Inbound),
    /// Reading from the client failed.
    ReadFailed,
    /// Writing a message of the hub to the client failed.
    RelayFailed,
}

impl View for SessionEvent {
    type V = SessionEventView;

    open spec fn view(&self) -> SessionEventView {
        match self {
            SessionEvent::Received(inbound) => SessionEventView::Received(inbound@),
            SessionEvent::ReadFailed => SessionEventView::ReadFailed,
            SessionEvent::RelayFailed => SessionEventView::RelayFailed,
        }
    }
}

/// What the owner of a session does next.
#[derive(Debug, PartialEq, Eq)]
pub enum SessionAction {
    /// Nothing.
    Nothing,
    /// Hand this symbolic command to the routing policy.
    Dispatch(String),
    /// Put the frame on record and drop it, without a word to the client.
    Discard,
    /// Stop both duties and close the socket.
    Teardown,
}

impl View for SessionAction {
    type V = SessionActionView;

    open spec fn view(&self) -> SessionActionView {
        match self {
            SessionAction::Nothing => SessionActionView::Nothing,
            SessionAction::Dispatch(name) => SessionActionView::Dispatch(name@),
            SessionAction::Discard => SessionActionView::Discard,
            SessionAction::Teardown => SessionActionView::Teardown,
        }
    }
}

/// One client's session.
#[derive(Debug)]
pub struct Session {
    state: SessionState,
}

impl View for Session {
    type V = SessionState;

    closed spec fn view(&self) -> SessionState {
        self.state
    }
}

impl Session {
    /// An open session.
    pub fn new() -> (r: Self)
        ensures
            r@ == SessionState::Open,
    {
        Session { state: SessionState::Open }
    }

    /// Whether the session goes on.
    pub fn is_open(&self) -> (r: bool)
        ensures
            r == (self@ == SessionState::Open),
    {
        self.state == SessionState::Open
    }

    /// Takes in what happened and says what is to be done.
    pub fn handle(&mut self, event: SessionEvent) -> (r: SessionAction)
        ensures
            (final(self)@, r@) == session_step(old(self)@, event@),
    {
        match self.state {
            SessionState::Closed => SessionAction::Nothing,
            SessionState::Open => match event {
                SessionEvent::Received(Inbound::Ignore) => SessionAction::Nothing,
                SessionEvent::Received(Inbound::Command(name)) => SessionAction::Dispatch(name),
                SessionEvent::Received(Inbound::Discard) => SessionAction::Discard,
                SessionEvent::Received(Inbound::Close) => {
                    self.state = SessionState::Closed;
                    SessionAction::Teardown
                },
                SessionEvent::ReadFailed => {
                    self.state = SessionState::Closed;
                    SessionAction::Teardown
                },
                SessionEvent::RelayFailed => {
                    self.state = SessionState::Closed;
                    SessionAction::Teardown
                },
            },
        }
    }
}

/// A keep-alive is passed over whatever else it holds, and a text is a
/// command only where it has a `cmd` key with a string for its value.
pub proof fn lemma_inbound_of_members(members: Map<Seq<char>, Option<Seq<char>>>)
    ensures
        members.dom().contains("ping"@) ==> inbound_of_members(members) == InboundView::Ignore,
        inbound_of_members(members) matches InboundView::Command(name) ==> members.dom().contains(
            "cmd"@,
        ) && members["cmd"@] == Some(name) && !members.dom().contains("ping"@),
        !(inbound_of_members(members) is Close),
{
}

/// Only the close frame ends a session by what it asks for; frames that are
/// no text ask for nothing else.
pub proof fn lemma_inbound_of(frame: FrameView)
    ensures
        inbound_of(frame) is Close <==> frame is Close,
        inbound_of(frame) is Command ==> frame is Text,
        inbound_of(frame) is Discard ==> frame is Text,
{
    if let FrameView::Text(text) = frame {
        if let Some(members) = parsed_members(text) {
            lemma_inbound_of_members(members);
        }
    }
}

/// A session is torn down exactly when it closes, and it closes when the
/// client closes it or one of its two duties fails. A closed session asks
/// for nothing and never opens again.
pub proof fn lemma_session_step(state: SessionState, event: SessionEventView)
    ensures
        session_step(state, event).1 is Teardown <==> state == SessionState::Open && session_step(
            state,
            event,
        ).0 == SessionState::Closed,
        state == SessionState::Closed ==> session_step(state, event) == (
            SessionState::Closed,
            SessionActionView::Nothing,
        ),
        state == SessionState::Open ==> (session_step(state, event).0 == SessionState::Closed <==> (
        event is ReadFailed || event is RelayFailed || event == SessionEventView::Received(
            InboundView::Close,
        ))),
{
}

/// Whatever happens in a session, it is torn down at most once, and exactly
/// once if it is closed in the end.
pub proof fn lemma_one_teardown(events: Seq<SessionEventView>)
    ensures
        teardowns(SessionState::Open, events) == if session_after(SessionState::Open, events)
            == SessionState::Closed {
            1nat
        } else {
            0nat
        },
    decreases events.len(),
{
    if events.len() > 0 {
        lemma_one_teardown(events.drop_last());
        lemma_session_step(session_after(SessionState::Open, events.drop_last()), events.last());
    }
}

} // verus!
