//! The routing policy: which way a client's command takes to the device.
//!
//! A command goes to the device directly where it has a wire token and the
//! bridge is not preferred. Where the direct way is closed or fails, it goes
//! to the bridge under its symbolic name. What the bridge answers is passed
//! on to the subscribers as it came; it is not parsed again.

use crate::text::{same_text, text_of};
use vstd::prelude::*;
use vstd::string::*;

verus! {

/// The wire token of a symbolic command, if it has one.
pub open spec fn wire_token_of(command: Seq<char>) -> Option<Seq<char>> {
    if command == "read_gross"@ {
        Some("20050026:"@)
    } else if command == "read_net"@ {
        Some("20110027:"@)
    } else if command == "tare"@ {
        Some("20120008:8003"@)
    } else if command == "zero"@ {
        Some("21120008:0B"@)
    } else {
        None
    }
}

/// What ends a line on the wire.
pub open spec fn line_end() -> Seq<char> {
    seq!['\n']
}

/// The first way that a command takes.
pub enum RouteView {
    /// The wire token is written to the device.
    Direct(Seq<char>),
    /// The symbolic command is posted to the bridge.
    Bridge(Seq<char>),
}

/// The first way that `command` takes.
pub open spec fn route_of(command: Seq<char>, prefer_bridge: bool) -> RouteView {
    if prefer_bridge {
        RouteView::Bridge(command)
    } else {
        match wire_token_of(command) {
            Some(wire) => RouteView::Direct(wire),
            None => RouteView::Bridge(command),
        }
    }
}

/// How a direct write ended.
#[derive(Clone, Copy, Debug, PartialEq, Eq, Structural)]
pub enum DirectOutcome {
    /// The wire token was written.
    Written,
    /// No connection to the device was open.
    WriterAbsent,
    /// The write failed.
    WriteFailed,
}

/// The command that goes to the bridge after a direct write that ended in
/// `outcome`, if any does.
pub open spec fn fallback_of(command: Seq<char>, outcome: DirectOutcome) -> Option<Seq<char>> {
    match outcome {
        DirectOutcome::Written => None,
        DirectOutcome::WriterAbsent => Some(command),
        DirectOutcome::WriteFailed => Some(command),
    }
}

/// Where the bridge is, and whether every command goes there.
#[derive(Debug, PartialEq, Eq)]
pub struct BridgeTarget {
    pub url: String,
    pub prefer_bridge: bool,
}

impl Clone for BridgeTarget {
    fn clone(&self) -> (r: Self)
        ensures
            r.url@ == self.url@,
            r.prefer_bridge == self.prefer_bridge,
    {
        BridgeTarget { url: self.url.clone(), prefer_bridge: self.prefer_bridge }
    }
}

/// What is posted to the bridge: the symbolic command as the client gave
/// it.
#[derive(Debug, PartialEq, Eq)]
pub struct BridgeRequest {
    command: String,
}

impl View for BridgeRequest {
    type V = Seq<char>;

    closed spec fn view(&self) -> Seq<char> {
        self.command@
    }
}

impl BridgeRequest {
    /// The symbolic command.
    pub fn command(&self) -> (r: &str)
        ensures
            r@ == self@,
    {
        self.command.as_str()
    }
}

/// The first way that a command takes.
#[derive(Debug, PartialEq, Eq)]
pub enum Route {
    /// Write this wire token to the device.
    Direct(String),
    /// Post this to the bridge.
    Bridge(BridgeRequest),
}

impl View for Route {
    type V = RouteView;

    open spec fn view(&self) -> RouteView {
        match self {
            Route::Direct(wire) => RouteView::Direct(wire@),
            Route::Bridge(request) => RouteView::Bridge(request@),
        }
    }
}

/// How a call of the bridge ended.
#[derive(Debug, PartialEq, Eq)]
pub enum BridgeOutcome {
    /// The bridge answered with this body.
    Replied(String),
    /// The bridge could not be reached, or the call failed.
    Failed,
}

/// What an optional text holds.
pub open spec fn str_of(r: Option<&str>) -> Option<Seq<char>> {
    match r {
        Some(s) => Some(s@),
        None => None,
    }
}

/// What an optional request holds.
pub open spec fn request_of(r: Option<BridgeRequest>) -> Option<Seq<char>> {
    match r {
        Some(s) => Some(s@),
        None => None,
    }
}

/// What is passed on to the subscribers after a call of the bridge: the
/// body of its answer, as it came, and nothing where the call failed.
pub open spec fn republished_of(outcome: BridgeOutcome) -> Option<Seq<char>> {
    match outcome {
        BridgeOutcome::Replied(body) => Some(body@),
        BridgeOutcome::Failed => None,
    }
}

/// Looks a symbolic command up in the table of wire tokens.
pub fn wire_token(command: &str) -> (r: Option<&'static str>)
    ensures
        str_of(r) == wire_token_of(command@),
{
    if same_text(command, "read_gross") {
        Some("20050026:")
    } else if same_text(command, "read_net") {
        Some("20110027:")
    } else if same_text(command, "tare") {
        Some("20120008:8003")
    } else if same_text(command, "zero") {
        Some("21120008:0B")
    } else {
        None
    }
}

/// The line that carries a wire token to the device: the token and the end
/// of the line.
pub fn wire_frame(wire: &str) -> (r: String)
    ensures
        r@ == wire@ + line_end(),
{
    let mut r = String::from_str(wire);
    r.push('\n');
    r
}

/// Chooses the first way for a command: the bridge where it is preferred or
/// the command has no wire token, the device else.
pub fn route(command: &str, target: &BridgeTarget) -> (r: Route)
    ensures
        r@ == route_of(command@, target.prefer_bridge),
{
    if target.prefer_bridge {
        Route::Bridge(BridgeRequest { command: String::from_str(command) })
    } else {
        match wire_token(command) {
            Some(wire) => Route::Direct(String::from_str(wire)),
            None => Route::Bridge(BridgeRequest { command: String::from_str(command) }),
        }
    }
}

/// Decides what follows a direct write: nothing where the token was
/// written, the bridge where no connection was open or the write failed.
pub fn fallback(command: &str, outcome: DirectOutcome) -> (r: Option<BridgeRequest>)
    ensures
        request_of(r) == fallback_of(command@, outcome),
{
    match outcome {
        DirectOutcome::Written => None,
        DirectOutcome::WriterAbsent => Some(BridgeRequest { command: String::from_str(command) }),
        DirectOutcome::WriteFailed => Some(BridgeRequest { command: String::from_str(command) }),
    }
}

/// Decides what the subscribers get after a call of the bridge: the body of
/// the answer as it came, or nothing where the call failed.
pub fn republish(outcome: BridgeOutcome) -> (r: Option<String>)
    ensures
        text_of(r) == republished_of(outcome),
{
    match outcome {
        BridgeOutcome::Replied(body) => Some(body),
        BridgeOutcome::Failed => None,
    }
}

/// Where the delivery of a command stands.
#[derive(Clone, Copy, Debug, PartialEq, Eq, Structural)]
pub enum DispatchState {
    /// The wire token is being written to the device.
    Direct,
    /// The bridge is being called.
    Bridge,
    /// Nothing is left to do.
    Done,
}

/// What happened to a command.
pub enum DispatchEventView {
    DirectEnded(DirectOutcome),
    BridgeEnded(Option<Seq<char>>),
}

/// What the owner of a delivery does next.
pub enum DispatchActionView {
    WriteDirect(Seq<char>),
    PostBridge(Seq<char>),
    Publish(Seq<char>),
    Nothing,
}

/// The state in which the delivery of `command` starts, and the first
/// thing to do: to write the line with its wire token to the device, or to
/// post it to the bridge.
pub open spec fn dispatch_start(command: Seq<char>, prefer_bridge: bool) -> (
    DispatchState,
    DispatchActionView,
) {
    match route_of(command, prefer_bridge) {
        RouteView::Direct(wire) => (
            DispatchState::Direct,
            DispatchActionView::WriteDirect(wire + line_end()),
        ),
        RouteView::Bridge(name) => (DispatchState::Bridge, DispatchActionView::PostBridge(name)),
    }
}

/// The state of the delivery of `command` after `event`, and what is to be
/// done.
///
/// A token that was written ends the delivery. A direct write that did not
/// succeed is followed by a call of the bridge. The answer of the bridge is
/// published as it came; a call that failed ends the delivery without a
/// word to anyone. An event that the state does not expect changes nothing
/// and asks for nothing.
pub open spec fn dispatch_step(
    state: DispatchState,
    command: Seq<char>,
    event: DispatchEventView,
) -> (DispatchState, DispatchActionView) {
    match (state, event) {
        (DispatchState::Direct, DispatchEventView::DirectEnded(outcome)) => match fallback_of(
            command,
            outcome,
        ) {
            Some(name) => (DispatchState::Bridge, DispatchActionView::PostBridge(name)),
            None => (DispatchState::Done, DispatchActionView::Nothing),
        },
        (DispatchState::Bridge, DispatchEventView::BridgeEnded(answer)) => match answer {
            Some(body) => (DispatchState::Done, DispatchActionView::Publish(body)),
            None => (DispatchState::Done, DispatchActionView::Nothing),
        },
        _ => (state, DispatchActionView::Nothing),
    }
}

/// The state of a delivery after a run of events.
pub open spec fn dispatch_after(
    state: DispatchState,
    command: Seq<char>,
    events: Seq<DispatchEventView>,
) -> DispatchState
    decreases events.len(),
{
    if events.len() == 0 {
        state
    } else {
        dispatch_step(dispatch_after(state, command, events.drop_last()), command, events.last()).0
    }
}

/// How often the bridge is called in a run of events.
pub open spec fn bridge_calls(
    state: DispatchState,
    command: Seq<char>,
    events: Seq<DispatchEventView>,
) -> nat
    decreases events.len(),
{
    if events.len() == 0 {
        0
    } else {
        let before = dispatch_after(state, command, events.drop_last());
        let count = bridge_calls(state, command, events.drop_last());
        if dispatch_step(before, command, events.last()).1 is PostBridge {
            count + 1
        } else {
            count
        }
    }
}

/// What happened to a command.
#[derive(Debug, PartialEq, Eq)]
pub enum DispatchEvent {
    /// The direct write ended, in this way.
    DirectEnded(DirectOutcome),
    /// The call of the bridge ended, in this way.
    BridgeEnded(BridgeOutcome),
}

impl View for DispatchEvent {
    type V = DispatchEventView;

    open spec fn view(&self) -> DispatchEventView {
        match self {
            DispatchEvent::DirectEnded(outcome) => DispatchEventView::DirectEnded(*outcome),
            DispatchEvent::BridgeEnded(outcome) => DispatchEventView::BridgeEnded(
                republished_of(*outcome),
            ),
        }
    }
}

/// What the owner of a delivery does next.
#[derive(Debug, PartialEq, Eq)]
pub enum DispatchAction {
    /// Write this line to the device, if a connection is open, holding
    /// its writer for this write only.
    WriteDirect(String),
    /// Post this to the bridge.
    PostBridge(BridgeRequest),
    /// Pass this on to the subscribers.
    Publish(String),
    /// Nothing.
    Nothing,
}

impl View for DispatchAction {
    type V = DispatchActionView;

    open spec fn view(&self) -> DispatchActionView {
        match self {
            DispatchAction::WriteDirect(line) => DispatchActionView::WriteDirect(line@),
            DispatchAction::PostBridge(request) => DispatchActionView::PostBridge(request@),
            DispatchAction::Publish(body) => DispatchActionView::Publish(body@),
            DispatchAction::Nothing => DispatchActionView::Nothing,
        }
    }
}

/// What a delivery holds: where it stands, and the command that it is for.
pub struct DispatchView {
    pub state: DispatchState,
    pub command: Seq<char>,
}

/// The delivery of one command.
#[derive(Debug)]
pub struct Dispatch {
    state: DispatchState,
    command: String,
}

impl View for Dispatch {
    type V = DispatchView;

    closed spec fn view(&self) -> DispatchView {
        DispatchView { state: self.state, command: self.command@ }
    }
}

impl Dispatch {
    /// Starts the delivery of a command and says what is to be done first.
    pub fn begin(command: &str, target: &BridgeTarget) -> (r: (Dispatch, DispatchAction))
        ensures
            r.0@.command == command@,
            (r.0@.state, r.1@) == dispatch_start(command@, target.prefer_bridge),
    {
        match route(command, target) {
            Route::Direct(wire) => (
                Dispatch { state: DispatchState::Direct, command: String::from_str(command) },
                DispatchAction::WriteDirect(wire_frame(wire.as_str())),
            ),
            Route::Bridge(request) => (
                Dispatch { state: DispatchState::Bridge, command: String::from_str(command) },
                DispatchAction::PostBridge(request),
            ),
        }
    }

    /// Whether nothing is left to do.
    pub fn is_done(&self) -> (r: bool)
        ensures
            r == (self@.state == DispatchState::Done),
    {
        self.state == DispatchState::Done
    }

    /// Takes in what happened and says what is to be done.
    pub fn handle(&mut self, event: DispatchEvent) -> (r: DispatchAction)
        ensures
            (final(self)@.state, r@) == dispatch_step(
                old(self)@.state,
                old(self)@.command,
                event@,
            ),
            final(self)@.command == old(self)@.command,
    {
        match event {
            DispatchEvent::DirectEnded(outcome) => {
                if self.state == DispatchState::Direct {
                    match fallback(self.command.as_str(), outcome) {
                        Some(request) => {
                            self.state = DispatchState::Bridge;
                            DispatchAction::PostBridge(request)
                        },
                        None => {
                            self.state = DispatchState::Done;
                            DispatchAction::Nothing
                        },
                    }
                } else {
                    DispatchAction::Nothing
                }
            },
            DispatchEvent::BridgeEnded(outcome) => {
                if self.state == DispatchState::Bridge {
                    self.state = DispatchState::Done;
                    match republish(outcome) {
                        Some(body) => DispatchAction::Publish(body),
                        None => DispatchAction::Nothing,
                    }
                } else {
                    DispatchAction::Nothing
                }
            },
        }
    }
}

/// A delivery that starts at the device writes the wire token of its
/// command and the end of the line; one that starts at the bridge posts the
/// command under its own name.
pub proof fn lemma_dispatch_start(command: Seq<char>, prefer_bridge: bool)
    ensures
        dispatch_start(command, prefer_bridge).0 != DispatchState::Done,
        dispatch_start(command, prefer_bridge).1 matches DispatchActionView::WriteDirect(line)
            ==> !prefer_bridge && wire_token_of(command) is Some && line == wire_token_of(
            command,
        )->0 + line_end() && dispatch_start(command, prefer_bridge).0 == DispatchState::Direct,
        dispatch_start(command, prefer_bridge).1 matches DispatchActionView::PostBridge(name)
            ==> name == command && dispatch_start(command, prefer_bridge).0
            == DispatchState::Bridge,
        prefer_bridge ==> dispatch_start(command, prefer_bridge).1 is PostBridge,
{
}

/// The bridge is called after a direct write exactly where the write did
/// not succeed, and always with the command as the client gave it. Only
/// the answer of the bridge is published, as it came. A delivery that is
/// done stays done and asks for nothing.
pub proof fn lemma_dispatch_step(
    state: DispatchState,
    command: Seq<char>,
    event: DispatchEventView,
)
    ensures
        dispatch_step(state, command, event).1 is PostBridge <==> state == DispatchState::Direct
            && event is DirectEnded && event != DispatchEventView::DirectEnded(
            DirectOutcome::Written,
        ),
        dispatch_step(state, command, event).1 matches DispatchActionView::PostBridge(name)
            ==> name == command,
        dispatch_step(state, command, event).1 matches DispatchActionView::Publish(body) ==> state
            == DispatchState::Bridge && event == DispatchEventView::BridgeEnded(Some(body)),
        state == DispatchState::Direct && event == DispatchEventView::DirectEnded(
            DirectOutcome::Written,
        ) ==> dispatch_step(state, command, event) == (
            DispatchState::Done,
            DispatchActionView::Nothing,
        ),
        state == DispatchState::Bridge && event == DispatchEventView::BridgeEnded(None)
            ==> dispatch_step(state, command, event) == (
            DispatchState::Done,
            DispatchActionView::Nothing,
        ),
        state == DispatchState::Done ==> dispatch_step(state, command, event) == (
            DispatchState::Done,
            DispatchActionView::Nothing,
        ),
        !(dispatch_step(state, command, event).1 is WriteDirect),
{
}

/// Whatever happens, the bridge is called once at most for a command: not
/// again after the delivery started there, and never once the wire token
/// was written.
pub proof fn lemma_bridge_called_once(
    state: DispatchState,
    command: Seq<char>,
    events: Seq<DispatchEventView>,
)
    ensures
        bridge_calls(state, command, events) <= 1,
        state != DispatchState::Direct ==> bridge_calls(state, command, events) == 0,
        bridge_calls(state, command, events) == 1 ==> dispatch_after(state, command, events)
            != DispatchState::Direct,
        state != DispatchState::Direct ==> dispatch_after(state, command, events)
            != DispatchState::Direct,
    decreases events.len(),
{
    if events.len() > 0 {
        lemma_bridge_called_once(state, command, events.drop_last());
        lemma_dispatch_step(
            dispatch_after(state, command, events.drop_last()),
            command,
            events.last(),
        );
    }
}

/// Where the bridge is preferred, every command goes there, unchanged.
pub proof fn lemma_preferred_bridge(command: Seq<char>)
    ensures
        route_of(command, true) == RouteView::Bridge(command),
{
}

/// A command goes to the device first only where the bridge is not
/// preferred, and then as its wire token; to the bridge it goes under its
/// own name.
pub proof fn lemma_route(command: Seq<char>, prefer_bridge: bool)
    ensures
        route_of(command, prefer_bridge) matches RouteView::Direct(wire) ==> !prefer_bridge
            && wire_token_of(command) == Some(wire),
        route_of(command, prefer_bridge) matches RouteView::Bridge(name) ==> name == command && (
        prefer_bridge || wire_token_of(command) is None),
{
}

/// The bridge is called after a direct write exactly where the write did
/// not succeed, and then with the command as the client gave it.
pub proof fn lemma_fallback(command: Seq<char>, outcome: DirectOutcome)
    ensures
        fallback_of(command, outcome) is None <==> outcome == DirectOutcome::Written,
        fallback_of(command, outcome) is Some ==> fallback_of(command, outcome) == Some(command),
{
}

} // verus!
