//! The command relay: one command is taken to the scale over a connection
//! of its own, and what the scale answers is handed back.
//!
//! The relay connects, writes the command as it is, and reads once. Each of
//! the three steps may fail, and the two after the connection may run out of
//! time. Whatever happens becomes a reply: the answer of the scale, or a
//! sentence that says what went wrong.

use crate::decimal::{numeral_char, numeral_of};
use crate::text::{from_chars, to_chars, trim, trimmed};
use vstd::prelude::*;
use vstd::string::*;

verus! {

/// How long the relay waits for a write and for a read to end, in seconds.
pub const EXCHANGE_TIMEOUT_SECS: u64 = 5;

/// How many bytes of an answer the relay reads at most.
pub const ANSWER_LIMIT: usize = 1024;

/// The status of a reply that carries the answer of the scale.
pub const STATUS_OK: u16 = 200;

/// The status of a reply that says what went wrong.
pub const STATUS_FAILED: u16 = 500;

/// The text that `String::from_utf8_lossy` makes of `bytes`.
pub uninterp spec fn lossy_text(bytes: Seq<u8>) -> Seq<char>;

/// The decimal numeral of `n`, without leading zeros.
pub open spec fn decimal_of(n: nat) -> Seq<char>
    decreases n,
{
    if n < 10 {
        seq![numeral_of(n as u8)]
    } else {
        decimal_of(n / 10).push(numeral_of((n % 10) as u8))
    }
}

/// The address of a scale: its host, a colon, and its port.
pub open spec fn address_of(host: Seq<char>, port: u16) -> Seq<char> {
    host + seq![':'] + decimal_of(port as nat)
}

/// How an exchange with the scale ended.
pub enum ExchangeView {
    ConnectFailed(Seq<char>),
    WriteTimedOut,
    WriteFailed(Seq<char>),
    ReadTimedOut,
    ReadFailed(Seq<char>),
    Received(Seq<u8>),
}

/// What is handed back for a command.
pub struct ReplyView {
    pub status: u16,
    pub response: Seq<char>,
}

/// The reply to an answer of the scale, read as text: the text without the
/// white space at its two ends.
pub open spec fn reply_of_text(answer: Seq<char>) -> ReplyView {
    ReplyView { status: STATUS_OK, response: trimmed(answer) }
}

/// The reply that says that `what` went wrong.
pub open spec fn failure(what: Seq<char>) -> ReplyView {
    ReplyView { status: STATUS_FAILED, response: what }
}

/// The reply to an exchange.
pub open spec fn reply_of(exchange: ExchangeView) -> ReplyView {
    match exchange {
        ExchangeView::Received(bytes) => if bytes.len() > 0 {
            reply_of_text(lossy_text(bytes))
        } else {
            failure("No data received from scale."@)
        },
        ExchangeView::ReadFailed(cause) => failure("Failed to read from scale: "@ + cause),
        ExchangeView::ReadTimedOut => failure("Timeout while reading from scale."@),
        ExchangeView::WriteFailed(cause) => failure("Failed to write command to scale: "@ + cause),
        ExchangeView::WriteTimedOut => failure("Timeout while writing command to scale."@),
        ExchangeView::ConnectFailed(cause) => failure("Failed to connect to scale: "@ + cause),
    }
}

/// A command for the scale, and where the scale is.
#[derive(Debug, PartialEq, Eq)]
pub struct RelayRequest {
    pub command: String,
    pub ip_address: String,
    pub port: u16,
}

/// How an exchange with the scale ended.
#[derive(Debug, PartialEq, Eq)]
pub enum Exchange {
    /// No connection could be opened, for this cause.
    ConnectFailed(String),
    /// The command was not written in time.
    WriteTimedOut,
    /// Writing the command failed, for this cause.
    WriteFailed(String),
    /// No answer came in time.
    ReadTimedOut,
    /// Reading the answer failed, for this cause.
    ReadFailed(String),
    /// These bytes were read; none, where the scale closed the connection.
    Received(Vec<u8>),
}

impl View for Exchange {
    type V = ExchangeView;

    open spec fn view(&self) -> ExchangeView {
        match self {
            Exchange::ConnectFailed(cause) => ExchangeView::ConnectFailed(cause@),
            Exchange::WriteTimedOut => ExchangeView::WriteTimedOut,
            Exchange::WriteFailed(cause) => ExchangeView::WriteFailed(cause@),
            Exchange::ReadTimedOut => ExchangeView::ReadTimedOut,
            Exchange::ReadFailed(cause) => ExchangeView::ReadFailed(cause@),
            Exchange::Received(bytes) => ExchangeView::Received(bytes@),
        }
    }
}

/// What is handed back for a command: a status, and the answer of the scale
/// or what went wrong.
#[derive(Debug, PartialEq, Eq)]
pub struct RelayReply {
    pub status: u16,
    pub response: String,
}

impl View for RelayReply {
    type V = ReplyView;

    open spec fn view(&self) -> ReplyView {
        ReplyView { status: self.status, response: self.response@ }
    }
}

/// `String::from_utf8_lossy`: reads bytes as UTF-8 text, with a replacement
/// character for each part that is none. The contract names the text,
/// `lossy_text`, and claims no more than that the same bytes always give the
/// same text.
#[verifier::external_body]
fn decode_lossy(bytes: &[u8]) -> (r: String)
    ensures
        r@ == lossy_text(bytes@),
{
    String::from_utf8_lossy(bytes).into_owned()
}

/// Appends the decimal numeral of `n` to `s`.
fn push_decimal(s: &mut String, n: u16)
    ensures
        final(s)@ == old(s)@ + decimal_of(n as nat),
    decreases n,
{
    if n >= 10 {
        push_decimal(s, n / 10);
    }
    s.push(numeral_char((n % 10) as u8));
}

/// The address at which the relay connects to the scale.
pub fn device_address(request: &RelayRequest) -> (r: String)
    ensures
        r@ == address_of(request.ip_address@, request.port),
{
    let mut r = request.ip_address.clone();
    r.push(':');
    push_decimal(&mut r, request.port);
    r
}

/// The reply that says that `what` went wrong.
fn failure_reply(what: &str) -> (r: RelayReply)
    ensures
        r@ == failure(what@),
{
    RelayReply { status: STATUS_FAILED, response: String::from_str(what) }
}

/// The reply that says that `what` went wrong, for the cause `cause`.
fn failure_with(what: &str, cause: &str) -> (r: RelayReply)
    ensures
        r@ == failure(what@ + cause@),
{
    let mut response = String::from_str(what);
    response.append(cause);
    RelayReply { status: STATUS_FAILED, response }
}

/// The reply to an answer of the scale, read as text.
pub fn reply_for_text(answer: &str) -> (r: RelayReply)
    ensures
        r@ == reply_of_text(answer@),
{
    let chars = to_chars(answer);
    let response = trim(chars.as_slice());
    RelayReply { status: STATUS_OK, response: from_chars(response.as_slice()) }
}

/// The reply to an exchange: the answer of the scale as text, without the
/// white space at its two ends, or what went wrong.
pub fn reply_for(exchange: &Exchange) -> (r: RelayReply)
    ensures
        r@ == reply_of(exchange@),
{
    match exchange {
        Exchange::Received(bytes) => {
            if bytes.len() > 0 {
                let answer = decode_lossy(bytes.as_slice());
                reply_for_text(answer.as_str())
            } else {
                failure_reply("No data received from scale.")
            }
        },
        Exchange::ReadFailed(cause) => failure_with("Failed to read from scale: ", cause.as_str()),
        Exchange::ReadTimedOut => failure_reply("Timeout while reading from scale."),
        Exchange::WriteFailed(cause) => failure_with(
            "Failed to write command to scale: ",
            cause.as_str(),
        ),
        Exchange::WriteTimedOut => failure_reply("Timeout while writing command to scale."),
        Exchange::ConnectFailed(cause) => failure_with(
            "Failed to connect to scale: ",
            cause.as_str(),
        ),
    }
}

/// Where an exchange stands.
#[derive(Clone, Copy, Debug, PartialEq, Eq, Structural)]
pub enum RelayState {
    /// The connection is being opened.
    Connecting,
    /// The command is being written.
    Writing,
    /// The answer is being read.
    Reading,
    /// The reply was given.
    Done,
}

/// What happened in an exchange.
pub enum RelayEventView {
    Connected,
    Written,
    Ended(ExchangeView),
}

/// What the owner of an exchange does next.
pub enum RelayActionView {
    Connect(Seq<char>),
    Write { data: Seq<char>, timeout_secs: u64 },
    Read { limit: usize, timeout_secs: u64 },
    Reply(ReplyView),
    Nothing,
}

/// Whether an exchange may end with `exchange` in `state`: with a failed
/// connection while connecting, with a failed or late write while writing,
/// and with bytes, a failed read or a late one while reading.
pub open spec fn ends_in(state: RelayState, exchange: ExchangeView) -> bool {
    match state {
        RelayState::Connecting => exchange is ConnectFailed,
        RelayState::Writing => exchange is WriteFailed || exchange is WriteTimedOut,
        RelayState::Reading => exchange is Received || exchange is ReadFailed
            || exchange is ReadTimedOut,
        RelayState::Done => false,
    }
}

/// The state of an exchange for `command` after `event`, and what is to be
/// done.
///
/// The steps follow one another: connect, write the command as it is, read
/// once. The first step that does not succeed ends the exchange with its
/// reply, and so does the read. An event that the state does not expect
/// changes nothing and asks for nothing.
pub open spec fn relay_step(state: RelayState, command: Seq<char>, event: RelayEventView) -> (
    RelayState,
    RelayActionView,
) {
    match event {
        RelayEventView::Connected => if state == RelayState::Connecting {
            (
                RelayState::Writing,
                RelayActionView::Write { data: command, timeout_secs: EXCHANGE_TIMEOUT_SECS },
            )
        } else {
            (state, RelayActionView::Nothing)
        },
        RelayEventView::Written => if state == RelayState::Writing {
            (
                RelayState::Reading,
                RelayActionView::Read { limit: ANSWER_LIMIT, timeout_secs: EXCHANGE_TIMEOUT_SECS },
            )
        } else {
            (state, RelayActionView::Nothing)
        },
        RelayEventView::Ended(exchange) => if ends_in(state, exchange) {
            (RelayState::Done, RelayActionView::Reply(reply_of(exchange)))
        } else {
            (state, RelayActionView::Nothing)
        },
    }
}

/// The state of an exchange after a run of events.
pub open spec fn relay_after(
    state: RelayState,
    command: Seq<char>,
    events: Seq<RelayEventView>,
) -> RelayState
    decreases events.len(),
{
    if events.len() == 0 {
        state
    } else {
        relay_step(relay_after(state, command, events.drop_last()), command, events.last()).0
    }
}

/// How many replies are given in a run of events.
pub open spec fn replies(state: RelayState, command: Seq<char>, events: Seq<RelayEventView>) -> nat
    decreases events.len(),
{
    if events.len() == 0 {
        0
    } else {
        let before = relay_after(state, command, events.drop_last());
        let count = replies(state, command, events.drop_last());
        if relay_step(before, command, events.last()).1 is Reply {
            count + 1
        } else {
            count
        }
    }
}

/// What happened in an exchange.
#[derive(Debug, PartialEq, Eq)]
pub enum RelayEvent {
    /// The connection is open.
    Connected,
    /// The command was written.
    Written,
    /// The exchange ended, in this way.
    Ended(Exchange),
}

impl View for RelayEvent {
    type V = RelayEventView;

    open spec fn view(&self) -> RelayEventView {
        match self {
            RelayEvent::Connected => RelayEventView::Connected,
            RelayEvent::Written => RelayEventView::Written,
            RelayEvent::Ended(exchange) => RelayEventView::Ended(exchange@),
        }
    }
}

/// What the owner of an exchange does next.
#[derive(Debug, PartialEq, Eq)]
pub enum RelayAction {
    /// Open a connection to this address.
    Connect(String),
    /// Write this text, and give up after so many seconds.
    Write { data: String, timeout_secs: u64 },
    /// Read once, so many bytes at most, and give up after so many seconds.
    Read { limit: usize, timeout_secs: u64 },
    /// Hand this back for the command.
    Reply(RelayReply),
    /// Nothing: the event was not expected.
    Nothing,
}

impl View for RelayAction {
    type V = RelayActionView;

    open spec fn view(&self) -> RelayActionView {
        match self {
            RelayAction::Connect(address) => RelayActionView::Connect(address@),
            RelayAction::Write { data, timeout_secs } => RelayActionView::Write {
                data: data@,
                timeout_secs: *timeout_secs,
            },
            RelayAction::Read { limit, timeout_secs } => RelayActionView::Read {
                limit: *limit,
                timeout_secs: *timeout_secs,
            },
            RelayAction::Reply(reply) => RelayActionView::Reply(reply@),
            RelayAction::Nothing => RelayActionView::Nothing,
        }
    }
}

/// What an exchange holds: where it stands, and the command that it is
/// for.
pub struct RelayView {
    pub state: RelayState,
    pub command: Seq<char>,
}

/// One exchange with the scale.
#[derive(Debug)]
pub struct Relay {
    state: RelayState,
    command: String,
}

impl View for Relay {
    type V = RelayView;

    closed spec fn view(&self) -> RelayView {
        RelayView { state: self.state, command: self.command@ }
    }
}

impl Relay {
    /// Starts an exchange: the first thing to do is to connect to the
    /// scale.
    pub fn begin(request: &RelayRequest) -> (r: (Relay, RelayAction))
        ensures
            r.0@ == (RelayView { state: RelayState::Connecting, command: request.command@ }),
            r.1@ == RelayActionView::Connect(address_of(request.ip_address@, request.port)),
    {
        (
            Relay { state: RelayState::Connecting, command: request.command.clone() },
            RelayAction::Connect(device_address(request)),
        )
    }

    /// Where the exchange stands.
    pub fn state(&self) -> (r: RelayState)
        ensures
            r == self@.state,
    {
        self.state
    }

    /// Takes in what happened and says what is to be done.
    pub fn handle(&mut self, event: RelayEvent) -> (r: RelayAction)
        ensures
            (final(self)@.state, r@) == relay_step(old(self)@.state, old(self)@.command, event@),
            final(self)@.command == old(self)@.command,
    {
        match event {
            RelayEvent::Connected => {
                if self.state == RelayState::Connecting {
                    self.state = RelayState::Writing;
                    RelayAction::Write {
                        data: self.command.clone(),
                        timeout_secs: EXCHANGE_TIMEOUT_SECS,
                    }
                } else {
                    RelayAction::Nothing
                }
            },
            RelayEvent::Written => {
                if self.state == RelayState::Writing {
                    self.state = RelayState::Reading;
                    RelayAction::Read { limit: ANSWER_LIMIT, timeout_secs: EXCHANGE_TIMEOUT_SECS }
                } else {
                    RelayAction::Nothing
                }
            },
            RelayEvent::Ended(exchange) => {
                if ends(self.state, &exchange) {
                    self.state = RelayState::Done;
                    RelayAction::Reply(reply_for(&exchange))
                } else {
                    RelayAction::Nothing
                }
            },
        }
    }
}

/// Whether an exchange may end with `exchange` in `state`.
fn ends(state: RelayState, exchange: &Exchange) -> (r: bool)
    ensures
        r == ends_in(state, exchange@),
{
    match state {
        RelayState::Connecting => match exchange {
            Exchange::ConnectFailed(_) => true,
            _ => false,
        },
        RelayState::Writing => match exchange {
            Exchange::WriteFailed(_) => true,
            Exchange::WriteTimedOut => true,
            _ => false,
        },
        RelayState::Reading => match exchange {
            Exchange::Received(_) => true,
            Exchange::ReadFailed(_) => true,
            Exchange::ReadTimedOut => true,
            _ => false,
        },
        RelayState::Done => false,
    }
}

/// A reply carries the answer of the scale exactly where bytes were read;
/// every other exchange is reported as failed.
pub proof fn lemma_reply_status(exchange: ExchangeView)
    ensures
        reply_of(exchange).status == STATUS_OK <==> (exchange matches ExchangeView::Received(bytes)
            && bytes.len() > 0),
        reply_of(exchange).status == STATUS_OK || reply_of(exchange).status == STATUS_FAILED,
{
}

/// A reply is given exactly when an exchange ends, and an exchange that
/// has ended stays so and asks for nothing. The command is written as it
/// is, after the connection and before the read, and the answer of the
/// scale is handed back only by an exchange that came to read.
pub proof fn lemma_relay_step(state: RelayState, command: Seq<char>, event: RelayEventView)
    ensures
        relay_step(state, command, event).1 is Reply <==> state != RelayState::Done && relay_step(
            state,
            command,
            event,
        ).0 == RelayState::Done,
        state == RelayState::Done ==> relay_step(state, command, event) == (
            RelayState::Done,
            RelayActionView::Nothing,
        ),
        relay_step(state, command, event).1 matches RelayActionView::Write { data, .. } ==> data
            == command && state == RelayState::Connecting,
        relay_step(state, command, event).1 is Read ==> state == RelayState::Writing,
        relay_step(state, command, event).1 matches RelayActionView::Reply(reply) ==> (reply.status
            == STATUS_OK ==> state == RelayState::Reading),
        !(relay_step(state, command, event).1 is Connect),
{
}

/// Whatever happens in an exchange, one reply is given at most, and exactly
/// one if the exchange has ended.
pub proof fn lemma_one_reply(command: Seq<char>, events: Seq<RelayEventView>)
    ensures
        replies(RelayState::Connecting, command, events) == if relay_after(
            RelayState::Connecting,
            command,
            events,
        ) == RelayState::Done {
            1nat
        } else {
            0nat
        },
    decreases events.len(),
{
    if events.len() > 0 {
        lemma_one_reply(command, events.drop_last());
        lemma_relay_step(
            relay_after(RelayState::Connecting, command, events.drop_last()),
            command,
            events.last(),
        );
    }
}

/// An exchange in which every step succeeds is over after three events, and
/// so is one whose read fails; one that cannot connect is over after one.
pub proof fn lemma_relay_ends(command: Seq<char>, last: ExchangeView)
    ensures
        ends_in(RelayState::Reading, last) ==> relay_after(
            RelayState::Connecting,
            command,
            seq![RelayEventView::Connected, RelayEventView::Written, RelayEventView::Ended(last)],
        ) == RelayState::Done,
        ends_in(RelayState::Writing, last) ==> relay_after(
            RelayState::Connecting,
            command,
            seq![RelayEventView::Connected, RelayEventView::Ended(last)],
        ) == RelayState::Done,
        ends_in(RelayState::Connecting, last) ==> relay_after(
            RelayState::Connecting,
            command,
            seq![RelayEventView::Ended(last)],
        ) == RelayState::Done,
{
    let c = RelayEventView::Connected;
    let w = RelayEventView::Written;
    let e = RelayEventView::Ended(last);
    let start = RelayState::Connecting;
    assert(seq![e].drop_last() =~= Seq::<RelayEventView>::empty());
    assert(seq![c].drop_last() =~= Seq::<RelayEventView>::empty());
    assert(seq![c, e].drop_last() =~= seq![c]);
    assert(seq![c, w].drop_last() =~= seq![c]);
    assert(seq![c, w, e].drop_last() =~= seq![c, w]);
    assert(relay_after(start, command, Seq::<RelayEventView>::empty()) == start);
    assert(relay_after(start, command, seq![c]) == RelayState::Writing);
    assert(relay_after(start, command, seq![c, w]) == RelayState::Reading);
}

} // verus!
