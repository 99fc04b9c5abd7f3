//! The per-connection session state machine.
//!
//! One session serves one accepted connection and moves strictly forward:
//! awaiting the greeting, awaiting the request, connecting upstream,
//! relaying, closed.  Each step takes the current state and one event —
//! bytes read, the dial's outcome, the relay's end, or a transport failure
//! — and returns the next state and the one action the caller must carry
//! out.  The caller owns all I/O: it reads the bytes, writes the replies,
//! dials, and runs the relay loops.
//!
//! A failed greeting closes the session without a reply; a failed request
//! or dial closes it after the failure reply; a transport failure closes
//! it at once.  Nothing is ever retried.

use crate::codec::DestModel;
use crate::codec::Destination;
use crate::handshake::greet_reply;
use crate::handshake::parse_greeting;
use crate::handshake::spec_parse_greeting;
use crate::reply::encode_reply;
use crate::reply::reply_bytes;
use crate::request::parse_request;
use crate::request::spec_parse_request;
use vstd::prelude::*;

verus! {

/// Where a session stands.  Transitions only ever move down this list.
#[derive(Clone, Copy, Debug, PartialEq, Eq, Structural)]
pub enum SessionState {
    /// Nothing read yet; the greeting is owed first.
    AwaitingHandshake,
    /// Greeting answered; the request is owed next.
    AwaitingRequest,
    /// Request decoded; the upstream dial is under way.
    Connecting,
    /// Success reply sent; both copy loops run.
    Relaying,
    /// Both endpoints are released; nothing more happens.
    Closed,
}

/// One thing that happened to the session.
#[derive(Clone, Debug, PartialEq, Eq)]
pub enum SessionEvent {
    /// The greeting message was read: these are its bytes.
    GreetingRead(Vec<u8>),
    /// The request message was read: these are its bytes.
    RequestRead(Vec<u8>),
    /// The upstream dial succeeded.
    DialSucceeded,
    /// The upstream dial failed.
    DialFailed,
    /// Both copy loops have ended.
    RelayFinished,
    /// A read or write on the client connection failed.
    TransportFailed,
}

/// Mathematical model of a [`SessionEvent`].
pub enum SessionEventModel {
    GreetingRead(Seq<u8>),
    RequestRead(Seq<u8>),
    DialSucceeded,
    DialFailed,
    RelayFinished,
    TransportFailed,
}

impl View for SessionEvent {
    type V = SessionEventModel;

    open spec fn view(&self) -> SessionEventModel {
        match self {
            SessionEvent::GreetingRead(b) => SessionEventModel::GreetingRead(b@),
            SessionEvent::RequestRead(b) => SessionEventModel::RequestRead(b@),
            SessionEvent::DialSucceeded => SessionEventModel::DialSucceeded,
            SessionEvent::DialFailed => SessionEventModel::DialFailed,
            SessionEvent::RelayFinished => SessionEventModel::RelayFinished,
            SessionEvent::TransportFailed => SessionEventModel::TransportFailed,
        }
    }
}

/// The one thing the caller must do next.
#[derive(Clone, Debug, PartialEq, Eq)]
pub enum SessionAction {
    /// Write these bytes to the client, then read the request.
    ReplyThenReadRequest(Vec<u8>),
    /// Open a TCP connection to this destination.
    Dial(Destination),
    /// Write these bytes to the client, then run both copy loops.
    ReplyThenRelay(Vec<u8>),
    /// Write these bytes to the client, then close the connection.
    ReplyThenClose(Vec<u8>),
    /// Close the connection without writing anything.
    CloseNow,
    /// Nothing is left to do.
    Finished,
}

/// Mathematical model of a [`SessionAction`].
pub enum SessionActionModel {
    ReplyThenReadRequest(Seq<u8>),
    Dial(DestModel),
    ReplyThenRelay(Seq<u8>),
    ReplyThenClose(Seq<u8>),
    CloseNow,
    Finished,
}

impl View for SessionAction {
    type V = SessionActionModel;

    open spec fn view(&self) -> SessionActionModel {
        match self {
            SessionAction::ReplyThenReadRequest(b) => SessionActionModel::ReplyThenReadRequest(b@),
            SessionAction::Dial(d) => SessionActionModel::Dial(d@),
            SessionAction::ReplyThenRelay(b) => SessionActionModel::ReplyThenRelay(b@),
            SessionAction::ReplyThenClose(b) => SessionActionModel::ReplyThenClose(b@),
            SessionAction::CloseNow => SessionActionModel::CloseNow,
            SessionAction::Finished => SessionActionModel::Finished,
        }
    }
}

/// The next state and action for one state and one event.  Any pairing not
/// listed — an event arriving in a state that does not await it, or
/// anything at all once closed — closes the session without a reply.
pub open spec fn spec_step(s: SessionState, ev: SessionEventModel) -> (
    SessionState,
    SessionActionModel,
) {
    match (s, ev) {
        (SessionState::AwaitingHandshake, SessionEventModel::GreetingRead(b)) => if spec_parse_greeting(
            b,
        ) is Ok {
            (
                SessionState::AwaitingRequest,
                SessionActionModel::ReplyThenReadRequest(greet_reply()),
            )
        } else {
            (SessionState::Closed, SessionActionModel::CloseNow)
        },
        (SessionState::AwaitingRequest, SessionEventModel::RequestRead(b)) => match spec_parse_request(
            b,
        ) {
            Ok((d, _n)) => (SessionState::Connecting, SessionActionModel::Dial(d)),
            Err(_) => (
                SessionState::Closed,
                SessionActionModel::ReplyThenClose(reply_bytes(false)),
            ),
        },
        (SessionState::Connecting, SessionEventModel::DialSucceeded) => (
            SessionState::Relaying,
            SessionActionModel::ReplyThenRelay(reply_bytes(true)),
        ),
        (SessionState::Connecting, SessionEventModel::DialFailed) => (
            SessionState::Closed,
            SessionActionModel::ReplyThenClose(reply_bytes(false)),
        ),
        (SessionState::Relaying, SessionEventModel::RelayFinished) => (
            SessionState::Closed,
            SessionActionModel::Finished,
        ),
        _ => (SessionState::Closed, SessionActionModel::CloseNow),
    }
}

/// Takes one step of the session: exactly the state and action that
/// [`spec_step`] gives for this state and event.
pub fn session_step(s: SessionState, ev: SessionEvent) -> (r: (SessionState, SessionAction))
    ensures
        r.0 == spec_step(s, ev@).0,
        r.1@ == spec_step(s, ev@).1,
{
    match (s, ev) {
        (SessionState::AwaitingHandshake, SessionEvent::GreetingRead(b)) => {
            match parse_greeting(&b) {
                Ok(reply) => (
                    SessionState::AwaitingRequest,
                    SessionAction::ReplyThenReadRequest(reply),
                ),
                Err(_) => (SessionState::Closed, SessionAction::CloseNow),
            }
        },
        (SessionState::AwaitingRequest, SessionEvent::RequestRead(b)) => {
            match parse_request(&b) {
                Ok((d, _n)) => (SessionState::Connecting, SessionAction::Dial(d)),
                Err(_) => (
                    SessionState::Closed,
                    SessionAction::ReplyThenClose(encode_reply(false)),
                ),
            }
        },
        (SessionState::Connecting, SessionEvent::DialSucceeded) => (
            SessionState::Relaying,
            SessionAction::ReplyThenRelay(encode_reply(true)),
        ),
        (SessionState::Connecting, SessionEvent::DialFailed) => (
            SessionState::Closed,
            SessionAction::ReplyThenClose(encode_reply(false)),
        ),
        (SessionState::Relaying, SessionEvent::RelayFinished) => (
            SessionState::Closed,
            SessionAction::Finished,
        ),
        (_, _) => (SessionState::Closed, SessionAction::CloseNow),
    }
}

/// How far along its life a state stands.
pub open spec fn state_rank(s: SessionState) -> int {
    match s {
        SessionState::AwaitingHandshake => 0,
        SessionState::AwaitingRequest => 1,
        SessionState::Connecting => 2,
        SessionState::Relaying => 3,
        SessionState::Closed => 4,
    }
}

/// Law: transitions are strictly forward.  A live session only ever moves
/// to a strictly later state, and a closed session stays closed: there is
/// no retry and no return to an earlier stage.
pub proof fn lemma_step_strictly_forward(s: SessionState, ev: SessionEventModel)
    ensures
        s != SessionState::Closed ==> state_rank(spec_step(s, ev).0) > state_rank(s),
        s == SessionState::Closed ==> spec_step(s, ev).0 == SessionState::Closed,
{
}

/// Law: a greeting that is not accepted — wrong version, or a shape other
/// than its method count announces — closes the session at once, with no
/// reply written, so nothing is ever sent that claims success and the
/// request is never awaited.  A reply is written exactly when the greeting
/// is accepted.
pub proof fn lemma_bad_greeting_closes(b: Seq<u8>)
    ensures
        b.len() < 2 || b[0] != 5 || b.len() != 2 + b[1] ==> spec_step(
            SessionState::AwaitingHandshake,
            SessionEventModel::GreetingRead(b),
        ) == (SessionState::Closed, SessionActionModel::CloseNow),
        spec_step(
            SessionState::AwaitingHandshake,
            SessionEventModel::GreetingRead(b),
        ).1 is ReplyThenReadRequest <==> spec_parse_greeting(b) is Ok,
{
}

/// Law: a request whose command byte is not CONNECT closes the session
/// with the failure reply and never reaches the dialer.  More generally,
/// the session dials exactly when the request parses.
pub proof fn lemma_bad_command_never_dials(b: Seq<u8>)
    ensures
        b.len() >= 4 && b[1] != 1 ==> spec_step(
            SessionState::AwaitingRequest,
            SessionEventModel::RequestRead(b),
        ) == (SessionState::Closed, SessionActionModel::ReplyThenClose(reply_bytes(false))),
        spec_step(
            SessionState::AwaitingRequest,
            SessionEventModel::RequestRead(b),
        ).1 is Dial <==> spec_parse_request(b) is Ok,
{
}

/// Law: the session dials only what the request names.  Whenever the step
/// out of the request stage asks for a dial, its destination is exactly
/// the one the request message decodes to, and it is well formed.
pub proof fn lemma_dial_matches_request(b: Seq<u8>)
    ensures
        spec_step(
            SessionState::AwaitingRequest,
            SessionEventModel::RequestRead(b),
        ).1 matches SessionActionModel::Dial(d) ==> (spec_parse_request(b) matches Ok((d2, _n))
            && d2 == d && crate::codec::wf_dest(d)),
{
    crate::request::lemma_parsed_dest_wf(b);
}

/// Law: sessions are isolated.  A step is a function of that session's own
/// state and event alone: two sessions fed the same state and the same
/// bytes take the same step, and nothing else — no other session's state,
/// no shared store — enters into the outcome.
pub proof fn lemma_sessions_isolated(
    s1: SessionState,
    e1: SessionEventModel,
    s2: SessionState,
    e2: SessionEventModel,
)
    requires
        s1 == s2,
        e1 == e2,
    ensures
        spec_step(s1, e1) == spec_step(s2, e2),
{
}

} // verus!
