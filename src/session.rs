//! The decisions of the network session.
//!
//! The session talks to the server in a fixed rhythm: after the identity, it
//! reads the opponent's placement, drains stale column choices, waits for a fresh
//! one, sends it, and reads the placement that answers it. The caller owns the
//! connection and the two queues; it performs each `Action` and reports what
//! happened as an `Event`, and `Session::step` decides what comes next. Any I/O
//! failure ends the session for good.
use vstd::prelude::*;
use crate::codec::{decode_identity, encode_column, identity_frame, identity_of, wire_byte};
use crate::grid::COLUMNS;

verus! {

/// Where the session stands.
#[derive(Clone, Copy, Debug, PartialEq, Eq, Structural)]
pub enum Session {
    /// Opening the connection.
    Connecting,
    /// Reading the identity byte.
    Handshaking,
    /// Discarding column choices queued before this turn.
    Draining,
    /// Waiting for the local participant's column choice.
    AwaitingChoice,
    /// Sending the chosen column.
    Writing,
    /// Reading the placement that answers the local move.
    ReadingReply,
    /// Reading the opponent's placement.
    ReadingUpdate,
    /// Stopped after a failure; nothing happens any more.
    Terminated,
}

/// What the caller observed while performing the last action.
#[derive(Clone, Copy, Debug)]
pub enum Event {
    Connected,
    ConnectFailed,
    /// The identity byte was read.
    IdentityRead(u8),
    /// A three-byte frame was read.
    FrameRead([u8; 3]),
    /// The outbound queue is empty.
    Drained,
    /// A column choice was taken from the outbound queue.
    ChoiceTaken(u8),
    /// The move's byte was sent.
    Written,
    /// A read or a write failed.
    IoFailed,
}

/// What the caller does next.
#[derive(Clone, Copy, Debug, PartialEq, Eq, Structural)]
pub enum Action {
    /// Open the connection.
    Connect,
    /// Block until one byte is read.
    ReadIdentity,
    /// Block until three bytes are read.
    ReadFrame,
    /// Take everything off the outbound queue without blocking, and drop it.
    DrainOutbound,
    /// Block until a column choice arrives on the outbound queue.
    AwaitChoice,
    /// Send this byte.
    Write(u8),
    /// Close the connection; the session is over.
    Stop,
}

/// The outcome of one step: a frame to hand to the presentation loop, if any, and
/// the next action.
#[derive(Clone, Copy, Debug)]
pub struct Command {
    pub publish: Option<[u8; 3]>,
    pub action: Action,
}

/// The bytes of a frame to publish, if any.
pub open spec fn published(p: Option<[u8; 3]>) -> Option<Seq<u8>> {
    match p {
        Some(f) => Some(f@),
        None => None,
    }
}

/// The next state, the frame to publish and the next action, after `e` in `s`.
///
/// A failure, an event that the state does not wait for, and an identity byte other
/// than `'1'` or `'2'` end the session. A column choice past the last column is
/// dropped and the session waits for another.
pub open spec fn next(s: Session, e: Event) -> (Session, Option<Seq<u8>>, Action) {
    match (s, e) {
        (Session::Terminated, _) => (Session::Terminated, None, Action::Stop),
        (_, Event::IoFailed) => (Session::Terminated, None, Action::Stop),
        (Session::Connecting, Event::Connected) => (Session::Handshaking, None, Action::ReadIdentity),
        (Session::Handshaking, Event::IdentityRead(b)) => match identity_of(b as int) {
            Some(p) => if p == 1 {
                (Session::Draining, Some(seq![1u8, 1u8, 1u8]), Action::DrainOutbound)
            } else {
                (Session::ReadingUpdate, Some(seq![2u8, 2u8, 2u8]), Action::ReadFrame)
            },
            None => (Session::Terminated, None, Action::Stop),
        },
        (Session::Draining, Event::Drained) => (Session::AwaitingChoice, None, Action::AwaitChoice),
        (Session::AwaitingChoice, Event::ChoiceTaken(c)) => if c < COLUMNS {
            (Session::Writing, None, Action::Write(wire_byte(c as int) as u8))
        } else {
            (Session::AwaitingChoice, None, Action::AwaitChoice)
        },
        (Session::Writing, Event::Written) => (Session::ReadingReply, None, Action::ReadFrame),
        (Session::ReadingReply, Event::FrameRead(f)) => (Session::ReadingUpdate, Some(f@), Action::ReadFrame),
        (Session::ReadingUpdate, Event::FrameRead(f)) => (Session::Draining, Some(f@), Action::DrainOutbound),
        _ => (Session::Terminated, None, Action::Stop),
    }
}

/// Every move sent is answered by a placement before another column choice is
/// taken: after a write the session either reads and publishes a frame, then reads
/// and publishes the opponent's, or it stops.
pub proof fn lemma_reply_follows_move(e1: Event, e2: Event, e3: Event)
    ensures
        ({
            let (s1, p1, a1) = next(Session::Writing, e1);
            let (s2, p2, a2) = next(s1, e2);
            let (s3, p3, a3) = next(s2, e3);
            &&& s1 == Session::ReadingReply || s1 == Session::Terminated
            &&& s1 == Session::ReadingReply ==> a1 == Action::ReadFrame && p1 is None
            &&& s2 != Session::Terminated ==> s2 == Session::ReadingUpdate && p2 is Some
                && a2 == Action::ReadFrame
            &&& s3 != Session::Terminated ==> s3 == Session::Draining && p3 is Some
                && a3 == Action::DrainOutbound
        }),
{
}

/// Once stopped, a session stays stopped whatever is reported.
pub proof fn lemma_terminated_is_final(e: Event)
    ensures
        next(Session::Terminated, e) == (Session::Terminated, None::<Seq<u8>>, Action::Stop),
{
}

impl Session {
    /// A session that has not connected yet; its first action is `Action::Connect`.
    pub fn new() -> (r: Session)
        ensures
            r == Session::Connecting,
    {
        Session::Connecting
    }

    /// Decides what follows `event` in this state.
    pub fn step(self, event: Event) -> (r: (Session, Command))
        ensures
            (r.0, published(r.1.publish), r.1.action) == next(self, event),
    {
        let stop = (Session::Terminated, Command { publish: None, action: Action::Stop });
        match (self, event) {
            (Session::Terminated, _) => stop,
            (_, Event::IoFailed) => stop,
            (Session::Connecting, Event::Connected) => (
                Session::Handshaking,
                Command { publish: None, action: Action::ReadIdentity },
            ),
            (Session::Handshaking, Event::IdentityRead(b)) => match decode_identity(b) {
                Some(p) => {
                    let frame = identity_frame(p);
                    if p == 1 {
                        (Session::Draining, Command { publish: Some(frame), action: Action::DrainOutbound })
                    } else {
                        (Session::ReadingUpdate, Command { publish: Some(frame), action: Action::ReadFrame })
                    }
                },
                None => stop,
            },
            (Session::Draining, Event::Drained) => (
                Session::AwaitingChoice,
                Command { publish: None, action: Action::AwaitChoice },
            ),
            (Session::AwaitingChoice, Event::ChoiceTaken(c)) => if c < COLUMNS {
                (Session::Writing, Command { publish: None, action: Action::Write(encode_column(c)) })
            } else {
                (Session::AwaitingChoice, Command { publish: None, action: Action::AwaitChoice })
            },
            (Session::Writing, Event::Written) => (
                Session::ReadingReply,
                Command { publish: None, action: Action::ReadFrame },
            ),
            (Session::ReadingReply, Event::FrameRead(f)) => (
                Session::ReadingUpdate,
                Command { publish: Some(f), action: Action::ReadFrame },
            ),
            (Session::ReadingUpdate, Event::FrameRead(f)) => (
                Session::Draining,
                Command { publish: Some(f), action: Action::DrainOutbound },
            ),
            _ => stop,
        }
    }
}

} // verus!
