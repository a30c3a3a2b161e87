//! The life of one persistent connection: what the server does on each
//! thing that happens to it, and when and why the connection ends.

use crate::random::{first_bytes, random_block, BLOCK_LENGTH};
use crate::relation::UserId;
use vstd::prelude::*;

verus! {

/// Seconds between two firings of the keepalive timer.
pub const KEEPALIVE_SECONDS: u64 = 10;

/// Length in bytes of the nonce that a ping carries.
pub const NONCE_LENGTH: usize = BLOCK_LENGTH;

/// Why a connection was ended.
#[derive(Clone, Copy, Debug, PartialEq, Eq, Structural)]
pub enum DisconnectReason {
    /// The peer closed the connection, it ended, or reading from it failed.
    Closed,
    /// Writing to the socket failed.
    Error,
    /// The peer sent a frame that it must not send.
    InvalidData,
    /// The peer did not answer a ping before the next one was due.
    TimedOut,
}

impl DisconnectReason {
    /// The status code of the close frame.
    pub open spec fn spec_code(self) -> u16 {
        match self {
            DisconnectReason::Closed => 1000,
            DisconnectReason::Error => 1011,
            DisconnectReason::InvalidData => 1007,
            DisconnectReason::TimedOut => 1014,
        }
    }

    #[verifier::when_used_as_spec(spec_code)]
    pub fn code(self) -> (r: u16)
        ensures
            r == self.spec_code(),
    {
        match self {
            DisconnectReason::Closed => 1000,
            DisconnectReason::Error => 1011,
            DisconnectReason::InvalidData => 1007,
            DisconnectReason::TimedOut => 1014,
        }
    }

    /// The words of the close frame.
    pub open spec fn spec_reason(self) -> Seq<char> {
        match self {
            DisconnectReason::Closed => "Closed"@,
            DisconnectReason::Error => "Error"@,
            DisconnectReason::InvalidData => "Invalid Data"@,
            DisconnectReason::TimedOut => "Timed Out"@,
        }
    }

    pub fn reason(self) -> (r: &'static str)
        ensures
            r@ == self.spec_reason(),
    {
        match self {
            DisconnectReason::Closed => "Closed",
            DisconnectReason::Error => "Error",
            DisconnectReason::InvalidData => "Invalid Data",
            DisconnectReason::TimedOut => "Timed Out",
        }
    }
}

/// Where a connection stands in its life.
#[derive(Clone, Copy, Debug, PartialEq, Eq, Structural)]
pub enum GatewayState {
    /// The handshake is not finished.
    Connecting,
    /// The connection is registered and serves its user.
    Active,
    /// The connection is to be ended and still holds what it registered.
    Closing,
    /// The connection is over and holds nothing.
    Closed,
}

/// A frame that arrived from the peer.
#[derive(Clone, Debug, PartialEq, Eq)]
pub enum Frame {
    Text,
    Binary,
    Ping,
    Pong(Vec<u8>),
    Close,
}

/// Something that happened to a connection.
#[derive(Clone, Debug, PartialEq, Eq)]
pub enum Event {
    /// A frame arrived.
    Inbound(Frame),
    /// The stream of frames ended.
    InboundEnded,
    /// Reading a frame failed.
    InboundFailed,
    /// A message for the user came out of the outbound channel.
    Outbound(String),
    /// Writing to the socket failed.
    WriteFailed,
    /// The keepalive timer fired; the nonce is for the ping that may be due.
    KeepaliveDue(Vec<u8>),
}

/// What the server does in answer to an event.
#[derive(Clone, Debug, PartialEq, Eq)]
pub enum Action {
    /// Nothing is written. `rearm` says whether the keepalive timer starts
    /// over.
    Continue { rearm: bool },
    /// The text is written as one frame.
    SendText(String),
    /// A ping with this nonce is written and the keepalive timer starts over.
    SendPing(Vec<u8>),
    /// A close frame with this reason is written and the connection ends.
    Close(DisconnectReason),
}

/// The nonce of the ping that waits for its pong, and the answer to an
/// event, for a connection that is active and waits for the pong of
/// `pending`.
pub open spec fn spec_react(pending: Option<Seq<u8>>, event: Event) -> (Option<Seq<u8>>, Action) {
    match event {
        Event::Inbound(Frame::Text) | Event::Inbound(Frame::Binary) => (
            pending,
            Action::Close(DisconnectReason::InvalidData),
        ),
        Event::Inbound(Frame::Ping) => (None, Action::Continue { rearm: true }),
        Event::Inbound(Frame::Pong(nonce)) => if pending == Some(nonce@) {
            (None, Action::Continue { rearm: true })
        } else {
            (pending, Action::Close(DisconnectReason::InvalidData))
        },
        Event::Inbound(Frame::Close) | Event::InboundEnded | Event::InboundFailed => (
            pending,
            Action::Close(DisconnectReason::Closed),
        ),
        Event::WriteFailed => (pending, Action::Close(DisconnectReason::Error)),
        Event::Outbound(payload) => (pending, Action::SendText(payload)),
        Event::KeepaliveDue(nonce) => if pending is None {
            (Some(nonce@), Action::SendPing(nonce))
        } else {
            (pending, Action::Close(DisconnectReason::TimedOut))
        },
    }
}

/// The answer of `gateway` to `event`.
pub open spec fn spec_answer(gateway: Gateway, event: Event) -> Action {
    if gateway.spec_state() == GatewayState::Active {
        spec_react(gateway.spec_pending(), event).1
    } else {
        Action::Continue { rearm: false }
    }
}

/// Whether `after` is what `before` becomes by answering `event`.
pub open spec fn spec_follows(before: Gateway, event: Event, after: Gateway) -> bool {
    &&& after.spec_user() == before.spec_user()
    &&& after.spec_channel() == before.spec_channel()
    &&& after.spec_agent() == before.spec_agent()
    &&& after.spec_pending() == if before.spec_state() == GatewayState::Active {
        spec_react(before.spec_pending(), event).0
    } else {
        before.spec_pending()
    }
    &&& after.spec_state() == if before.spec_state() == GatewayState::Active && spec_answer(
        before,
        event,
    ) is Close {
        GatewayState::Closing
    } else {
        before.spec_state()
    }
}

/// A peer that lets a ping go unanswered until the keepalive timer fires
/// again is cut off for having timed out, whatever else was written to it in
/// between.
pub proof fn law_unanswered_ping_times_out(first: Vec<u8>, payload: String, second: Vec<u8>)
    ensures
        spec_react(None, Event::KeepaliveDue(first)) == (Some(first@), Action::SendPing(first)),
        spec_react(Some(first@), Event::Outbound(payload)).0 == Some(first@),
        spec_react(Some(first@), Event::KeepaliveDue(second)).1 == Action::Close(
            DisconnectReason::TimedOut,
        ),
{
}

/// A pong is accepted only in answer to the ping that waits for it, and
/// only with that ping's nonce.
pub proof fn law_pong_must_match(pending: Option<Seq<u8>>, nonce: Vec<u8>)
    ensures
        spec_react(pending, Event::Inbound(Frame::Pong(nonce))).1 == if pending == Some(nonce@) {
            Action::Continue { rearm: true }
        } else {
            Action::Close(DisconnectReason::InvalidData)
        },
{
}

/// One connection of one user.
#[derive(Debug)]
pub struct Gateway {
    user: UserId,
    channel: u64,
    agent: String,
    state: GatewayState,
    pending: Option<Vec<u8>>,
}

impl Gateway {
    pub closed spec fn spec_user(&self) -> UserId {
        self.user
    }

    pub closed spec fn spec_channel(&self) -> u64 {
        self.channel
    }

    pub closed spec fn spec_agent(&self) -> Seq<char> {
        self.agent@
    }

    pub closed spec fn spec_state(&self) -> GatewayState {
        self.state
    }

    /// The nonce of the ping that waits for its pong.
    pub closed spec fn spec_pending(&self) -> Option<Seq<u8>> {
        match self.pending {
            Some(nonce) => Some(nonce@),
            None => None,
        }
    }

    /// Whether the connection has become active and is not over yet.
    pub open spec fn is_live(&self) -> bool {
        self.spec_state() == GatewayState::Active || self.spec_state() == GatewayState::Closing
    }

    /// A connection of `user` that is still shaking hands. `channel` is the
    /// identifier of the outbound channel that it will register.
    pub fn new(user: UserId, channel: u64, agent: String) -> (r: Gateway)
        ensures
            r.spec_user() == user,
            r.spec_channel() == channel,
            r.spec_agent() == agent@,
            r.spec_state() == GatewayState::Connecting,
            r.spec_pending() is None,
    {
        Gateway { user, channel, agent, state: GatewayState::Connecting, pending: None }
    }

    #[verifier::when_used_as_spec(spec_user)]
    pub fn user(&self) -> (r: UserId)
        ensures
            r == self.spec_user(),
    {
        self.user
    }

    #[verifier::when_used_as_spec(spec_channel)]
    pub fn channel(&self) -> (r: u64)
        ensures
            r == self.spec_channel(),
    {
        self.channel
    }

    pub fn agent(&self) -> (r: &str)
        ensures
            r@ == self.spec_agent(),
    {
        self.agent.as_str()
    }

    #[verifier::when_used_as_spec(spec_state)]
    pub fn state(&self) -> (r: GatewayState)
        ensures
            r == self.spec_state(),
    {
        self.state
    }

    /// Whether a ping waits for its pong.
    pub fn awaits_pong(&self) -> (r: bool)
        ensures
            r == self.spec_pending() is Some,
    {
        self.pending.is_some()
    }

    /// Ends the handshake: the connection is active from now on. Says
    /// whether the connection was still shaking hands; if not, nothing
    /// changes.
    pub fn activate(&mut self) -> (r: bool)
        ensures
            r == (old(self).spec_state() == GatewayState::Connecting),
            final(self).spec_state() == if r {
                GatewayState::Active
            } else {
                old(self).spec_state()
            },
            final(self).spec_user() == old(self).spec_user(),
            final(self).spec_channel() == old(self).spec_channel(),
            final(self).spec_agent() == old(self).spec_agent(),
            final(self).spec_pending() == old(self).spec_pending(),
    {
        match self.state {
            GatewayState::Connecting => {
                self.state = GatewayState::Active;
                true
            },
            _ => false,
        }
    }

    /// Answers one event. An active connection answers by `spec_react` and
    /// turns to closing where the answer is to close. A connection in any
    /// other state writes nothing and stays as it is.
    pub fn on_event(&mut self, event: Event) -> (action: Action)
        ensures
            action == spec_answer(*old(self), event),
            spec_follows(*old(self), event, *final(self)),
    {
        match self.state {
            GatewayState::Active => {},
            _ => {
                return Action::Continue { rearm: false };
            },
        }
        let verdict: Result<Action, DisconnectReason> = match event {
            Event::Inbound(frame) => match frame {
                Frame::Text => Err(DisconnectReason::InvalidData),
                Frame::Binary => Err(DisconnectReason::InvalidData),
                Frame::Ping => {
                    self.pending = None;
                    Ok(Action::Continue { rearm: true })
                },
                Frame::Pong(nonce) => {
                    let matches = match &self.pending {
                        Some(expected) => same_bytes(expected, &nonce),
                        None => false,
                    };
                    if matches {
                        self.pending = None;
                        Ok(Action::Continue { rearm: true })
                    } else {
                        Err(DisconnectReason::InvalidData)
                    }
                },
                Frame::Close => Err(DisconnectReason::Closed),
            },
            Event::InboundEnded => Err(DisconnectReason::Closed),
            Event::InboundFailed => Err(DisconnectReason::Closed),
            Event::Outbound(payload) => Ok(Action::SendText(payload)),
            Event::WriteFailed => Err(DisconnectReason::Error),
            Event::KeepaliveDue(nonce) => {
                if self.pending.is_some() {
                    Err(DisconnectReason::TimedOut)
                } else {
                    self.pending = Some(copy_bytes(&nonce));
                    Ok(Action::SendPing(nonce))
                }
            },
        };
        match verdict {
            Ok(action) => action,
            Err(reason) => {
                self.state = GatewayState::Closing;
                Action::Close(reason)
            },
        }
    }

    /// Marks the end of the connection, after what it registered was given
    /// up. Says whether the connection was closing; if not, nothing changes.
    pub fn conclude(&mut self) -> (r: bool)
        ensures
            r == (old(self).spec_state() == GatewayState::Closing),
            final(self).spec_state() == if r {
                GatewayState::Closed
            } else {
                old(self).spec_state()
            },
            final(self).spec_user() == old(self).spec_user(),
            final(self).spec_channel() == old(self).spec_channel(),
            final(self).spec_agent() == old(self).spec_agent(),
            final(self).spec_pending() == old(self).spec_pending(),
    {
        match self.state {
            GatewayState::Closing => {
                self.state = GatewayState::Closed;
                true
            },
            _ => false,
        }
    }
}

/// Whether two byte strings hold the same bytes.
pub fn same_bytes(left: &Vec<u8>, right: &Vec<u8>) -> (r: bool)
    ensures
        r == (left@ == right@),
{
    if left.len() != right.len() {
        return false;
    }
    let mut i: usize = 0;
    while i < left.len()
        invariant
            i <= left.len(),
            left.len() == right.len(),
            forall|j: int| 0 <= j < i ==> left@[j] == right@[j],
        decreases left.len() - i,
    {
        if left[i] != right[i] {
            return false;
        }
        i = i + 1;
    }
    assert(left@ =~= right@);
    true
}

/// A copy of a byte string.
pub fn copy_bytes(bytes: &Vec<u8>) -> (r: Vec<u8>)
    ensures
        r@ == bytes@,
{
    let copy = first_bytes(bytes, bytes.len());
    assert(bytes@.subrange(0, bytes@.len() as int) =~= bytes@);
    copy
}

/// The event of the keepalive timer firing, with a fresh random nonce.
pub fn keepalive_due() -> (event: Event)
    ensures
        event matches Event::KeepaliveDue(nonce) && nonce@.len() == NONCE_LENGTH,
{
    Event::KeepaliveDue(random_block())
}

} // verus!
