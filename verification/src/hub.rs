//! The connections of one process and the registry that they share: every
//! connection registers when it becomes active and gives up what it
//! registered when it ends, and the latest connection of a user wins.

use crate::agents::{one_less, one_more, AgentCounters};
use crate::gateway::{Action, Event, Gateway, GatewayState};
use crate::registry::{Activity, ConnectionRegistry, OutboundChannel, Presence};
use crate::relation::UserId;
use tokio::sync::mpsc::UnboundedReceiver;
use vstd::prelude::*;

verus! {

/// The registry, the counters of client identifications, and the
/// connections that have become active and are not over.
pub struct Hub {
    registry: ConnectionRegistry,
    agents: AgentCounters,
    sessions: Vec<Gateway>,
    displaced: Vec<bool>,
    next_channel: u64,
}

/// The entry of a user whose connection has just registered `channel`.
pub open spec fn just_registered(channel: u64) -> Presence {
    Presence { channel, sent: Seq::empty(), activity: None }
}

impl Hub {
    /// Who is online, with what the registry holds of them.
    pub closed spec fn presence(&self) -> Map<UserId, Presence> {
        self.registry@
    }

    /// The count of connections for each client identification.
    pub closed spec fn agent_counts(&self) -> Map<Seq<char>, u32> {
        self.agents@
    }

    /// The connections that have become active and are not over, oldest
    /// first.
    pub closed spec fn sessions(&self) -> Seq<Gateway> {
        self.sessions@
    }

    /// For each connection, whether a later connection of the same user has
    /// taken its place in the registry.
    pub closed spec fn displaced(&self) -> Seq<bool> {
        self.displaced@
    }

    /// The identifier that the next connection's channel will get.
    pub closed spec fn next_channel(&self) -> u64 {
        self.next_channel
    }

    /// Whether the connection at `i` belongs to `user`, registered
    /// `channel` and has not been displaced.
    pub open spec fn serves(&self, i: int, user: UserId, channel: u64) -> bool {
        &&& 0 <= i < self.sessions().len()
        &&& self.sessions()[i].spec_user() == user
        &&& self.sessions()[i].spec_channel() == channel
        &&& !self.displaced()[i]
    }

    /// What holds of a hub at all times: every connection is live and has a
    /// channel of its own, every entry of the registry was registered by a
    /// connection that has not been displaced, and every such connection
    /// has its entry.
    pub closed spec fn wf(&self) -> bool {
        &&& self.displaced().len() == self.sessions().len()
        &&& self.presence().dom().finite()
        &&& forall|i: int|
            0 <= i < self.sessions().len() ==> (#[trigger] self.sessions()[i]).is_live()
                && self.sessions()[i].spec_channel() < self.next_channel()
        &&& forall|i: int, j: int|
            0 <= i < j < self.sessions().len() ==> (#[trigger] self.sessions()[i]).spec_channel()
                != (#[trigger] self.sessions()[j]).spec_channel()
        &&& forall|user: UserId| #[trigger]
            self.presence().contains_key(user) ==> exists|i: int| #[trigger]
                self.serves(i, user, self.presence()[user].channel)
        &&& forall|i: int|
            0 <= i < self.sessions().len() && !(#[trigger] self.displaced()[i])
                ==> self.presence().contains_key(self.sessions()[i].spec_user())
                && self.presence()[self.sessions()[i].spec_user()].channel
                == self.sessions()[i].spec_channel()
    }

    pub fn new() -> (r: Hub)
        ensures
            r.wf(),
            r.presence() == Map::<UserId, Presence>::empty(),
            r.sessions().len() == 0,
            r.displaced().len() == 0,
            r.agent_counts() == crate::agents::no_counts(),
            r.next_channel() == 0,
    {
        Hub {
            registry: ConnectionRegistry::new(),
            agents: AgentCounters::new(),
            sessions: Vec::new(),
            displaced: Vec::new(),
            next_channel: 0,
        }
    }

    /// The registry, to look users up in.
    pub fn registry(&self) -> (r: &ConnectionRegistry)
        ensures
            r@ == self.presence(),
    {
        &self.registry
    }

    /// The counters of client identifications.
    pub fn agents(&self) -> (r: &AgentCounters)
        ensures
            r@ == self.agent_counts(),
    {
        &self.agents
    }

    /// Whether `user` is online. By what holds of a hub at all times that is
    /// the case exactly while a connection of theirs is live and has not
    /// been displaced.
    pub fn is_online(&self, user: UserId) -> (r: bool)
        requires
            self.wf(),
        ensures
            r == self.presence().contains_key(user),
            r == exists|i: int|
                0 <= i < self.sessions().len() && (#[trigger] self.sessions()[i]).spec_user()
                    == user && self.sessions()[i].is_live() && !self.displaced()[i],
    {
        proof {
            law_online_while_connected(*self, user);
        }
        self.registry.is_online(user)
    }

    /// Where the connection that registered `channel` stands among the
    /// connections.
    fn position(&self, channel: u64) -> (r: Option<usize>)
        ensures
            match r {
                Some(i) => i < self.sessions().len() && self.sessions()[i as int].spec_channel()
                    == channel,
                None => forall|i: int|
                    0 <= i < self.sessions().len() ==> (#[trigger] self.sessions()[i]).spec_channel()
                        != channel,
            },
    {
        let mut i: usize = 0;
        while i < self.sessions.len()
            invariant
                i <= self.sessions.len(),
                forall|j: int| 0 <= j < i ==> (#[trigger] self.sessions@[j]).spec_channel() != channel,
            decreases self.sessions.len() - i,
        {
            if self.sessions[i].channel() == channel {
                return Some(i);
            }
            i = i + 1;
        }
        None
    }

    /// Takes a connection of `user` in: it gets a fresh channel, which is
    /// registered in place of the one that an earlier connection of the user
    /// may have registered, its client identification is counted, and it is
    /// active. Gives the identifier of the channel, by which the connection
    /// is named from then on, and the receiving end of the channel, or
    /// nothing where the identifiers have run out.
    pub fn connect(&mut self, user: UserId, agent: String) -> (r: Option<
        (u64, UnboundedReceiver<String>),
    >)
        requires
            old(self).wf(),
        ensures
            final(self).wf(),
            match r {
                Some(opened) => {
                    let channel = opened.0;
                    &&& channel == old(self).next_channel()
                    &&& old(self).presence().contains_key(user) ==> old(self).presence()[user].channel
                        != channel
                    &&& final(self).next_channel() == channel + 1
                    &&& final(self).presence() == old(self).presence().insert(
                        user,
                        just_registered(channel),
                    )
                    &&& final(self).agent_counts() == old(self).agent_counts().insert(
                        agent@,
                        one_more(
                            if old(self).agent_counts().contains_key(agent@) {
                                old(self).agent_counts()[agent@]
                            } else {
                                0
                            },
                        ),
                    )
                    &&& final(self).sessions().len() == old(self).sessions().len() + 1
                    &&& final(self).displaced().len() == final(self).sessions().len()
                    &&& final(self).holds(final(self).sessions().len() - 1, channel)
                    &&& final(self).sessions().last().spec_user() == user
                    &&& final(self).sessions().last().spec_channel() == channel
                    &&& final(self).sessions().last().spec_agent() == agent@
                    &&& final(self).sessions().last().spec_state() == GatewayState::Active
                    &&& final(self).sessions().last().spec_pending() is None
                    &&& !final(self).displaced().last()
                    &&& forall|i: int|
                        0 <= i < old(self).sessions().len() ==> (#[trigger] final(self).sessions()[i]) == old(self).sessions()[i] && final(self).displaced()[i]
                            == (old(self).displaced()[i] || old(self).sessions()[i].spec_user()
                            == user)
                },
                None => {
                    &&& old(self).next_channel() == u64::MAX
                    &&& final(self).presence() == old(self).presence()
                    &&& final(self).agent_counts() == old(self).agent_counts()
                    &&& final(self).sessions() == old(self).sessions()
                    &&& final(self).displaced() == old(self).displaced()
                    &&& final(self).next_channel() == old(self).next_channel()
                },
            },
    {
        if self.next_channel == u64::MAX {
            return None;
        }
        let channel = self.next_channel;
        proof {
            if self.presence().contains_key(user) {
                law_entries_were_given(*self, user);
            }
        }
        self.next_channel = channel + 1;
        let mut i: usize = 0;
        while i < self.displaced.len()
            invariant
                i <= self.displaced.len(),
                self.displaced.len() == self.sessions.len(),
                self.sessions == old(self).sessions,
                self.registry == old(self).registry,
                self.agents == old(self).agents,
                self.next_channel == channel + 1,
                channel == old(self).next_channel,
                old(self).wf(),
                self.displaced@.len() == old(self).displaced@.len(),
                forall|j: int|
                    0 <= j < i ==> (#[trigger] self.displaced@[j]) == (old(self).displaced@[j]
                        || old(self).sessions@[j].spec_user() == user),
                forall|j: int|
                    i <= j < self.displaced.len() ==> (#[trigger] self.displaced@[j]) == old(self).displaced@[j],
            decreases self.displaced.len() - i,
        {
            if self.sessions[i].user() == user {
                self.displaced.set(i, true);
            }
            i = i + 1;
        }
        let ghost marked = self.displaced@;
        let (outbound, receiver) = OutboundChannel::new(channel);
        self.registry.register(user, outbound);
        self.agents.increment(agent.as_str());
        let mut gateway = Gateway::new(user, channel, agent);
        gateway.activate();
        self.sessions.push(gateway);
        self.displaced.push(false);
        proof {
            let last = old(self).sessions().len() as int;
            assert(self.presence() == old(self).presence().insert(user, just_registered(channel)));
            assert forall|other: UserId| #[trigger]
                self.presence().contains_key(other) implies exists|i: int| #[trigger]
                self.serves(i, other, self.presence()[other].channel) by {
                if other == user {
                    assert(self.presence()[user].channel == channel);
                    assert(self.serves(last, user, channel));
                    assert(self.serves(last, other, self.presence()[other].channel));
                } else {
                    assert(old(self).presence().contains_key(other));
                    let i = choose|i: int| #[trigger]
                        old(self).serves(i, other, old(self).presence()[other].channel);
                    assert(self.sessions()[i] == old(self).sessions()[i]);
                    assert(self.displaced()[i] == marked[i]);
                    assert(self.presence()[other] == old(self).presence()[other]);
                    assert(self.serves(i, other, self.presence()[other].channel));
                }
            }
            assert forall|i: int|
                0 <= i < self.sessions().len() && !(#[trigger] self.displaced()[i])
                    implies self.presence().contains_key(self.sessions()[i].spec_user())
                && self.presence()[self.sessions()[i].spec_user()].channel
                == self.sessions()[i].spec_channel() by {
                if i < last {
                    assert(self.sessions()[i] == old(self).sessions()[i]);
                    assert(!old(self).displaced()[i]);
                }
            }
            assert forall|i: int, j: int| 0 <= i < j < self.sessions().len() implies (
            #[trigger] self.sessions()[i]).spec_channel() != (
            #[trigger] self.sessions()[j]).spec_channel() by {
                assert(self.sessions()[i] == old(self).sessions()[i]);
                if j < last {
                    assert(self.sessions()[j] == old(self).sessions()[j]);
                }
            }
            assert forall|i: int| 0 <= i < self.sessions().len() implies (
            #[trigger] self.sessions()[i]).is_live() && self.sessions()[i].spec_channel()
                < self.next_channel() by {
                if i < last {
                    assert(self.sessions()[i] == old(self).sessions()[i]);
                }
            }
        }
        Some((channel, receiver))
    }

    /// Hands an event to the connection that registered `channel` and gives
    /// the connection's answer, or nothing where no such connection is
    /// held. Only that connection changes.
    pub fn dispatch(&mut self, channel: u64, event: Event) -> (r: Option<Action>)
        requires
            old(self).wf(),
        ensures
            final(self).wf(),
            final(self).presence() == old(self).presence(),
            final(self).agent_counts() == old(self).agent_counts(),
            final(self).displaced() == old(self).displaced(),
            final(self).next_channel() == old(self).next_channel(),
            final(self).sessions().len() == old(self).sessions().len(),
            forall|i: int|
                0 <= i < old(self).sessions().len() && old(self).sessions()[i].spec_channel()
                    != channel ==> (#[trigger] final(self).sessions()[i]) == old(self).sessions()[i],
            forall|at: int| #[trigger]
                old(self).holds(at, channel) ==> r == Some(
                    crate::gateway::spec_answer(old(self).sessions()[at], event),
                ) && crate::gateway::spec_follows(
                    old(self).sessions()[at],
                    event,
                    final(self).sessions()[at],
                ) && final(self).holds(at, channel),
            r is None <==> forall|i: int| !#[trigger] old(self).holds(i, channel),
    {
        let at = match self.position(channel) {
            Some(at) => at,
            None => {
                return None;
            },
        };
        let mut gateway = self.sessions.remove(at);
        let ghost before = gateway;
        let action = gateway.on_event(event);
        self.sessions.insert(at, gateway);
        proof {
            assert(self.sessions@ =~= old(self).sessions@.update(at as int, gateway));
            assert forall|other: UserId| #[trigger]
                self.presence().contains_key(other) implies exists|i: int| #[trigger]
                self.serves(i, other, self.presence()[other].channel) by {
                let i = choose|i: int| #[trigger]
                    old(self).serves(i, other, old(self).presence()[other].channel);
                assert(self.serves(i, other, self.presence()[other].channel));
            }
            assert forall|i: int, j: int| 0 <= i < j < self.sessions().len() implies (
            #[trigger] self.sessions()[i]).spec_channel() != (
            #[trigger] self.sessions()[j]).spec_channel() by {
                assert(old(self).sessions()[i].spec_channel() != old(self).sessions()[j].spec_channel());
            }
            law_one_connection_holds(*old(self), at as int, channel);
            assert(old(self).holds(at as int, channel));
        }
        Some(action)
    }

    /// Whether the connection at `i` registered `channel`.
    pub open spec fn holds(&self, i: int, channel: u64) -> bool {
        0 <= i < self.sessions().len() && self.sessions()[i].spec_channel() == channel
    }

    /// Whether `after` is this hub once its connection at `at` was ended
    /// and handed out as `gateway`: the connection was closing and is
    /// closed now, its entry has left the registry unless a later
    /// connection had displaced it, and its client identification is
    /// counted down.
    pub open spec fn ended_at(&self, after: Hub, at: int, gateway: Gateway) -> bool {
        &&& 0 <= at < self.sessions().len()
        &&& self.sessions()[at].spec_state() == GatewayState::Closing
        &&& gateway.spec_state() == GatewayState::Closed
        &&& gateway.spec_user() == self.sessions()[at].spec_user()
        &&& gateway.spec_channel() == self.sessions()[at].spec_channel()
        &&& gateway.spec_agent() == self.sessions()[at].spec_agent()
        &&& after.sessions() == self.sessions().remove(at)
        &&& after.displaced() == self.displaced().remove(at)
        &&& after.presence() == if self.displaced()[at] {
            self.presence()
        } else {
            self.presence().remove(gateway.spec_user())
        }
        &&& after.agent_counts() == one_less(self.agent_counts(), gateway.spec_agent())
    }

    /// Ends the connection that registered `channel`, if it is closing: its
    /// entry leaves the registry unless a later connection has displaced it,
    /// its client identification is counted down, and the connection is
    /// handed out, closed. Where no connection of that channel is closing,
    /// nothing happens.
    pub fn finish(&mut self, channel: u64) -> (r: Option<Gateway>)
        requires
            old(self).wf(),
        ensures
            final(self).wf(),
            final(self).next_channel() == old(self).next_channel(),
            forall|at: int|
                r is Some && #[trigger] old(self).holds(at, channel) ==> old(self).ended_at(
                    *final(self),
                    at,
                    r->0,
                ),
            match r {
                Some(gateway) => exists|at: int|
                    #[trigger] old(self).holds(at, channel) && old(self).ended_at(
                        *final(self),
                        at,
                        gateway,
                    ),
                None => {
                    &&& final(self).sessions() == old(self).sessions()
                    &&& final(self).displaced() == old(self).displaced()
                    &&& final(self).presence() == old(self).presence()
                    &&& final(self).agent_counts() == old(self).agent_counts()
                    &&& forall|i: int| #[trigger]
                        old(self).holds(i, channel) ==> old(self).sessions()[i].spec_state()
                            != GatewayState::Closing
                },
            },
    {
        let at = match self.position(channel) {
            Some(at) => at,
            None => {
                return None;
            },
        };
        proof {
            law_one_connection_holds(*old(self), at as int, channel);
        }
        match self.sessions[at].state() {
            GatewayState::Closing => {},
            _ => {
                return None;
            },
        }
        let mut gateway = self.sessions.remove(at);
        let was_displaced = self.displaced.remove(at);
        let removed = self.registry.deregister(gateway.user(), channel);
        self.agents.decrement(gateway.agent());
        gateway.conclude();
        proof {
            let user = gateway.spec_user();
            assert(old(self).holds(at as int, channel));
            assert(old(self).sessions()[at as int].is_live());
            if !was_displaced {
                assert(old(self).presence().contains_key(user));
                assert(removed);
            } else if old(self).presence().contains_key(user) {
                let owner = choose|i: int| #[trigger]
                    old(self).serves(i, user, old(self).presence()[user].channel);
                assert(owner != at);
                if owner < at {
                    assert(old(self).sessions()[owner].spec_channel() != old(self).sessions()[at as int].spec_channel());
                } else {
                    assert(old(self).sessions()[at as int].spec_channel() != old(self).sessions()[owner].spec_channel());
                }
                assert(!removed);
            }
            assert forall|i: int| 0 <= i < self.sessions().len() implies (
            #[trigger] self.sessions()[i]).is_live() && self.sessions()[i].spec_channel()
                < self.next_channel() by {
                if i < at {
                    assert(self.sessions()[i] == old(self).sessions()[i]);
                } else {
                    assert(self.sessions()[i] == old(self).sessions()[i + 1]);
                }
            }
            assert forall|i: int, j: int| 0 <= i < j < self.sessions().len() implies (
            #[trigger] self.sessions()[i]).spec_channel() != (
            #[trigger] self.sessions()[j]).spec_channel() by {
                let oi = if i < at { i } else { i + 1 };
                let oj = if j < at { j } else { j + 1 };
                assert(self.sessions()[i] == old(self).sessions()[oi]);
                assert(self.sessions()[j] == old(self).sessions()[oj]);
                assert(old(self).sessions()[oi].spec_channel() != old(self).sessions()[oj].spec_channel());
            }
            assert forall|other: UserId| #[trigger]
                self.presence().contains_key(other) implies exists|i: int| #[trigger]
                self.serves(i, other, self.presence()[other].channel) by {
                assert(old(self).presence().contains_key(other));
                assert(self.presence()[other] == old(self).presence()[other]);
                let o = choose|i: int| #[trigger]
                    old(self).serves(i, other, old(self).presence()[other].channel);
                assert(o != at);
                let n = if o < at { o } else { o - 1 };
                assert(self.sessions()[n] == old(self).sessions()[o]);
                assert(self.displaced()[n] == old(self).displaced()[o]);
                assert(self.serves(n, other, self.presence()[other].channel));
            }
            assert forall|i: int|
                0 <= i < self.sessions().len() && !(#[trigger] self.displaced()[i])
                    implies self.presence().contains_key(self.sessions()[i].spec_user())
                && self.presence()[self.sessions()[i].spec_user()].channel
                == self.sessions()[i].spec_channel() by {
                let o = if i < at { i } else { i + 1 };
                assert(self.sessions()[i] == old(self).sessions()[o]);
                assert(self.displaced()[i] == old(self).displaced()[o]);
                assert(!old(self).displaced()[o]);
                if o < at {
                    assert(old(self).sessions()[o].spec_channel() != old(self).sessions()[at as int].spec_channel());
                } else {
                    assert(old(self).sessions()[at as int].spec_channel() != old(self).sessions()[o].spec_channel());
                }
            }
        }
        Some(gateway)
    }

    /// Hands `payload` to the channel of `user`, behind the messages that
    /// it took before, and says whether the channel took it. Nothing
    /// happens for a user who is offline, or whose channel takes no more.
    pub fn notify(&mut self, user: UserId, payload: String) -> (r: bool)
        requires
            old(self).wf(),
        ensures
            final(self).wf(),
            r ==> old(self).presence().contains_key(user),
            final(self).presence() == if r {
                old(self).presence().insert(
                    user,
                    (Presence {
                        sent: old(self).presence()[user].sent.push(payload),
                        ..old(self).presence()[user]
                    }),
                )
            } else {
                old(self).presence()
            },
            final(self).sessions() == old(self).sessions(),
            final(self).displaced() == old(self).displaced(),
            final(self).agent_counts() == old(self).agent_counts(),
            final(self).next_channel() == old(self).next_channel(),
    {
        let r = self.registry.push(user, payload);
        proof {
            lemma_same_channels_keep_wf(*old(self), *self);
        }
        r
    }

    /// Replaces what `user` has announced. Does nothing for a user who is
    /// offline.
    pub fn set_activity(&mut self, user: UserId, activity: Option<Activity>)
        requires
            old(self).wf(),
        ensures
            final(self).wf(),
            final(self).presence() == if old(self).presence().contains_key(user) {
                old(self).presence().insert(
                    user,
                    (Presence { activity, ..old(self).presence()[user] }),
                )
            } else {
                old(self).presence()
            },
            final(self).sessions() == old(self).sessions(),
            final(self).displaced() == old(self).displaced(),
            final(self).agent_counts() == old(self).agent_counts(),
            final(self).next_channel() == old(self).next_channel(),
    {
        self.registry.set_activity(user, activity);
        proof {
            lemma_same_channels_keep_wf(*old(self), *self);
        }
    }
}

/// A hub stays as it should be while nothing changes but the messages that
/// channels took and the activities that are announced.
proof fn lemma_same_channels_keep_wf(before: Hub, after: Hub)
    requires
        before.wf(),
        after.sessions() == before.sessions(),
        after.displaced() == before.displaced(),
        after.next_channel() == before.next_channel(),
        forall|user: UserId|
            before.presence().contains_key(user) == #[trigger] after.presence().contains_key(user),
        forall|user: UserId|
            before.presence().contains_key(user) ==> (#[trigger] after.presence()[user]).channel
                == before.presence()[user].channel,
    ensures
        after.wf(),
{
    assert(after.presence().dom() =~= before.presence().dom());
    assert forall|other: UserId| #[trigger]
        after.presence().contains_key(other) implies exists|i: int| #[trigger]
        after.serves(i, other, after.presence()[other].channel) by {
        assert(before.presence().contains_key(other));
        let o = choose|i: int| #[trigger]
            before.serves(i, other, before.presence()[other].channel);
        assert(after.serves(o, other, after.presence()[other].channel));
    }
    assert forall|i: int|
        0 <= i < after.sessions().len() && !(#[trigger] after.displaced()[i])
            implies after.presence().contains_key(after.sessions()[i].spec_user())
        && after.presence()[after.sessions()[i].spec_user()].channel
        == after.sessions()[i].spec_channel() by {
        assert(!before.displaced()[i]);
        assert(before.presence().contains_key(before.sessions()[i].spec_user()));
    }
}

/// A user is online exactly while a connection of theirs is live and has
/// not been displaced by a later one.
pub proof fn law_online_while_connected(hub: Hub, user: UserId)
    requires
        hub.wf(),
    ensures
        hub.presence().contains_key(user) <==> exists|i: int|
            0 <= i < hub.sessions().len() && (#[trigger] hub.sessions()[i]).spec_user() == user
                && hub.sessions()[i].is_live() && !hub.displaced()[i],
{
    if hub.presence().contains_key(user) {
        let i = choose|i: int| #[trigger] hub.serves(i, user, hub.presence()[user].channel);
        assert(hub.sessions()[i].is_live());
    }
}

/// Two connections never hold the same channel.
pub proof fn law_channels_differ(hub: Hub, i: int, j: int)
    requires
        hub.wf(),
        0 <= i < j < hub.sessions().len(),
    ensures
        hub.sessions()[i].spec_channel() != hub.sessions()[j].spec_channel(),
{
}

/// At most one connection holds a channel.
pub proof fn law_one_connection_holds(hub: Hub, at: int, channel: u64)
    requires
        hub.wf(),
        hub.holds(at, channel),
    ensures
        forall|i: int| #[trigger] hub.holds(i, channel) ==> i == at,
{
    assert forall|i: int| #[trigger] hub.holds(i, channel) implies i == at by {
        if i < at {
            law_channels_differ(hub, i, at);
        } else if i > at {
            law_channels_differ(hub, at, i);
        }
    }
}

/// The channel of every connection was given out before: it lies below
/// the channel that is given out next.
pub proof fn law_channels_were_given(hub: Hub, i: int)
    requires
        hub.wf(),
        0 <= i < hub.sessions().len(),
    ensures
        hub.sessions()[i].spec_channel() < hub.next_channel(),
{
    assert(hub.sessions()[i].is_live());
}

/// The channel of every entry of the registry was given out before.
pub proof fn law_entries_were_given(hub: Hub, user: UserId)
    requires
        hub.wf(),
        hub.presence().contains_key(user),
    ensures
        hub.presence()[user].channel < hub.next_channel(),
{
    let i = choose|i: int| #[trigger] hub.serves(i, user, hub.presence()[user].channel);
    law_channels_were_given(hub, i);
}

/// Finitely many users are online.
pub proof fn law_finitely_many_online(hub: Hub)
    requires
        hub.wf(),
    ensures
        hub.presence().dom().finite(),
{
}

/// One flag tells of each connection whether it has been displaced.
pub proof fn law_one_flag_each(hub: Hub)
    requires
        hub.wf(),
    ensures
        hub.displaced().len() == hub.sessions().len(),
{
}

/// Of the connections of one user at most one has not been displaced.
pub proof fn law_one_connection_serves(hub: Hub, i: int, j: int)
    requires
        hub.wf(),
        0 <= i < j < hub.sessions().len(),
        hub.sessions()[i].spec_user() == hub.sessions()[j].spec_user(),
    ensures
        hub.displaced()[i] || hub.displaced()[j],
{
    if !hub.displaced()[i] && !hub.displaced()[j] {
        assert(hub.sessions()[i].spec_channel() != hub.sessions()[j].spec_channel());
    }
}

} // verus!
