//! Chat channels: how long their messages are kept, who may see them, and
//! who is told of what happens in them.

use crate::id::Id;
use crate::registry::ConnectionRegistry;
use crate::relation::UserId;
use vstd::multiset::Multiset;
use vstd::prelude::*;

verus! {

/// How long the messages of a channel are kept. Durations count seconds.
#[derive(Clone, Copy, Debug, PartialEq, Eq, Structural)]
pub enum Persistence {
    /// Until the channel is deleted.
    Channel,
    /// For the given time after they were sent.
    Duration { duration: i64 },
    /// As long as they are among the latest so many.
    Count { count: u32 },
    /// As long as they are among the latest so many, and no longer than the
    /// given time.
    CountAndDuration { count: u32, duration: i64 },
}

impl Persistence {
    /// The number under which the kind of persistence is stored.
    pub open spec fn spec_id(self) -> u8 {
        match self {
            Persistence::Channel => 0,
            Persistence::Duration { .. } => 1,
            Persistence::Count { .. } => 2,
            Persistence::CountAndDuration { .. } => 3,
        }
    }

    pub open spec fn spec_count(self) -> Option<u32> {
        match self {
            Persistence::Count { count } => Some(count),
            Persistence::CountAndDuration { count, .. } => Some(count),
            _ => None,
        }
    }

    pub open spec fn spec_duration(self) -> Option<i64> {
        match self {
            Persistence::Duration { duration } => Some(duration),
            Persistence::CountAndDuration { duration, .. } => Some(duration),
            _ => None,
        }
    }

    pub fn id(&self) -> (r: u8)
        ensures
            r == self.spec_id(),
    {
        match self {
            Persistence::Channel => 0,
            Persistence::Duration { .. } => 1,
            Persistence::Count { .. } => 2,
            Persistence::CountAndDuration { .. } => 3,
        }
    }

    pub fn count(&self) -> (r: Option<u32>)
        ensures
            r == self.spec_count(),
    {
        match self {
            Persistence::Count { count } => Some(*count),
            Persistence::CountAndDuration { count, .. } => Some(*count),
            _ => None,
        }
    }

    pub fn duration(&self) -> (r: Option<i64>)
        ensures
            r == self.spec_duration(),
    {
        match self {
            Persistence::Duration { duration } => Some(*duration),
            Persistence::CountAndDuration { duration, .. } => Some(*duration),
            _ => None,
        }
    }

    /// The persistence that was stored as the three values, if they fit
    /// together: the kind must be known and what it needs must be there.
    /// What a kind does not need is passed over.
    pub fn from(id: i16, count: Option<u32>, duration: Option<i64>) -> (r: Option<Persistence>)
        ensures
            match r {
                Some(persistence) => {
                    &&& persistence.spec_id() == id
                    &&& persistence.spec_count() is Some ==> persistence.spec_count() == count
                    &&& persistence.spec_duration() is Some ==> persistence.spec_duration()
                        == duration
                },
                None => !(0 <= id <= 3) || ((id == 1 || id == 3) && duration is None) || ((id == 2
                    || id == 3) && count is None),
            },
    {
        if id == 0 {
            Some(Persistence::Channel)
        } else if id == 1 {
            match duration {
                Some(duration) => Some(Persistence::Duration { duration }),
                None => None,
            }
        } else if id == 2 {
            match count {
                Some(count) => Some(Persistence::Count { count }),
                None => None,
            }
        } else if id == 3 {
            match (count, duration) {
                (Some(count), Some(duration)) => Some(
                    Persistence::CountAndDuration { count, duration },
                ),
                _ => None,
            }
        } else {
            None
        }
    }
}

/// A persistence that is stored and read back is the same.
pub proof fn law_persistence_round_trip(persistence: Persistence)
    ensures
        persistence == match persistence.spec_id() {
            0 => Persistence::Channel,
            1 => Persistence::Duration { duration: persistence.spec_duration()->0 },
            2 => Persistence::Count { count: persistence.spec_count()->0 },
            _ => Persistence::CountAndDuration {
                count: persistence.spec_count()->0,
                duration: persistence.spec_duration()->0,
            },
        },
{
}

/// What a channel is made of.
#[derive(Clone, Debug, PartialEq, Eq)]
pub struct ChannelData {
    pub name: String,
    pub owner: UserId,
    pub persistence: Persistence,
    pub participants: Vec<UserId>,
}

/// A channel with its identifier.
#[derive(Clone, Debug, PartialEq, Eq)]
pub struct Channel {
    pub id: Id,
    pub channel_data: ChannelData,
}

/// A message that is posted to a channel.
#[derive(Clone, Debug, PartialEq, Eq)]
pub struct PostMessage {
    pub content: String,
    pub display_name: String,
}

/// A message as it is handed out. `timestamp` counts milliseconds since
/// the Unix epoch.
#[derive(Clone, Debug, PartialEq, Eq)]
pub struct Message {
    pub id: u64,
    pub channel_id: u64,
    pub sender: UserId,
    pub sender_name: String,
    pub content: String,
    pub timestamp: i64,
}

/// Whether each message was sent no later than the one behind it.
pub open spec fn in_order_of_time(messages: Seq<Message>) -> bool {
    forall|i: int, j: int|
        0 <= i <= j < messages.len() ==> messages[i].timestamp <= messages[j].timestamp
}

/// A sequence with one more item at any place holds the items of before
/// and that one.
proof fn lemma_insert_to_multiset(items: Seq<Message>, at: int, item: Message)
    requires
        0 <= at <= items.len(),
    ensures
        items.insert(at, item).to_multiset() == items.to_multiset().insert(item),
{
    let longer = items.insert(at, item);
    assert(longer.remove(at) =~= items);
    assert(longer[at] == item);
    vstd::seq_lib::to_multiset_remove(longer, at);
    longer.to_multiset_ensures();
    assert(longer.contains(item));
    assert(longer.to_multiset() =~= items.to_multiset().insert(item));
}

/// The messages of one time, in their order.
pub open spec fn of_time(messages: Seq<Message>, time: i64) -> Seq<Message>
    decreases messages.len(),
{
    if messages.len() == 0 {
        Seq::empty()
    } else {
        let earlier = of_time(messages.drop_last(), time);
        if messages.last().timestamp == time {
            earlier.push(messages.last())
        } else {
            earlier
        }
    }
}

/// The messages of one time among two runs of messages are those of the
/// first run followed by those of the second.
proof fn lemma_of_time_of_both(first: Seq<Message>, second: Seq<Message>, time: i64)
    ensures
        of_time(first + second, time) == of_time(first, time) + of_time(second, time),
    decreases second.len(),
{
    if second.len() == 0 {
        assert(first + second =~= first);
        assert(of_time(first, time) + of_time(second, time) =~= of_time(first, time));
    } else {
        lemma_of_time_of_both(first, second.drop_last(), time);
        assert((first + second).drop_last() =~= first + second.drop_last());
        assert((first + second).last() == second.last());
        if second.last().timestamp == time {
            assert(of_time(first, time) + of_time(second.drop_last(), time).push(second.last())
                =~= (of_time(first, time) + of_time(second.drop_last(), time)).push(
                second.last(),
            ));
        }
    }
}

/// Where no message is of a time, there are none of that time.
proof fn lemma_of_time_of_others(messages: Seq<Message>, time: i64)
    requires
        forall|i: int| 0 <= i < messages.len() ==> messages[i].timestamp != time,
    ensures
        of_time(messages, time) == Seq::<Message>::empty(),
    decreases messages.len(),
{
    if messages.len() > 0 {
        lemma_of_time_of_others(messages.drop_last(), time);
    }
}

/// A message that is put in behind all earlier messages and before none
/// of its own time comes first among those of its time; the messages of
/// every other time stay as they are.
proof fn lemma_of_time_after_insert(placed: Seq<Message>, at: int, message: Message, time: i64)
    requires
        0 <= at <= placed.len(),
        forall|i: int| 0 <= i < at ==> placed[i].timestamp < message.timestamp,
    ensures
        of_time(placed.insert(at, message), time) == if message.timestamp == time {
            seq![message] + of_time(placed, time)
        } else {
            of_time(placed, time)
        },
{
    let before = placed.subrange(0, at);
    let behind = placed.subrange(at, placed.len() as int);
    let one = seq![message];
    assert(placed =~= before + behind);
    assert(placed.insert(at, message) =~= (before + one) + behind);
    lemma_of_time_of_both(before, behind, time);
    lemma_of_time_of_both(before + one, behind, time);
    lemma_of_time_of_both(before, one, time);
    assert(one.drop_last() =~= Seq::<Message>::empty());
    assert(of_time(one.drop_last(), time) =~= Seq::<Message>::empty());
    if message.timestamp == time {
        lemma_of_time_of_others(before, time);
        assert(of_time(one, time) =~= one);
        assert((of_time(before, time) + one) + of_time(behind, time) =~= one + (of_time(
            before,
            time,
        ) + of_time(behind, time)));
    } else {
        assert(of_time(one, time) =~= Seq::<Message>::empty());
        assert((of_time(before, time) + Seq::<Message>::empty()) + of_time(behind, time)
            =~= of_time(before, time) + of_time(behind, time));
    }
}

/// Puts the messages of a channel into the order in which they were sent.
/// Messages of the same time keep their order.
pub fn order_messages(messages: &mut Vec<Message>)
    ensures
        in_order_of_time(final(messages)@),
        final(messages)@.to_multiset() == old(messages)@.to_multiset(),
        forall|time: i64| #[trigger]
            of_time(final(messages)@, time) == of_time(old(messages)@, time),
{
    broadcast use vstd::seq_lib::group_to_multiset_ensures;

    let mut sorted: Vec<Message> = Vec::new();
    assert(sorted@.to_multiset().add(messages@.to_multiset()) =~= old(messages)@.to_multiset());
    assert forall|time: i64| #[trigger]
        of_time(messages@, time) + of_time(sorted@, time) == of_time(old(messages)@, time) by {
        assert(of_time(messages@, time) + of_time(sorted@, time) =~= of_time(messages@, time));
    }
    while messages.len() > 0
        invariant
            in_order_of_time(sorted@),
            sorted@.to_multiset().add(messages@.to_multiset()) == old(messages)@.to_multiset(),
            forall|time: i64| #[trigger]
                of_time(messages@, time) + of_time(sorted@, time) == of_time(
                    old(messages)@,
                    time,
                ),
        decreases messages.len(),
    {
        let ghost waiting = messages@;
        let ghost placed = sorted@;
        let message = messages.pop().unwrap();
        assert(waiting =~= messages@.push(message));
        let mut at: usize = 0;
        while at < sorted.len() && sorted[at].timestamp < message.timestamp
            invariant
                at <= sorted.len(),
                forall|i: int| 0 <= i < at ==> sorted@[i].timestamp < message.timestamp,
            decreases sorted.len() - at,
        {
            at = at + 1;
        }
        sorted.insert(at, message);
        proof {
            assert(sorted@ == placed.insert(at as int, message));
            lemma_insert_to_multiset(placed, at as int, message);
            vstd::seq_lib::to_multiset_build(messages@, message);
            assert forall|time: i64| #[trigger]
                of_time(messages@, time) + of_time(sorted@, time) == of_time(
                    old(messages)@,
                    time,
                ) by {
                lemma_of_time_after_insert(placed, at as int, message, time);
                assert(waiting.drop_last() =~= messages@);
                assert(of_time(waiting, time) + of_time(placed, time) == of_time(
                    old(messages)@,
                    time,
                ));
                if message.timestamp == time {
                    assert(of_time(messages@, time) + (seq![message] + of_time(placed, time))
                        =~= of_time(messages@, time).push(message) + of_time(placed, time));
                }
            }
            assert(sorted@.to_multiset().add(messages@.to_multiset()) =~= placed.to_multiset().add(
                waiting.to_multiset(),
            ));
            assert forall|i: int, j: int| 0 <= i <= j < sorted@.len() implies sorted@[i].timestamp
                <= sorted@[j].timestamp by {
                let pi = if i < at { i } else { i - 1 };
                let pj = if j < at { j } else { j - 1 };
                if i != at && j != at {
                    assert(sorted@[i] == placed[pi]);
                    assert(sorted@[j] == placed[pj]);
                } else if i == at && j != at {
                    assert(sorted@[j] == placed[pj]);
                    assert(placed[at as int].timestamp <= placed[pj].timestamp);
                } else if j == at && i != at {
                    assert(sorted@[i] == placed[pi]);
                }
            }
        }
    }
    assert(messages@.to_multiset() =~= Multiset::<Message>::empty());
    assert(sorted@.to_multiset().add(messages@.to_multiset()) =~= sorted@.to_multiset());
    assert forall|time: i64| #[trigger] of_time(sorted@, time) == of_time(old(messages)@, time) by {
        assert(of_time(messages@, time) + of_time(sorted@, time) == of_time(old(messages)@, time));
        assert(of_time(messages@, time) + of_time(sorted@, time) =~= of_time(sorted@, time));
    }
    *messages = sorted;
}

/// Whether `user` is among `users`.
pub fn contains(users: &Vec<UserId>, user: UserId) -> (r: bool)
    ensures
        r == users@.contains(user),
{
    let mut i: usize = 0;
    while i < users.len()
        invariant
            i <= users.len(),
            forall|j: int| 0 <= j < i ==> users@[j] != user,
        decreases users.len() - i,
    {
        if users[i] == user {
            return true;
        }
        i = i + 1;
    }
    false
}

impl ChannelData {
    /// Whether the name is of an accepted length: one to thirty-two
    /// characters.
    pub fn validate(&self) -> (r: bool)
        ensures
            r == (1 <= self.name@.len() <= 32),
    {
        let length = self.name.as_str().unicode_len();
        1 <= length && length <= 32
    }

    /// Whether `user` may see the channel: its owner and its participants
    /// may.
    pub fn admits(&self, user: UserId) -> (r: bool)
        ensures
            r == (self.owner == user || self.participants@.contains(user)),
    {
        self.owner == user || contains(&self.participants, user)
    }
}

/// What becomes of a user who is named as a participant.
#[derive(Clone, Copy, Debug, PartialEq, Eq, Structural)]
pub enum Admission {
    /// A friend of the owner takes part at once.
    Member(UserId),
    /// Anybody else is invited, and told so if they are online.
    Invited(UserId),
}

/// What becomes of one named participant.
pub open spec fn spec_admission(friends: Seq<UserId>, user: UserId) -> Admission {
    if friends.contains(user) {
        Admission::Member(user)
    } else {
        Admission::Invited(user)
    }
}

/// What becomes of the users who are named as participants, one by one:
/// the friends of the owner take part, the others are invited.
pub fn admissions(participants: &Vec<UserId>, friends: &Vec<UserId>) -> (r: Vec<Admission>)
    ensures
        r@.len() == participants@.len(),
        forall|i: int|
            0 <= i < r@.len() ==> #[trigger] r@[i] == spec_admission(friends@, participants@[i]),
{
    let mut listed: Vec<Admission> = Vec::new();
    let mut i: usize = 0;
    while i < participants.len()
        invariant
            i <= participants.len(),
            listed@.len() == i,
            forall|j: int|
                0 <= j < i ==> #[trigger] listed@[j] == spec_admission(friends@, participants@[j]),
        decreases participants.len() - i,
    {
        let user = participants[i];
        if contains(friends, user) {
            listed.push(Admission::Member(user));
        } else {
            listed.push(Admission::Invited(user));
        }
        i = i + 1;
    }
    listed
}

/// Whether `user` is told of a message that `sender` posted: everybody
/// else who is online is.
pub open spec fn hears(online: Set<UserId>, sender: UserId, user: UserId) -> bool {
    user != sender && online.contains(user)
}

/// Those of the first participants who are told of a message.
pub open spec fn spec_listeners(online: Set<UserId>, sender: UserId, participants: Seq<UserId>) -> Seq<
    UserId,
> {
    participants.filter(|user: UserId| hears(online, sender, user))
}

/// The users who are told of a message that `sender` posted to a channel:
/// the owner first, then the participants in their order, each only if
/// they are online and are not the sender.
pub fn message_recipients(
    registry: &ConnectionRegistry,
    sender: UserId,
    data: &ChannelData,
) -> (r: Vec<UserId>)
    ensures
        r@ == spec_listeners(registry@.dom(), sender, seq![data.owner]) + spec_listeners(
            registry@.dom(),
            sender,
            data.participants@,
        ),
{
    let mut recipients: Vec<UserId> = Vec::new();
    let ghost online = registry@.dom();
    let ghost keep = |user: UserId| hears(online, sender, user);
    proof {
        let one = seq![data.owner];
        assert(one.drop_last() =~= Seq::<UserId>::empty());
        reveal(Seq::filter);
        assert(Seq::<UserId>::empty().filter(keep) =~= Seq::<UserId>::empty());
        assert(one.filter(keep) =~= if keep(data.owner) {
            seq![data.owner]
        } else {
            Seq::<UserId>::empty()
        });
    }
    if data.owner != sender && registry.is_online(data.owner) {
        recipients.push(data.owner);
    }
    let ghost first = recipients@;
    let mut i: usize = 0;
    assert(data.participants@.subrange(0, 0) =~= Seq::<UserId>::empty());
    assert(recipients@ =~= first + Seq::<UserId>::empty());
    while i < data.participants.len()
        invariant
            i <= data.participants.len(),
            online == registry@.dom(),
            keep == (|user: UserId| hears(online, sender, user)),
            recipients@ == first + data.participants@.subrange(0, i as int).filter(keep),
        decreases data.participants.len() - i,
    {
        let user = data.participants[i];
        proof {
            let seen = data.participants@.subrange(0, i as int);
            let next = data.participants@.subrange(0, i + 1);
            assert(next.drop_last() =~= seen);
            assert(next.last() == user);
            reveal(Seq::filter);
            assert(next.filter(keep) == if keep(user) {
                seen.filter(keep).push(user)
            } else {
                seen.filter(keep)
            });
        }
        if user != sender && registry.is_online(user) {
            recipients.push(user);
            assert(recipients@ =~= first + data.participants@.subrange(0, i + 1).filter(keep));
        }
        i = i + 1;
    }
    assert(data.participants@.subrange(0, i as int) =~= data.participants@);
    recipients
}

/// What a user does who asks for a channel to be deleted: the owner
/// deletes it for everybody, a participant only leaves it.
#[derive(Clone, Copy, Debug, PartialEq, Eq, Structural)]
pub enum Removal {
    DeleteChannel,
    LeaveChannel,
}

impl Removal {
    pub fn of(data: &ChannelData, user: UserId) -> (r: Removal)
        ensures
            r == if data.owner == user {
                Removal::DeleteChannel
            } else {
                Removal::LeaveChannel
            },
    {
        if data.owner == user {
            Removal::DeleteChannel
        } else {
            Removal::LeaveChannel
        }
    }
}

/// The number of seconds that stands for a duration where a channel is
/// written out: nothing above zero is written, and a duration below zero
/// is written as the number that its lowest thirty-two bits make.
pub fn duration_to_wire(seconds: i64) -> (r: u32)
    ensures
        r == if seconds >= 0 {
            0
        } else {
            (seconds % 0x1_0000_0000) as u32
        },
{
    if seconds >= 0 {
        0
    } else {
        let low = seconds % 0x1_0000_0000;
        if low < 0 {
            (low + 0x1_0000_0000) as u32
        } else {
            low as u32
        }
    }
}

/// The duration that a number of seconds stands for where a channel is
/// read in: none is taken over, every duration reads as zero.
pub fn duration_from_wire(seconds: u32) -> (r: i64)
    ensures
        r == 0,
{
    0
}

} // verus!
