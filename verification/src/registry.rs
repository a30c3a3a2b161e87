//! Who is online: for each connected user the channel that messages to them
//! go through, and the activity they have announced.

use crate::relation::UserId;
use dashmap::DashMap;
use tokio::sync::mpsc::unbounded_channel;
use tokio::sync::mpsc::UnboundedReceiver;
use tokio::sync::mpsc::UnboundedSender;
use vstd::prelude::*;

verus! {

/// `tokio::sync::mpsc::UnboundedSender`, held as a value that nothing is
/// seen of.
#[verifier::external_type_specification]
#[verifier::external_body]
#[verifier::reject_recursive_types(T)]
pub struct ExUnboundedSender<T>(UnboundedSender<T>);

/// `tokio::sync::mpsc::UnboundedReceiver`, held as a value that nothing is
/// seen of.
#[verifier::external_type_specification]
#[verifier::external_body]
#[verifier::reject_recursive_types(T)]
pub struct ExUnboundedReceiver<T>(UnboundedReceiver<T>);

/// `UnboundedSender::clone`: another sender of the same channel. Nothing is
/// said of it.
pub assume_specification<T>[ <UnboundedSender<T> as Clone>::clone ](
    sender: &UnboundedSender<T>,
) -> (copy: UnboundedSender<T>)
;

/// What a user has announced to be doing. `started_at` counts milliseconds
/// since the Unix epoch; `metadata` holds JSON text.
#[derive(Clone, Debug)]
pub struct Activity {
    pub title: String,
    pub description: String,
    pub started_at: i64,
    pub metadata: String,
}

impl Activity {
    /// A copy of the announcement.
    pub fn duplicate(&self) -> (r: Activity)
        ensures
            r == *self,
    {
        Activity {
            title: self.title.clone(),
            description: self.description.clone(),
            started_at: self.started_at,
            metadata: self.metadata.clone(),
        }
    }
}

/// The messages that a channel has taken through a sender, or through
/// the senders that it was copied from, oldest first.
pub uninterp spec fn channel_sent(sender: UnboundedSender<String>) -> Seq<String>;

/// `unbounded_channel`: the two ends of a fresh channel, which has taken
/// no message yet.
#[verifier::external_body]
fn channel_open() -> (ends: (UnboundedSender<String>, UnboundedReceiver<String>))
    ensures
        channel_sent(ends.0) == Seq::<String>::empty(),
{
    unbounded_channel()
}

/// `UnboundedSender::send`: hands a message to the channel, behind those
/// that it took before. The channel takes it unless its receiving end is
/// closed or gone; the result says whether it took it.
#[verifier::external_body]
fn channel_send(sender: &mut UnboundedSender<String>, payload: String) -> (taken: bool)
    ensures
        channel_sent(*final(sender)) == if taken {
            channel_sent(*old(sender)).push(payload)
        } else {
            channel_sent(*old(sender))
        },
{
    sender.send(payload).is_ok()
}

/// The sending end of the queue of serialized notifications that wait to
/// be written to one connection. The identifier tells one connection's
/// channel from that of another connection of the same user.
#[derive(Clone, Debug)]
pub struct OutboundChannel {
    id: u64,
    sender: UnboundedSender<String>,
}

impl View for OutboundChannel {
    type V = Seq<String>;

    /// The messages that the channel has taken through this sending end,
    /// oldest first.
    closed spec fn view(&self) -> Seq<String> {
        channel_sent(self.sender)
    }
}

impl OutboundChannel {
    pub closed spec fn spec_id(&self) -> u64 {
        self.id
    }

    /// A fresh channel of the given identifier: its sending end, and the
    /// receiving end for the connection that is to drain it.
    pub fn new(id: u64) -> (r: (OutboundChannel, UnboundedReceiver<String>))
        ensures
            r.0.spec_id() == id,
            r.0@ == Seq::<String>::empty(),
    {
        let (sender, receiver) = channel_open();
        (OutboundChannel { id, sender }, receiver)
    }

    #[verifier::when_used_as_spec(spec_id)]
    pub fn id(&self) -> (r: u64)
        ensures
            r == self.spec_id(),
    {
        self.id
    }

    /// Hands a message to the channel, behind those that it took before,
    /// and says whether the channel took it: it does not where its
    /// receiving end is closed or gone.
    pub fn send(&mut self, payload: String) -> (taken: bool)
        ensures
            final(self).spec_id() == old(self).spec_id(),
            final(self)@ == if taken {
                old(self)@.push(payload)
            } else {
                old(self)@
            },
    {
        channel_send(&mut self.sender, payload)
    }
}

/// What the registry holds of one online user.
pub struct Presence {
    /// Identifier of the channel that was registered.
    pub channel: u64,
    /// The messages that the channel has taken through the sender that
    /// the registry holds, oldest first.
    pub sent: Seq<String>,
    /// What the user has announced, if anything.
    pub activity: Option<Activity>,
}

/// A user's entry right after registration with `channel`.
pub open spec fn fresh_presence(channel: OutboundChannel) -> Presence {
    Presence { channel: channel.spec_id(), sent: channel@, activity: None }
}

/// The channel and the announcement of one online user.
#[derive(Clone, Debug)]
pub struct PresenceEntry {
    channel: OutboundChannel,
    activity: Option<Activity>,
}

impl PresenceEntry {
    /// What the entry says of its user.
    pub closed spec fn presence(self) -> Presence {
        Presence { channel: self.channel.spec_id(), sent: self.channel@, activity: self.activity }
    }
}

/// The collection that the entries are kept in.
pub type EntryMap = DashMap<UserId, PresenceEntry>;

/// The entry that a map holds for each user.
pub uninterp spec fn registry_entries(entries: EntryMap) -> Map<UserId, PresenceEntry>;

/// No user has an entry.
pub open spec fn no_entries() -> Map<UserId, PresenceEntry> {
    Map::empty()
}

/// The entry of `user`, where there is one.
pub open spec fn entry_of(entries: Map<UserId, PresenceEntry>, user: UserId) -> Option<
    PresenceEntry,
> {
    if entries.contains_key(user) {
        Some(entries[user])
    } else {
        None
    }
}

/// `DashMap::new`: the map that it makes holds nothing.
#[verifier::external_body]
fn entries_new() -> (fresh: EntryMap)
    ensures
        registry_entries(fresh) == no_entries(),
{
    DashMap::new()
}

/// `DashMap::contains_key`: whether the map holds the key.
#[verifier::external_body]
fn entries_contains(entries: &EntryMap, user: UserId) -> (held: bool)
    ensures
        held == registry_entries(*entries).contains_key(user),
{
    entries.contains_key(&user)
}

/// `DashMap::get`: a guard over the value stored under the key, or nothing
/// where the map has no such key. The value is copied out of the guard.
#[verifier::external_body]
fn entries_get(entries: &EntryMap, user: UserId) -> (found: Option<PresenceEntry>)
    ensures
        found == entry_of(registry_entries(*entries), user),
{
    entries.get(&user).map(|entry| entry.value().clone())
}

/// `DashMap::insert`: afterwards the key holds the value, and the other
/// keys hold what they held. Gives what the key held before.
#[verifier::external_body]
fn entries_insert(entries: &mut EntryMap, user: UserId, entry: PresenceEntry) -> (previous: Option<
    PresenceEntry,
>)
    ensures
        registry_entries(*final(entries)) == registry_entries(*old(entries)).insert(user, entry),
        previous == entry_of(registry_entries(*old(entries)), user),
{
    entries.insert(user, entry)
}

/// `DashMap::remove`: afterwards the map has no such key, and the other
/// keys hold what they held. Gives what the key held before.
#[verifier::external_body]
fn entries_remove(entries: &mut EntryMap, user: UserId) -> (previous: Option<PresenceEntry>)
    ensures
        registry_entries(*final(entries)) == registry_entries(*old(entries)).remove(user),
        previous == entry_of(registry_entries(*old(entries)), user),
{
    entries.remove(&user).map(|pair| pair.1)
}

/// `DashMap::len`: the number of keys that the map holds.
#[verifier::external_body]
fn entries_len(entries: &EntryMap) -> (count: usize)
    ensures
        count == registry_entries(*entries).len(),
{
    entries.len()
}

/// At most one entry for each user; a user is online exactly while they
/// have one.
pub struct ConnectionRegistry {
    entries: EntryMap,
}

impl View for ConnectionRegistry {
    type V = Map<UserId, Presence>;

    closed spec fn view(&self) -> Map<UserId, Presence> {
        Map::new(
            |user: UserId| registry_entries(self.entries).contains_key(user),
            |user: UserId| registry_entries(self.entries)[user].presence(),
        )
    }
}

impl ConnectionRegistry {
    pub fn new() -> (r: Self)
        ensures
            r@ == Map::<UserId, Presence>::empty(),
            r@.dom().finite(),
    {
        let r = ConnectionRegistry { entries: entries_new() };
        assert(r@ =~= Map::<UserId, Presence>::empty());
        r
    }

    /// How many users are online.
    pub fn online_count(&self) -> (r: usize)
        ensures
            r == self@.len(),
    {
        assert(self@.dom() =~= registry_entries(self.entries).dom());
        entries_len(&self.entries)
    }

    pub fn is_online(&self, user: UserId) -> (r: bool)
        ensures
            r == self@.contains_key(user),
    {
        entries_contains(&self.entries, user)
    }

    /// Enters `channel` for `user`, with no activity, and hands back the
    /// channel that it displaces, if there was one.
    pub fn register(&mut self, user: UserId, channel: OutboundChannel) -> (r: Option<
        OutboundChannel,
    >)
        ensures
            old(self)@.dom().finite() ==> final(self)@.dom().finite(),
            final(self)@ == old(self)@.insert(user, fresh_presence(channel)),
            match r {
                Some(displaced) => old(self)@.contains_key(user) && displaced.spec_id() == old(
                    self,
                )@[user].channel && displaced@ == old(self)@[user].sent,
                None => !old(self)@.contains_key(user),
            },
    {
        let entry = PresenceEntry { channel, activity: None };
        let displaced = entries_insert(&mut self.entries, user, entry);
        assert(self@ =~= old(self)@.insert(user, fresh_presence(channel)));
        match displaced {
            Some(previous) => Some(previous.channel),
            None => None,
        }
    }

    /// The channel of `user`, if they are online: another sending end of
    /// it, with the same identifier.
    pub fn lookup(&self, user: UserId) -> (r: Option<OutboundChannel>)
        ensures
            match r {
                Some(channel) => self@.contains_key(user) && channel.spec_id()
                    == self@[user].channel && channel@ == self@[user].sent,
                None => !self@.contains_key(user),
            },
    {
        match entries_get(&self.entries, user) {
            Some(entry) => Some(entry.channel),
            None => None,
        }
    }

    /// What `user` has announced: `None` where they are offline,
    /// `Some(None)` where they are online and have announced nothing.
    pub fn activity(&self, user: UserId) -> (r: Option<Option<Activity>>)
        ensures
            r == if self@.contains_key(user) {
                Some(self@[user].activity)
            } else {
                None
            },
    {
        match entries_get(&self.entries, user) {
            Some(entry) => Some(entry.activity),
            None => None,
        }
    }

    /// Replaces what `user` has announced. Does nothing for a user who is
    /// offline.
    pub fn set_activity(&mut self, user: UserId, activity: Option<Activity>)
        ensures
            old(self)@.dom().finite() ==> final(self)@.dom().finite(),
            final(self)@ == if old(self)@.contains_key(user) {
                old(self)@.insert(user, (Presence { activity, ..old(self)@[user] }))
            } else {
                old(self)@
            },
    {
        match entries_remove(&mut self.entries, user) {
            Some(entry) => {
                let updated = PresenceEntry { channel: entry.channel, activity };
                entries_insert(&mut self.entries, user, updated);
                assert(self@ =~= old(self)@.insert(
                    user,
                    (Presence { activity, ..old(self)@[user] }),
                ));
            },
            None => {
                assert(self@ =~= old(self)@);
            },
        }
    }

    /// Removes the entry of `user` if it still holds the channel `channel`,
    /// and says whether it did. An entry that a later connection has put in
    /// its place stays.
    pub fn deregister(&mut self, user: UserId, channel: u64) -> (r: bool)
        ensures
            old(self)@.dom().finite() ==> final(self)@.dom().finite(),
            r == (old(self)@.contains_key(user) && old(self)@[user].channel == channel),
            final(self)@ == if r {
                old(self)@.remove(user)
            } else {
                old(self)@
            },
    {
        let owned = match entries_get(&self.entries, user) {
            Some(entry) => entry.channel.id() == channel,
            None => false,
        };
        if owned {
            entries_remove(&mut self.entries, user);
            assert(self@ =~= old(self)@.remove(user));
        }
        owned
    }

    /// Hands `payload` to the channel of `user`, behind the messages that
    /// it took before, and says whether the channel took it. Nothing
    /// happens for a user who is offline, or whose channel takes no more.
    pub fn push(&mut self, user: UserId, payload: String) -> (r: bool)
        ensures
            old(self)@.dom().finite() ==> final(self)@.dom().finite(),
            r ==> old(self)@.contains_key(user),
            final(self)@ == if r {
                old(self)@.insert(
                    user,
                    (Presence { sent: old(self)@[user].sent.push(payload), ..old(self)@[user] }),
                )
            } else {
                old(self)@
            },
    {
        match entries_remove(&mut self.entries, user) {
            Some(entry) => {
                let mut entry = entry;
                let taken = entry.channel.send(payload);
                entries_insert(&mut self.entries, user, entry);
                if taken {
                    assert(self@ =~= old(self)@.insert(
                        user,
                        (Presence {
                            sent: old(self)@[user].sent.push(payload),
                            ..old(self)@[user]
                        }),
                    ));
                } else {
                    assert(self@ =~= old(self)@);
                }
                taken
            },
            None => {
                assert(self@ =~= old(self)@);
                false
            },
        }
    }
}

/// Registering a user who is online puts the new entry in the place of the
/// old one: as many users are online as before, and the user's entry is the
/// new one.
pub proof fn law_reconnect_replaces_entry(online: Map<UserId, Presence>, user: UserId, entry: Presence)
    requires
        online.dom().finite(),
        online.contains_key(user),
    ensures
        online.insert(user, entry).dom() == online.dom(),
        online.insert(user, entry).len() == online.len(),
        online.insert(user, entry)[user] == entry,
{
    assert(online.insert(user, entry).dom() =~= online.dom());
}

} // verus!
