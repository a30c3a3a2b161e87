//! A user's own account: names, settings and what they may change of them.

use crate::errors::ApiError;
use crate::global_data::{pattern_matches, regex_is_match};
use crate::hub::Hub;
use crate::id::Id;
use crate::registry::{Activity, Presence};
use crate::relation::UserId;
use crate::user::queued;
use crate::text::same_text;
use vstd::prelude::*;

verus! {

/// The name that a player goes by.
#[derive(Clone, Debug, PartialEq, Eq)]
pub struct Username(pub String);

/// What a name must hold somewhere: three to sixteen letters, digits or
/// underscores in a row.
pub const USERNAME_PATTERN: &'static str = "[a-zA-Z0-9_]{3,16}";

impl Username {
    /// Whether the name is accepted: the pattern of names must match in it.
    pub fn validate(&self) -> (r: bool)
        ensures
            r == regex_is_match(USERNAME_PATTERN@, self.0@),
    {
        pattern_matches(USERNAME_PATTERN, self.0.as_str())
    }

    pub fn new(name: String) -> (r: Username)
        ensures
            r.0 == name,
    {
        Username(name)
    }

    pub fn as_str(&self) -> (r: &str)
        ensures
            r@ == self.0@,
    {
        self.0.as_str()
    }

    pub fn into_string(self) -> (r: String)
        ensures
            r == self.0,
    {
        self.0
    }
}

/// What a client sends to prove who it is: the name it claims and the
/// server identifier that it joined the session service with.
#[derive(Clone, Debug, PartialEq, Eq)]
pub struct Authenticate {
    pub username: Username,
    pub server_id: String,
}

/// What the session service made of a claim.
#[derive(Clone, Copy, Debug, PartialEq, Eq, Structural)]
pub enum SessionAnswer {
    /// The claim holds and the answer carries the profile.
    Profile,
    /// Nobody of that name has joined with that identifier.
    Unknown,
    /// Any other answer.
    Failed,
}

impl SessionAnswer {
    /// Reads the status code of the session service's answer.
    pub fn of_status(status: u16) -> (r: SessionAnswer)
        ensures
            r == if status == 200 {
                SessionAnswer::Profile
            } else if status == 204 {
                SessionAnswer::Unknown
            } else {
                SessionAnswer::Failed
            },
    {
        if status == 200 {
            SessionAnswer::Profile
        } else if status == 204 {
            SessionAnswer::Unknown
        } else {
            SessionAnswer::Failed
        }
    }

    /// Whether the claim may go on, and how the request fails if not.
    pub fn check(self) -> (r: Result<(), ApiError>)
        ensures
            r == match self {
                SessionAnswer::Profile => Ok::<(), ApiError>(()),
                SessionAnswer::Unknown => Err::<(), ApiError>(ApiError::Unauthorized),
                SessionAnswer::Failed => Err::<(), ApiError>(ApiError::Internal),
            },
    {
        match self {
            SessionAnswer::Profile => Ok(()),
            SessionAnswer::Unknown => Err(ApiError::Unauthorized),
            SessionAnswer::Failed => Err(ApiError::Internal),
        }
    }
}

/// A player as the session service knows them.
#[derive(Clone, Debug, PartialEq, Eq)]
pub struct BasicUserInfo {
    pub uuid: UserId,
    pub username: Username,
}

/// What is to be done next while the names of players are brought up to
/// date.
#[derive(Debug, PartialEq, Eq)]
pub enum NameStep {
    /// Nothing is left to do.
    Done,
    /// It is to be looked up whether another player is stored under the
    /// name of this one.
    Check(BasicUserInfo),
}

/// The players whose names are still to be brought up to date, the one to
/// go on with last.
pub struct NameUpdates {
    waiting: Vec<BasicUserInfo>,
}

impl View for NameUpdates {
    type V = Seq<BasicUserInfo>;

    closed spec fn view(&self) -> Seq<BasicUserInfo> {
        self.waiting@
    }
}

impl NameUpdates {
    /// Starts with the player who proved who they are.
    pub fn new(player: BasicUserInfo) -> (r: NameUpdates)
        ensures
            r@ == seq![player],
    {
        let mut waiting: Vec<BasicUserInfo> = Vec::new();
        waiting.push(player);
        assert(waiting@ =~= seq![player]);
        NameUpdates { waiting }
    }

    /// Takes the player to go on with.
    pub fn next(&mut self) -> (r: NameStep)
        ensures
            match r {
                NameStep::Done => old(self)@.len() == 0 && final(self)@ == old(self)@,
                NameStep::Check(player) => old(self)@.len() > 0 && player == old(self)@.last()
                    && final(self)@ == old(self)@.drop_last(),
            },
    {
        match self.waiting.pop() {
            Some(player) => NameStep::Check(player),
            None => NameStep::Done,
        }
    }

    /// Takes in that another player is stored under the name of `player`:
    /// that other player, as the session service knows them now, is dealt
    /// with first, and `player` after them.
    pub fn conflict(&mut self, player: BasicUserInfo, holder: BasicUserInfo)
        ensures
            final(self)@ == old(self)@.push(player).push(holder),
    {
        self.waiting.push(player);
        self.waiting.push(holder);
    }
}

/// Whether a player who is banned may go on: they may not, and all their
/// tokens are to be revoked.
pub fn check_ban(banned: Option<bool>) -> (r: Result<(), ApiError>)
    ensures
        r == if banned == Some(true) {
            Err::<(), ApiError>(ApiError::Forbidden)
        } else {
            Ok::<(), ApiError>(())
        },
{
    match banned {
        Some(true) => Err(ApiError::Forbidden),
        _ => Ok(()),
    }
}

/// A name that a player went by earlier, and whether others may see it.
#[derive(Clone, Debug, PartialEq, Eq)]
pub struct OldUsername {
    pub username: String,
    pub public: bool,
}

impl OldUsername {
    /// Whether the name that a player is about to lose is to be kept among
    /// their earlier names: where they had one that they asked to retain and
    /// it differs from the new one.
    pub fn is_due(retained: Option<&str>, current: &str) -> (r: bool)
        ensures
            r == (retained matches Some(previous) && previous@ != current@),
    {
        match retained {
            Some(previous) => !same_text(previous, current),
            None => false,
        }
    }
}

/// What a user lets others see of them.
#[derive(Clone, Copy, Debug, PartialEq, Eq, Structural)]
pub struct Settings {
    pub show_registered: bool,
    pub retain_usernames: bool,
    pub show_last_online: bool,
    pub show_activity: bool,
    pub allow_friends_image_access: bool,
}

/// A change of settings: each setting that is given replaces the one held.
#[derive(Clone, Copy, Debug, PartialEq, Eq, Structural)]
pub struct SettingsPatch {
    pub show_registered: Option<bool>,
    pub retain_usernames: Option<bool>,
    pub show_last_online: Option<bool>,
    pub show_activity: Option<bool>,
    pub allow_friends_image_access: Option<bool>,
}

/// The value given, or the one held where none is given.
pub open spec fn given_or(given: Option<bool>, held: bool) -> bool {
    match given {
        Some(value) => value,
        None => held,
    }
}

fn pick(given: Option<bool>, held: bool) -> (r: bool)
    ensures
        r == given_or(given, held),
{
    match given {
        Some(value) => value,
        None => held,
    }
}

impl Settings {
    /// The settings after `patch`.
    pub fn patched(&self, patch: &SettingsPatch) -> (r: Settings)
        ensures
            r.show_registered == given_or(patch.show_registered, self.show_registered),
            r.retain_usernames == given_or(patch.retain_usernames, self.retain_usernames),
            r.show_last_online == given_or(patch.show_last_online, self.show_last_online),
            r.show_activity == given_or(patch.show_activity, self.show_activity),
            r.allow_friends_image_access == given_or(
                patch.allow_friends_image_access,
                self.allow_friends_image_access,
            ),
    {
        Settings {
            show_registered: pick(patch.show_registered, self.show_registered),
            retain_usernames: pick(patch.retain_usernames, self.retain_usernames),
            show_last_online: pick(patch.show_last_online, self.show_last_online),
            show_activity: pick(patch.show_activity, self.show_activity),
            allow_friends_image_access: pick(
                patch.allow_friends_image_access,
                self.allow_friends_image_access,
            ),
        }
    }
}

impl SettingsPatch {
    /// Whether the patch turns the showing of activity off, so that what the
    /// user has announced is to be forgotten.
    pub fn hides_activity(&self) -> (r: bool)
        ensures
            r == (self.show_activity == Some(false)),
    {
        match self.show_activity {
            Some(shown) => !shown,
            None => false,
        }
    }
}

/// The answer to an invitation into a channel.
#[derive(Clone, Copy, Debug, PartialEq, Eq, Structural)]
pub struct QueryChannelInvite {
    pub id: Id,
    pub accept: bool,
}

/// The registry after the channels of the users took `payload`, one after
/// the other.
pub open spec fn spec_told_all(online: Map<UserId, Presence>, users: Seq<UserId>, payload: String) -> Map<
    UserId,
    Presence,
>
    decreases users.len(),
{
    if users.len() == 0 {
        online
    } else {
        queued(spec_told_all(online, users.drop_last(), payload), users.last(), payload)
    }
}

/// Whether `told` is picked from `friends`: its users stand in `friends`
/// in the same order, each at a place of its own.
pub open spec fn picked_from(told: Seq<UserId>, friends: Seq<UserId>) -> bool
    decreases friends.len(),
{
    if told.len() == 0 {
        true
    } else if friends.len() == 0 {
        false
    } else if told.last() == friends.last() && picked_from(told.drop_last(), friends.drop_last()) {
        true
    } else {
        picked_from(told, friends.drop_last())
    }
}

/// The friends whose channels took the payload, in their order, where
/// `taken` says of each friend in turn whether their channel took it.
pub open spec fn spec_picked(friends: Seq<UserId>, taken: Seq<bool>) -> Seq<UserId>
    decreases friends.len(),
{
    if friends.len() == 0 {
        Seq::empty()
    } else {
        let earlier = spec_picked(friends.drop_last(), taken);
        if friends.len() <= taken.len() && taken[friends.len() - 1] {
            earlier.push(friends.last())
        } else {
            earlier
        }
    }
}

/// What is picked does not depend on what `taken` says beyond the friends.
proof fn lemma_picked_ignores_rest(friends: Seq<UserId>, taken: Seq<bool>, longer: Seq<bool>)
    requires
        friends.len() <= taken.len() <= longer.len(),
        forall|i: int| 0 <= i < friends.len() ==> taken[i] == longer[i],
    ensures
        spec_picked(friends, taken) == spec_picked(friends, longer),
    decreases friends.len(),
{
    if friends.len() > 0 {
        lemma_picked_ignores_rest(friends.drop_last(), taken, longer);
    }
}

/// Whatever the channels answered, the friends that were told are picked
/// from the friends.
pub proof fn law_picked_are_picked_from(friends: Seq<UserId>, taken: Seq<bool>)
    ensures
        picked_from(spec_picked(friends, taken), friends),
    decreases friends.len(),
{
    if friends.len() > 0 {
        law_picked_are_picked_from(friends.drop_last(), taken);
        let earlier = spec_picked(friends.drop_last(), taken);
        if friends.len() <= taken.len() && taken[friends.len() - 1] {
            assert(earlier.push(friends.last()).drop_last() =~= earlier);
        }
    }
}

/// The friends whose channels took the payload, in their order.
pub fn picked(friends: &Vec<UserId>, taken: &Vec<bool>) -> (r: Vec<UserId>)
    ensures
        r@ == spec_picked(friends@, taken@),
{
    let mut told: Vec<UserId> = Vec::new();
    let mut i: usize = 0;
    assert(friends@.subrange(0, 0) =~= Seq::<UserId>::empty());
    while i < friends.len()
        invariant
            i <= friends.len(),
            told@ == spec_picked(friends@.subrange(0, i as int), taken@),
        decreases friends.len() - i,
    {
        assert(friends@.subrange(0, i + 1).drop_last() =~= friends@.subrange(0, i as int));
        if i < taken.len() && taken[i] {
            told.push(friends[i]);
        }
        i = i + 1;
    }
    assert(friends@.subrange(0, i as int) =~= friends@);
    told
}

/// Takes over what `user` announces: `payload` is handed once to the
/// channel of each of their friends, in their order, and the registry
/// keeps the announcement if the user is online themselves. Gives the
/// friends whose channels took the payload; the others are offline or are
/// not reached any more.
pub fn post_activity(
    hub: &mut Hub,
    user: UserId,
    friends: &Vec<UserId>,
    payload: &String,
    activity: Activity,
) -> (told: Vec<UserId>)
    requires
        old(hub).wf(),
    ensures
        final(hub).wf(),
        final(hub).sessions() == old(hub).sessions(),
        final(hub).displaced() == old(hub).displaced(),
        exists|taken: Seq<bool>|
            taken.len() == friends@.len() && told@ == #[trigger] spec_picked(friends@, taken),
        picked_from(told@, friends@),
        forall|i: int|
            0 <= i < told@.len() ==> friends@.contains(#[trigger] told@[i]) && old(hub).presence().contains_key(told@[i]),
        ({
            let reached = spec_told_all(old(hub).presence(), told@, *payload);
            final(hub).presence() == if reached.contains_key(user) {
                reached.insert(user, (Presence { activity: Some(activity), ..reached[user] }))
            } else {
                reached
            }
        }),
{
    let mut taken: Vec<bool> = Vec::new();
    let mut i: usize = 0;
    assert(friends@.subrange(0, 0) =~= Seq::<UserId>::empty());
    while i < friends.len()
        invariant
            i <= friends.len(),
            taken@.len() == i,
            hub.wf(),
            hub.sessions() == old(hub).sessions(),
            hub.displaced() == old(hub).displaced(),
            forall|u: UserId|
                hub.presence().contains_key(u) == old(hub).presence().contains_key(u),
            forall|j: int|
                0 <= j < spec_picked(friends@.subrange(0, i as int), taken@).len()
                    ==> friends@.contains(
                    #[trigger] spec_picked(friends@.subrange(0, i as int), taken@)[j],
                ) && old(hub).presence().contains_key(
                    spec_picked(friends@.subrange(0, i as int), taken@)[j],
                ),
            hub.presence() == spec_told_all(
                old(hub).presence(),
                spec_picked(friends@.subrange(0, i as int), taken@),
                *payload,
            ),
        decreases friends.len() - i,
    {
        let ghost answers = taken@;
        let ghost seen = friends@.subrange(0, i as int);
        let ghost next = friends@.subrange(0, i + 1);
        let took = hub.notify(friends[i], payload.clone());
        taken.push(took);
        proof {
            assert(next.drop_last() =~= seen);
            assert(next.last() == friends@[i as int]);
            lemma_picked_ignores_rest(seen, answers, taken@);
            let before = spec_picked(seen, answers);
            if took {
                assert(spec_picked(next, taken@) == before.push(friends@[i as int]));
                assert(before.push(friends@[i as int]).drop_last() =~= before);
                assert forall|j: int| 0 <= j < spec_picked(next, taken@).len() implies friends@.contains(
                    #[trigger] spec_picked(next, taken@)[j],
                ) && old(hub).presence().contains_key(spec_picked(next, taken@)[j]) by {
                    if j < before.len() {
                        assert(spec_picked(next, taken@)[j] == before[j]);
                    }
                }
            } else {
                assert(spec_picked(next, taken@) == before);
            }
        }
        i = i + 1;
    }
    assert(friends@.subrange(0, i as int) =~= friends@);
    proof {
        law_picked_are_picked_from(friends@, taken@);
    }
    hub.set_activity(user, Some(activity));
    picked(friends, &taken)
}

/// Carries out what a change of settings means for the registry: a user
/// who turns the showing of activity off has their announcement forgotten.
pub fn patch_settings(hub: &mut Hub, user: UserId, patch: &SettingsPatch)
    requires
        old(hub).wf(),
    ensures
        final(hub).wf(),
        final(hub).sessions() == old(hub).sessions(),
        final(hub).displaced() == old(hub).displaced(),
        final(hub).presence() == if patch.show_activity == Some(false) && old(hub).presence().contains_key(user) {
            old(hub).presence().insert(
                user,
                (Presence { activity: None, ..old(hub).presence()[user] }),
            )
        } else {
            old(hub).presence()
        },
{
    if patch.hides_activity() {
        hub.set_activity(user, None);
    }
}

/// The channels of a user: those they own, then those they take part in,
/// each identifier read as an unsigned number.
pub fn get_channels(owned: &Vec<i64>, participating: &Vec<i64>) -> (r: Vec<u64>)
    ensures
        r@.len() == owned@.len() + participating@.len(),
        forall|i: int| 0 <= i < owned@.len() ==> #[trigger] r@[i] == owned@[i] as u64,
        forall|i: int|
            0 <= i < participating@.len() ==> #[trigger] r@[owned@.len() + i]
                == participating@[i] as u64,
{
    let mut ids: Vec<u64> = Vec::new();
    let mut i: usize = 0;
    while i < owned.len()
        invariant
            i <= owned.len(),
            ids@.len() == i,
            forall|j: int| 0 <= j < i ==> #[trigger] ids@[j] == owned@[j] as u64,
        decreases owned.len() - i,
    {
        ids.push(#[verifier::truncate] (owned[i] as u64));
        i = i + 1;
    }
    let mut k: usize = 0;
    while k < participating.len()
        invariant
            k <= participating.len(),
            ids@.len() == owned@.len() + k,
            forall|j: int| 0 <= j < owned@.len() ==> #[trigger] ids@[j] == owned@[j] as u64,
            forall|j: int|
                0 <= j < k ==> #[trigger] ids@[owned@.len() + j] == participating@[j] as u64,
        decreases participating.len() - k,
    {
        ids.push(#[verifier::truncate] (participating[k] as u64));
        k = k + 1;
    }
    ids
}

} // verus!
