//! What one user may see of another, and how one user changes what they
//! hold toward another.

use crate::errors::ApiError;
use crate::hub::Hub;
use crate::registry::{Activity, ConnectionRegistry, Presence};
use crate::relation::{
    spec_after, spec_decide, Relation, RelationError, RelationNotice, RelationStore, UserId,
};
use vstd::prelude::*;
use vstd::string::StringExecFns;

verus! {

/// Whether a user is online, and what is shown of that.
#[derive(Clone, Debug)]
pub enum Status {
    /// Offline, last seen at the given time if the user lets that be seen.
    Offline { last_online: Option<i64> },
    /// Online, with what the user has announced.
    Online { activity: Option<Activity> },
}

impl Status {
    /// The status of a user: online with their activity while the registry
    /// holds them, else offline, with the time they were last seen only if
    /// they let it be seen.
    pub open spec fn spec_of(
        online: Map<UserId, Presence>,
        user: UserId,
        show_last_online: bool,
        last_online: Option<i64>,
    ) -> Status {
        if online.contains_key(user) {
            Status::Online { activity: online[user].activity }
        } else if show_last_online {
            Status::Offline { last_online }
        } else {
            Status::Offline { last_online: None }
        }
    }

    pub fn of(
        registry: &ConnectionRegistry,
        user: UserId,
        show_last_online: bool,
        last_online: Option<i64>,
    ) -> (r: Status)
        ensures
            r == Status::spec_of(registry@, user, show_last_online, last_online),
    {
        match registry.activity(user) {
            Some(activity) => Status::Online { activity },
            None => {
                if show_last_online {
                    Status::Offline { last_online }
                } else {
                    Status::Offline { last_online: None }
                }
            },
        }
    }

    /// Whether a time at which an offline user was last seen is stored
    /// though the user does not let it be seen, so that it is to be
    /// forgotten.
    pub fn holds_stale_time(
        registry: &ConnectionRegistry,
        user: UserId,
        show_last_online: bool,
        last_online: Option<i64>,
    ) -> (r: bool)
        ensures
            r == (!registry@.contains_key(user) && !show_last_online && last_online is Some),
    {
        !registry.is_online(user) && !show_last_online && last_online.is_some()
    }
}

/// The relation that a user asks to hold toward another.
#[derive(Clone, Copy, Debug, PartialEq, Eq, Structural)]
pub struct PostRelation {
    pub relation: Relation,
}

/// Whether a viewer may list the pictures of a user: the user must let
/// friends do so and must hold the viewer as a friend.
pub fn may_list_images(allow_friends_image_access: bool, toward_viewer: Relation) -> (r: Result<
    (),
    ApiError,
>)
    ensures
        r == if allow_friends_image_access && toward_viewer == Relation::Friend {
            Ok::<(), ApiError>(())
        } else {
            Err::<(), ApiError>(ApiError::Forbidden)
        },
{
    if !allow_friends_image_access {
        return Err(ApiError::Forbidden);
    }
    match toward_viewer {
        Relation::Friend => Ok(()),
        _ => Err(ApiError::Forbidden),
    }
}

/// The failure of a request that a refused change of relation amounts to.
pub fn relation_failure(error: RelationError) -> (r: ApiError)
    ensures
        r == match error {
            RelationError::SelfRelation => ApiError::BadRequest,
            RelationError::NotFound => ApiError::NotFound,
            RelationError::Forbidden => ApiError::Forbidden,
        },
{
    match error {
        RelationError::SelfRelation => ApiError::BadRequest,
        RelationError::NotFound => ApiError::NotFound,
        RelationError::Forbidden => ApiError::Forbidden,
    }
}

/// What a user is told of a change of relation: who caused it and what
/// happened.
#[derive(Clone, Copy, Debug, PartialEq, Eq, Structural)]
pub struct FriendRequestNotification {
    pub target: RelationNotice,
    pub from: UserId,
}

/// The digit that stands for a number below sixteen.
pub open spec fn hex_digit(value: u128) -> Seq<char> {
    if value == 0 {
        "0"@
    } else if value == 1 {
        "1"@
    } else if value == 2 {
        "2"@
    } else if value == 3 {
        "3"@
    } else if value == 4 {
        "4"@
    } else if value == 5 {
        "5"@
    } else if value == 6 {
        "6"@
    } else if value == 7 {
        "7"@
    } else if value == 8 {
        "8"@
    } else if value == 9 {
        "9"@
    } else if value == 10 {
        "a"@
    } else if value == 11 {
        "b"@
    } else if value == 12 {
        "c"@
    } else if value == 13 {
        "d"@
    } else if value == 14 {
        "e"@
    } else {
        "f"@
    }
}

/// The first `digits` hexadecimal digits of an identity, the highest
/// first, with a hyphen behind the eighth, the twelfth, the sixteenth and
/// the twentieth.
pub open spec fn uuid_digits(id: u128, digits: nat) -> Seq<char>
    decreases digits,
{
    if digits == 0 || digits > 32 {
        Seq::empty()
    } else {
        let at = (digits - 1) as u128;
        let digit = hex_digit((id >> ((31 - at) * 4) as u128) & 0xf);
        let behind: Seq<char> = if at == 7 || at == 11 || at == 15 || at == 19 {
            "-"@
        } else {
            Seq::empty()
        };
        uuid_digits(id, (digits - 1) as nat) + digit + behind
    }
}

/// The text of an identity: thirty-two hexadecimal digits in five groups
/// with hyphens between them.
pub open spec fn uuid_text(id: u128) -> Seq<char> {
    uuid_digits(id, 32)
}

fn hex_digit_text(value: u128) -> (r: &'static str)
    ensures
        r@ == hex_digit(value),
{
    if value == 0 {
        "0"
    } else if value == 1 {
        "1"
    } else if value == 2 {
        "2"
    } else if value == 3 {
        "3"
    } else if value == 4 {
        "4"
    } else if value == 5 {
        "5"
    } else if value == 6 {
        "6"
    } else if value == 7 {
        "7"
    } else if value == 8 {
        "8"
    } else if value == 9 {
        "9"
    } else if value == 10 {
        "a"
    } else if value == 11 {
        "b"
    } else if value == 12 {
        "c"
    } else if value == 13 {
        "d"
    } else if value == 14 {
        "e"
    } else {
        "f"
    }
}

/// Writes an identity in its hyphenated form.
pub fn format_uuid(id: UserId) -> (text: String)
    ensures
        text@ == uuid_text(id),
{
    let mut text = String::new();
    let mut at: u32 = 0;
    while at < 32
        invariant
            at <= 32,
            text@ == uuid_digits(id, at as nat),
        decreases 32 - at,
    {
        let shift: u32 = (31 - at) * 4;
        let ghost before = text@;
        text = text.concat(hex_digit_text((id >> shift) & 0xf));
        if at == 7 || at == 11 || at == 15 || at == 19 {
            text = text.concat("-");
        } else {
            assert(before + hex_digit((id >> shift) & 0xf) + Seq::<char>::empty() =~= before
                + hex_digit((id >> shift) & 0xf));
        }
        at = at + 1;
    }
    text
}

impl FriendRequestNotification {
    /// The payload as it is written to the channel: an object with the
    /// discriminator under `target` and the identity under `from`, whose
    /// text is `from_text`.
    pub open spec fn spec_payload_with(self, from_text: Seq<char>) -> Seq<char> {
        "{\"target\":\""@ + self.target.spec_target() + "\",\"from\":\""@ + from_text + "\"}"@
    }

    /// The payload, given the text of the identity.
    pub fn payload_with(&self, from_text: &str) -> (r: String)
        ensures
            r@ == self.spec_payload_with(from_text@),
    {
        "{\"target\":\"".to_owned().concat(self.target.target()).concat("\",\"from\":\"").concat(
            from_text,
        ).concat("\"}")
    }

    /// The payload as it is written to the channel.
    pub fn payload(&self) -> (r: String)
        ensures
            r@ == self.spec_payload_with(uuid_text(self.from)),
    {
        let from_text = format_uuid(self.from);
        self.payload_with(from_text.as_str())
    }
}

/// The registry after the channel of `user` took `payload`.
pub open spec fn queued(online: Map<UserId, Presence>, user: UserId, payload: String) -> Map<
    UserId,
    Presence,
> {
    online.insert(user, (Presence { sent: online[user].sent.push(payload), ..online[user] }))
}

/// Changes what `actor` holds toward `target` and, once that is stored,
/// hands the notification of it to the channel of `target` if there is
/// something to tell and they are online. Says whether the channel took
/// it; a target who is not told is no failure.
pub fn post(
    store: &mut RelationStore,
    hub: &mut Hub,
    actor: UserId,
    target: UserId,
    desired: Relation,
    target_exists: bool,
) -> (r: Result<bool, ApiError>)
    requires
        old(hub).wf(),
    ensures
        final(hub).wf(),
        final(store)@ == spec_after(old(store)@, actor, target, desired, target_exists),
        final(hub).sessions() == old(hub).sessions(),
        final(hub).displaced() == old(hub).displaced(),
        match spec_decide(old(store)@, actor, target, desired, target_exists) {
            Err(e) => {
                &&& r is Err
                &&& r->Err_0 == match e {
                    RelationError::SelfRelation => ApiError::BadRequest,
                    RelationError::NotFound => ApiError::NotFound,
                    RelationError::Forbidden => ApiError::Forbidden,
                }
                &&& final(hub).presence() == old(hub).presence()
            },
            Ok(plan) => {
                &&& r is Ok
                &&& r->Ok_0 ==> plan.notice is Some && old(hub).presence().contains_key(target)
                &&& !r->Ok_0 ==> final(hub).presence() == old(hub).presence()
                &&& r->Ok_0 ==> exists|payload: String|
                    #![trigger queued(old(hub).presence(), target, payload)]
                    payload@ == (FriendRequestNotification {
                        target: plan.notice->0,
                        from: actor,
                    }).spec_payload_with(uuid_text(actor)) && final(hub).presence() == queued(
                        old(hub).presence(),
                        target,
                        payload,
                    )
            },
        },
{
    match store.set_relation(actor, target, desired, target_exists) {
        Err(e) => Err(relation_failure(e)),
        Ok(None) => Ok(false),
        Ok(Some(notice)) => {
            let payload = (FriendRequestNotification { target: notice, from: actor }).payload();
            let told = hub.notify(target, payload);
            if told {
                assert(hub.presence() == queued(old(hub).presence(), target, payload));
            }
            Ok(told)
        },
    }
}

} // verus!
