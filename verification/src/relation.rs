//! Directed relations between pairs of users, and the rules by which one
//! user may change the relation they hold toward another.

use vstd::prelude::*;

verus! {

/// The identity of a user: an opaque 128-bit value.
pub type UserId = u128;

/// What one user has recorded toward another. The variants are listed from
/// least to most friendly.
#[derive(Clone, Copy, Debug, PartialEq, Eq, Structural)]
pub enum Relation {
    Blocked,
    Unrelated,
    Request,
    Friend,
}

impl Relation {
    /// Position in the friendliness ordering.
    pub open spec fn rank(self) -> nat {
        match self {
            Relation::Blocked => 0,
            Relation::Unrelated => 1,
            Relation::Request => 2,
            Relation::Friend => 3,
        }
    }

    /// Whether this relation is friendlier than having none.
    pub fn exceeds_none(self) -> (r: bool)
        ensures
            r == (self.rank() > Relation::Unrelated.rank()),
            r == (self == Relation::Request || self == Relation::Friend),
    {
        match self {
            Relation::Request | Relation::Friend => true,
            _ => false,
        }
    }
}

/// Why a change of relation was refused.
#[derive(Clone, Copy, Debug, PartialEq, Eq, Structural)]
pub enum RelationError {
    /// The actor named themselves as the target.
    SelfRelation,
    /// A fresh request was addressed to a user that does not exist.
    NotFound,
    /// The transition table does not allow the change.
    Forbidden,
}

/// What the target of a change is told once the change is stored.
#[derive(Clone, Copy, Debug, PartialEq, Eq, Structural)]
pub enum RelationNotice {
    /// Somebody asked to become a friend.
    FriendRequest,
    /// A request the target sent earlier was accepted.
    FriendRequestAccept,
    /// A request was withdrawn or turned down.
    FriendRequestDeny,
}

impl RelationNotice {
    /// The discriminator that the notification payload carries.
    pub open spec fn spec_target(self) -> Seq<char> {
        match self {
            RelationNotice::FriendRequest => "friend_request"@,
            RelationNotice::FriendRequestAccept => "friend_request_accept"@,
            RelationNotice::FriendRequestDeny => "friend_request_deny"@,
        }
    }

    pub fn target(self) -> (r: &'static str)
        ensures
            r@ == self.spec_target(),
    {
        match self {
            RelationNotice::FriendRequest => "friend_request",
            RelationNotice::FriendRequestAccept => "friend_request_accept",
            RelationNotice::FriendRequestDeny => "friend_request_deny",
        }
    }
}

/// The writes and the notice that one accepted change amounts to. A field
/// that is `None` leaves its row untouched; `Some(Relation::Unrelated)`
/// deletes the row.
#[derive(Clone, Copy, Debug, PartialEq, Eq, Structural)]
pub struct Plan {
    /// New state of the row from the actor to the target.
    pub forward: Option<Relation>,
    /// New state of the row from the target to the actor.
    pub reverse: Option<Relation>,
    /// What the target is told after the writes are committed.
    pub notice: Option<RelationNotice>,
}

pub open spec fn befriend() -> Plan {
    Plan {
        forward: Some(Relation::Friend),
        reverse: Some(Relation::Friend),
        notice: Some(RelationNotice::FriendRequestAccept),
    }
}

pub open spec fn leave_as_is() -> Plan {
    Plan { forward: None, reverse: None, notice: None }
}

/// The transition table. `reverse` is what the target currently holds
/// toward the actor.
pub open spec fn spec_plan(desired: Relation, reverse: Relation, target_exists: bool) -> Result<
    Plan,
    RelationError,
> {
    match (desired, reverse) {
        (Relation::Blocked, _) => Ok(
            Plan {
                forward: Some(Relation::Blocked),
                reverse: if reverse.rank() > Relation::Unrelated.rank() {
                    Some(Relation::Unrelated)
                } else {
                    None
                },
                notice: None,
            },
        ),
        (_, Relation::Blocked) => Err(RelationError::Forbidden),
        (Relation::Unrelated, Relation::Unrelated) => Ok(
            Plan { forward: Some(Relation::Unrelated), reverse: None, notice: None },
        ),
        (Relation::Unrelated, Relation::Request) => Ok(
            Plan {
                forward: Some(Relation::Unrelated),
                reverse: Some(Relation::Unrelated),
                notice: Some(RelationNotice::FriendRequestDeny),
            },
        ),
        (Relation::Unrelated, Relation::Friend) => Ok(
            Plan {
                forward: Some(Relation::Unrelated),
                reverse: Some(Relation::Unrelated),
                notice: None,
            },
        ),
        (Relation::Request, Relation::Unrelated) => if target_exists {
            Ok(
                Plan {
                    forward: Some(Relation::Request),
                    reverse: None,
                    notice: Some(RelationNotice::FriendRequest),
                },
            )
        } else {
            Err(RelationError::NotFound)
        },
        (Relation::Friend, Relation::Unrelated) => Err(RelationError::Forbidden),
        (_, Relation::Request) => Ok(befriend()),
        (_, Relation::Friend) => Ok(leave_as_is()),
    }
}

/// Decides what a change amounts to, from the desired relation and what the
/// target holds toward the actor.
pub fn plan(desired: Relation, reverse: Relation, target_exists: bool) -> (r: Result<
    Plan,
    RelationError,
>)
    ensures
        r == spec_plan(desired, reverse, target_exists),
{
    let both_friends = Plan {
        forward: Some(Relation::Friend),
        reverse: Some(Relation::Friend),
        notice: Some(RelationNotice::FriendRequestAccept),
    };
    let nothing = Plan { forward: None, reverse: None, notice: None };
    match desired {
        Relation::Blocked => {
            let reverse_write = if reverse.exceeds_none() {
                Some(Relation::Unrelated)
            } else {
                None
            };
            Ok(Plan { forward: Some(Relation::Blocked), reverse: reverse_write, notice: None })
        },
        Relation::Unrelated => match reverse {
            Relation::Blocked => Err(RelationError::Forbidden),
            Relation::Unrelated => Ok(
                Plan { forward: Some(Relation::Unrelated), reverse: None, notice: None },
            ),
            Relation::Request => Ok(
                Plan {
                    forward: Some(Relation::Unrelated),
                    reverse: Some(Relation::Unrelated),
                    notice: Some(RelationNotice::FriendRequestDeny),
                },
            ),
            Relation::Friend => Ok(
                Plan {
                    forward: Some(Relation::Unrelated),
                    reverse: Some(Relation::Unrelated),
                    notice: None,
                },
            ),
        },
        Relation::Request => match reverse {
            Relation::Blocked => Err(RelationError::Forbidden),
            Relation::Unrelated => {
                if !target_exists {
                    return Err(RelationError::NotFound);
                }
                Ok(
                    Plan {
                        forward: Some(Relation::Request),
                        reverse: None,
                        notice: Some(RelationNotice::FriendRequest),
                    },
                )
            },
            Relation::Request => Ok(both_friends),
            Relation::Friend => Ok(nothing),
        },
        Relation::Friend => match reverse {
            Relation::Blocked | Relation::Unrelated => Err(RelationError::Forbidden),
            Relation::Request => Ok(both_friends),
            Relation::Friend => Ok(nothing),
        },
    }
}

/// All relations, as a map from `(from, to)` to the state held. A pair with
/// no stored row maps to `Relation::Unrelated`.
pub type Relations = Map<(UserId, UserId), Relation>;

/// The map in which nobody is related to anybody.
pub open spec fn no_relations() -> Relations {
    Map::total(|k: (UserId, UserId)| Relation::Unrelated)
}

/// What a call of `set_relation` decides on the relations `before`.
pub open spec fn spec_decide(
    before: Relations,
    actor: UserId,
    target: UserId,
    desired: Relation,
    target_exists: bool,
) -> Result<Plan, RelationError> {
    if actor == target {
        Err(RelationError::SelfRelation)
    } else {
        spec_plan(desired, before[(target, actor)], target_exists)
    }
}

/// The relations after the writes of `plan`.
pub open spec fn apply_plan(before: Relations, actor: UserId, target: UserId, plan: Plan) -> Relations {
    let forward = match plan.forward {
        Some(state) => before.insert((actor, target), state),
        None => before,
    };
    match plan.reverse {
        Some(state) => forward.insert((target, actor), state),
        None => forward,
    }
}

/// The relations after a call of `set_relation`: unchanged where the call is
/// refused.
pub open spec fn spec_after(
    before: Relations,
    actor: UserId,
    target: UserId,
    desired: Relation,
    target_exists: bool,
) -> Relations {
    match spec_decide(before, actor, target, desired, target_exists) {
        Ok(plan) => apply_plan(before, actor, target, plan),
        Err(_) => before,
    }
}

/// The states that two users may hold toward each other at the same time.
pub open spec fn coherent_pair(there: Relation, back: Relation) -> bool {
    match there {
        Relation::Friend => back == Relation::Friend,
        Relation::Request => back == Relation::Unrelated,
        Relation::Blocked => back == Relation::Unrelated || back == Relation::Blocked,
        Relation::Unrelated => back != Relation::Friend,
    }
}

/// Every pair of distinct users holds coherent states, and nobody is related
/// to themselves.
pub open spec fn coherent(relations: Relations) -> bool {
    &&& forall|a: UserId, b: UserId|
        a != b ==> coherent_pair(#[trigger] relations[(a, b)], relations[(b, a)])
    &&& forall|a: UserId| #[trigger] relations[(a, a)] == Relation::Unrelated
}

/// One stored relation.
#[derive(Clone, Copy, Debug)]
pub struct RelationRow {
    pub from: UserId,
    pub to: UserId,
    pub state: Relation,
}

/// The state that the latest row for `(from, to)` holds.
pub open spec fn lookup(rows: Seq<RelationRow>, from: UserId, to: UserId) -> Relation
    decreases rows.len(),
{
    if rows.len() == 0 {
        Relation::Unrelated
    } else if rows.last().from == from && rows.last().to == to {
        rows.last().state
    } else {
        lookup(rows.drop_last(), from, to)
    }
}

/// A row added at the end decides the lookup of its own pair and of no other.
proof fn lemma_lookup_push(rows: Seq<RelationRow>, row: RelationRow, from: UserId, to: UserId)
    ensures
        lookup(rows.push(row), from, to) == if row.from == from && row.to == to {
            row.state
        } else {
            lookup(rows, from, to)
        },
{
    assert(rows.push(row).drop_last() =~= rows);
    assert(rows.push(row).last() == row);
}

/// The relations between users, one row for each ordered pair that holds one.
pub struct RelationStore {
    rows: Vec<RelationRow>,
}

impl View for RelationStore {
    type V = Relations;

    closed spec fn view(&self) -> Relations {
        Map::total(|k: (UserId, UserId)| lookup(self.rows@, k.0, k.1))
    }
}

impl RelationStore {
    pub fn new() -> (r: Self)
        ensures
            r@ == no_relations(),
    {
        let r = RelationStore { rows: Vec::new() };
        assert(r@ =~= no_relations());
        r
    }

    /// What `from` holds toward `to`.
    pub fn get(&self, from: UserId, to: UserId) -> (r: Relation)
        ensures
            r == self@[(from, to)],
    {
        let mut i: usize = self.rows.len();
        assert(self.rows@.subrange(0, i as int) =~= self.rows@);
        while i > 0
            invariant
                i <= self.rows.len(),
                lookup(self.rows@, from, to) == lookup(self.rows@.subrange(0, i as int), from, to),
            decreases i,
        {
            i = i - 1;
            assert(self.rows@.subrange(0, i + 1).drop_last() =~= self.rows@.subrange(0, i as int));
            if self.rows[i].from == from && self.rows[i].to == to {
                return self.rows[i].state;
            }
        }
        Relation::Unrelated
    }

    /// Stores `state` for `(from, to)`, dropping the row where the state is
    /// `Relation::Unrelated`.
    fn put(&mut self, from: UserId, to: UserId, state: Relation)
        ensures
            final(self)@ == old(self)@.insert((from, to), state),
    {
        let mut kept: Vec<RelationRow> = Vec::new();
        let mut i: usize = 0;
        assert(self.rows@.subrange(0, 0) =~= Seq::<RelationRow>::empty());
        while i < self.rows.len()
            invariant
                i <= self.rows.len(),
                forall|f: UserId, t: UserId|
                    !(f == from && t == to) ==> #[trigger] lookup(kept@, f, t) == lookup(
                        self.rows@.subrange(0, i as int),
                        f,
                        t,
                    ),
                lookup(kept@, from, to) == Relation::Unrelated,
            decreases self.rows.len() - i,
        {
            let row = self.rows[i];
            let ghost kept_before = kept@;
            let ghost seen = self.rows@.subrange(0, i as int);
            assert(self.rows@.subrange(0, i + 1) =~= seen.push(row));
            if !(row.from == from && row.to == to) {
                kept.push(row);
            }
            proof {
                assert forall|f: UserId, t: UserId| !(f == from && t == to) implies #[trigger] lookup(
                    kept@,
                    f,
                    t,
                ) == lookup(seen.push(row), f, t) by {
                    lemma_lookup_push(seen, row, f, t);
                    lemma_lookup_push(kept_before, row, f, t);
                }
                lemma_lookup_push(kept_before, row, from, to);
            }
            i = i + 1;
        }
        assert(self.rows@.subrange(0, i as int) =~= self.rows@);
        let ghost kept_before = kept@;
        let fresh = RelationRow { from, to, state };
        if state != Relation::Unrelated {
            kept.push(fresh);
        }
        proof {
            assert forall|f: UserId, t: UserId| #[trigger]
                lookup(kept@, f, t) == old(self)@.insert((from, to), state)[(f, t)] by {
                lemma_lookup_push(kept_before, fresh, f, t);
            }
        }
        self.rows = kept;
        assert(self@ =~= old(self)@.insert((from, to), state));
    }

    /// Changes what `actor` holds toward `target` to `desired`, by the
    /// transition table, and says what `target` is to be told.
    pub fn set_relation(
        &mut self,
        actor: UserId,
        target: UserId,
        desired: Relation,
        target_exists: bool,
    ) -> (r: Result<Option<RelationNotice>, RelationError>)
        ensures
            final(self)@ == spec_after(old(self)@, actor, target, desired, target_exists),
            match spec_decide(old(self)@, actor, target, desired, target_exists) {
                Ok(plan) => r == Ok::<Option<RelationNotice>, RelationError>(plan.notice),
                Err(e) => r == Err::<Option<RelationNotice>, RelationError>(e),
            },
            coherent(old(self)@) ==> coherent(final(self)@),
    {
        if actor == target {
            return Err(RelationError::SelfRelation);
        }
        let reverse = self.get(target, actor);
        match plan(desired, reverse, target_exists) {
            Err(e) => Err(e),
            Ok(plan) => {
                if let Some(state) = plan.forward {
                    self.put(actor, target, state);
                }
                if let Some(state) = plan.reverse {
                    self.put(target, actor, state);
                }
                proof {
                    if coherent(old(self)@) {
                        law_coherence_is_kept(old(self)@, actor, target, desired, target_exists);
                    }
                }
                Ok(plan.notice)
            },
        }
    }
}

/// Coherent relations stay coherent under every call of `set_relation`.
pub proof fn law_coherence_is_kept(
    before: Relations,
    actor: UserId,
    target: UserId,
    desired: Relation,
    target_exists: bool,
)
    requires
        coherent(before),
    ensures
        coherent(spec_after(before, actor, target, desired, target_exists)),
{
    let after = spec_after(before, actor, target, desired, target_exists);
    if actor != target {
        assert(coherent_pair(before[(actor, target)], before[(target, actor)]));
        assert(coherent_pair(before[(target, actor)], before[(actor, target)]));
        assert forall|a: UserId, b: UserId| a != b implies coherent_pair(
            #[trigger] after[(a, b)],
            after[(b, a)],
        ) by {
            assert(coherent_pair(before[(a, b)], before[(b, a)]));
        }
        assert forall|a: UserId| #[trigger] after[(a, a)] == Relation::Unrelated by {
            assert(before[(a, a)] == Relation::Unrelated);
        }
    }
}

/// Two users who each ask the other for friendship end up as friends of
/// each other. The first to ask has the other told of a request, the second
/// has the first told that it was accepted, and nothing else is sent.
pub proof fn law_crossing_requests_make_friends(before: Relations, a: UserId, b: UserId)
    requires
        a != b,
        before[(b, a)] == Relation::Unrelated,
    ensures
        spec_decide(before, a, b, Relation::Request, true) matches Ok(first)
            && first.notice == Some(RelationNotice::FriendRequest),
        ({
            let between = spec_after(before, a, b, Relation::Request, true);
            let after = spec_after(between, b, a, Relation::Request, true);
            &&& spec_decide(between, b, a, Relation::Request, true) matches Ok(second)
                && second.notice == Some(RelationNotice::FriendRequestAccept)
            &&& after[(a, b)] == Relation::Friend
            &&& after[(b, a)] == Relation::Friend
        }),
{
}

/// Whoever has been blocked cannot make a friend of the one who blocked them.
pub proof fn law_blocked_cannot_befriend(
    before: Relations,
    a: UserId,
    b: UserId,
    target_exists: bool,
)
    requires
        a != b,
    ensures
        spec_decide(before, a, b, Relation::Blocked, target_exists) is Ok,
        ({
            let between = spec_after(before, a, b, Relation::Blocked, target_exists);
            &&& spec_decide(between, b, a, Relation::Friend, target_exists) == Err::<
                Plan,
                RelationError,
            >(RelationError::Forbidden)
            &&& spec_after(between, b, a, Relation::Friend, target_exists) == between
        }),
{
}

/// A change that was accepted is accepted again when it is repeated at once,
/// and the repeat alters nothing. The repeat has the target told something
/// only where it renews a request that is still unanswered.
pub proof fn law_repeat_changes_nothing(
    before: Relations,
    actor: UserId,
    target: UserId,
    desired: Relation,
    target_exists: bool,
)
    requires
        spec_decide(before, actor, target, desired, target_exists) is Ok,
    ensures
        ({
            let between = spec_after(before, actor, target, desired, target_exists);
            &&& spec_decide(between, actor, target, desired, target_exists) matches Ok(again) && (
            again.notice is Some ==> desired == Relation::Request && between[(target, actor)]
                == Relation::Unrelated)
            &&& spec_after(between, actor, target, desired, target_exists) == between
        }),
{
    let between = spec_after(before, actor, target, desired, target_exists);
    assert(spec_after(between, actor, target, desired, target_exists) =~= between);
}

} // verus!
