//! A player's record as the stats service sends it: a tree of values.

use crate::text::same_text;
use vstd::prelude::*;

verus! {

/// A number as it stands in a record. A number with a fraction or an
/// exponent is held by the bits of its double-precision value.
#[derive(Clone, Copy, Debug, PartialEq, Eq, Structural)]
pub enum Number {
    /// A whole number that is not negative.
    Unsigned(u64),
    /// A whole number below zero.
    Negative(i64),
    /// Any other number.
    Float(u64),
}

/// One value of a record.
#[derive(Debug)]
pub enum Json {
    Null,
    Bool(bool),
    Number(Number),
    Text(String),
    List(Vec<Json>),
    /// The members of an object. An object as it is read from text holds
    /// each name at most once: see `distinct_names`.
    Object(Vec<(String, Json)>),
}

/// Whether no name occurs twice among the members.
pub open spec fn distinct_names(members: Seq<(String, Json)>) -> bool {
    forall|i: int, j: int|
        0 <= i < j < members.len() ==> (#[trigger] members[i]).0@ != (#[trigger] members[j]).0@
}

/// The value of the first member of the given name.
pub open spec fn member(members: Seq<(String, Json)>, name: Seq<char>) -> Option<Json>
    decreases members.len(),
{
    if members.len() == 0 {
        None
    } else if members[0].0@ == name {
        Some(members[0].1)
    } else {
        member(members.subrange(1, members.len() as int), name)
    }
}

impl Json {
    /// What an object holds under `name`. Anything but an object holds
    /// nothing.
    pub open spec fn spec_get(self, name: Seq<char>) -> Option<Json> {
        match self {
            Json::Object(members) => member(members@, name),
            _ => None,
        }
    }

    /// The whole number that the value is, where it is one that is not
    /// negative.
    pub open spec fn spec_as_u64(self) -> Option<u64> {
        match self {
            Json::Number(Number::Unsigned(n)) => Some(n),
            _ => None,
        }
    }

    /// The whole number that the value is, where it is one that a signed
    /// number can hold.
    pub open spec fn spec_as_i64(self) -> Option<i64> {
        match self {
            Json::Number(Number::Unsigned(n)) => if n <= i64::MAX {
                Some(n as i64)
            } else {
                None
            },
            Json::Number(Number::Negative(n)) => Some(n),
            _ => None,
        }
    }

    /// The text that the value is, where it is text.
    pub open spec fn spec_as_str(self) -> Option<Seq<char>> {
        match self {
            Json::Text(text) => Some(text@),
            _ => None,
        }
    }

    pub fn get(&self, name: &str) -> (r: Option<&Json>)
        ensures
            match r {
                Some(value) => self.spec_get(name@) == Some(*value),
                None => self.spec_get(name@) is None,
            },
    {
        match self {
            Json::Object(members) => {
                let mut i: usize = 0;
                assert(members@.subrange(0, members@.len() as int) =~= members@);
                while i < members.len()
                    invariant
                        i <= members.len(),
                        self.spec_get(name@) == member(members@, name@),
                        member(members@, name@) == member(
                            members@.subrange(i as int, members@.len() as int),
                            name@,
                        ),
                    decreases members.len() - i,
                {
                    let ghost rest = members@.subrange(i as int, members@.len() as int);
                    assert(rest[0] == members@[i as int]);
                    assert(rest.subrange(1, rest.len() as int) =~= members@.subrange(
                        i + 1,
                        members@.len() as int,
                    ));
                    if same_text(members[i].0.as_str(), name) {
                        assert(member(rest, name@) == Some(rest[0].1));
                        return Some(&members[i].1);
                    }
                    assert(member(rest, name@) == member(
                        rest.subrange(1, rest.len() as int),
                        name@,
                    ));
                    i = i + 1;
                }
                None
            },
            _ => None,
        }
    }

    pub fn as_u64(&self) -> (r: Option<u64>)
        ensures
            r == self.spec_as_u64(),
    {
        match self {
            Json::Number(Number::Unsigned(n)) => Some(*n),
            _ => None,
        }
    }

    pub fn as_i64(&self) -> (r: Option<i64>)
        ensures
            r == self.spec_as_i64(),
    {
        match self {
            Json::Number(Number::Unsigned(n)) => if *n <= 0x7fff_ffff_ffff_ffff {
                Some(*n as i64)
            } else {
                None
            },
            Json::Number(Number::Negative(n)) => Some(*n),
            _ => None,
        }
    }

    pub fn as_str(&self) -> (r: Option<&str>)
        ensures
            match r {
                Some(text) => self.spec_as_str() == Some(text@),
                None => self.spec_as_str() is None,
            },
    {
        match self {
            Json::Text(text) => Some(text.as_str()),
            _ => None,
        }
    }

    /// Whether the value, if it is an object, holds each name at most once.
    pub open spec fn spec_names_distinct(self) -> bool {
        match self {
            Json::Object(members) => distinct_names(members@),
            _ => true,
        }
    }

    /// Whether the value, if it is an object, holds each name at most once.
    pub fn names_distinct(&self) -> (r: bool)
        ensures
            r == self.spec_names_distinct(),
    {
        match self {
            Json::Object(members) => {
                let mut j: usize = 0;
                while j < members.len()
                    invariant
                        j <= members.len(),
                        self.spec_names_distinct() == distinct_names(members@),
                        forall|a: int, b: int|
                            0 <= a < b < j ==> (#[trigger] members@[a]).0@ != (
                            #[trigger] members@[b]).0@,
                    decreases members.len() - j,
                {
                    let mut i: usize = 0;
                    while i < j
                        invariant
                            i <= j < members.len(),
                            self.spec_names_distinct() == distinct_names(members@),
                            forall|a: int| 0 <= a < i ==> (#[trigger] members@[a]).0@ != members@[j as int].0@,
                        decreases j - i,
                    {
                        if same_text(members[i].0.as_str(), members[j].0.as_str()) {
                            assert(members@[i as int].0@ == members@[j as int].0@);
                            return false;
                        }
                        i = i + 1;
                    }
                    j = j + 1;
                }
                true
            },
            _ => true,
        }
    }

    /// Whether the value is an object.
    pub fn is_object(&self) -> (r: bool)
        ensures
            r == (self is Object),
    {
        match self {
            Json::Object(_) => true,
            _ => false,
        }
    }
}

/// The whole number under `name` in `object`, zero where there is none.
pub open spec fn spec_count(object: Option<Json>, name: Seq<char>) -> u64 {
    match object {
        Some(value) => match value.spec_get(name) {
            Some(found) => match found.spec_as_u64() {
                Some(n) => n,
                None => 0,
            },
            None => 0,
        },
        None => 0,
    }
}

/// The whole number under `name` in `object`, zero where there is none.
pub fn count(object: Option<&Json>, name: &str) -> (r: u64)
    ensures
        r == spec_count(
            match object {
                Some(value) => Some(*value),
                None => None,
            },
            name@,
        ),
{
    match object {
        Some(value) => match value.get(name) {
            Some(found) => match found.as_u64() {
                Some(n) => n,
                None => 0,
            },
            None => 0,
        },
        None => 0,
    }
}

/// Bytes counted for a cached record before its values are looked at: the
/// key and the root value.
pub const ENTRY_OVERHEAD: u32 = 48;

/// Bytes counted for each item of a list.
pub const ITEM_SIZE: u32 = 32;

/// Bytes counted for each member of an object, besides its name.
pub const MEMBER_SIZE: u32 = 56;

/// The bytes that the values below `json` take up, by the count above: the
/// length of each text, the items of each list and the members and names
/// of each object.
pub open spec fn spec_size(json: Json) -> nat
    decreases json, 0nat,
{
    match json {
        Json::Text(text) => text@.len(),
        Json::List(items) => (ITEM_SIZE * items@.len() + spec_items_size(items, items@.len())) as nat,
        Json::Object(members) => (MEMBER_SIZE * members@.len() + spec_members_size(
            members,
            members@.len(),
        )) as nat,
        _ => 0,
    }
}

/// The bytes that the values below the first `n` items take up.
pub open spec fn spec_items_size(items: Vec<Json>, n: nat) -> nat
    decreases items, n,
{
    if n == 0 || n > items@.len() {
        0
    } else {
        spec_items_size(items, (n - 1) as nat) + spec_size(items@[n - 1])
    }
}

/// The bytes that the names of the first `n` members and the values below
/// them take up.
pub open spec fn spec_members_size(members: Vec<(String, Json)>, n: nat) -> nat
    decreases members, n,
{
    if n == 0 || n > members@.len() {
        0
    } else {
        spec_members_size(members, (n - 1) as nat) + members@[n - 1].0@.len() + spec_size(
            members@[n - 1].1,
        )
    }
}

/// The weight of `size` bytes beyond the overhead, as far as a weight can
/// count.
pub open spec fn spec_capped(size: int) -> u32 {
    if size > u32::MAX {
        u32::MAX
    } else {
        size as u32
    }
}

fn capped_add(a: u32, b: u32) -> (r: u32)
    ensures
        r == spec_capped(a + b),
{
    if b > u32::MAX - a {
        u32::MAX
    } else {
        a + b
    }
}

fn capped_len(n: usize) -> (r: u32)
    ensures
        r == spec_capped(n as int),
{
    if n > 0xffff_ffff {
        u32::MAX
    } else {
        n as u32
    }
}

fn capped_times(unit: u32, n: usize) -> (r: u32)
    requires
        unit <= 64,
    ensures
        r == spec_capped(unit * n),
{
    assert(unit * n <= 64 * 0xffff_ffff_ffff_ffff) by (nonlinear_arith)
        requires
            unit <= 64,
            n <= 0xffff_ffff_ffff_ffff,
    ;
    let product: u128 = (unit as u128) * (n as u128);
    if product > 0xffff_ffff {
        u32::MAX
    } else {
        product as u32
    }
}

impl Json {
    /// The bytes that the values below this one take up, as far as a weight
    /// can count.
    pub fn size(&self) -> (r: u32)
        ensures
            r == spec_capped(spec_size(*self) as int),
        decreases self,
    {
        match self {
            Json::Text(text) => capped_len(text.as_str().unicode_len()),
            Json::List(items) => {
                let mut sum: u32 = 0;
                let mut i: usize = 0;
                while i < items.len()
                    invariant
                        i <= items.len(),
                        *self == Json::List(*items),
                        decreases_to!(*self => *items),
                        sum == spec_capped(spec_items_size(*items, i as nat) as int),
                    decreases items.len() - i,
                {
                    assert(decreases_to!(*items => items@[i as int]));
                    assert(decreases_to!(*self => items@[i as int]));
                    let item = items[i].size();
                    sum = capped_add(sum, item);
                    i = i + 1;
                }
                capped_add(capped_times(ITEM_SIZE, items.len()), sum)
            },
            Json::Object(members) => {
                let mut sum: u32 = 0;
                let mut i: usize = 0;
                while i < members.len()
                    invariant
                        i <= members.len(),
                        *self == Json::Object(*members),
                        decreases_to!(*self => *members),
                        sum == spec_capped(spec_members_size(*members, i as nat) as int),
                    decreases members.len() - i,
                {
                    let name = capped_len(members[i].0.as_str().unicode_len());
                    assert(decreases_to!(*members => members@[i as int]));
                    assert(decreases_to!(members@[i as int] => members@[i as int].1));
                    assert(decreases_to!(*self => members@[i as int].1));
                    let value = members[i].1.size();
                    sum = capped_add(capped_add(sum, name), value);
                    i = i + 1;
                }
                capped_add(capped_times(MEMBER_SIZE, members.len()), sum)
            },
            _ => 0,
        }
    }

    /// The weight of this record in the cache: the overhead and the bytes
    /// that its values take up.
    pub fn weight(&self) -> (r: u32)
        ensures
            r == spec_capped(ENTRY_OVERHEAD + spec_size(*self)),
    {
        capped_add(ENTRY_OVERHEAD, self.size())
    }
}

} // verus!
