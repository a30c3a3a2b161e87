//! Counters keyed by the client identification that a connection or a
//! request came with.

use dashmap::DashMap;
use vstd::prelude::*;

verus! {

/// `dashmap::DashMap`, held as a value that nothing is seen of.
#[verifier::external_type_specification]
#[verifier::external_body]
#[verifier::reject_recursive_types(K)]
#[verifier::reject_recursive_types(V)]
#[verifier::reject_recursive_types(S)]
pub struct ExDashMap<K, V, S>(DashMap<K, V, S>);

/// The collection that the counts are kept in.
pub type CountMap = DashMap<String, u32>;

/// The count that a map holds for each client identification.
pub uninterp spec fn agent_counts(counts: CountMap) -> Map<Seq<char>, u32>;

/// No identification has a count.
pub open spec fn no_counts() -> Map<Seq<char>, u32> {
    Map::empty()
}

/// The count after one more was counted. A count that has reached the
/// largest value stays there.
pub open spec fn one_more(count: u32) -> u32 {
    if count < u32::MAX {
        (count + 1) as u32
    } else {
        u32::MAX
    }
}

/// The counts after one less was counted for `agent`: the identification
/// is not held any more once nothing is left to count.
pub open spec fn one_less(counts: Map<Seq<char>, u32>, agent: Seq<char>) -> Map<Seq<char>, u32> {
    if counts.contains_key(agent) && counts[agent] > 1 {
        counts.insert(agent, (counts[agent] - 1) as u32)
    } else {
        counts.remove(agent)
    }
}

/// `DashMap::new`: the map that it makes holds nothing.
#[verifier::external_body]
fn counts_new() -> (fresh: CountMap)
    ensures
        agent_counts(fresh) == no_counts(),
{
    DashMap::new()
}

/// `DashMap::get`: a guard over the value stored under the key, or nothing
/// where the map has no such key. The value is copied out of the guard.
#[verifier::external_body]
fn counts_get(counts: &CountMap, agent: &str) -> (count: Option<u32>)
    ensures
        count == if agent_counts(*counts).contains_key(agent@) {
            Some(agent_counts(*counts)[agent@])
        } else {
            None
        },
{
    counts.get(agent).map(|entry| *entry.value())
}

/// `DashMap::insert`: afterwards the key holds the value, whether or not it
/// held one before, and the other keys hold what they held.
#[verifier::external_body]
fn counts_insert(counts: &mut CountMap, agent: String, count: u32)
    ensures
        agent_counts(*final(counts)) == agent_counts(*old(counts)).insert(agent@, count),
{
    counts.insert(agent, count);
}

/// `DashMap::remove`: afterwards the map has no such key, and the other
/// keys hold what they held.
#[verifier::external_body]
fn counts_remove(counts: &mut CountMap, agent: &str)
    ensures
        agent_counts(*final(counts)) == agent_counts(*old(counts)).remove(agent@),
{
    counts.remove(agent);
}

/// Whether `entries` list what `counts` hold: each identification that has
/// a count once, with its count, and nothing else.
pub open spec fn lists_counts(entries: Seq<(String, u32)>, counts: Map<Seq<char>, u32>) -> bool {
    &&& forall|i: int|
        0 <= i < entries.len() ==> counts.contains_key((#[trigger] entries[i]).0@)
            && counts[entries[i].0@] == entries[i].1
    &&& forall|i: int, j: int|
        0 <= i < j < entries.len() ==> (#[trigger] entries[i]).0@ != (#[trigger] entries[j]).0@
    &&& forall|agent: Seq<char>| #[trigger]
        counts.contains_key(agent) ==> exists|i: int|
            0 <= i < entries.len() && (#[trigger] entries[i]).0@ == agent
}

/// `DashMap::iter`: walks over every pair that the map holds, each once,
/// in an order that nothing is known of. The pairs are copied out.
#[verifier::external_body]
fn counts_entries(counts: &CountMap) -> (entries: Vec<(String, u32)>)
    ensures
        lists_counts(entries@, agent_counts(*counts)),
{
    counts.iter().map(|entry| (entry.key().clone(), *entry.value())).collect()
}

/// `DashMap::clear`: afterwards the map holds nothing.
#[verifier::external_body]
fn counts_clear(counts: &mut CountMap)
    ensures
        agent_counts(*final(counts)) == no_counts(),
{
    counts.clear();
}

/// The number of connections, or of requests, seen for each client
/// identification. An identification with no count is not held at all.
pub struct AgentCounters {
    counts: CountMap,
}

impl View for AgentCounters {
    type V = Map<Seq<char>, u32>;

    closed spec fn view(&self) -> Map<Seq<char>, u32> {
        agent_counts(self.counts)
    }
}

impl AgentCounters {
    /// The count held for `agent`, zero where none is held.
    pub open spec fn count_of(&self, agent: Seq<char>) -> u32 {
        if self@.contains_key(agent) {
            self@[agent]
        } else {
            0
        }
    }

    pub fn new() -> (r: Self)
        ensures
            r@ == no_counts(),
    {
        AgentCounters { counts: counts_new() }
    }

    /// The count held for `agent`, zero where none is held.
    pub fn get(&self, agent: &str) -> (r: u32)
        ensures
            r == self.count_of(agent@),
    {
        match counts_get(&self.counts, agent) {
            Some(count) => count,
            None => 0,
        }
    }

    /// The identifications that have a count, each with its count, in no
    /// particular order.
    pub fn entries(&self) -> (r: Vec<(String, u32)>)
        ensures
            lists_counts(r@, self@),
    {
        counts_entries(&self.counts)
    }

    /// Forgets every count.
    pub fn clear(&mut self)
        ensures
            final(self)@ == no_counts(),
    {
        counts_clear(&mut self.counts);
    }

    /// Whether every identification that is held has a count above zero.
    pub open spec fn all_counted(&self) -> bool {
        forall|agent: Seq<char>| self@.contains_key(agent) ==> #[trigger] self@[agent] >= 1
    }

    /// Counts one more for `agent`.
    pub fn increment(&mut self, agent: &str)
        ensures
            final(self)@ == old(self)@.insert(agent@, one_more(old(self).count_of(agent@))),
            old(self).all_counted() ==> final(self).all_counted(),
    {
        let previous = self.get(agent);
        let next = if previous < u32::MAX {
            previous + 1
        } else {
            u32::MAX
        };
        counts_insert(&mut self.counts, agent.to_owned(), next);
    }

    /// Counts one less for `agent`, and drops the identification once
    /// nothing is left to count.
    pub fn decrement(&mut self, agent: &str)
        ensures
            final(self)@ == one_less(old(self)@, agent@),
            old(self).all_counted() ==> final(self).all_counted(),
    {
        let previous = self.get(agent);
        if previous > 1 {
            counts_insert(&mut self.counts, agent.to_owned(), previous - 1);
        } else {
            counts_remove(&mut self.counts, agent);
        }
    }
}

} // verus!
