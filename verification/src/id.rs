//! Identifiers for stored items: unique across the threads of one process,
//! and growing with the time at which they were made.

use vstd::prelude::*;

verus! {

/// How many threads may make identifiers.
pub const MAX_THREADS: u8 = 32;

/// How many identifiers one thread may make before its counter starts over.
pub const COUNTER_PERIOD: u16 = 4096;

/// An identifier: the time in milliseconds in the high bits, then the
/// thread's number, then the thread's counter in the lowest twelve bits.
#[derive(Clone, Copy, Debug, PartialEq, Eq, Structural)]
pub struct Id(pub u64);

/// The identifier made of the three parts. Bits of the time that do not fit
/// above the other two parts are lost.
pub open spec fn spec_compose(millis: u64, thread: u8, counter: u16) -> u64 {
    (millis << 22) | ((thread as u64) << 12) | (counter as u64)
}

impl Id {
    pub fn compose(millis: u64, thread: u8, counter: u16) -> (r: Id)
        requires
            thread < MAX_THREADS,
            counter < COUNTER_PERIOD,
        ensures
            r.0 == spec_compose(millis, thread, counter),
            r.counter_part() == counter,
            r.thread_part() == thread,
            millis < 0x400_0000_0000 ==> r.millis_part() == millis,
    {
        let r = Id((millis << 22) | ((thread as u64) << 12) | (counter as u64));
        assert(((millis << 22) | ((thread as u64) << 12) | (counter as u64)) & 0xfff
            == counter as u64) by (bit_vector)
            requires
                thread < 32,
                counter < 4096,
        ;
        assert((((millis << 22) | ((thread as u64) << 12) | (counter as u64)) >> 12) & 0x3ff
            == thread as u64) by (bit_vector)
            requires
                thread < 32,
                counter < 4096,
        ;
        assert(millis < 0x400_0000_0000 ==> ((millis << 22) | ((thread as u64) << 12) | (
        counter as u64)) >> 22 == millis) by (bit_vector)
            requires
                thread < 32,
                counter < 4096,
        ;
        r
    }

    /// The counter that the identifier was made with.
    pub open spec fn counter_part(self) -> u64 {
        self.0 & 0xfff
    }

    /// The number of the thread that made the identifier.
    pub open spec fn thread_part(self) -> u64 {
        (self.0 >> 12) & 0x3ff
    }

    /// The time at which the identifier was made.
    pub open spec fn millis_part(self) -> u64 {
        self.0 >> 22
    }

    /// Makes the next identifier of `source`, for the time `millis`.
    pub fn new(source: &mut IdSource, millis: u64) -> (r: Id)
        ensures
            r.0 == spec_compose(millis, old(source).thread(), old(source).counter()),
            final(source).thread() == old(source).thread(),
            final(source).counter() == if old(source).counter() + 1 == COUNTER_PERIOD {
                0
            } else {
                old(source).counter() + 1
            },
    {
        source.next(millis)
    }

    pub fn value(&self) -> (r: u64)
        ensures
            r == self.0,
    {
        self.0
    }
}

/// One thread's source of identifiers.
pub struct IdSource {
    thread: u8,
    counter: u16,
}

impl IdSource {
    pub closed spec fn thread(&self) -> u8 {
        self.thread
    }

    pub closed spec fn counter(&self) -> u16 {
        self.counter
    }

    #[verifier::type_invariant]
    spec fn in_range(&self) -> bool {
        self.thread < MAX_THREADS && self.counter < COUNTER_PERIOD
    }

    /// A source for the thread of the given number, or nothing where the
    /// number is beyond those that fit into an identifier.
    pub fn new(thread: u8) -> (r: Option<IdSource>)
        ensures
            match r {
                Some(source) => thread < MAX_THREADS && source.thread() == thread
                    && source.counter() == 0,
                None => thread >= MAX_THREADS,
            },
    {
        if thread < MAX_THREADS {
            Some(IdSource { thread, counter: 0 })
        } else {
            None
        }
    }

    /// Makes the next identifier, for the time `millis`, and moves the
    /// counter on.
    pub fn next(&mut self, millis: u64) -> (r: Id)
        ensures
            r.0 == spec_compose(millis, old(self).thread(), old(self).counter()),
            final(self).thread() == old(self).thread(),
            final(self).counter() == if old(self).counter() + 1 == COUNTER_PERIOD {
                0
            } else {
                old(self).counter() + 1
            },
    {
        proof {
            use_type_invariant(&*self);
        }
        let r = Id::compose(millis, self.thread, self.counter);
        let next: u16 = if self.counter + 1 == COUNTER_PERIOD {
            0
        } else {
            self.counter + 1
        };
        self.counter = next;
        r
    }
}

/// Identifiers that one thread makes at one time differ as long as their
/// counters differ, and identifiers of different threads always differ.
pub proof fn law_ids_differ(millis: u64, thread_a: u8, counter_a: u16, thread_b: u8, counter_b: u16)
    requires
        thread_a < MAX_THREADS,
        thread_b < MAX_THREADS,
        counter_a < COUNTER_PERIOD,
        counter_b < COUNTER_PERIOD,
        thread_a != thread_b || counter_a != counter_b,
    ensures
        spec_compose(millis, thread_a, counter_a) != spec_compose(millis, thread_b, counter_b),
{
    assert(((millis << 22) | ((thread_a as u64) << 12) | (counter_a as u64)) != ((millis << 22) | ((
    thread_b as u64) << 12) | (counter_b as u64))) by (bit_vector)
        requires
            thread_a < 32,
            thread_b < 32,
            counter_a < 4096,
            counter_b < 4096,
            thread_a != thread_b || counter_a != counter_b,
    ;
}

} // verus!
