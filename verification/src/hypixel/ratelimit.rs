//! The budget of calls that the stats service grants, as it last reported
//! it, and the rule by which a call is let through or held back.

use vstd::prelude::*;

verus! {

/// At or below this many calls left the budget counts as refilled once the
/// time of its reset has passed.
pub const LOW_WATERMARK: u64 = 2;

/// With fewer calls left than this no call is made.
pub const RESERVE_THRESHOLD: u64 = 2;

/// The budget: `limit` calls for each window, `remaining` of them left in
/// the current one, which ends at `reset_at`, in seconds since the Unix
/// epoch.
#[derive(Clone, Copy, Debug, PartialEq, Eq, Structural)]
pub struct RateLimitWindow {
    pub limit: u64,
    pub remaining: u64,
    pub reset_at: u64,
}

/// No call is made before the given time, in seconds since the Unix epoch.
#[derive(Clone, Copy, Debug, PartialEq, Eq, Structural)]
pub struct RateLimited {
    pub retry_after: u64,
}

/// The budget as it counts at the time `now`: refilled where it is low and
/// the time of its reset has passed.
pub open spec fn spec_refilled(window: RateLimitWindow, now: u64) -> RateLimitWindow {
    if window.remaining <= LOW_WATERMARK && now > window.reset_at {
        RateLimitWindow { remaining: window.limit, ..window }
    } else {
        window
    }
}

/// Whether a call may be made at the time `now`.
pub open spec fn spec_admits(window: RateLimitWindow, now: u64) -> bool {
    spec_refilled(window, now).remaining >= RESERVE_THRESHOLD
}

/// The budget that an answer of the stats service reports at the time
/// `now`: the reset is reported in seconds from then.
pub open spec fn spec_reported(limit: u64, remaining: u64, reset_in: u64, now: u64) -> RateLimitWindow {
    RateLimitWindow {
        limit,
        remaining,
        reset_at: if now + reset_in > u64::MAX {
            u64::MAX
        } else {
            (now + reset_in) as u64
        },
    }
}

impl RateLimitWindow {
    /// The budget that is assumed before the stats service has reported one.
    pub fn new() -> (r: RateLimitWindow)
        ensures
            r == (RateLimitWindow { limit: 10, remaining: 10, reset_at: 60 }),
    {
        RateLimitWindow { limit: 10, remaining: 10, reset_at: 60 }
    }

    /// Decides at the time `now` whether one call may be made. The budget is
    /// refilled first where that is due; a call that is held back is told
    /// when the budget resets.
    pub fn reserve(&mut self, now: u64) -> (r: Result<(), RateLimited>)
        ensures
            *final(self) == spec_refilled(*old(self), now),
            r == if spec_admits(*old(self), now) {
                Ok::<(), RateLimited>(())
            } else {
                Err::<(), RateLimited>(RateLimited { retry_after: old(self).reset_at })
            },
    {
        if self.remaining <= LOW_WATERMARK && now > self.reset_at {
            self.remaining = self.limit;
        }
        if self.remaining < RESERVE_THRESHOLD {
            Err(RateLimited { retry_after: self.reset_at })
        } else {
            Ok(())
        }
    }

    /// Takes over the budget that an answer of the stats service reports.
    pub fn record(&mut self, limit: u64, remaining: u64, reset_in: u64, now: u64)
        ensures
            *final(self) == spec_reported(limit, remaining, reset_in, now),
    {
        self.limit = limit;
        self.remaining = remaining;
        self.reset_at = if reset_in > u64::MAX - now {
            u64::MAX
        } else {
            now + reset_in
        };
    }
}

/// A budget with fewer calls left than the reserve holds every call back
/// until its reset has passed. The first call after that is let through if
/// the limit allows for the reserve, and once its answer is recorded the
/// budget is the one that the answer reports.
pub proof fn law_exhausted_budget_recovers(
    window: RateLimitWindow,
    early: u64,
    late: u64,
    limit: u64,
    remaining: u64,
    reset_in: u64,
)
    requires
        window.remaining < RESERVE_THRESHOLD,
        early <= window.reset_at < late,
        window.limit >= RESERVE_THRESHOLD,
    ensures
        !spec_admits(window, early),
        spec_refilled(window, early) == window,
        spec_admits(window, late),
        spec_refilled(window, late).remaining == window.limit,
        spec_reported(limit, remaining, reset_in, late).remaining == remaining,
        spec_reported(limit, remaining, reset_in, late).limit == limit,
{
}

/// The value that a decimal number stands for, digit by digit.
pub open spec fn digits_value(digits: Seq<u8>) -> nat
    decreases digits.len(),
{
    if digits.len() == 0 {
        0
    } else {
        digits_value(digits.drop_last()) * 10 + (digits.last() - 48) as nat
    }
}

/// Whether every byte is a decimal digit.
pub open spec fn all_digits(digits: Seq<u8>) -> bool {
    forall|i: int| 0 <= i < digits.len() ==> 48 <= #[trigger] digits[i] <= 57
}

/// The digits of a number's text: the text itself, without a plus sign in
/// front where it has one.
pub open spec fn digits_of(text: Seq<u8>) -> Seq<u8> {
    if text.len() > 0 && text[0] == 43 {
        text.subrange(1, text.len() as int)
    } else {
        text
    }
}

/// The number that a header's text stands for: one or more decimal digits,
/// a plus sign before them at most, and a value that fits.
pub open spec fn spec_parse_u64(text: Seq<u8>) -> Option<u64> {
    let digits = digits_of(text);
    if digits.len() > 0 && all_digits(digits) && digits_value(digits) <= u64::MAX {
        Some(digits_value(digits) as u64)
    } else {
        None
    }
}

proof fn lemma_digits_value_grows(digits: Seq<u8>, n: int)
    requires
        0 <= n <= digits.len(),
        all_digits(digits),
    ensures
        digits_value(digits.subrange(0, n)) <= digits_value(digits),
    decreases digits.len() - n,
{
    if n < digits.len() {
        lemma_digits_value_grows(digits, n + 1);
        assert(digits.subrange(0, n + 1).drop_last() =~= digits.subrange(0, n));
    } else {
        assert(digits.subrange(0, n) =~= digits);
    }
}

/// Reads a number from the bytes of a header's text.
pub fn parse_u64(text: &[u8]) -> (r: Option<u64>)
    ensures
        r == spec_parse_u64(text@),
{
    let start: usize = if text.len() > 0 && text[0] == 43 {
        1
    } else {
        0
    };
    let ghost digits = digits_of(text@);
    if start == text.len() {
        return None;
    }
    let mut value: u64 = 0;
    let mut i: usize = start;
    assert(digits.subrange(0, 0) =~= Seq::<u8>::empty());
    while i < text.len()
        invariant
            start <= i <= text.len(),
            digits == digits_of(text@),
            digits.len() == text.len() - start,
            forall|j: int| 0 <= j < digits.len() ==> digits[j] == text@[j + start],
            all_digits(digits.subrange(0, i - start)),
            value == digits_value(digits.subrange(0, i - start)),
        decreases text.len() - i,
    {
        let byte = text[i];
        let ghost seen = digits.subrange(0, i - start);
        let ghost next = digits.subrange(0, i - start + 1);
        assert(next.drop_last() =~= seen);
        assert(next.last() == byte);
        if byte < 48 || byte > 57 {
            assert(!all_digits(digits)) by {
                if all_digits(digits) {
                    assert(digits[i - start] == byte);
                }
            }
            return None;
        }
        let digit = (byte - 48) as u64;
        if value > (u64::MAX - digit) / 10 {
            proof {
                assert(digits_value(next) > u64::MAX);
                if all_digits(digits) {
                    lemma_digits_value_grows(digits, i - start + 1);
                }
            }
            return None;
        }
        value = value * 10 + digit;
        assert(all_digits(next)) by {
            assert forall|j: int| 0 <= j < next.len() implies 48 <= #[trigger] next[j] <= 57 by {
                if j < seen.len() {
                    assert(seen[j] == next[j]);
                }
            }
        }
        i = i + 1;
    }
    assert(digits.subrange(0, i - start) =~= digits);
    Some(value)
}

} // verus!
