//! Records of the stats service, fetched at most once while they are
//! cached and only as far as the budget of calls allows.

use crate::errors::ApiError;
use crate::hypixel::json::Json;
use crate::hypixel::ratelimit::{
    parse_u64, spec_admits, spec_parse_u64, spec_refilled, spec_reported, RateLimitWindow,
    RateLimited,
};
use crate::relation::UserId;
use mini_moka::sync::Cache;
use mini_moka::sync::CacheBuilder;
use std::sync::Arc;
use std::time::Duration;
use vstd::prelude::*;

verus! {

/// `mini_moka::sync::Cache`, held as a value that nothing is seen of.
#[verifier::external_type_specification]
#[verifier::external_body]
#[verifier::reject_recursive_types(K)]
#[verifier::reject_recursive_types(V)]
#[verifier::reject_recursive_types(S)]
pub struct ExCache<K, V, S>(Cache<K, V, S>);

/// Seconds for which a record stays cached.
pub const TIME_TO_LIVE_SECONDS: u64 = 86400;

/// The longest time to live that a cache can be built with, in seconds.
pub const LONGEST_TIME_TO_LIVE_SECONDS: u64 = 31_536_000_000;

/// The record that was last handed to a cache for each player. The cache
/// may have dropped any of them since, for its age or for the weight of
/// the others.
pub uninterp spec fn cache_records(cache: Cache<UserId, Arc<Json>>) -> Map<UserId, Json>;

/// The total weight that a cache was built to hold at most, if it was
/// built with such a limit.
pub uninterp spec fn cache_max_capacity(cache: Cache<UserId, Arc<Json>>) -> Option<u64>;

/// No record was handed in yet.
pub open spec fn no_records() -> Map<UserId, Json> {
    Map::empty()
}

/// `CacheBuilder::new`, `weigher`, `time_to_live` and `build`: a cache that
/// weighs each record by `Json::weight`, holds records up to the given
/// total weight and drops each after the given time. Nothing was handed to
/// it yet.
#[verifier::external_body]
fn cache_build(limit_bytes: u64, time_to_live: u64) -> (made: Cache<UserId, Arc<Json>>)
    requires
        time_to_live <= LONGEST_TIME_TO_LIVE_SECONDS,
    ensures
        cache_max_capacity(made) == Some(limit_bytes),
        cache_records(made) == no_records(),
{
    CacheBuilder::new(limit_bytes)
        .weigher(|_player: &UserId, record: &Arc<Json>| record.weight())
        .time_to_live(Duration::from_secs(time_to_live))
        .build()
}

/// `Cache::policy` and `Policy::max_capacity`: the total weight that the
/// cache was built to hold at most.
#[verifier::external_body]
fn cache_limit(cache: &Cache<UserId, Arc<Json>>) -> (limit: Option<u64>)
    ensures
        limit == cache_max_capacity(*cache),
{
    cache.policy().max_capacity()
}

/// `Cache::get`: the record cached for the player, if the cache still
/// holds one. Whether it still holds one depends on the time and on what
/// it had to drop for the weight of others; a record that it gives is the
/// one that was last handed to it for the player.
#[verifier::external_body]
fn cache_get(cache: &Cache<UserId, Arc<Json>>, player: UserId) -> (found: Option<Arc<Json>>)
    ensures
        found matches Some(record) ==> cache_records(*cache).contains_key(player)
            && cache_records(*cache)[player] == *record,
{
    cache.get(&player)
}

/// `Cache::insert`: hands the record to the cache, in the place of the one
/// that was handed to it for the player before. The limit of the cache
/// stays.
#[verifier::external_body]
fn cache_insert(cache: &mut Cache<UserId, Arc<Json>>, player: UserId, record: Arc<Json>)
    ensures
        cache_records(*final(cache)) == cache_records(*old(cache)).insert(player, *record),
        cache_max_capacity(*final(cache)) == cache_max_capacity(*old(cache)),
{
    cache.insert(player, record)
}

/// What is to be done for a request that found nothing in the cache at
/// first.
#[derive(Debug)]
pub enum FetchStep {
    /// The record has been cached in the meantime.
    Cached(Arc<Json>),
    /// The budget does not allow for a call now.
    Limited(RateLimited),
    /// The stats service is to be called.
    CallUpstream,
}

/// Decides what is to be done, from what a second look into the cache gave.
/// A record that is cached by now is handed out and the budget stays
/// untouched; else the budget decides.
pub fn plan_fetch(window: &mut RateLimitWindow, cached: Option<Arc<Json>>, now: u64) -> (r:
    FetchStep)
    ensures
        match cached {
            Some(record) => r == FetchStep::Cached(record) && *final(window) == *old(window),
            None => {
                &&& *final(window) == spec_refilled(*old(window), now)
                &&& r == if spec_admits(*old(window), now) {
                    FetchStep::CallUpstream
                } else {
                    FetchStep::Limited(RateLimited { retry_after: old(window).reset_at })
                }
            },
        },
{
    match cached {
        Some(record) => FetchStep::Cached(record),
        None => match window.reserve(now) {
            Ok(()) => FetchStep::CallUpstream,
            Err(limited) => FetchStep::Limited(limited),
        },
    }
}

/// What the stats service answered, as far as the budget is concerned: the
/// status code and the bytes of the three headers that report the budget.
#[derive(Clone, Debug, PartialEq, Eq)]
pub struct UpstreamAnswer {
    pub status: u16,
    pub limit: Option<Vec<u8>>,
    pub remaining: Option<Vec<u8>>,
    pub reset: Option<Vec<u8>>,
}

/// The number that a header reports, where the header is there and holds a
/// number.
pub open spec fn spec_header(header: Option<Vec<u8>>) -> Option<u64> {
    match header {
        Some(text) => spec_parse_u64(text@),
        None => None,
    }
}

fn header(given: &Option<Vec<u8>>) -> (r: Option<u64>)
    ensures
        r == spec_header(*given),
{
    match given {
        Some(text) => parse_u64(text.as_slice()),
        None => None,
    }
}

/// The budget that an answer reports at the time `now`. An answer that
/// says the budget was exceeded, or that lacks one of the three numbers,
/// reports none.
pub open spec fn spec_settled(answer: UpstreamAnswer, now: u64) -> Option<RateLimitWindow> {
    if answer.status != 429 && spec_header(answer.limit) is Some && spec_header(
        answer.remaining,
    ) is Some && spec_header(answer.reset) is Some {
        Some(
            spec_reported(
                spec_header(answer.limit)->0,
                spec_header(answer.remaining)->0,
                spec_header(answer.reset)->0,
                now,
            ),
        )
    } else {
        None
    }
}

/// Takes over the budget that an answer reports. Fails, and leaves the
/// budget as it is, where the answer reports none.
pub fn settle(window: &mut RateLimitWindow, answer: &UpstreamAnswer, now: u64) -> (r: Result<
    (),
    ApiError,
>)
    ensures
        match spec_settled(*answer, now) {
            Some(reported) => r is Ok && *final(window) == reported,
            None => r == Err::<(), ApiError>(ApiError::Internal) && *final(window) == *old(
                window,
            ),
        },
{
    if answer.status == 429 {
        return Err(ApiError::Internal);
    }
    let limit = match header(&answer.limit) {
        Some(n) => n,
        None => {
            return Err(ApiError::Internal);
        },
    };
    let remaining = match header(&answer.remaining) {
        Some(n) => n,
        None => {
            return Err(ApiError::Internal);
        },
    };
    let reset = match header(&answer.reset) {
        Some(n) => n,
        None => {
            return Err(ApiError::Internal);
        },
    };
    window.record(limit, remaining, reset, now);
    Ok(())
}

/// The cache of records.
pub struct RecordCache {
    cache: Cache<UserId, Arc<Json>>,
}

impl RecordCache {
    /// The total weight of records that the cache holds at most.
    pub closed spec fn capacity(&self) -> Option<u64> {
        cache_max_capacity(self.cache)
    }

    /// The record that was last handed to the cache for each player. The
    /// cache may have dropped any of them since.
    pub closed spec fn records(&self) -> Map<UserId, Json> {
        cache_records(self.cache)
    }

    /// A cache that holds records up to `cache_limit_bytes` in weight, with
    /// nothing handed to it yet.
    pub fn new(cache_limit_bytes: u64) -> (r: Self)
        ensures
            r.capacity() == Some(cache_limit_bytes),
            r.records() == no_records(),
    {
        RecordCache { cache: cache_build(cache_limit_bytes, TIME_TO_LIVE_SECONDS) }
    }

    /// The total weight of records that the cache holds at most, as the
    /// cache reports it.
    pub fn cache_limit_bytes(&self) -> (r: Option<u64>)
        ensures
            r == self.capacity(),
    {
        cache_limit(&self.cache)
    }

    /// The cached record of `player`, if the cache holds one. Asks for no
    /// exclusive access. A record that is found is the one that was last
    /// handed to the cache for the player.
    pub fn lookup(&self, player: UserId) -> (r: Option<Arc<Json>>)
        ensures
            r matches Some(record) ==> self.records().contains_key(player)
                && self.records()[player] == *record,
    {
        cache_get(&self.cache, player)
    }

    /// Hands the record that a fetch gave to the cache and hands it out
    /// too. A fetch that gave no record fails and hands the cache nothing.
    pub fn store(&mut self, player: UserId, record: Option<Json>) -> (r: Result<Arc<Json>, ApiError>)
        ensures
            final(self).capacity() == old(self).capacity(),
            match record {
                Some(found) => r matches Ok(cached) && *cached == found && final(self).records()
                    == old(self).records().insert(player, found),
                None => r matches Err(e) && e == ApiError::Internal && final(self).records()
                    == old(self).records(),
            },
    {
        match record {
            None => Err(ApiError::Internal),
            Some(found) => {
                let shared = Arc::new(found);
                cache_insert(&mut self.cache, player, shared.clone());
                Ok(shared)
            },
        }
    }
}

/// The cache of records and the budget of calls.
pub struct HypixelApiProxyState {
    cache: RecordCache,
    ratelimits: RateLimitWindow,
}

impl HypixelApiProxyState {
    /// The budget as it was last reported.
    pub closed spec fn window(&self) -> RateLimitWindow {
        self.ratelimits
    }

    /// The total weight of records that the cache holds at most.
    pub closed spec fn capacity(&self) -> Option<u64> {
        self.cache.capacity()
    }

    /// The record that was last handed to the cache for each player. The
    /// cache may have dropped any of them since.
    pub closed spec fn records(&self) -> Map<UserId, Json> {
        self.cache.records()
    }

    /// A cache that holds records up to `cache_limit_bytes` in weight, with
    /// nothing handed to it yet, and the budget that is assumed before any
    /// was reported.
    pub fn new(cache_limit_bytes: u64) -> (r: Self)
        ensures
            r.window() == (RateLimitWindow { limit: 10, remaining: 10, reset_at: 60 }),
            r.capacity() == Some(cache_limit_bytes),
            r.records() == no_records(),
    {
        HypixelApiProxyState {
            cache: RecordCache::new(cache_limit_bytes),
            ratelimits: RateLimitWindow::new(),
        }
    }

    /// The cache and the budget, each to be kept behind a lock of its own:
    /// a look into the cache then never waits for a fetch that holds the
    /// budget.
    pub fn into_parts(self) -> (r: (RecordCache, RateLimitWindow))
        ensures
            r.0.capacity() == self.capacity(),
            r.0.records() == self.records(),
            r.1 == self.window(),
    {
        (self.cache, self.ratelimits)
    }

    /// The budget as it was last reported.
    pub fn ratelimits(&self) -> (r: RateLimitWindow)
        ensures
            r == self.window(),
    {
        self.ratelimits
    }

    /// The total weight of records that the cache holds at most, as the
    /// cache reports it.
    pub fn cache_limit_bytes(&self) -> (r: Option<u64>)
        ensures
            r == self.capacity(),
    {
        self.cache.cache_limit_bytes()
    }

    /// The cached record of `player`, if the cache holds one. Asks for no
    /// exclusive access. A record that is found is the one that was last
    /// handed to the cache for the player.
    pub fn lookup(&self, player: UserId) -> (r: Option<Arc<Json>>)
        ensures
            r matches Some(record) ==> self.records().contains_key(player)
                && self.records()[player] == *record,
    {
        self.cache.lookup(player)
    }

    /// Looks into the cache once more, now with exclusive access, and
    /// decides what is to be done. Either the record that was last handed
    /// to the cache for the player is handed out and the budget stays
    /// untouched, or the budget decides as `plan_fetch` says of a miss. The
    /// cache is not handed anything.
    pub fn begin_fetch(&mut self, player: UserId, now: u64) -> (r: FetchStep)
        ensures
            final(self).capacity() == old(self).capacity(),
            final(self).records() == old(self).records(),
            r matches FetchStep::Cached(record) ==> old(self).records().contains_key(player)
                && old(self).records()[player] == *record,
            r is Cached ==> final(self).window() == old(self).window(),
            !(r is Cached) ==> {
                &&& final(self).window() == spec_refilled(old(self).window(), now)
                &&& r == if spec_admits(old(self).window(), now) {
                    FetchStep::CallUpstream
                } else {
                    FetchStep::Limited(RateLimited { retry_after: old(self).window().reset_at })
                }
            },
    {
        let cached = self.cache.lookup(player);
        plan_fetch(&mut self.ratelimits, cached, now)
    }

    /// Ends a fetch with what the stats service answered: the budget is
    /// taken over as `settle` says, and where the answer reports one and
    /// carries a record, the record is handed to the cache and handed out.
    /// Every other answer fails and hands the cache nothing.
    pub fn complete_fetch(
        &mut self,
        player: UserId,
        answer: &UpstreamAnswer,
        record: Option<Json>,
        now: u64,
    ) -> (r: Result<Arc<Json>, ApiError>)
        ensures
            final(self).capacity() == old(self).capacity(),
            final(self).window() == match spec_settled(*answer, now) {
                Some(reported) => reported,
                None => old(self).window(),
            },
            final(self).records() == match r {
                Ok(cached) => old(self).records().insert(player, *cached),
                Err(_) => old(self).records(),
            },
            match r {
                Ok(cached) => spec_settled(*answer, now) is Some && record == Some(*cached),
                Err(e) => e == ApiError::Internal && (spec_settled(*answer, now) is None
                    || record is None),
            },
    {
        match settle(&mut self.ratelimits, answer, now) {
            Err(e) => Err(e),
            Ok(()) => self.cache.store(player, record),
        }
    }
}

} // verus!
