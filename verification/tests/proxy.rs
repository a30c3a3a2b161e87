use axolotl_client_api::errors::ApiError;
use axolotl_client_api::hypixel::json::{count, Json, Number};
use axolotl_client_api::hypixel::proxy::{
    plan_fetch, settle, FetchStep, HypixelApiProxyState, RecordCache, UpstreamAnswer,
};
use axolotl_client_api::hypixel::ratelimit::{parse_u64, RateLimitWindow, RateLimited};
use std::sync::Arc;

fn answer(status: u16, limit: &str, remaining: &str, reset: &str) -> UpstreamAnswer {
    UpstreamAnswer {
        status,
        limit: Some(limit.as_bytes().to_vec()),
        remaining: Some(remaining.as_bytes().to_vec()),
        reset: Some(reset.as_bytes().to_vec()),
    }
}

fn record(name: &str) -> Json {
    Json::Object(vec![("displayname".to_string(), Json::Text(name.to_string()))])
}

#[test]
fn header_numbers_are_parsed() {
    assert_eq!(parse_u64(b"0"), Some(0));
    assert_eq!(parse_u64(b"120"), Some(120));
    assert_eq!(parse_u64(b"+7"), Some(7));
    assert_eq!(parse_u64(b"007"), Some(7));
    assert_eq!(parse_u64(b"18446744073709551615"), Some(u64::MAX));
    assert_eq!(parse_u64(b"18446744073709551616"), None);
    assert_eq!(parse_u64(b"99999999999999999999999"), None);
    assert_eq!(parse_u64(b""), None);
    assert_eq!(parse_u64(b"+"), None);
    assert_eq!(parse_u64(b"-1"), None);
    assert_eq!(parse_u64(b"12a"), None);
    assert_eq!(parse_u64(b" 12"), None);
    assert_eq!(parse_u64(b"1+2"), None);
}

#[test]
fn fresh_window_assumes_ten_calls() {
    assert_eq!(RateLimitWindow::new(), RateLimitWindow { limit: 10, remaining: 10, reset_at: 60 });
}

#[test]
fn exhausted_budget_limits_until_reset() {
    let mut window = RateLimitWindow { limit: 10, remaining: 1, reset_at: 1000 };
    assert_eq!(window.reserve(999), Err(RateLimited { retry_after: 1000 }));
    assert_eq!(window.reserve(1000), Err(RateLimited { retry_after: 1000 }));
    assert_eq!(window, RateLimitWindow { limit: 10, remaining: 1, reset_at: 1000 });
    assert_eq!(window.reserve(1001), Ok(()));
    assert_eq!(window.remaining, 10);
    window.record(10, 9, 60, 1001);
    assert_eq!(window, RateLimitWindow { limit: 10, remaining: 9, reset_at: 1061 });
}

#[test]
fn budget_at_the_watermark_is_refilled_after_reset() {
    let mut window = RateLimitWindow { limit: 10, remaining: 2, reset_at: 1000 };
    assert_eq!(window.reserve(500), Ok(()));
    assert_eq!(window.remaining, 2);
    assert_eq!(window.reserve(1001), Ok(()));
    assert_eq!(window.remaining, 10);
    let mut window = RateLimitWindow { limit: 10, remaining: 3, reset_at: 1000 };
    assert_eq!(window.reserve(5000), Ok(()));
    assert_eq!(window.remaining, 3);
    let mut window = RateLimitWindow { limit: 1, remaining: 0, reset_at: 1000 };
    assert_eq!(window.reserve(5000), Err(RateLimited { retry_after: 1000 }));
    assert_eq!(window.remaining, 1);
}

#[test]
fn recorded_reset_does_not_overflow() {
    let mut window = RateLimitWindow::new();
    window.record(5, 4, u64::MAX, 10);
    assert_eq!(window, RateLimitWindow { limit: 5, remaining: 4, reset_at: u64::MAX });
}

#[test]
fn plan_prefers_the_cached_record() {
    let mut window = RateLimitWindow { limit: 10, remaining: 0, reset_at: 1000 };
    let cached = Arc::new(record("Steve"));
    match plan_fetch(&mut window, Some(cached.clone()), 5000) {
        FetchStep::Cached(found) => assert!(Arc::ptr_eq(&found, &cached)),
        other => panic!("unexpected step {:?}", other),
    }
    assert_eq!(window, RateLimitWindow { limit: 10, remaining: 0, reset_at: 1000 });
    assert!(matches!(plan_fetch(&mut window, None, 900), FetchStep::Limited(RateLimited { retry_after: 1000 })));
    assert!(matches!(plan_fetch(&mut window, None, 1001), FetchStep::CallUpstream));
    assert_eq!(window.remaining, 10);
}

#[test]
fn settle_takes_over_the_reported_budget() {
    let mut window = RateLimitWindow::new();
    assert_eq!(settle(&mut window, &answer(200, "120", "119", "42"), 1000), Ok(()));
    assert_eq!(window, RateLimitWindow { limit: 120, remaining: 119, reset_at: 1042 });
}

#[test]
fn settle_fails_on_missing_or_broken_headers() {
    let mut window = RateLimitWindow::new();
    assert_eq!(settle(&mut window, &answer(429, "120", "0", "42"), 1000), Err(ApiError::Internal));
    assert_eq!(settle(&mut window, &answer(200, "many", "119", "42"), 1000), Err(ApiError::Internal));
    assert_eq!(settle(&mut window, &answer(200, "120", "", "42"), 1000), Err(ApiError::Internal));
    assert_eq!(settle(&mut window, &answer(200, "120", "119", "4.2"), 1000), Err(ApiError::Internal));
    let mut missing = answer(200, "120", "119", "42");
    missing.reset = None;
    assert_eq!(settle(&mut window, &missing, 1000), Err(ApiError::Internal));
    assert_eq!(window, RateLimitWindow::new());
}

#[test]
fn a_fetched_record_is_cached_for_the_next_miss() {
    let mut proxy = HypixelApiProxyState::new(1 << 20);
    assert!(proxy.lookup(7).is_none());
    assert!(matches!(proxy.begin_fetch(7, 100), FetchStep::CallUpstream));
    let fetched = proxy.complete_fetch(7, &answer(200, "120", "119", "60"), Some(record("Steve")), 100).unwrap();
    assert_eq!(count(Some(&fetched), "displayname"), 0);
    assert_eq!(fetched.get("displayname").and_then(|v| v.as_str()), Some("Steve"));
    assert_eq!(proxy.ratelimits(), RateLimitWindow { limit: 120, remaining: 119, reset_at: 160 });
    let again = proxy.lookup(7).unwrap();
    assert_eq!(again.get("displayname").and_then(|v| v.as_str()), Some("Steve"));
    assert!(matches!(proxy.begin_fetch(7, 101), FetchStep::Cached(_)));
    assert_eq!(proxy.ratelimits(), RateLimitWindow { limit: 120, remaining: 119, reset_at: 160 });
    assert!(proxy.lookup(8).is_none());
}

#[test]
fn an_exhausted_proxy_calls_again_after_the_reset() {
    let mut proxy = HypixelApiProxyState::new(1 << 20);
    proxy.complete_fetch(1, &answer(200, "10", "1", "60"), Some(record("A")), 1000).unwrap();
    assert!(matches!(proxy.begin_fetch(2, 1059), FetchStep::Limited(RateLimited { retry_after: 1060 })));
    assert!(matches!(proxy.begin_fetch(2, 1061), FetchStep::CallUpstream));
    proxy.complete_fetch(2, &answer(200, "10", "9", "60"), Some(record("B")), 1061).unwrap();
    assert_eq!(proxy.ratelimits(), RateLimitWindow { limit: 10, remaining: 9, reset_at: 1121 });
}

#[test]
fn failed_answers_are_not_cached() {
    let mut proxy = HypixelApiProxyState::new(1 << 20);
    assert_eq!(
        proxy.complete_fetch(7, &answer(429, "10", "0", "60"), Some(record("Steve")), 100).unwrap_err(),
        ApiError::Internal
    );
    assert!(proxy.lookup(7).is_none());
    assert_eq!(proxy.ratelimits(), RateLimitWindow::new());
    assert_eq!(
        proxy.complete_fetch(7, &answer(200, "10", "9", "60"), None, 100).unwrap_err(),
        ApiError::Internal
    );
    assert!(proxy.lookup(7).is_none());
    assert_eq!(proxy.ratelimits(), RateLimitWindow { limit: 10, remaining: 9, reset_at: 160 });
}

#[test]
fn records_are_weighed() {
    assert_eq!(Json::Null.weight(), 48);
    assert_eq!(Json::Number(Number::Unsigned(5)).weight(), 48);
    assert_eq!(Json::Text("abcd".to_string()).weight(), 52);
    assert_eq!(Json::List(vec![Json::Null, Json::Text("xy".to_string())]).weight(), 48 + 64 + 2);
    let object = Json::Object(vec![
        ("name".to_string(), Json::Text("Steve".to_string())),
        ("tags".to_string(), Json::List(vec![Json::Bool(true)])),
    ]);
    assert_eq!(object.size(), 2 * 56 + 4 + 5 + 4 + 32);
    assert_eq!(object.weight(), 48 + 2 * 56 + 4 + 5 + 4 + 32);
}

#[test]
fn the_cache_is_built_with_the_given_limit() {
    assert_eq!(HypixelApiProxyState::new(1 << 20).cache_limit_bytes(), Some(1 << 20));
    assert_eq!(HypixelApiProxyState::new(7).cache_limit_bytes(), Some(7));
    assert_eq!(HypixelApiProxyState::new(0).cache_limit_bytes(), Some(0));
    assert_eq!(HypixelApiProxyState::new(u64::MAX).cache_limit_bytes(), Some(u64::MAX));
}

#[test]
fn the_parts_keep_cache_and_budget() {
    let mut proxy = HypixelApiProxyState::new(1 << 20);
    proxy.complete_fetch(7, &answer(200, "120", "119", "60"), Some(record("Steve")), 100).unwrap();
    let (mut cache, window) = proxy.into_parts();
    assert_eq!(window, RateLimitWindow { limit: 120, remaining: 119, reset_at: 160 });
    assert_eq!(cache.cache_limit_bytes(), Some(1 << 20));
    assert_eq!(cache.lookup(7).unwrap().get("displayname").and_then(|v| v.as_str()), Some("Steve"));
    assert!(cache.lookup(8).is_none());
    let stored = cache.store(8, Some(record("Alex"))).unwrap();
    assert_eq!(stored.get("displayname").and_then(|v| v.as_str()), Some("Alex"));
    assert_eq!(cache.lookup(8).unwrap().get("displayname").and_then(|v| v.as_str()), Some("Alex"));
    assert_eq!(cache.store(9, None).unwrap_err(), ApiError::Internal);
    assert!(cache.lookup(9).is_none());
    assert_eq!(RecordCache::new(5).cache_limit_bytes(), Some(5));
}
