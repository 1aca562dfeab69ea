use govee_undoc::coordinator::{Coordinator, Decision};
use govee_undoc::entry::CacheEntry;
use govee_undoc::error::CacheError;
use govee_undoc::options::{CacheComputeResult, CacheGetOptions};
use govee_undoc::store::EntryStore;

const SECOND: u64 = 1_000;
const HOUR: u64 = 3_600 * SECOND;
const DAY: u64 = 24 * HOUR;

fn options(soft_ttl: u64, hard_ttl: u64, negative_ttl: u64, allow_stale: bool) -> CacheGetOptions<'static> {
    CacheGetOptions { topic: "topic", key: "key", soft_ttl, hard_ttl, negative_ttl, allow_stale }
}

#[test]
fn first_call_computes_and_second_is_served() {
    let mut cache = Coordinator::new();
    let o = options(100 * SECOND, 200 * SECOND, 10 * SECOND, false);
    assert_eq!(cache.request(&o, 0), Decision::Compute);
    assert!(cache.is_in_flight("topic", "key"));
    let delivered = cache.complete(&o, Ok(CacheComputeResult::Value(vec![42])), 0);
    assert_eq!(delivered, Ok(vec![42]));
    assert!(!cache.is_in_flight("topic", "key"));
    assert_eq!(cache.request(&o, 50 * SECOND), Decision::Serve(vec![42]));
    assert!(!cache.is_in_flight("topic", "key"));
    assert_eq!(cache.request(&o, 100 * SECOND - 1), Decision::Serve(vec![42]));
}

#[test]
fn concurrent_calls_share_one_computation() {
    let mut cache = Coordinator::new();
    let o = options(100 * SECOND, 200 * SECOND, 10 * SECOND, false);
    let mut computations = 0;
    let mut waiting = 0;
    for _ in 0..25 {
        match cache.request(&o, 0) {
            Decision::Compute => computations += 1,
            Decision::AwaitInFlight => waiting += 1,
            other => panic!("unexpected decision {other:?}"),
        }
    }
    assert_eq!(computations, 1);
    assert_eq!(waiting, 24);
    let delivered = cache.complete(&o, Ok(CacheComputeResult::Value(vec![1, 2])), 0);
    assert_eq!(delivered, Ok(vec![1, 2]));
    assert_eq!(cache.request(&o, 0), Decision::Serve(vec![1, 2]));
}

#[test]
fn calls_for_other_keys_do_not_wait() {
    let mut cache = Coordinator::new();
    let o = options(100, 200, 10, false);
    let other = CacheGetOptions { key: "other", ..o };
    assert_eq!(cache.request(&o, 0), Decision::Compute);
    assert_eq!(cache.request(&other, 0), Decision::Compute);
    assert_eq!(cache.request(&o, 0), Decision::AwaitInFlight);
    assert_eq!(cache.complete(&o, Ok(CacheComputeResult::Value(vec![1])), 0), Ok(vec![1]));
    assert!(cache.is_in_flight("topic", "other"));
    assert_eq!(cache.request(&other, 0), Decision::AwaitInFlight);
}

#[test]
fn failure_is_replayed_and_then_retried() {
    let mut cache = Coordinator::new();
    let o = options(100 * SECOND, 200 * SECOND, 10 * SECOND, false);
    assert_eq!(cache.request(&o, 0), Decision::Compute);
    let delivered = cache.complete(&o, Err("backend down".to_string()), 0);
    assert_eq!(delivered, Err(CacheError::Computation("backend down".to_string())));
    assert_eq!(cache.request(&o, 5 * SECOND), Decision::ReplayFailure("backend down".to_string()));
    assert!(!cache.is_in_flight("topic", "key"));
    assert_eq!(cache.request(&o, 11 * SECOND), Decision::Compute);
    assert!(cache.is_in_flight("topic", "key"));
}

#[test]
fn success_replaces_a_remembered_failure() {
    let mut cache = Coordinator::new();
    let o = options(100 * SECOND, 200 * SECOND, 10 * SECOND, false);
    assert_eq!(cache.request(&o, 0), Decision::Compute);
    let _ = cache.complete(&o, Err("backend down".to_string()), 0);
    assert_eq!(cache.request(&o, 20 * SECOND), Decision::Compute);
    assert_eq!(cache.complete(&o, Ok(CacheComputeResult::Value(vec![3])), 20 * SECOND), Ok(vec![3]));
    assert_eq!(cache.request(&o, 21 * SECOND), Decision::Serve(vec![3]));
    assert!(!cache.store().get("topic", "key").unwrap().is_negative());
}

#[test]
fn stale_value_is_served_while_one_refresh_runs() {
    let mut cache = Coordinator::new();
    let o = options(DAY, 7 * DAY, SECOND, true);
    assert_eq!(cache.request(&o, 0), Decision::Compute);
    let _ = cache.complete(&o, Ok(CacheComputeResult::Value(vec![7])), 0);
    assert_eq!(cache.request(&o, 2 * DAY), Decision::ServeStaleAndRefresh(vec![7]));
    assert!(cache.is_in_flight("topic", "key"));
    assert_eq!(cache.request(&o, 2 * DAY), Decision::ServeStale(vec![7]));
    assert_eq!(cache.request(&o, 2 * DAY + 1), Decision::ServeStale(vec![7]));
    // The refresh completes: its value is served fresh from then on.
    let _ = cache.complete(&o, Ok(CacheComputeResult::Value(vec![8])), 2 * DAY + 2);
    assert!(!cache.is_in_flight("topic", "key"));
    assert_eq!(cache.request(&o, 2 * DAY + 3), Decision::Serve(vec![8]));
}

#[test]
fn failed_refresh_shows_only_in_later_requests() {
    let mut cache = Coordinator::new();
    let o = options(DAY, 7 * DAY, SECOND, true);
    assert_eq!(cache.request(&o, 0), Decision::Compute);
    let _ = cache.complete(&o, Ok(CacheComputeResult::Value(vec![7])), 0);
    assert_eq!(cache.request(&o, 2 * DAY), Decision::ServeStaleAndRefresh(vec![7]));
    let dropped = cache.complete(&o, Err("timeout".to_string()), 2 * DAY);
    assert_eq!(dropped, Err(CacheError::Computation("timeout".to_string())));
    assert_eq!(cache.request(&o, 2 * DAY + 500), Decision::ReplayFailure("timeout".to_string()));
    assert_eq!(cache.request(&o, 2 * DAY + SECOND + 1), Decision::Compute);
}

#[test]
fn stale_value_is_not_served_unasked() {
    let mut cache = Coordinator::new();
    let o = options(DAY, 7 * DAY, SECOND, false);
    assert_eq!(cache.request(&o, 0), Decision::Compute);
    let _ = cache.complete(&o, Ok(CacheComputeResult::Value(vec![7])), 0);
    assert_eq!(cache.request(&o, 2 * DAY), Decision::Compute);
    assert_eq!(cache.request(&o, 2 * DAY), Decision::AwaitInFlight);
    // Another caller that allows stale values is served meanwhile, and starts nothing.
    let lenient = CacheGetOptions { allow_stale: true, ..o };
    assert_eq!(cache.request(&lenient, 2 * DAY), Decision::ServeStale(vec![7]));
}

#[test]
fn hard_expiry_forces_computation() {
    let mut cache = Coordinator::new();
    let o = options(DAY, 7 * DAY, SECOND, true);
    assert_eq!(cache.request(&o, 0), Decision::Compute);
    let _ = cache.complete(&o, Ok(CacheComputeResult::Value(vec![7])), 0);
    assert_eq!(cache.request(&o, 7 * DAY - 1), Decision::ServeStaleAndRefresh(vec![7]));
    // The refresh is still running when the value expires for good: wait for it.
    assert_eq!(cache.request(&o, 8 * DAY), Decision::AwaitInFlight);
    let _ = cache.fail_store("topic", "key", "disk full".to_string());
    assert_eq!(cache.request(&o, 7 * DAY), Decision::Compute);
    assert_eq!(cache.request(&o, 8 * DAY), Decision::AwaitInFlight);
    assert_eq!(cache.complete(&o, Ok(CacheComputeResult::Value(vec![8])), 8 * DAY), Ok(vec![8]));
    assert_eq!(cache.request(&o, 8 * DAY), Decision::Serve(vec![8]));
}

#[test]
fn explicit_ttl_overrides_the_options() {
    let mut cache = Coordinator::new();
    let o = options(12 * HOUR, 12 * HOUR, 10 * SECOND, false);
    assert_eq!(cache.request(&o, 0), Decision::Compute);
    let delivered = cache.complete(&o, Ok(CacheComputeResult::WithTtl(vec![5], 3_600 * SECOND)), 0);
    assert_eq!(delivered, Ok(vec![5]));
    let entry = cache.store().get("topic", "key").unwrap();
    assert_eq!(entry.soft_expiry(), 3_600 * SECOND);
    assert_eq!(entry.hard_expiry(), 3_600 * SECOND);
    assert_eq!(cache.request(&o, 3_599 * SECOND), Decision::Serve(vec![5]));
    assert_eq!(cache.request(&o, 3_650 * SECOND), Decision::Compute);
}

#[test]
fn explicit_ttl_may_outlast_the_options() {
    let mut cache = Coordinator::new();
    let o = options(10, 20, 10, true);
    assert_eq!(cache.request(&o, 0), Decision::Compute);
    let _ = cache.complete(&o, Ok(CacheComputeResult::WithTtl(vec![5], 1_000)), 0);
    assert_eq!(cache.request(&o, 999), Decision::Serve(vec![5]));
    assert_eq!(cache.request(&o, 1_000), Decision::Compute);
}

#[test]
fn invalidate_forces_computation() {
    let mut cache = Coordinator::new();
    let o = options(100 * SECOND, 200 * SECOND, 10 * SECOND, false);
    assert_eq!(cache.request(&o, 0), Decision::Compute);
    let _ = cache.complete(&o, Ok(CacheComputeResult::Value(vec![42])), 0);
    assert_eq!(cache.request(&o, 1), Decision::Serve(vec![42]));
    cache.invalidate("topic", "key");
    assert!(cache.store().get("topic", "key").is_none());
    assert_eq!(cache.request(&o, 1), Decision::Compute);
}

#[test]
fn invalidate_clears_the_registration() {
    let mut cache = Coordinator::new();
    let o = options(100, 200, 10, false);
    assert_eq!(cache.request(&o, 0), Decision::Compute);
    cache.invalidate("topic", "key");
    assert!(!cache.is_in_flight("topic", "key"));
    assert_eq!(cache.request(&o, 0), Decision::Compute);
}

#[test]
fn invalidate_of_a_missing_key_changes_nothing() {
    let mut cache = Coordinator::new();
    let o = options(100, 200, 10, false);
    assert_eq!(cache.request(&o, 0), Decision::Compute);
    let _ = cache.complete(&o, Ok(CacheComputeResult::Value(vec![1])), 0);
    cache.invalidate("topic", "missing");
    cache.invalidate("missing", "key");
    assert_eq!(cache.request(&o, 1), Decision::Serve(vec![1]));
}

#[test]
fn store_failure_is_not_cached() {
    let mut cache = Coordinator::new();
    let o = options(100, 200, 10_000, false);
    assert_eq!(cache.request(&o, 0), Decision::Compute);
    let error = cache.fail_store("topic", "key", "disk full".to_string());
    assert_eq!(error, CacheError::Store("disk full".to_string()));
    assert_eq!(error.message(), "disk full");
    assert!(!error.is_replay());
    assert!(cache.store().get("topic", "key").is_none());
    assert!(!cache.is_in_flight("topic", "key"));
    assert_eq!(cache.request(&o, 1), Decision::Compute);
}

#[test]
fn replayed_failure_is_told_apart_by_its_kind() {
    let fresh = CacheError::Computation("x".to_string());
    let replayed = CacheError::NegativeCacheReplay("x".to_string());
    assert_eq!(fresh.message(), replayed.message());
    assert!(!fresh.is_replay());
    assert!(replayed.is_replay());
}

#[test]
fn coordinator_serves_from_a_store_it_is_given() {
    let mut store = EntryStore::new();
    store.put(CacheEntry::positive("topic", "key", vec![4], 0, 100, 200, None));
    let mut cache = Coordinator::with_store(store);
    let o = options(1, 1, 1, false);
    assert_eq!(cache.request(&o, 99), Decision::Serve(vec![4]));
    assert_eq!(cache.request(&o, 100), Decision::Compute);
}

#[test]
fn answer_is_what_the_caller_returns_at_once() {
    assert_eq!(Decision::Serve(vec![1]).answer(), Some(Ok(vec![1])));
    assert_eq!(Decision::ServeStale(vec![2]).answer(), Some(Ok(vec![2])));
    assert_eq!(Decision::ServeStaleAndRefresh(vec![3]).answer(), Some(Ok(vec![3])));
    assert_eq!(
        Decision::ReplayFailure("down".to_string()).answer(),
        Some(Err(CacheError::NegativeCacheReplay("down".to_string())))
    );
    assert_eq!(Decision::Compute.answer(), None);
    assert_eq!(Decision::AwaitInFlight.answer(), None);
}

#[test]
fn only_two_decisions_start_a_computation() {
    assert!(Decision::Compute.starts_computation());
    assert!(Decision::ServeStaleAndRefresh(vec![]).starts_computation());
    assert!(!Decision::Serve(vec![]).starts_computation());
    assert!(!Decision::ServeStale(vec![]).starts_computation());
    assert!(!Decision::ReplayFailure(String::new()).starts_computation());
    assert!(!Decision::AwaitInFlight.starts_computation());
}

#[test]
fn failure_is_fresh_first_and_a_replay_afterwards() {
    let mut cache = Coordinator::new();
    let o = options(100 * SECOND, 200 * SECOND, 10 * SECOND, false);
    assert_eq!(cache.request(&o, 0).answer(), None);
    let first = cache.complete(&o, Err("backend down".to_string()), 0).unwrap_err();
    let second = cache.request(&o, 5 * SECOND).answer().unwrap().unwrap_err();
    assert_eq!(first, CacheError::Computation("backend down".to_string()));
    assert_eq!(second, CacheError::NegativeCacheReplay("backend down".to_string()));
    assert_eq!(first.message(), second.message());
}

#[test]
fn into_inner_drops_the_ttl() {
    assert_eq!(CacheComputeResult::Value(5).into_inner(), 5);
    assert_eq!(CacheComputeResult::WithTtl("token".to_string(), 9).into_inner(), "token");
}
