use govee_undoc::coordinator::{plan_for, Plan};
use govee_undoc::entry::{CacheEntry, Payload};
use govee_undoc::freshness::{classify, Freshness};

#[test]
fn absent_entry_is_absent() {
    assert_eq!(classify(None, 0, 10_000), Freshness::Absent);
}

#[test]
fn value_decays_from_fresh_to_stale_to_expired() {
    let entry = CacheEntry::positive("t", "k", vec![1, 2, 3], 1_000, 100, 700, None);
    assert_eq!(entry.created_at(), 1_000);
    assert_eq!(entry.soft_expiry(), 1_100);
    assert_eq!(entry.hard_expiry(), 1_700);
    assert!(!entry.is_negative());
    assert_eq!(classify(Some(&entry), 0, 0), Freshness::Fresh);
    assert_eq!(classify(Some(&entry), 1_000, 0), Freshness::Fresh);
    assert_eq!(classify(Some(&entry), 1_099, 0), Freshness::Fresh);
    assert_eq!(classify(Some(&entry), 1_100, 0), Freshness::Stale);
    assert_eq!(classify(Some(&entry), 1_699, 0), Freshness::Stale);
    assert_eq!(classify(Some(&entry), 1_700, 0), Freshness::Expired);
    assert_eq!(classify(Some(&entry), u64::MAX, 0), Freshness::Expired);
}

#[test]
fn failure_is_judged_by_its_age() {
    let entry = CacheEntry::negative("t", "k", "boom".to_string(), 1_000, 10_000);
    assert!(entry.is_negative());
    assert_eq!(entry.soft_expiry(), 11_000);
    assert_eq!(entry.hard_expiry(), 11_000);
    assert_eq!(classify(Some(&entry), 1_000, 10_000), Freshness::NegativeHit);
    assert_eq!(classify(Some(&entry), 6_000, 10_000), Freshness::NegativeHit);
    assert_eq!(classify(Some(&entry), 11_000, 10_000), Freshness::NegativeHit);
    assert_eq!(classify(Some(&entry), 11_001, 10_000), Freshness::NegativeExpired);
    assert_eq!(classify(Some(&entry), 12_000, 10_000), Freshness::NegativeExpired);
    // A clock that went back makes the failure no older.
    assert_eq!(classify(Some(&entry), 500, 0), Freshness::NegativeHit);
}

#[test]
fn every_reader_applies_its_own_negative_ttl() {
    let entry = CacheEntry::negative("t", "k", "boom".to_string(), 0, 10_000);
    assert_eq!(classify(Some(&entry), 5_000, 1_000), Freshness::NegativeExpired);
    assert_eq!(classify(Some(&entry), 5_000, 5_000), Freshness::NegativeHit);
    assert_eq!(classify(Some(&entry), 50_000, 60_000), Freshness::NegativeHit);
}

#[test]
fn soft_ttl_is_capped_by_hard_ttl() {
    let entry = CacheEntry::positive("t", "k", vec![], 10, 86_400_000, 43_200_000, None);
    assert_eq!(entry.soft_expiry(), 43_200_010);
    assert_eq!(entry.hard_expiry(), 43_200_010);
}

#[test]
fn explicit_ttl_sets_both_expiries() {
    let entry = CacheEntry::positive("t", "k", vec![], 10, 100, 700, Some(5));
    assert_eq!(entry.soft_expiry(), 15);
    assert_eq!(entry.hard_expiry(), 15);
    let longer = CacheEntry::positive("t", "k", vec![], 10, 100, 700, Some(5_000));
    assert_eq!(longer.soft_expiry(), 5_010);
    assert_eq!(longer.hard_expiry(), 5_010);
}

#[test]
fn expiry_saturates() {
    let entry = CacheEntry::positive("t", "k", vec![], u64::MAX - 5, 3, 10, None);
    assert_eq!(entry.soft_expiry(), u64::MAX - 2);
    assert_eq!(entry.hard_expiry(), u64::MAX);
    let failure = CacheEntry::negative("t", "k", String::new(), u64::MAX, 1);
    assert_eq!(failure.hard_expiry(), u64::MAX);
}

#[test]
fn entry_keeps_what_it_was_given() {
    let entry = CacheEntry::positive("topic", "key", vec![9, 8], 1, 2, 3, None);
    assert_eq!(entry.topic(), "topic");
    assert_eq!(entry.key(), "key");
    assert_eq!(entry.payload(), &Payload::Value(vec![9, 8]));
    let copy = entry.clone();
    assert_eq!(copy, entry);
    let failure = CacheEntry::negative("topic", "key", "why".to_string(), 1, 2);
    assert_eq!(failure.payload(), &Payload::Failure("why".to_string()));
}

#[test]
fn from_parts_accepts_only_well_formed_entries() {
    let ok = CacheEntry::from_parts("t".into(), "k".into(), Payload::Value(vec![1]), 5, 6, 7);
    assert!(ok.is_some());
    let ok = ok.unwrap();
    assert_eq!((ok.created_at(), ok.soft_expiry(), ok.hard_expiry()), (5, 6, 7));
    assert!(CacheEntry::from_parts("t".into(), "k".into(), Payload::Value(vec![]), 5, 8, 7).is_none());
    assert!(CacheEntry::from_parts("t".into(), "k".into(), Payload::Value(vec![]), 7, 6, 8).is_none());
    assert!(CacheEntry::from_parts("t".into(), "k".into(), Payload::Failure("x".into()), 5, 6, 7).is_none());
    assert!(CacheEntry::from_parts("t".into(), "k".into(), Payload::Failure("x".into()), 5, 7, 7).is_some());
}

#[test]
fn plan_for_every_state() {
    assert_eq!(plan_for(Freshness::Fresh, false, false), Plan::Serve);
    assert_eq!(plan_for(Freshness::Fresh, true, true), Plan::Serve);
    assert_eq!(plan_for(Freshness::NegativeHit, false, false), Plan::ReplayFailure);
    assert_eq!(plan_for(Freshness::NegativeHit, true, true), Plan::ReplayFailure);
    assert_eq!(plan_for(Freshness::Stale, true, false), Plan::ServeStaleAndRefresh);
    assert_eq!(plan_for(Freshness::Stale, true, true), Plan::ServeStale);
    assert_eq!(plan_for(Freshness::Stale, false, false), Plan::Compute);
    assert_eq!(plan_for(Freshness::Stale, false, true), Plan::AwaitInFlight);
    for state in [Freshness::Absent, Freshness::Expired, Freshness::NegativeExpired] {
        for allow_stale in [false, true] {
            assert_eq!(plan_for(state, allow_stale, false), Plan::Compute);
            assert_eq!(plan_for(state, allow_stale, true), Plan::AwaitInFlight);
        }
    }
}
