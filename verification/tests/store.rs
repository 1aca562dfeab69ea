use govee_undoc::entry::{CacheEntry, Payload};
use govee_undoc::store::EntryStore;

#[test]
fn empty_store_holds_nothing() {
    let store = EntryStore::new();
    assert!(store.get("t", "k").is_none());
    assert!(store.entries().is_empty());
}

#[test]
fn put_then_get_returns_the_entry() {
    let mut store = EntryStore::new();
    store.put(CacheEntry::positive("t", "k", vec![1], 0, 10, 20, None));
    let found = store.get("t", "k").unwrap();
    assert_eq!(found.payload(), &Payload::Value(vec![1]));
    assert!(store.get("t", "other").is_none());
    assert!(store.get("other", "k").is_none());
}

#[test]
fn latest_write_wins() {
    let mut store = EntryStore::new();
    store.put(CacheEntry::positive("t", "k", vec![1], 0, 10, 20, None));
    store.put(CacheEntry::positive("t", "j", vec![7], 0, 10, 20, None));
    store.put(CacheEntry::negative("t", "k", "down".to_string(), 5, 10));
    assert_eq!(store.entries().len(), 2);
    let found = store.get("t", "k").unwrap();
    assert!(found.is_negative());
    assert_eq!(found.created_at(), 5);
    store.put(CacheEntry::positive("t", "k", vec![2], 9, 10, 20, None));
    assert_eq!(store.get("t", "k").unwrap().payload(), &Payload::Value(vec![2]));
    assert_eq!(store.get("t", "j").unwrap().payload(), &Payload::Value(vec![7]));
    assert_eq!(store.entries().len(), 2);
}

#[test]
fn same_key_in_two_topics_is_two_entries() {
    let mut store = EntryStore::new();
    store.put(CacheEntry::positive("a", "k", vec![1], 0, 10, 20, None));
    store.put(CacheEntry::positive("b", "k", vec![2], 0, 10, 20, None));
    assert_eq!(store.get("a", "k").unwrap().payload(), &Payload::Value(vec![1]));
    assert_eq!(store.get("b", "k").unwrap().payload(), &Payload::Value(vec![2]));
}

#[test]
fn delete_removes_only_its_key() {
    let mut store = EntryStore::new();
    store.put(CacheEntry::positive("t", "a", vec![1], 0, 10, 20, None));
    store.put(CacheEntry::positive("t", "b", vec![2], 0, 10, 20, None));
    store.put(CacheEntry::positive("t", "c", vec![3], 0, 10, 20, None));
    store.delete("t", "b");
    assert!(store.get("t", "b").is_none());
    assert_eq!(store.get("t", "a").unwrap().payload(), &Payload::Value(vec![1]));
    assert_eq!(store.get("t", "c").unwrap().payload(), &Payload::Value(vec![3]));
    store.delete("t", "missing");
    assert_eq!(store.entries().len(), 2);
}
