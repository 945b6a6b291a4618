use async_ttl::config::{AsyncTtlConfig, DEFAULT_DELTA_DELAY, DEFAULT_EMPTY_DELAY};
use async_ttl::entry::EntryExpire;
use async_ttl::map::CacheMap;
use async_ttl::queue::{insert_entry, ExpireQueue};
use std::collections::{BTreeMap, HashMap};

const MS: u64 = 1_000_000;

#[test]
fn config_new_uses_default_delays() {
    let c = AsyncTtlConfig::new(50 * MS);
    assert_eq!(c.expires_after, 50 * MS);
    assert_eq!(c.empty_delay, 100 * MS);
    assert_eq!(c.delta_delay, 5 * MS);
    assert_eq!(DEFAULT_EMPTY_DELAY, 100 * MS);
    assert_eq!(DEFAULT_DELTA_DELAY, 5 * MS);
}

#[test]
fn builder_defaults_unset_delays() {
    let c = AsyncTtlConfig::builder(7 * MS).build();
    assert_eq!(c, AsyncTtlConfig::new(7 * MS));
}

#[test]
fn builder_keeps_set_delays() {
    let c = AsyncTtlConfig::builder(7 * MS).empty_delay(0).delta_delay(3).build();
    assert_eq!(c.expires_after, 7 * MS);
    assert_eq!(c.empty_delay, 0);
    assert_eq!(c.delta_delay, 3);
    let d = AsyncTtlConfig::builder(1).delta_delay(9).build();
    assert_eq!(d.empty_delay, 100 * MS);
    assert_eq!(d.delta_delay, 9);
}

#[test]
fn expires_in_counts_down_to_zero() {
    let e = EntryExpire::new("a", 10, 50);
    assert_eq!(e.expires_in(10), 50);
    assert_eq!(e.expires_in(30), 30);
    assert_eq!(e.expires_in(59), 1);
    assert_eq!(e.expires_in(60), 0);
    assert_eq!(e.expires_in(1000), 0);
    // a reading before the record counts as no time passed
    assert_eq!(e.expires_in(0), 50);
    assert!(!e.is_due(59));
    assert!(e.is_due(60));
}

#[test]
fn zero_ttl_is_due_at_once() {
    let e = EntryExpire::new(1u32, 5, 0);
    assert!(e.is_due(5));
    assert!(e.is_due(0));
}

#[test]
fn next_delay_on_empty_queue_is_empty_delay() {
    let q: ExpireQueue<&str> = ExpireQueue::new();
    let c = AsyncTtlConfig::new(50 * MS);
    assert_eq!(q.next_delay(0, &c), 100 * MS);
    assert_eq!(q.len(), 0);
}

#[test]
fn next_delay_saturates() {
    let mut q: ExpireQueue<u8> = ExpireQueue::new();
    q.push(1, 0, u64::MAX);
    let c = AsyncTtlConfig::new(u64::MAX);
    assert_eq!(q.next_delay(0, &c), u64::MAX);
}

#[test]
fn insert_then_read_shows_value() {
    let c = AsyncTtlConfig::new(50 * MS);
    let mut q = ExpireQueue::new();
    let mut data: HashMap<String, i32> = HashMap::new();
    insert_entry(&mut q, &mut data, "k".to_string(), 4, 3, &c);
    assert_eq!(data.get("k"), Some(&4));
    assert_eq!(q.len(), 1);
    insert_entry(&mut q, &mut data, "k".to_string(), 5, 4, &c);
    assert_eq!(data.get("k"), Some(&5));
    assert_eq!(q.len(), 2);
}

#[test]
fn scenario_single_key_reaped_after_grace() {
    let c = AsyncTtlConfig::builder(50 * MS).delta_delay(5 * MS).empty_delay(100 * MS).build();
    let mut q = ExpireQueue::new();
    let mut data: HashMap<&str, u32> = HashMap::new();
    insert_entry(&mut q, &mut data, "a", 1, 0, &c);
    // sleep computed at t=0
    let sleep = q.next_delay(0, &c);
    assert_eq!(sleep, 55 * MS);
    // t=10ms: still there
    assert_eq!(data.get("a"), Some(&1));
    // the loop wakes at t=55ms and evicts
    assert_eq!(q.evict_expired(&mut data, sleep), 1);
    // t=70ms: empty
    assert!(data.is_empty());
    assert_eq!(q.len(), 0);
    assert_eq!(q.next_delay(70 * MS, &c), 100 * MS);
}

#[test]
fn scenario_close_keys_reaped_together() {
    let c = AsyncTtlConfig::new(50 * MS);
    let mut q = ExpireQueue::new();
    let mut data: HashMap<&str, u32> = HashMap::new();
    insert_entry(&mut q, &mut data, "a", 1, 0, &c);
    let sleep = q.next_delay(0, &c);
    insert_entry(&mut q, &mut data, "b", 2, 2 * MS, &c);
    assert_eq!(sleep, 55 * MS);
    assert_eq!(q.evict_expired(&mut data, sleep), 2);
    assert!(data.is_empty());
    assert_eq!(q.len(), 0);
}

#[test]
fn eviction_stops_at_first_pending_record() {
    let c = AsyncTtlConfig::new(50 * MS);
    let mut q = ExpireQueue::new();
    let mut data: BTreeMap<u32, u32> = BTreeMap::new();
    insert_entry(&mut q, &mut data, 1, 10, 0, &c);
    insert_entry(&mut q, &mut data, 2, 20, 10 * MS, &c);
    assert_eq!(q.evict_expired(&mut data, 49 * MS), 0);
    assert_eq!(data.len(), 2);
    assert_eq!(q.evict_expired(&mut data, 50 * MS), 1);
    assert_eq!(data.get(&1), None);
    assert_eq!(data.get(&2), Some(&20));
    assert_eq!(q.next_delay(50 * MS, &c), 15 * MS);
    assert_eq!(q.evict_expired(&mut data, 60 * MS), 1);
    assert!(data.is_empty());
}

#[test]
fn eviction_without_due_front_changes_nothing_twice() {
    let c = AsyncTtlConfig::new(50 * MS);
    let mut q = ExpireQueue::new();
    let mut data: HashMap<u32, u32> = HashMap::new();
    insert_entry(&mut q, &mut data, 1, 1, 0, &c);
    insert_entry(&mut q, &mut data, 2, 2, 1, &c);
    assert_eq!(q.evict_expired(&mut data, 20 * MS), 0);
    assert_eq!(q.evict_expired(&mut data, 20 * MS), 0);
    assert_eq!(q.len(), 2);
    assert_eq!(data.len(), 2);
    let mut empty: ExpireQueue<u32> = ExpireQueue::new();
    assert_eq!(empty.evict_expired(&mut data, 20 * MS), 0);
    assert_eq!(data.len(), 2);
}

#[test]
fn first_record_of_a_key_wins() {
    let c = AsyncTtlConfig::new(50 * MS);
    let mut q = ExpireQueue::new();
    let mut data: HashMap<&str, u32> = HashMap::new();
    insert_entry(&mut q, &mut data, "k", 1, 0, &c);
    insert_entry(&mut q, &mut data, "k", 2, 30 * MS, &c);
    assert_eq!(q.evict_expired(&mut data, 55 * MS), 1);
    assert_eq!(data.get("k"), None);
    // the second record removes a key that is already gone
    assert_eq!(q.evict_expired(&mut data, 85 * MS), 1);
    assert!(data.is_empty());
    assert_eq!(q.len(), 0);
}

#[test]
fn many_keys_each_present_then_gone() {
    let c = AsyncTtlConfig::new(50 * MS);
    let mut q = ExpireQueue::new();
    let mut data: BTreeMap<u64, u64> = BTreeMap::new();
    for i in 0..20u64 {
        insert_entry(&mut q, &mut data, i, i * 10, i * MS, &c);
    }
    assert_eq!(q.evict_expired(&mut data, 49 * MS), 0);
    for i in 0..20u64 {
        assert_eq!(data.get(&i), Some(&(i * 10)));
    }
    assert_eq!(q.evict_expired(&mut data, 59 * MS), 10);
    for i in 0..10u64 {
        assert_eq!(data.get(&i), None);
    }
    for i in 10..20u64 {
        assert_eq!(data.get(&i), Some(&(i * 10)));
    }
    assert_eq!(q.evict_expired(&mut data, 69 * MS + 5 * MS), 10);
    assert!(data.is_empty());
}

#[test]
fn store_trait_insert_and_remove() {
    let mut h: HashMap<u8, u8> = HashMap::new();
    h.insert_cache(1, 2);
    h.insert_cache(1, 3);
    h.remove_cache(&9);
    assert_eq!(h.get(&1), Some(&3));
    h.remove_cache(&1);
    assert!(h.is_empty());
    let mut b: BTreeMap<u8, u8> = BTreeMap::new();
    b.insert_cache(4, 5);
    b.remove_cache(&7);
    assert_eq!(b.get(&4), Some(&5));
    b.remove_cache(&4);
    assert!(b.is_empty());
}
