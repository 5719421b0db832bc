use pgp_disc::inbox::InboxCache;

#[test]
fn fifo_eviction_keeps_last_fifty() {
    let mut cache = InboxCache::new();
    for k in 0..51u32 {
        cache.record(format!("id{:02}", k), format!("block{:02}", k));
    }
    assert_eq!(cache.len(), 50);
    // the first-inserted sighting is gone
    assert_eq!(cache.find("id00"), None);
    // the last fifty are present, in their original relative order
    let listed = cache.list();
    assert_eq!(listed.len(), 50);
    for (pos, s) in listed.iter().enumerate() {
        let k = pos + 1;
        assert_eq!(s.id, format!("id{:02}", k));
        assert_eq!(s.block, format!("block{:02}", k));
        assert_eq!(cache.find(&format!("id{:02}", k)), Some(format!("block{:02}", k)));
    }
}

#[test]
fn find_on_empty_cache_is_none() {
    let cache = InboxCache::new();
    assert_eq!(cache.find("deadbeef"), None);
    assert!(cache.is_empty());
}

#[test]
fn find_unknown_fingerprint_is_none() {
    let mut cache = InboxCache::new();
    cache.record("aaaa".to_string(), "block a".to_string());
    assert_eq!(cache.find("bbbb"), None);
}

#[test]
fn latest_on_empty_cache_is_none() {
    let cache = InboxCache::new();
    assert!(cache.latest().is_none());
}

#[test]
fn latest_is_the_tail() {
    let mut cache = InboxCache::new();
    cache.record("one".to_string(), "first".to_string());
    cache.record("two".to_string(), "second".to_string());
    let last = cache.latest().unwrap();
    assert_eq!(last.id, "two");
    assert_eq!(last.block, "second");
}

#[test]
fn duplicate_sightings_age_independently_and_oldest_match_wins() {
    let mut cache = InboxCache::new();
    cache.record("same".to_string(), "older".to_string());
    cache.record("same".to_string(), "newer".to_string());
    assert_eq!(cache.len(), 2);
    // the oldest match wins on lookup
    assert_eq!(cache.find("same"), Some("older".to_string()));
    let last = cache.latest().unwrap();
    assert_eq!(last.block, "newer");
}
