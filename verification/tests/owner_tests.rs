use procmem::OwnerCache;

#[test]
fn recorded_name_is_answered_without_any_lookup() {
    let mut cache = OwnerCache::new();
    cache.record(5000, "alice".to_string());
    let first = cache.display_name(5000);
    let second = cache.display_name(5000);
    assert_eq!(first, "alice");
    assert_eq!(second, "alice");
    assert_eq!(cache.lookup_count(), 0);
}

#[test]
fn recording_a_uid_twice_keeps_the_first_name() {
    let mut cache = OwnerCache::new();
    cache.record(5000, "alice".to_string());
    cache.record(5000, "bob".to_string());
    assert_eq!(cache.display_name(5000), "alice");
}

#[test]
fn a_fresh_cache_performs_one_lookup_per_query() {
    let mut cache = OwnerCache::new();
    let _ = cache.display_name(4294967294);
    assert_eq!(cache.lookup_count(), 1);
}

#[test]
fn a_successful_lookup_is_cached_and_not_repeated() {
    let mut cache = OwnerCache::new();
    let first = cache.display_name(0);
    assert_eq!(cache.lookup_count(), 1);
    let second = cache.display_name(0);
    assert_eq!(first, second);
    if !first.is_empty() {
        // The database knew the uid, so the name was cached and the repeat
        // query performed no further lookup.
        assert_eq!(cache.lookup_count(), 1);
    }
}

#[test]
fn distinct_uids_are_cached_independently() {
    let mut cache = OwnerCache::new();
    cache.record(1, "one".to_string());
    cache.record(2, "two".to_string());
    assert_eq!(cache.display_name(1), "one");
    assert_eq!(cache.display_name(2), "two");
    assert_eq!(cache.lookup_count(), 0);
}
