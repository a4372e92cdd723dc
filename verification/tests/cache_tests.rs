use mint_core::cache::{
    cached_path, entry_is_expired, entry_is_fresh, resolve_cache_dir, CacheEntryInfo, CacheState,
    StoreAction, FRESH_SECS, SWEEP_AGE_SECS,
};

#[test]
fn store_twice_within_a_day_copies_once() {
    let mut cache = CacheState::new();
    let t1: u64 = 1_000_000;
    let first = cache.store("pkg-1.0.whl".to_string(), t1);
    assert_eq!(first, StoreAction::Copied);
    // one hour later, same artifact: reused, nothing copied
    let second = cache.store("pkg-1.0.whl".to_string(), t1 + 3600);
    assert_eq!(second, StoreAction::Reused);
    assert_eq!(cache.entries.len(), 1);
    assert_eq!(cache.entries[0].modified_secs, t1);
}

#[test]
fn store_again_at_the_freshness_boundary() {
    let mut cache = CacheState::new();
    let t1: u64 = 1_000_000;
    cache.store("a.whl".to_string(), t1);
    // exactly 24 hours old: still fresh
    assert_eq!(cache.store("a.whl".to_string(), t1 + FRESH_SECS), StoreAction::Reused);
    // one second past 24 hours: copied anew
    let r = cache.store("a.whl".to_string(), t1 + FRESH_SECS + 1);
    assert_eq!(r, StoreAction::Copied);
    assert_eq!(cache.entries.len(), 1);
    assert_eq!(cache.entries[0].modified_secs, t1 + FRESH_SECS + 1);
}

#[test]
fn store_copies_over_forced_old_entry() {
    // the destination's modification time was forced far into the past
    let mut cache = CacheState {
        entries: vec![CacheEntryInfo { name: "a.whl".to_string(), modified_secs: 0 }],
    };
    let r = cache.store("a.whl".to_string(), 3 * FRESH_SECS);
    assert_eq!(r, StoreAction::Copied);
    assert_eq!(cache.entries.len(), 1);
    assert_eq!(cache.entries[0].modified_secs, 3 * FRESH_SECS);
}

#[test]
fn store_treats_future_timestamp_as_stale() {
    let mut cache = CacheState {
        entries: vec![CacheEntryInfo { name: "a.whl".to_string(), modified_secs: 5000 }],
    };
    // now is before the entry's modification time
    let r = cache.store("a.whl".to_string(), 100);
    assert_eq!(r, StoreAction::Copied);
}

#[test]
fn sweep_removes_only_expired_and_is_idempotent() {
    let now: u64 = 10_000_000;
    let mut cache = CacheState {
        entries: vec![
            CacheEntryInfo { name: "old.whl".to_string(), modified_secs: now - SWEEP_AGE_SECS - 1 },
            CacheEntryInfo { name: "young.whl".to_string(), modified_secs: now - 100 },
            CacheEntryInfo { name: "boundary.whl".to_string(), modified_secs: now - SWEEP_AGE_SECS },
            CacheEntryInfo { name: "ancient.whl".to_string(), modified_secs: 0 },
        ],
    };
    let removed = cache.sweep(now);
    assert_eq!(removed, 2);
    let names: Vec<&str> = cache.entries.iter().map(|e| e.name.as_str()).collect();
    assert_eq!(names, vec!["young.whl", "boundary.whl"]);
    // a second sweep at the same time removes nothing
    let removed_again = cache.sweep(now);
    assert_eq!(removed_again, 0);
    assert_eq!(cache.entries.len(), 2);
}

#[test]
fn freshness_boundaries() {
    assert!(entry_is_fresh(1000, 1000));
    assert!(entry_is_fresh(1000, 1000 + FRESH_SECS));
    assert!(!entry_is_fresh(1000, 1000 + FRESH_SECS + 1));
    // a future modification time is not fresh
    assert!(!entry_is_fresh(2000, 1000));
}

#[test]
fn expiry_boundaries() {
    assert!(!entry_is_expired(1000, 1000 + SWEEP_AGE_SECS));
    assert!(entry_is_expired(1000, 1000 + SWEEP_AGE_SECS + 1));
    // a future modification time never counts as expired
    assert!(!entry_is_expired(2000, 1000));
}

#[test]
fn cache_dir_resolution_prefers_platform_then_home() {
    assert_eq!(
        resolve_cache_dir(Some("/sys/cache".to_string()), Some("/home/u".to_string())),
        "/sys/cache/.mint_cache"
    );
    assert_eq!(resolve_cache_dir(None, Some("/home/u".to_string())), "/home/u/.mint_cache");
    assert_eq!(resolve_cache_dir(None, None), ".mint_cache/.mint_cache");
}

#[test]
fn default_cache_location_ends_with_the_cache_subdirectory() {
    let loc = mint_core::cache::default_cache_location();
    assert!(loc.ends_with("/.mint_cache"));
}

#[test]
fn cached_path_joins_directory_and_name() {
    assert_eq!(cached_path("/tmp/cache", "pkg.whl"), "/tmp/cache/pkg.whl");
}
