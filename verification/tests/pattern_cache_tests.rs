use shogi_engine::pattern_cache::{CachedPatternResult, PatternCache, PatternCacheConfig};

fn sample() -> CachedPatternResult {
    CachedPatternResult { tactical_score: (50, 30), positional_score: (40, 25), endgame_score: (20, 35), age: 0 }
}

#[test]
fn test_pattern_cache_creation() {
    let cache = PatternCache::new(1000);
    assert_eq!(cache.max_size(), 1000);
    assert_eq!(cache.size(), 0);
}

#[test]
fn test_cache_store_and_lookup() {
    let mut cache = PatternCache::new(100);
    cache.store(12345, sample());
    let retrieved = cache.lookup(12345);
    assert!(retrieved.is_some());
    let retrieved = retrieved.unwrap();
    assert_eq!(retrieved.tactical_score, (50, 30));
    assert_eq!(retrieved.positional_score, (40, 25));
}

#[test]
fn test_cache_hit_miss() {
    let mut cache = PatternCache::new(100);
    cache.store(12345, sample());
    let _ = cache.lookup(12345);
    assert_eq!(cache.stats().hits, 1);
    assert_eq!(cache.stats().misses, 0);
    let _ = cache.lookup(99999);
    assert_eq!(cache.stats().hits, 1);
    assert_eq!(cache.stats().misses, 1);
}

#[test]
fn test_cache_eviction() {
    let mut cache = PatternCache::new(3);
    cache.store(1, sample());
    cache.store(2, sample());
    cache.store(3, sample());
    assert_eq!(cache.size(), 3);
    cache.store(4, sample());
    assert_eq!(cache.size(), 3);
    assert_eq!(cache.stats().evictions, 1);
}

#[test]
fn test_cache_clear() {
    let mut cache = PatternCache::new(100);
    cache.store(1, sample());
    cache.store(2, sample());
    cache.store(3, sample());
    assert_eq!(cache.size(), 3);
    cache.clear();
    assert_eq!(cache.size(), 0);
    assert_eq!(cache.stats().clears, 1);
    assert_eq!(cache.stats().total_cleared, 3);
}

#[test]
fn test_cache_invalidation() {
    let mut cache = PatternCache::new(100);
    cache.store(12345, sample());
    assert_eq!(cache.size(), 1);
    cache.invalidate(12345);
    assert_eq!(cache.size(), 0);
    assert_eq!(cache.stats().invalidations, 1);
}

#[test]
fn test_cache_resize() {
    let mut cache = PatternCache::new(5);
    for i in 0..5 {
        cache.store(i, sample());
    }
    assert_eq!(cache.size(), 5);
    cache.resize(3);
    assert_eq!(cache.max_size(), 3);
    assert_eq!(cache.size(), 3);
}

#[test]
fn test_lru_eviction_order() {
    let mut cache = PatternCache::new(3);
    cache.store(1, sample());
    cache.store(2, sample());
    cache.store(3, sample());
    let _ = cache.lookup(1);
    cache.store(4, sample());
    assert!(cache.lookup(1).is_some());
    assert_eq!(cache.size(), 3);
}

#[test]
fn test_cache_config_validation() {
    let config = PatternCacheConfig::default();
    assert_eq!(config.max_size, 100_000);
    assert!(config.enable_lru_touch);
    assert!(config.enable_incremental_updates);
}

#[test]
fn pattern_cache_test_reset_statistics() {
    let mut cache = PatternCache::new(100);
    cache.store(1, sample());
    let _ = cache.lookup(1);
    assert!(cache.stats().stores > 0);
    assert!(cache.stats().lookups > 0);
    cache.reset_stats();
    assert_eq!(cache.stats().stores, 0);
    assert_eq!(cache.stats().lookups, 0);
}

// Further cases on concrete values.

#[test]
fn oldest_untouched_entry_is_evicted() {
    let mut cache = PatternCache::new(3);
    cache.store(1, sample());
    cache.store(2, sample());
    cache.store(3, sample());
    let _ = cache.lookup(1);
    cache.store(4, sample());
    assert!(cache.lookup(2).is_none());
    assert!(cache.lookup(3).is_some());
    assert!(cache.lookup(4).is_some());
}

#[test]
fn stored_results_carry_their_age() {
    let mut cache = PatternCache::new(10);
    cache.store(7, sample());
    cache.store(8, sample());
    assert_eq!(cache.lookup(8).unwrap().age, 2);
    let config = PatternCacheConfig { max_size: 10, enable_lru_touch: false, enable_incremental_updates: true };
    let mut plain = PatternCache::with_config(config);
    plain.store(7, sample());
    assert_eq!(plain.lookup(7).unwrap().age, 0);
    assert_eq!(plain.lookup(7).unwrap().age, 0);
}

#[test]
fn invalidating_a_missing_entry_counts_nothing() {
    let mut cache = PatternCache::new(10);
    cache.invalidate(1);
    assert_eq!(cache.stats().invalidations, 0);
}
