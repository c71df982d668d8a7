//! Cached pattern results and the tracker that remembers the last
//! evaluated position for incremental updates.

use vstd::prelude::*;
use std::collections::HashMap;

verus! {

/// Pattern scores of a position, `(mg, eg)` each.
#[derive(Debug, Clone, Copy)]
pub struct CachedPatternResult {
    pub tactical_score: (i32, i32),
    pub positional_score: (i32, i32),
    pub endgame_score: (i32, i32),
    /// Age of the entry, for least-recently-used eviction.
    pub age: u64,
}

/// Counters of a pattern cache.
#[derive(Debug, Clone, Copy, PartialEq, Eq, Structural)]
pub struct PatternCacheStats {
    pub lookups: u64,
    pub hits: u64,
    pub misses: u64,
    pub stores: u64,
    pub evictions: u64,
    pub invalidations: u64,
    pub clears: u64,
    /// Entries removed by clears.
    pub total_cleared: u64,
}

impl Default for PatternCacheStats {
    fn default() -> (r: Self)
        ensures
            r == (PatternCacheStats {
                lookups: 0,
                hits: 0,
                misses: 0,
                stores: 0,
                evictions: 0,
                invalidations: 0,
                clears: 0,
                total_cleared: 0,
            }),
    {
        PatternCacheStats {
            lookups: 0,
            hits: 0,
            misses: 0,
            stores: 0,
            evictions: 0,
            invalidations: 0,
            clears: 0,
            total_cleared: 0,
        }
    }
}

/// Remembers the last position and its pattern results.
pub struct IncrementalPatternTracker {
    last_position_hash: Option<u64>,
    last_results: Option<CachedPatternResult>,
    enabled: bool,
}

impl IncrementalPatternTracker {
    pub closed spec fn last_hash(&self) -> Option<u64> {
        self.last_position_hash
    }

    pub closed spec fn last(&self) -> Option<CachedPatternResult> {
        self.last_results
    }

    pub closed spec fn is_on(&self) -> bool {
        self.enabled
    }

    /// An enabled tracker with nothing remembered.
    pub fn new() -> (r: Self)
        ensures
            r.last_hash().is_none(),
            r.last().is_none(),
            r.is_on(),
    {
        IncrementalPatternTracker { last_position_hash: None, last_results: None, enabled: true }
    }

    /// An incremental update is possible while enabled once a position has
    /// been remembered.
    pub fn can_update_incrementally(&self, _current_hash: u64) -> (r: bool)
        ensures
            r == (self.is_on() && self.last_hash().is_some()),
    {
        self.enabled && self.last_position_hash.is_some()
    }

    /// Remembers a position and its results.
    pub fn update(&mut self, hash: u64, result: CachedPatternResult)
        ensures
            final(self).last_hash() == Some(hash),
            final(self).last() == Some(result),
            final(self).is_on() == old(self).is_on(),
    {
        self.last_position_hash = Some(hash);
        self.last_results = Some(result);
    }

    /// The remembered results.
    pub fn last_results(&self) -> (r: Option<CachedPatternResult>)
        ensures
            r == self.last(),
    {
        self.last_results
    }

    /// Forgets the remembered position.
    pub fn clear(&mut self)
        ensures
            final(self).last_hash().is_none(),
            final(self).last().is_none(),
            final(self).is_on() == old(self).is_on(),
    {
        self.last_position_hash = None;
        self.last_results = None;
    }

    /// Enables or disables incremental updates.
    pub fn set_enabled(&mut self, enabled: bool)
        ensures
            final(self).is_on() == enabled,
            final(self).last_hash() == old(self).last_hash(),
            final(self).last() == old(self).last(),
    {
        self.enabled = enabled;
    }
}

impl Default for IncrementalPatternTracker {
    fn default() -> (r: Self)
        ensures
            r.last_hash().is_none(),
            r.last().is_none(),
            r.is_on(),
    {
        IncrementalPatternTracker::new()
    }
}

/// Settings of a pattern cache.
#[derive(Debug, Clone, Copy, PartialEq, Eq, Structural)]
pub struct PatternCacheConfig {
    /// Entries kept before the least recently used one is evicted.
    pub max_size: usize,
    /// A hit refreshes the entry's age.
    pub enable_lru_touch: bool,
    /// Incremental updates are allowed.
    pub enable_incremental_updates: bool,
}

impl Default for PatternCacheConfig {
    fn default() -> (r: Self)
        ensures
            r == (PatternCacheConfig { max_size: 100_000, enable_lru_touch: true, enable_incremental_updates: true }),
    {
        PatternCacheConfig { max_size: 100_000, enable_lru_touch: true, enable_incremental_updates: true }
    }
}

/// `k` holds the oldest entry of `m`.
pub open spec fn is_lru(m: Map<u64, CachedPatternResult>, k: u64) -> bool {
    &&& m.contains_key(k)
    &&& forall|j: u64| #[trigger] m.contains_key(j) ==> m[k].age <= m[j].age
}

/// No two entries share an age, and every age is below `counter`.
pub open spec fn ages_ok(m: Map<u64, CachedPatternResult>, counter: u64) -> bool {
    &&& forall|k: u64| #[trigger] m.contains_key(k) ==> m[k].age < counter
    &&& forall|a: u64, b: u64| #[trigger] m.contains_key(a) && #[trigger] m.contains_key(b) && a != b ==> m[a].age != m[b].age
}

/// A result stamped with an age.
pub open spec fn aged(r: CachedPatternResult, age: u64) -> CachedPatternResult {
    CachedPatternResult { age, ..r }
}

/// With distinct ages the oldest entry is unique.
pub proof fn law_lru_unique(m: Map<u64, CachedPatternResult>, counter: u64, a: u64, b: u64)
    requires
        ages_ok(m, counter),
        is_lru(m, a),
        is_lru(m, b),
    ensures
        a == b,
{
    if a != b {
        assert(m[a].age <= m[b].age);
        assert(m[b].age <= m[a].age);
    }
}

/// Least-recently-used cache of pattern results by position hash.
pub struct PatternCache {
    cache: HashMap<u64, CachedPatternResult>,
    max_size: usize,
    age_counter: u64,
    stats: PatternCacheStats,
    config: PatternCacheConfig,
}

impl PatternCache {
    /// Cached results by position hash.
    pub closed spec fn entries(&self) -> Map<u64, CachedPatternResult> {
        self.cache@
    }

    pub closed spec fn capacity(&self) -> nat {
        self.max_size as nat
    }

    /// Age the next stored or touched entry gets.
    pub closed spec fn clock(&self) -> u64 {
        self.age_counter
    }

    pub closed spec fn counters(&self) -> PatternCacheStats {
        self.stats
    }

    pub closed spec fn settings(&self) -> PatternCacheConfig {
        self.config
    }

    pub closed spec fn wf(&self) -> bool {
        &&& self.cache@.dom().finite()
        &&& ages_ok(self.cache@, self.age_counter)
    }

    /// An empty cache holding at most `max_size` entries, with default
    /// settings otherwise.
    pub fn new(max_size: usize) -> (r: Self)
        ensures
            r.wf(),
            r.entries() == Map::<u64, CachedPatternResult>::empty(),
            r.capacity() == max_size,
            r.clock() == 0,
            r.counters() == PatternCacheStats::default_spec(),
            r.settings() == (PatternCacheConfig { max_size: 100_000, enable_lru_touch: true, enable_incremental_updates: true }),
    {
        broadcast use vstd::std_specs::hash::group_hash_axioms;
        PatternCache {
            cache: HashMap::new(),
            max_size,
            age_counter: 0,
            stats: PatternCacheStats::default(),
            config: PatternCacheConfig::default(),
        }
    }

    /// An empty cache with the given settings.
    pub fn with_config(config: PatternCacheConfig) -> (r: Self)
        ensures
            r.wf(),
            r.entries() == Map::<u64, CachedPatternResult>::empty(),
            r.capacity() == config.max_size,
            r.clock() == 0,
            r.counters() == PatternCacheStats::default_spec(),
            r.settings() == config,
    {
        broadcast use vstd::std_specs::hash::group_hash_axioms;
        PatternCache {
            cache: HashMap::new(),
            max_size: config.max_size,
            age_counter: 0,
            stats: PatternCacheStats::default(),
            config,
        }
    }

    /// Removes the oldest entry, when there is one, and counts the eviction.
    fn evict_lru(&mut self)
        requires
            old(self).wf(),
            old(self).stats.evictions < u64::MAX,
        ensures
            final(self).wf(),
            old(self).cache@.len() == 0 ==> *final(self) == *old(self),
            old(self).cache@.len() > 0 ==> {
                &&& exists|k: u64| is_lru(old(self).cache@, k) && #[trigger] final(self).cache@ == old(self).cache@.remove(k)
                &&& final(self).cache@.len() == old(self).cache@.len() - 1
                &&& final(self).stats == (PatternCacheStats { evictions: (old(self).stats.evictions + 1) as u64, ..old(self).stats })
            },
            final(self).max_size == old(self).max_size,
            final(self).age_counter == old(self).age_counter,
            final(self).config == old(self).config,
    {
        broadcast use vstd::std_specs::hash::group_hash_axioms;
        if self.cache.len() == 0 {
            return;
        }
        let ghost m = self.cache@;
        let mut oldest_hash: u64 = 0;
        let mut oldest_age: u64 = u64::MAX;
        let mut found = false;
        for entry in it: self.cache.iter()
            invariant
                m == self.cache@,
                m.len() > 0,
                ages_ok(m, self.age_counter),
                found ==> m.contains_key(oldest_hash) && m[oldest_hash].age == oldest_age,
                !found ==> oldest_age == u64::MAX,
                it.index() > 0 ==> found,
                it.seq().len() == m.len(),
                forall|j: int| 0 <= j < it.index() ==> oldest_age <= (#[trigger] it.seq()[j]).1.age,
                forall|j: int| 0 <= j < it.seq().len() ==> m.contains_key(*(#[trigger] it.seq()[j]).0)
                    && m[*it.seq()[j].0] == *it.seq()[j].1,
                forall|k: u64| #[trigger] m.contains_key(k) ==> it.seq().contains((&k, &m[k])),
        {
            let (hash, result) = entry;
            if result.age < oldest_age {
                oldest_age = result.age;
                oldest_hash = *hash;
                found = true;
            }
        }
        proof {
            assert(found);
            assert forall|k: u64| #[trigger] m.contains_key(k) implies oldest_age <= m[k].age by {
            }
            assert(is_lru(m, oldest_hash));
        }
        self.cache.remove(&oldest_hash);
        self.stats.evictions = self.stats.evictions + 1;
    }

    /// Stores a result under a hash with the next age. When the cache is
    /// full, the oldest entry is evicted first.
    pub fn store(&mut self, position_hash: u64, result: CachedPatternResult)
        requires
            old(self).wf(),
            old(self).clock() < u64::MAX,
            old(self).counters().stores < u64::MAX,
            old(self).counters().evictions < u64::MAX,
        ensures
            final(self).wf(),
            final(self).clock() == old(self).clock() + 1,
            final(self).capacity() == old(self).capacity(),
            final(self).settings() == old(self).settings(),
            final(self).entries().contains_key(position_hash),
            final(self).entries()[position_hash] == aged(result, old(self).clock()),
            old(self).entries().len() <= old(self).capacity() && old(self).capacity() > 0 ==> final(self).entries().len()
                <= final(self).capacity(),
            old(self).entries().len() >= old(self).capacity() && old(self).entries().len() > 0 ==> {
                &&& exists|k: u64| is_lru(old(self).entries(), k) && #[trigger] final(self).entries() == old(self).entries().remove(
                    k,
                ).insert(position_hash, aged(result, old(self).clock()))
                &&& final(self).counters() == (PatternCacheStats {
                    stores: (old(self).counters().stores + 1) as u64,
                    evictions: (old(self).counters().evictions + 1) as u64,
                    ..old(self).counters()
                })
            },
            !(old(self).entries().len() >= old(self).capacity() && old(self).entries().len() > 0) ==> {
                &&& final(self).entries() == old(self).entries().insert(position_hash, aged(result, old(self).clock()))
                &&& final(self).counters() == (PatternCacheStats {
                    stores: (old(self).counters().stores + 1) as u64,
                    ..old(self).counters()
                })
            },
    {
        broadcast use vstd::std_specs::hash::group_hash_axioms;
        self.stats.stores = self.stats.stores + 1;
        if self.cache.len() >= self.max_size {
            self.evict_lru();
        }
        let mut result_with_age = result;
        result_with_age.age = self.age_counter;
        let ghost before = self.cache@;
        self.age_counter = self.age_counter + 1;
        self.cache.insert(position_hash, result_with_age);
        proof {
            let m = self.cache@;
            assert(m == before.insert(position_hash, result_with_age));
            assert forall|a: u64, b: u64| #[trigger] m.contains_key(a) && #[trigger] m.contains_key(b) && a != b implies m[a].age
                != m[b].age by {
                if a != position_hash && b != position_hash {
                    assert(before.contains_key(a) && before.contains_key(b));
                }
            }
        }
    }

    /// The result stored under a hash, counting a hit or a miss. With LRU
    /// touch enabled a hit gets the next age, and the touched result is
    /// returned.
    pub fn lookup(&mut self, position_hash: u64) -> (r: Option<CachedPatternResult>)
        requires
            old(self).wf(),
            old(self).clock() < u64::MAX,
            old(self).counters().lookups < u64::MAX,
            old(self).counters().hits < u64::MAX,
            old(self).counters().misses < u64::MAX,
        ensures
            final(self).wf(),
            final(self).capacity() == old(self).capacity(),
            final(self).settings() == old(self).settings(),
            old(self).entries().contains_key(position_hash) ==> {
                let touch = old(self).settings().enable_lru_touch;
                let found = old(self).entries()[position_hash];
                let returned = if touch { aged(found, old(self).clock()) } else { found };
                &&& r == Some(returned)
                &&& final(self).entries() == old(self).entries().insert(position_hash, returned)
                &&& final(self).clock() == if touch { old(self).clock() + 1 } else { old(self).clock() as int }
                &&& final(self).counters() == (PatternCacheStats {
                    lookups: (old(self).counters().lookups + 1) as u64,
                    hits: (old(self).counters().hits + 1) as u64,
                    ..old(self).counters()
                })
            },
            !old(self).entries().contains_key(position_hash) ==> {
                &&& r is None
                &&& final(self).entries() == old(self).entries()
                &&& final(self).clock() == old(self).clock()
                &&& final(self).counters() == (PatternCacheStats {
                    lookups: (old(self).counters().lookups + 1) as u64,
                    misses: (old(self).counters().misses + 1) as u64,
                    ..old(self).counters()
                })
            },
    {
        broadcast use vstd::std_specs::hash::group_hash_axioms;
        self.stats.lookups = self.stats.lookups + 1;
        match self.cache.get(&position_hash) {
            Some(found) => {
                let mut result = *found;
                self.stats.hits = self.stats.hits + 1;
                if self.config.enable_lru_touch {
                    result.age = self.age_counter;
                    let ghost before = self.cache@;
                    self.age_counter = self.age_counter + 1;
                    self.cache.insert(position_hash, result);
                    proof {
                        let m = self.cache@;
                        assert(m == before.insert(position_hash, result));
                        assert forall|a: u64, b: u64| #[trigger] m.contains_key(a) && #[trigger] m.contains_key(b) && a != b implies m[a].age
                            != m[b].age by {
                            if a != position_hash && b != position_hash {
                                assert(before.contains_key(a) && before.contains_key(b));
                            }
                        }
                    }
                } else {
                    proof {
                        assert(self.cache@.insert(position_hash, result) =~= self.cache@);
                    }
                }
                Some(result)
            },
            None => {
                self.stats.misses = self.stats.misses + 1;
                None
            },
        }
    }

    /// Removes the entry under a hash; an actual removal is counted.
    pub fn invalidate(&mut self, position_hash: u64)
        requires
            old(self).wf(),
            old(self).counters().invalidations < u64::MAX,
        ensures
            final(self).wf(),
            final(self).entries() == old(self).entries().remove(position_hash),
            !final(self).entries().contains_key(position_hash),
            final(self).clock() == old(self).clock(),
            final(self).capacity() == old(self).capacity(),
            final(self).settings() == old(self).settings(),
            final(self).counters() == if old(self).entries().contains_key(position_hash) {
                PatternCacheStats { invalidations: (old(self).counters().invalidations + 1) as u64, ..old(self).counters() }
            } else {
                old(self).counters()
            },
    {
        broadcast use vstd::std_specs::hash::group_hash_axioms;
        let removed = self.cache.remove(&position_hash);
        if removed.is_some() {
            self.stats.invalidations = self.stats.invalidations + 1;
        }
    }

    /// Empties the cache, counting the clear and the entries removed.
    pub fn clear(&mut self)
        requires
            old(self).wf(),
            old(self).counters().clears < u64::MAX,
            old(self).counters().total_cleared + old(self).entries().len() <= u64::MAX,
        ensures
            final(self).wf(),
            final(self).entries() == Map::<u64, CachedPatternResult>::empty(),
            final(self).clock() == old(self).clock(),
            final(self).capacity() == old(self).capacity(),
            final(self).settings() == old(self).settings(),
            final(self).counters() == (PatternCacheStats {
                clears: (old(self).counters().clears + 1) as u64,
                total_cleared: (old(self).counters().total_cleared + old(self).entries().len()) as u64,
                ..old(self).counters()
            }),
    {
        broadcast use vstd::std_specs::hash::group_hash_axioms;
        let entries_cleared = self.cache.len();
        self.cache.clear();
        self.stats.clears = self.stats.clears + 1;
        self.stats.total_cleared = self.stats.total_cleared + entries_cleared as u64;
    }

    /// The counters.
    pub fn stats(&self) -> (r: &PatternCacheStats)
        ensures
            *r == self.counters(),
    {
        &self.stats
    }

    /// Number of cached entries.
    pub fn size(&self) -> (r: usize)
        requires
            self.wf(),
        ensures
            r == self.entries().len(),
    {
        broadcast use vstd::std_specs::hash::group_hash_axioms;
        self.cache.len()
    }

    pub fn max_size(&self) -> (r: usize)
        ensures
            r == self.capacity(),
    {
        self.max_size
    }

    /// Sets the capacity and evicts the oldest entries until the cache fits.
    pub fn resize(&mut self, new_size: usize)
        requires
            old(self).wf(),
            old(self).counters().evictions + old(self).entries().len() <= u64::MAX,
        ensures
            final(self).wf(),
            final(self).capacity() == new_size,
            final(self).entries().len() == if old(self).entries().len() > new_size { new_size as nat } else { old(self).entries().len() },
            final(self).entries().submap_of(old(self).entries()),
            final(self).clock() == old(self).clock(),
            final(self).settings() == old(self).settings(),
    {
        broadcast use vstd::std_specs::hash::group_hash_axioms;
        self.max_size = new_size;
        let ghost start = self.cache@;
        let ghost start_evictions = self.stats.evictions;
        while self.cache.len() > self.max_size
            invariant
                self.wf(),
                self.max_size == new_size,
                self.cache@.submap_of(start),
                self.cache@.len() <= start.len(),
                self.cache@.len() >= (if start.len() > new_size { new_size as nat } else { start.len() }),
                self.stats.evictions + self.cache@.len() <= start_evictions + start.len(),
                start_evictions + start.len() <= u64::MAX,
                self.age_counter == old(self).age_counter,
                self.config == old(self).config,
            decreases self.cache@.len(),
        {
            let ghost before = self.cache@;
            self.evict_lru();
            proof {
                let k = choose|k: u64| is_lru(before, k) && #[trigger] self.cache@ == before.remove(k);
                assert(self.cache@.submap_of(start));
            }
        }
    }

    /// Zeroes the counters.
    pub fn reset_stats(&mut self)
        ensures
            final(self).counters() == PatternCacheStats::default_spec(),
            final(self).entries() == old(self).entries(),
            final(self).clock() == old(self).clock(),
            final(self).capacity() == old(self).capacity(),
            final(self).settings() == old(self).settings(),
            old(self).wf() ==> final(self).wf(),
    {
        self.stats = PatternCacheStats::default();
    }
}

impl PatternCacheStats {
    pub open spec fn default_spec() -> PatternCacheStats {
        PatternCacheStats {
            lookups: 0,
            hits: 0,
            misses: 0,
            stores: 0,
            evictions: 0,
            invalidations: 0,
            clears: 0,
            total_cleared: 0,
        }
    }
}

impl Default for PatternCache {
    fn default() -> (r: Self)
        ensures
            r.wf(),
            r.capacity() == 100_000,
    {
        PatternCache::new(100_000)
    }
}

} // verus!
