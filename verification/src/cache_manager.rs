//! The cache layer of the service: a product cache with exact hit/miss
//! statistics, and a separate admin store that survives routine resets.
//!
//! The product cache is an association list with pairwise distinct keys,
//! abstracted as a `Map<Seq<char>, Seq<char>>`. The admin store is a
//! concurrency-safe map of an outside crate, used through trusted wrappers
//! whose contracts speak of its abstract contents.

use vstd::prelude::*;

verus! {

broadcast use {vstd::set::group_set_axioms, vstd::map::group_map_axioms};

/// One product cache entry: a key mapped to a value.
pub struct CacheEntry {
    /// The lookup key.
    pub key: String,
    /// The cached value.
    pub value: String,
}

/// A point-in-time snapshot of the cache statistics.
#[derive(Debug, Clone, PartialEq, Eq, Structural)]
pub struct CacheStats {
    /// Number of entries currently in the product cache.
    pub total_entries: u64,
    /// Lookups answered from the cache since the last reset.
    pub hit_count: u64,
    /// Lookups that found nothing since the last reset.
    pub miss_count: u64,
    /// Entries expired by the background TTL/idle mechanism since the last
    /// reset; explicit removal never counts here.
    pub eviction_count: u64,
    /// A rough estimate of the memory held by the entries.
    pub memory_usage_bytes: u64,
    /// When the statistics were last reset, in seconds.
    pub last_reset_time: i64,
}

/// The abstract state of the cache layer: both stores as mathematical maps
/// over character sequences, plus the statistics counters.
///
/// `lookups` counts the `get` calls issued since the last reset; it is the
/// yardstick that keeps `hits + misses` honest.
#[verifier::ext_equal]
pub ghost struct CacheModel {
    /// Contents of the product cache.
    pub product: Map<Seq<char>, Seq<char>>,
    /// Contents of the admin store.
    pub admin: Map<Seq<char>, Seq<char>>,
    /// Lookups answered from the product cache since the last reset.
    pub hits: int,
    /// Lookups that found nothing since the last reset.
    pub misses: int,
    /// Background evictions since the last reset.
    pub evictions: int,
    /// Product cache lookups issued since the last reset.
    pub lookups: int,
    /// When the statistics were last reset, in seconds.
    pub last_reset: int,
}

impl CacheModel {
    /// What a lookup returns: the value under the key, if present.
    pub open spec fn lookup(self, k: Seq<char>) -> Option<Seq<char>> {
        if self.product.dom().contains(k) {
            Some(self.product[k])
        } else {
            None
        }
    }

    /// The state after one `get`: exactly one of the hit and miss counters
    /// steps, and the lookup counter steps with it.
    pub open spec fn do_get(self, k: Seq<char>) -> CacheModel {
        if self.product.dom().contains(k) {
            CacheModel { hits: self.hits + 1, lookups: self.lookups + 1, ..self }
        } else {
            CacheModel { misses: self.misses + 1, lookups: self.lookups + 1, ..self }
        }
    }

    /// The state after an insert: the key now maps to the value.
    pub open spec fn do_insert(self, k: Seq<char>, v: Seq<char>) -> CacheModel {
        CacheModel { product: self.product.insert(k, v), ..self }
    }

    /// The state after a removal: the key is gone; nothing else moves.
    pub open spec fn do_remove(self, k: Seq<char>) -> CacheModel {
        CacheModel { product: self.product.remove(k), ..self }
    }

    /// The state after `clear`: the product cache is empty; the cumulative
    /// counters and the admin store are untouched.
    pub open spec fn do_clear(self) -> CacheModel {
        CacheModel { product: Map::empty(), ..self }
    }

    /// The state after a periodic reset: the product cache is empty, the
    /// statistics are zeroed, the reset time is stamped, and the admin
    /// store is untouched.
    pub open spec fn do_reset(self, now: int) -> CacheModel {
        CacheModel {
            product: Map::empty(),
            hits: 0,
            misses: 0,
            evictions: 0,
            lookups: 0,
            last_reset: now,
            ..self
        }
    }

    /// The state after an admin insert: only the admin store moves.
    pub open spec fn do_insert_admin(self, k: Seq<char>, v: Seq<char>) -> CacheModel {
        CacheModel { admin: self.admin.insert(k, v), ..self }
    }

    /// The state after an admin clear: only the admin store moves.
    pub open spec fn do_clear_admin(self) -> CacheModel {
        CacheModel { admin: Map::empty(), ..self }
    }

    /// The accounting that makes the statistics meaningful: the hits and
    /// the misses together are exactly the lookups issued since the last
    /// reset.
    pub open spec fn lookup_accounting(self) -> bool {
        self.hits + self.misses == self.lookups
    }
}

/// The keys of an entry sequence are pairwise distinct.
pub open spec fn keys_unique(s: Seq<CacheEntry>) -> bool {
    forall|i: int, j: int| 0 <= i < j < s.len() ==> s[i].key@ != s[j].key@
}

/// Some entry of the sequence carries this key.
pub open spec fn has_key(s: Seq<CacheEntry>, k: Seq<char>) -> bool {
    exists|i: int| 0 <= i < s.len() && s[i].key@ == k
}

/// The empty contents of either store.
pub open spec fn empty_store() -> Map<Seq<char>, Seq<char>> {
    Map::empty()
}

/// The map an entry sequence stands for; a later entry for the same key
/// wins, though under `keys_unique` there is never more than one.
pub open spec fn entries_map(s: Seq<CacheEntry>) -> Map<Seq<char>, Seq<char>>
    decreases s.len(),
{
    if s.len() == 0 {
        Map::empty()
    } else {
        entries_map(s.drop_last()).insert(s.last().key@, s.last().value@)
    }
}

/// A key is in the map of an entry sequence exactly when some entry
/// carries it.
proof fn lemma_entries_map_contains(s: Seq<CacheEntry>, k: Seq<char>)
    ensures
        entries_map(s).dom().contains(k) <==> has_key(s, k),
    decreases s.len(),
{
    if s.len() == 0 {
    } else {
        lemma_entries_map_contains(s.drop_last(), k);
        if s.last().key@ == k {
            assert(s[s.len() - 1].key@ == k);
        } else {
            if has_key(s, k) {
                let i = choose|i: int| 0 <= i < s.len() && s[i].key@ == k;
                assert(s.drop_last()[i] == s[i]);
            }
            if has_key(s.drop_last(), k) {
                let i = choose|i: int| 0 <= i < s.drop_last().len() && s.drop_last()[i].key@ == k;
                assert(s[i].key@ == k);
            }
        }
    }
}

/// Under distinct keys, the map of an entry sequence sends each entry's key
/// to that entry's value.
proof fn lemma_entries_map_index(s: Seq<CacheEntry>, i: int)
    requires
        keys_unique(s),
        0 <= i < s.len(),
    ensures
        entries_map(s).dom().contains(s[i].key@),
        entries_map(s)[s[i].key@] == s[i].value@,
    decreases s.len(),
{
    if i == s.len() - 1 {
    } else {
        assert(keys_unique(s.drop_last())) by {
            assert(forall|x: int, y: int|
                0 <= x < y < s.drop_last().len() ==> s.drop_last()[x] == s[x] && s.drop_last()[y]
                    == s[y]);
        }
        assert(s.drop_last()[i] == s[i]);
        lemma_entries_map_index(s.drop_last(), i);
        assert(s.last().key@ != s[i].key@);
    }
}

/// Under distinct keys, the map of an entry sequence has exactly one key
/// per entry.
proof fn lemma_entries_map_len(s: Seq<CacheEntry>)
    requires
        keys_unique(s),
    ensures
        entries_map(s).dom().finite(),
        entries_map(s).dom().len() == s.len(),
    decreases s.len(),
{
    if s.len() == 0 {
        assert(entries_map(s).dom() =~= Set::empty());
    } else {
        assert(keys_unique(s.drop_last())) by {
            assert(forall|x: int, y: int|
                0 <= x < y < s.drop_last().len() ==> s.drop_last()[x] == s[x] && s.drop_last()[y]
                    == s[y]);
        }
        lemma_entries_map_len(s.drop_last());
        lemma_entries_map_contains(s.drop_last(), s.last().key@);
        assert(!has_key(s.drop_last(), s.last().key@)) by {
            if has_key(s.drop_last(), s.last().key@) {
                let i = choose|i: int|
                    0 <= i < s.drop_last().len() && s.drop_last()[i].key@ == s.last().key@;
                assert(s[i].key@ == s[s.len() - 1].key@);
            }
        }
    }
}

/// Removing the entry at one index removes exactly its key from the map,
/// provided the keys are distinct.
proof fn lemma_entries_map_remove(s: Seq<CacheEntry>, i: int)
    requires
        keys_unique(s),
        0 <= i < s.len(),
    ensures
        entries_map(s.remove(i)) == entries_map(s).remove(s[i].key@),
    decreases s.len(),
{
    let k = s[i].key@;
    if i == s.len() - 1 {
        assert(s.remove(i) =~= s.drop_last());
        lemma_entries_map_contains(s.drop_last(), k);
        assert(!has_key(s.drop_last(), k)) by {
            if has_key(s.drop_last(), k) {
                let j = choose|j: int| 0 <= j < s.drop_last().len() && s.drop_last()[j].key@ == k;
                assert(s[j].key@ == s[s.len() - 1].key@);
            }
        }
        assert(entries_map(s).remove(k) =~= entries_map(s.drop_last()));
    } else {
        assert(keys_unique(s.drop_last())) by {
            assert(forall|x: int, y: int|
                0 <= x < y < s.drop_last().len() ==> s.drop_last()[x] == s[x] && s.drop_last()[y]
                    == s[y]);
        }
        assert(s.drop_last()[i] == s[i]);
        lemma_entries_map_remove(s.drop_last(), i);
        assert(s.remove(i).drop_last() =~= s.drop_last().remove(i));
        assert(s.remove(i).last() == s.last());
        assert(s.last().key@ != k);
        assert(entries_map(s.drop_last()).remove(k).insert(s.last().key@, s.last().value@)
            =~= entries_map(s.drop_last()).insert(s.last().key@, s.last().value@).remove(k));
    }
}

/// Relies on `dashmap::DashMap`, a concurrency-safe hash map; declared so
/// that its values can stand in fields and signatures.
#[verifier::external_type_specification]
#[verifier::external_body]
#[verifier::reject_recursive_types(K)]
#[verifier::reject_recursive_types(V)]
#[verifier::reject_recursive_types(S)]
pub struct ExDashMap<K, V, S>(dashmap::DashMap<K, V, S>);

/// Removing one entry keeps the remaining keys pairwise distinct.
proof fn lemma_keys_unique_remove(s: Seq<CacheEntry>, i: int)
    requires
        keys_unique(s),
        0 <= i < s.len(),
    ensures
        keys_unique(s.remove(i)),
{
    let t = s.remove(i);
    assert forall|x: int, y: int| 0 <= x < y < t.len() implies #[trigger] t[x].key@
        != #[trigger] t[y].key@ by {
        let a = if x < i { x } else { x + 1 };
        let b = if y < i { y } else { y + 1 };
        assert(t[x] == s[a]);
        assert(t[y] == s[b]);
    }
}

/// Appending an entry under a fresh key keeps the keys pairwise distinct.
proof fn lemma_keys_unique_push(s: Seq<CacheEntry>, e: CacheEntry)
    requires
        keys_unique(s),
        !has_key(s, e.key@),
    ensures
        keys_unique(s.push(e)),
{
    let t = s.push(e);
    assert forall|x: int, y: int| 0 <= x < y < t.len() implies #[trigger] t[x].key@
        != #[trigger] t[y].key@ by {
        if y == t.len() - 1 {
            assert(t[x] == s[x]);
            if s[x].key@ == e.key@ {
                assert(has_key(s, e.key@));
            }
        } else {
            assert(t[x] == s[x]);
            assert(t[y] == s[y]);
        }
    }
}

/// The admin store, as this module handles it.
pub type AdminStore = dashmap::DashMap<String, String, std::collections::hash_map::RandomState>;

/// The abstract contents of an admin store.
pub uninterp spec fn admin_view(m: AdminStore) -> Map<Seq<char>, Seq<char>>;

/// Relies on `dashmap::DashMap::new`: creates an empty map.
#[verifier::external_body]
fn admin_map_new() -> (m: AdminStore)
    ensures
        admin_view(m) == empty_store(),
{
    dashmap::DashMap::new()
}

/// Relies on `dashmap::DashMap::insert`: maps the key to the value and
/// leaves every other key unchanged.
#[verifier::external_body]
fn admin_map_insert(m: &mut AdminStore, key: String, value: String)
    ensures
        admin_view(*final(m)) == admin_view(*old(m)).insert(key@, value@),
{
    m.insert(key, value);
}

/// Relies on `dashmap::DashMap::get`: returns the value under the key, if
/// the key is present.
#[verifier::external_body]
fn admin_map_get(m: &AdminStore, key: &str) -> (r: Option<String>)
    ensures
        match r {
            Some(v) => admin_view(*m).dom().contains(key@) && v@ == admin_view(*m)[key@],
            None => !admin_view(*m).dom().contains(key@),
        },
{
    m.get(key).map(|e| e.value().clone())
}

/// Relies on `dashmap::DashMap::clear`: removes every entry.
#[verifier::external_body]
fn admin_map_clear(m: &mut AdminStore)
    ensures
        admin_view(*final(m)) == empty_store(),
{
    m.clear();
}

/// The cache layer: the product cache with its statistics, and the admin
/// store that only an explicit outage call empties.
pub struct CacheManager {
    entries: Vec<CacheEntry>,
    admin_cache: AdminStore,
    hit_count: u64,
    miss_count: u64,
    eviction_count: u64,
    last_reset_time: i64,
    lookups: Ghost<int>,
}

impl View for CacheManager {
    type V = CacheModel;

    closed spec fn view(&self) -> CacheModel {
        CacheModel {
            product: entries_map(self.entries@),
            admin: admin_view(self.admin_cache),
            hits: self.hit_count as int,
            misses: self.miss_count as int,
            evictions: self.eviction_count as int,
            lookups: self.lookups@,
            last_reset: self.last_reset_time as int,
        }
    }
}

/// Finds the index of the entry carrying this key, if any.
fn find_index(entries: &Vec<CacheEntry>, key: &String) -> (r: Option<usize>)
    ensures
        match r {
            Some(i) => i < entries@.len() && entries@[i as int].key@ == key@,
            None => !has_key(entries@, key@),
        },
{
    let n = entries.len();
    let mut j: usize = 0;
    while j < n
        invariant
            n == entries@.len(),
            j <= n,
            forall|t: int| 0 <= t < j ==> entries@[t].key@ != key@,
        decreases n - j,
    {
        if entries[j].key == *key {
            return Some(j);
        }
        j = j + 1;
    }
    None
}

impl CacheManager {
    /// The representation invariant: the entry keys are pairwise distinct,
    /// and the statistics obey the lookup accounting.
    pub closed spec fn inv(self) -> bool {
        &&& keys_unique(self.entries@)
        &&& self@.lookup_accounting()
    }

    /// Creates an empty cache layer with zeroed statistics.
    pub fn new() -> (c: CacheManager)
        ensures
            c.inv(),
            c@.product == Map::<Seq<char>, Seq<char>>::empty(),
            c@.admin == Map::<Seq<char>, Seq<char>>::empty(),
            c@.hits == 0,
            c@.misses == 0,
            c@.evictions == 0,
            c@.lookups == 0,
            c@.last_reset == 0,
    {
        let c = CacheManager {
            entries: Vec::new(),
            admin_cache: admin_map_new(),
            hit_count: 0,
            miss_count: 0,
            eviction_count: 0,
            last_reset_time: 0,
            lookups: Ghost(0),
        };
        proof {
            assert(c@.product =~= Map::<Seq<char>, Seq<char>>::empty());
        }
        c
    }

    /// Initializes the statistics: zeroes the counters and stamps the reset
    /// time; neither store is touched.
    pub fn initialize(&mut self, now: i64) -> (r: Result<bool, crate::ServiceError>)
        requires
            old(self).inv(),
        ensures
            final(self).inv(),
            r == Ok::<bool, crate::ServiceError>(true),
            final(self)@.product == old(self)@.product,
            final(self)@.admin == old(self)@.admin,
            final(self)@.hits == 0,
            final(self)@.misses == 0,
            final(self)@.evictions == 0,
            final(self)@.lookups == 0,
            final(self)@.last_reset == now,
    {
        self.hit_count = 0;
        self.miss_count = 0;
        self.eviction_count = 0;
        self.last_reset_time = now;
        proof {
            self.lookups@ = 0;
        }
        Ok(true)
    }

    /// Looks a key up in the product cache, stepping the hit counter on
    /// presence and the miss counter otherwise.
    pub fn get(&mut self, key: &str) -> (r: Option<String>)
        requires
            old(self).inv(),
            old(self)@.lookups < u64::MAX,
        ensures
            final(self).inv(),
            final(self)@ == old(self)@.do_get(key@),
            match r {
                Some(v) => old(self)@.lookup(key@) == Some(v@),
                None => old(self)@.lookup(key@) is None,
            },
    {
        let k: String = key.to_owned();
        match find_index(&self.entries, &k) {
            Some(i) => {
                proof {
                    lemma_entries_map_index(self.entries@, i as int);
                }
                let v = self.entries[i].value.clone();
                self.hit_count = self.hit_count + 1;
                proof {
                    self.lookups@ = self.lookups@ + 1;
                    assert(self@ =~= old(self)@.do_get(key@));
                }
                Some(v)
            },
            None => {
                proof {
                    lemma_entries_map_contains(self.entries@, key@);
                }
                self.miss_count = self.miss_count + 1;
                proof {
                    self.lookups@ = self.lookups@ + 1;
                    assert(self@ =~= old(self)@.do_get(key@));
                }
                None
            },
        }
    }

    /// Inserts a value into the product cache, overwriting the previous
    /// value if the key was already present.
    pub fn insert(&mut self, key: String, value: String)
        requires
            old(self).inv(),
        ensures
            final(self).inv(),
            final(self)@ == old(self)@.do_insert(key@, value@),
    {
        let ghost s0 = self.entries@;
        match find_index(&self.entries, &key) {
            Some(i) => {
                proof {
                    lemma_entries_map_remove(s0, i as int);
                    lemma_keys_unique_remove(s0, i as int);
                }
                let _ = self.entries.remove(i);
                let ghost s1 = self.entries@;
                proof {
                    assert(!has_key(s1, key@)) by {
                        if has_key(s1, key@) {
                            let j = choose|j: int| 0 <= j < s1.len() && s1[j].key@ == key@;
                            let a = if j < i { j } else { j + 1 };
                            assert(s1[j] == s0[a]);
                            assert(s0[a].key@ == key@ && s0[i as int].key@ == key@ && a != i);
                        }
                    }
                }
                self.entries.push(CacheEntry { key, value });
                proof {
                    let s2 = self.entries@;
                    assert(s2 =~= s1.push(s2.last()));
                    lemma_keys_unique_push(s1, s2.last());
                    assert(s2.drop_last() =~= s1);
                    assert(entries_map(s2) == entries_map(s1).insert(key@, value@));
                    assert(entries_map(s1).insert(key@, value@) =~= entries_map(s0).insert(
                        key@,
                        value@,
                    ));
                    assert(self@ =~= old(self)@.do_insert(key@, value@));
                }
            },
            None => {
                self.entries.push(CacheEntry { key, value });
                proof {
                    let s2 = self.entries@;
                    assert(s2 =~= s0.push(s2.last()));
                    lemma_keys_unique_push(s0, s2.last());
                    assert(s2.drop_last() =~= s0);
                    assert(self@ =~= old(self)@.do_insert(key@, value@));
                }
            },
        }
    }

    /// Inserts a batch of entries, one `insert` per pair; the batch is not
    /// atomic, and a later pair for the same key wins.
    pub fn insert_batch(&mut self, entries: Vec<(String, String)>)
        requires
            old(self).inv(),
        ensures
            final(self).inv(),
            final(self)@ == batch_insert(old(self)@, entries@),
    {
        let n = entries.len();
        let mut i: usize = 0;
        while i < n
            invariant
                self.inv(),
                n == entries@.len(),
                i <= n,
                self@ == batch_insert(old(self)@, entries@.subrange(0, i as int)),
            decreases n - i,
        {
            let key = entries[i].0.clone();
            let value = entries[i].1.clone();
            self.insert(key, value);
            proof {
                let pre = entries@.subrange(0, i as int);
                let cur = entries@.subrange(0, i + 1 as int);
                assert(cur.drop_last() =~= pre);
                assert(cur.last() == entries@[i as int]);
            }
            i = i + 1;
        }
        proof {
            assert(entries@.subrange(0, n as int) =~= entries@);
        }
    }

    /// Removes a key from the product cache; a no-op when the key is
    /// absent.
    pub fn remove(&mut self, key: &str)
        requires
            old(self).inv(),
        ensures
            final(self).inv(),
            final(self)@ == old(self)@.do_remove(key@),
    {
        let k: String = key.to_owned();
        let ghost s0 = self.entries@;
        match find_index(&self.entries, &k) {
            Some(i) => {
                proof {
                    lemma_entries_map_remove(s0, i as int);
                    lemma_keys_unique_remove(s0, i as int);
                }
                let _ = self.entries.remove(i);
                proof {
                    assert(self@ =~= old(self)@.do_remove(key@));
                }
            },
            None => {
                proof {
                    lemma_entries_map_contains(s0, key@);
                    assert(entries_map(s0).remove(key@) =~= entries_map(s0));
                    assert(self@ =~= old(self)@.do_remove(key@));
                }
            },
        }
    }

    /// Empties the product cache; the cumulative counters and the admin
    /// store stay as they are.
    pub fn clear(&mut self)
        requires
            old(self).inv(),
        ensures
            final(self).inv(),
            final(self)@ == old(self)@.do_clear(),
    {
        self.entries.clear();
        proof {
            assert(self@.product =~= Map::<Seq<char>, Seq<char>>::empty());
            assert(self@ =~= old(self)@.do_clear());
        }
    }

    /// Looks a key up in the admin store; admin lookups touch no statistic.
    pub fn get_admin(&self, key: &str) -> (r: Option<String>)
        ensures
            match r {
                Some(v) => self@.admin.dom().contains(key@) && v@ == self@.admin[key@],
                None => !self@.admin.dom().contains(key@),
            },
    {
        admin_map_get(&self.admin_cache, key)
    }

    /// Inserts a value into the admin store; the product cache and the
    /// statistics stay as they are.
    pub fn insert_admin(&mut self, key: String, value: String)
        requires
            old(self).inv(),
        ensures
            final(self).inv(),
            final(self)@ == old(self)@.do_insert_admin(key@, value@),
    {
        admin_map_insert(&mut self.admin_cache, key, value);
        proof {
            assert(self@ =~= old(self)@.do_insert_admin(key@, value@));
        }
    }

    /// Empties the admin store and nothing else: the product cache and its
    /// statistics remain exactly as they were. Meant for an explicit
    /// outage call, never for routine resets.
    pub fn clear_admin(&mut self)
        requires
            old(self).inv(),
        ensures
            final(self).inv(),
            final(self)@ == old(self)@.do_clear_admin(),
    {
        admin_map_clear(&mut self.admin_cache);
        proof {
            assert(self@ =~= old(self)@.do_clear_admin());
        }
    }

    /// The periodic reset: empties the product cache, zeroes the hit, miss
    /// and eviction counters, stamps the reset time, and leaves the admin
    /// store fully intact.
    pub fn perform_daily_cache_reset(&mut self, now: i64) -> (r: Result<(), crate::ServiceError>)
        requires
            old(self).inv(),
        ensures
            final(self).inv(),
            r == Ok::<(), crate::ServiceError>(()),
            final(self)@ == old(self)@.do_reset(now as int),
    {
        self.clear();
        self.hit_count = 0;
        self.miss_count = 0;
        self.eviction_count = 0;
        self.last_reset_time = now;
        proof {
            self.lookups@ = 0;
            assert(self@ =~= old(self)@.do_reset(now as int));
        }
        Ok(())
    }

    /// Snapshots the statistics. The memory estimate is a rough kilobyte
    /// per entry, saturating at the integer limit.
    pub fn get_cache_stats(&self) -> (s: CacheStats)
        requires
            self.inv(),
        ensures
            s.total_entries == self@.product.dom().len(),
            s.hit_count == self@.hits,
            s.miss_count == self@.misses,
            s.eviction_count == self@.evictions,
            s.last_reset_time == self@.last_reset,
            s.memory_usage_bytes == if s.total_entries * 1024 <= u64::MAX {
                s.total_entries * 1024
            } else {
                u64::MAX as int
            },
    {
        proof {
            lemma_entries_map_len(self.entries@);
        }
        let total: u64 = self.entries.len() as u64;
        let memory: u64 = if total <= u64::MAX / 1024 {
            total * 1024
        } else {
            u64::MAX
        };
        CacheStats {
            total_entries: total,
            hit_count: self.hit_count,
            miss_count: self.miss_count,
            eviction_count: self.eviction_count,
            memory_usage_bytes: memory,
            last_reset_time: self.last_reset_time,
        }
    }

    /// Shuts the cache layer down: empties both stores.
    pub fn shutdown(&mut self) -> (r: Result<(), crate::ServiceError>)
        requires
            old(self).inv(),
        ensures
            final(self).inv(),
            r == Ok::<(), crate::ServiceError>(()),
            final(self)@ == old(self)@.do_clear().do_clear_admin(),
    {
        self.clear();
        self.clear_admin();
        Ok(())
    }
}

/// The model after inserting a batch of pairs in order.
pub open spec fn batch_insert(m: CacheModel, entries: Seq<(String, String)>) -> CacheModel
    decreases entries.len(),
{
    if entries.len() == 0 {
        m
    } else {
        batch_insert(m, entries.drop_last()).do_insert(entries.last().0@, entries.last().1@)
    }
}

/// Law: over any sequence of operations, the hits and the misses together
/// are exactly the `get` calls issued since the last reset — every
/// transition preserves the accounting, only `do_get` steps the lookup
/// counter, and a reset restarts it at zero.
pub proof fn lemma_lookup_accounting(m: CacheModel, k: Seq<char>, v: Seq<char>, now: int)
    requires
        m.lookup_accounting(),
    ensures
        m.do_get(k).lookup_accounting(),
        m.do_get(k).lookups == m.lookups + 1,
        m.do_insert(k, v).lookup_accounting(),
        m.do_insert(k, v).lookups == m.lookups,
        m.do_remove(k).lookup_accounting(),
        m.do_remove(k).lookups == m.lookups,
        m.do_clear().lookup_accounting(),
        m.do_clear().lookups == m.lookups,
        m.do_insert_admin(k, v).lookup_accounting(),
        m.do_insert_admin(k, v).lookups == m.lookups,
        m.do_clear_admin().lookup_accounting(),
        m.do_clear_admin().lookups == m.lookups,
        m.do_reset(now).lookup_accounting(),
        m.do_reset(now).lookups == 0,
{
}

/// Law: inserting twice under one key keeps the entry count unchanged — the
/// key is a single key — and a lookup afterwards finds the second value,
/// as a hit.
pub proof fn lemma_insert_overwrites(m: CacheModel, k: Seq<char>, v1: Seq<char>, v2: Seq<char>)
    ensures
        m.do_insert(k, v1).do_insert(k, v2).product.dom() == m.do_insert(k, v1).product.dom(),
        m.do_insert(k, v1).do_insert(k, v2).product.dom().len() == m.do_insert(
            k,
            v1,
        ).product.dom().len(),
        m.do_insert(k, v1).do_insert(k, v2).lookup(k) == Some(v2),
        m.do_insert(k, v1).do_insert(k, v2).do_get(k).hits == m.hits + 1,
{
    assert(m.do_insert(k, v1).do_insert(k, v2).product.dom() =~= m.do_insert(
        k,
        v1,
    ).product.dom());
}

/// Law: removing an absent key changes nothing; removing a present key
/// shrinks the entry count by exactly one; either way, a lookup of the key
/// afterwards is a miss.
pub proof fn lemma_remove_semantics(m: CacheModel, k: Seq<char>)
    requires
        m.product.dom().finite(),
    ensures
        !m.product.dom().contains(k) ==> m.do_remove(k).product == m.product,
        !m.product.dom().contains(k) ==> m.do_remove(k).product.dom().len()
            == m.product.dom().len(),
        m.product.dom().contains(k) ==> m.do_remove(k).product.dom().len() + 1
            == m.product.dom().len(),
        m.do_remove(k).lookup(k) is None,
        m.do_remove(k).do_get(k).misses == m.misses + 1,
{
    if !m.product.dom().contains(k) {
        assert(m.do_remove(k).product =~= m.product);
    }
    assert(m.do_remove(k).product.dom() =~= m.product.dom().remove(k));
}

/// Law: the periodic reset empties the product cache, zeroes the hit, miss
/// and eviction counters, stamps the reset time, and leaves the admin
/// store fully intact.
pub proof fn lemma_reset_isolates_admin(m: CacheModel, now: int)
    ensures
        m.do_reset(now).product == Map::<Seq<char>, Seq<char>>::empty(),
        m.do_reset(now).hits == 0,
        m.do_reset(now).misses == 0,
        m.do_reset(now).evictions == 0,
        m.do_reset(now).last_reset == now,
        m.do_reset(now).admin == m.admin,
{
}

/// Law: clearing the admin store empties only the admin store; the product
/// cache and every statistic stay exactly as they were.
pub proof fn lemma_clear_admin_isolated(m: CacheModel)
    ensures
        m.do_clear_admin().admin == Map::<Seq<char>, Seq<char>>::empty(),
        m.do_clear_admin().product == m.product,
        m.do_clear_admin().hits == m.hits,
        m.do_clear_admin().misses == m.misses,
        m.do_clear_admin().evictions == m.evictions,
        m.do_clear_admin().last_reset == m.last_reset,
{
}

} // verus!
