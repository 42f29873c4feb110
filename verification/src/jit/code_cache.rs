//! Entries of the JIT code cache: the cached native code with its access and
//! execution record, and the cache's statistics.
use vstd::prelude::*;
use crate::jit::code_generator::{copy_native_code, native_code_view, NativeCode};
use crate::time::{div_spec, Duration, Instant, MAX_NANOS};
use crate::formal_verification::core_types::same_text;
use crate::value::{expr_text, expression_text, Expr};

verus! {

/// Cache entry priority levels.
#[derive(Debug, Clone, Copy, PartialEq, Eq, PartialOrd, Ord, Structural)]
pub enum CachePriority {
    /// Low priority - candidate for eviction
    Low,
    /// Normal priority - standard caching
    Normal,
    /// High priority - avoid eviction if possible
    High,
    /// Critical priority - never evict
    Critical,
}

/// Cache entry for native code.
#[derive(Debug, Clone)]
pub struct CacheEntry {
    /// The cached native code
    pub code: NativeCode,
    /// Cache key (expression hash)
    pub key: String,
    /// Creation timestamp
    pub created_at: Instant,
    /// Last access timestamp
    pub last_accessed: Instant,
    /// Number of times this code has been accessed
    pub access_count: u64,
    /// Number of times this code has been executed
    pub execution_count: u64,
    /// Total execution time
    pub total_execution_time: Duration,
    /// Average execution time
    pub avg_execution_time: Duration,
    /// Cache entry priority (for eviction decisions)
    pub priority: CachePriority,
    /// Memory usage of this entry (bytes)
    pub memory_usage: usize,
}

/// The later of two clock readings.
pub open spec fn later_of(a: nat, b: nat) -> nat {
    if a >= b { a } else { b }
}

impl CacheEntry {
    /// A fresh entry for `code` under `key`, created at `now`: nothing accessed
    /// or executed yet, normal priority, and a memory usage of the code's size
    /// plus the entry itself.
    pub fn new_at(key: String, code: NativeCode, now: Instant) -> (e: Self)
        requires
            code.machine_code@.len() + vstd::layout::size_of::<CacheEntry>() <= usize::MAX,
        ensures
            e.key@ == key@,
            e.code == code,
            e.created_at == now,
            e.last_accessed == now,
            e.access_count == 0,
            e.execution_count == 0,
            e.total_execution_time@ == 0,
            e.avg_execution_time@ == 0,
            e.priority == CachePriority::Normal,
            e.memory_usage == code.machine_code@.len() + vstd::layout::size_of::<CacheEntry>(),
    {
        let memory_usage = code.code_size() + std::mem::size_of::<CacheEntry>();
        CacheEntry {
            code,
            key,
            created_at: now,
            last_accessed: now,
            access_count: 0,
            execution_count: 0,
            total_execution_time: Duration::zero(),
            avg_execution_time: Duration::zero(),
            priority: CachePriority::Normal,
            memory_usage,
        }
    }

    /// A fresh entry created at the current clock reading; see `new_at`.
    pub fn new(key: String, code: NativeCode) -> (e: Self)
        requires
            code.machine_code@.len() + vstd::layout::size_of::<CacheEntry>() <= usize::MAX,
        ensures
            e.key@ == key@,
            e.code == code,
            e.created_at == e.last_accessed,
            e.access_count == 0,
            e.execution_count == 0,
            e.total_execution_time@ == 0,
            e.avg_execution_time@ == 0,
            e.priority == CachePriority::Normal,
            e.memory_usage == code.machine_code@.len() + vstd::layout::size_of::<CacheEntry>(),
    {
        let now = Instant::now();
        CacheEntry::new_at(key, code, now)
    }

    /// Records an access made at `now`.
    pub fn record_access_at(&mut self, now: Instant)
        requires
            old(self).access_count < u64::MAX,
        ensures
            final(self).last_accessed == now,
            final(self).access_count == old(self).access_count + 1,
            final(self).execution_count == old(self).execution_count,
            final(self).total_execution_time == old(self).total_execution_time,
            final(self).avg_execution_time == old(self).avg_execution_time,
            final(self).created_at == old(self).created_at,
            final(self).priority == old(self).priority,
            final(self).memory_usage == old(self).memory_usage,
            final(self).key@ == old(self).key@,
            final(self).code == old(self).code,
    {
        self.last_accessed = now;
        self.access_count = self.access_count + 1;
    }

    /// Records an access at the current clock reading; see `record_access_at`.
    /// The wall clock can go back, so the access keeps the previous access
    /// time when the reading is earlier: access times never decrease.
    pub fn record_access(&mut self)
        requires
            old(self).access_count < u64::MAX,
        ensures
            final(self).last_accessed@ >= old(self).last_accessed@,
            exists|now: nat| now <= MAX_NANOS && final(self).last_accessed@ == #[trigger] later_of(now, old(self).last_accessed@),
            final(self).access_count == old(self).access_count + 1,
            final(self).execution_count == old(self).execution_count,
            final(self).total_execution_time == old(self).total_execution_time,
            final(self).avg_execution_time == old(self).avg_execution_time,
            final(self).created_at == old(self).created_at,
            final(self).priority == old(self).priority,
            final(self).memory_usage == old(self).memory_usage,
            final(self).key@ == old(self).key@,
            final(self).code == old(self).code,
    {
        let now = Instant::now();
        let stamp = if now.is_before(&self.last_accessed) { self.last_accessed } else { now };
        self.record_access_at(stamp);
        assert(final(self).last_accessed@ == later_of(now@, old(self).last_accessed@));
    }

    /// Records one execution: the count and total grow, and the average is
    /// the total divided by the count taken as a `u32`.
    pub fn record_execution(&mut self, execution_time: Duration)
        requires
            old(self).execution_count < u64::MAX,
            old(self).total_execution_time@ + execution_time@ <= MAX_NANOS,
            (old(self).execution_count + 1) % 0x1_0000_0000 != 0,
        ensures
            final(self).execution_count == old(self).execution_count + 1,
            final(self).total_execution_time@ == old(self).total_execution_time@ + execution_time@,
            final(self).avg_execution_time@ == div_spec(
                final(self).total_execution_time@,
                (final(self).execution_count % 0x1_0000_0000) as nat,
            ),
            final(self).access_count == old(self).access_count,
            final(self).last_accessed == old(self).last_accessed,
            final(self).created_at == old(self).created_at,
            final(self).priority == old(self).priority,
            final(self).memory_usage == old(self).memory_usage,
            final(self).key@ == old(self).key@,
            final(self).code == old(self).code,
    {
        self.execution_count = self.execution_count + 1;
        self.total_execution_time = self.total_execution_time.add(execution_time);
        let divisor = (self.execution_count % 0x1_0000_0000) as u32;
        self.avg_execution_time = self.total_execution_time.div_u32(divisor);
    }
}

/// Memory region for code allocation.
#[derive(Debug)]
struct MemoryRegion {
    start: usize,
    size: usize,
    executable: bool,
}

/// Memory manager for the code cache.
#[derive(Debug)]
pub struct MemoryManager {
    max_memory: usize,
    regions: Vec<MemoryRegion>,
}

impl MemoryManager {
    /// The memory limit.
    pub closed spec fn limit(&self) -> usize {
        self.max_memory
    }

    /// Number of allocated regions.
    pub closed spec fn region_count(&self) -> nat {
        self.regions@.len()
    }

    /// A manager allowing `max_memory` bytes, with no region allocated.
    pub fn new(max_memory: usize) -> (r: Result<Self, crate::error::LambdustError>)
        ensures
            r matches Ok(m) && m.limit() == max_memory && m.region_count() == 0,
    {
        Ok(MemoryManager { max_memory, regions: Vec::new() })
    }
}

/// Configuration of the code cache.
#[derive(Debug, Clone, Copy)]
pub struct CacheConfig {
    /// Maximum memory usage for cached code (bytes)
    pub max_memory_bytes: usize,
    /// Maximum number of cached entries
    pub max_entries: usize,
    /// Memory pressure threshold, in percent of the memory limit
    pub memory_pressure_threshold_percent: u8,
    /// Enable LRU eviction
    pub enable_lru_eviction: bool,
    /// Enable memory compaction
    pub enable_compaction: bool,
    /// Compaction interval
    pub compaction_interval: Duration,
    /// Enable execution-based retention (keep frequently executed code)
    pub execution_based_retention: bool,
    /// Minimum execution count to avoid eviction
    pub min_execution_count_for_retention: u64,
}

impl CacheConfig {
    /// 64 MiB and ten thousand entries, pressure at 80%, LRU eviction and
    /// compaction every five minutes, and entries executed a hundred times kept.
    pub fn default() -> (c: Self)
        ensures
            c.max_memory_bytes == 64 * 1024 * 1024,
            c.max_entries == 10000,
            c.memory_pressure_threshold_percent == 80,
            c.enable_lru_eviction,
            c.enable_compaction,
            c.compaction_interval@ == 300_000_000_000,
            c.execution_based_retention,
            c.min_execution_count_for_retention == 100,
    {
        CacheConfig {
            max_memory_bytes: 64 * 1024 * 1024,
            max_entries: 10000,
            memory_pressure_threshold_percent: 80,
            enable_lru_eviction: true,
            enable_compaction: true,
            compaction_interval: Duration::from_secs(300),
            execution_based_retention: true,
            min_execution_count_for_retention: 100,
        }
    }
}

/// The entry stored under `key`: the first one with that key.
pub open spec fn entry_for(entries: Seq<(String, CacheEntry)>, key: Seq<char>) -> Option<CacheEntry>
    decreases entries.len(),
{
    if entries.len() == 0 {
        None
    } else if entries[0].0@ == key {
        Some(entries[0].1)
    } else {
        entry_for(entries.drop_first(), key)
    }
}


/// No two entries share a key.
pub open spec fn keys_unique(entries: Seq<(String, CacheEntry)>) -> bool {
    forall|i: int, j: int| 0 <= i < entries.len() && 0 <= j < entries.len() && i != j
        ==> #[trigger] entries[i].0@ != #[trigger] entries[j].0@
}

proof fn lemma_entry_for_none(s: Seq<(String, CacheEntry)>, key: Seq<char>)
    ensures
        entry_for(s, key) is None <==> forall|k: int| 0 <= k < s.len() ==> #[trigger] s[k].0@ != key,
    decreases s.len(),
{
    if s.len() > 0 {
        let t = s.drop_first();
        lemma_entry_for_none(t, key);
        if entry_for(s, key) is None {
            assert forall|k: int| 0 <= k < s.len() implies #[trigger] s[k].0@ != key by {
                if k > 0 {
                    assert(t[k - 1] == s[k]);
                }
            }
        }
        if forall|k: int| 0 <= k < s.len() ==> #[trigger] s[k].0@ != key {
            assert(s[0].0@ != key);
            assert forall|k: int| 0 <= k < t.len() implies #[trigger] t[k].0@ != key by {
                assert(t[k] == s[k + 1]);
            }
        }
    }
}

proof fn lemma_keys_unique_tail(s: Seq<(String, CacheEntry)>)
    requires
        keys_unique(s),
        s.len() > 0,
    ensures
        keys_unique(s.drop_first()),
{
    let t = s.drop_first();
    assert forall|a: int, b: int| 0 <= a < t.len() && 0 <= b < t.len() && a != b implies #[trigger] t[a].0@ != #[trigger] t[b].0@ by {
        assert(t[a] == s[a + 1] && t[b] == s[b + 1]);
    }
}

proof fn lemma_entry_for_index(s: Seq<(String, CacheEntry)>, i: int)
    requires
        keys_unique(s),
        0 <= i < s.len(),
    ensures
        entry_for(s, s[i].0@) == Some(s[i].1),
    decreases s.len(),
{
    if i > 0 {
        lemma_keys_unique_tail(s);
        assert(s.drop_first()[i - 1] == s[i]);
        assert(s[0].0@ != s[i].0@);
        lemma_entry_for_index(s.drop_first(), i - 1);
    }
}

proof fn lemma_entry_for_update(s: Seq<(String, CacheEntry)>, i: int, x: (String, CacheEntry), key: Seq<char>)
    requires
        keys_unique(s),
        0 <= i < s.len(),
        x.0@ == s[i].0@,
    ensures
        entry_for(s.update(i, x), key) == if key == x.0@ { Some(x.1) } else { entry_for(s, key) },
        keys_unique(s.update(i, x)),
    decreases s.len(),
{
    let u = s.update(i, x);
    assert forall|a: int, b: int| 0 <= a < u.len() && 0 <= b < u.len() && a != b implies #[trigger] u[a].0@ != #[trigger] u[b].0@ by {
        assert(u[a].0@ == s[a].0@);
        assert(u[b].0@ == s[b].0@);
    }
    if i == 0 {
        if key != x.0@ {
            assert(u.drop_first() =~= s.drop_first());
        }
    } else {
        lemma_keys_unique_tail(s);
        assert(u.drop_first() =~= s.drop_first().update(i - 1, x));
        assert(s[0].0@ != s[i].0@);
        lemma_entry_for_update(s.drop_first(), i - 1, x, key);
    }
}

proof fn lemma_entry_for_push(s: Seq<(String, CacheEntry)>, x: (String, CacheEntry), key: Seq<char>)
    requires
        keys_unique(s),
        entry_for(s, x.0@) is None,
    ensures
        entry_for(s.push(x), key) == if key == x.0@ { Some(x.1) } else { entry_for(s, key) },
        keys_unique(s.push(x)),
    decreases s.len(),
{
    lemma_entry_for_none(s, x.0@);
    let u = s.push(x);
    let m = s.len() as int;
    assert forall|a: int, b: int| 0 <= a < u.len() && 0 <= b < u.len() && a != b implies #[trigger] u[a].0@ != #[trigger] u[b].0@ by {
        if a < m { assert(u[a] == s[a]); }
        if b < m { assert(u[b] == s[b]); }
    }
    if s.len() == 0 {
        assert(u.drop_first() =~= Seq::<(String, CacheEntry)>::empty());
        assert(u[0] == x);
    } else {
        lemma_keys_unique_tail(s);
        assert(u.drop_first() =~= s.drop_first().push(x));
        assert(u[0] == s[0]);
        assert(s[0].0@ != x.0@);
        lemma_entry_for_push(s.drop_first(), x, key);
    }
}

proof fn lemma_entry_for_remove(s: Seq<(String, CacheEntry)>, i: int, key: Seq<char>)
    requires
        keys_unique(s),
        0 <= i < s.len(),
    ensures
        entry_for(s.remove(i), key) == if key == s[i].0@ { None } else { entry_for(s, key) },
        keys_unique(s.remove(i)),
    decreases s.len(),
{
    let u = s.remove(i);
    assert forall|a: int, b: int| 0 <= a < u.len() && 0 <= b < u.len() && a != b implies #[trigger] u[a].0@ != #[trigger] u[b].0@ by {
        let oa = if a < i { a } else { a + 1 };
        let ob = if b < i { b } else { b + 1 };
        assert(u[a] == s[oa] && u[b] == s[ob]);
    }
    if i == 0 {
        assert(u =~= s.drop_first());
        lemma_keys_unique_tail(s);
        if key == s[0].0@ {
            lemma_entry_for_none(u, key);
            assert forall|k: int| 0 <= k < u.len() implies #[trigger] u[k].0@ != key by {
                assert(u[k] == s[k + 1]);
            }
        }
    } else {
        lemma_keys_unique_tail(s);
        assert(u.drop_first() =~= s.drop_first().remove(i - 1));
        assert(u[0] == s[0]);
        assert(s[0].0@ != s[i].0@);
        lemma_entry_for_remove(s.drop_first(), i - 1, key);
    }
}

/// Whether eviction spares an entry: high or critical priority, or, with
/// execution-based retention, executed at least the retention count.
pub open spec fn retained(e: CacheEntry, config: CacheConfig) -> bool {
    ||| e.priority == CachePriority::High
    ||| e.priority == CachePriority::Critical
    ||| (config.execution_based_retention && e.execution_count >= config.min_execution_count_for_retention)
}

/// The keys evicted to free `to_free` bytes: walking the LRU order (oldest
/// first) while memory remains to be freed, each key with an entry that is
/// not retained is evicted and its memory counted as freed.
pub open spec fn eviction_spec(entries: Seq<(String, CacheEntry)>, lru: Seq<String>, to_free: nat, config: CacheConfig) -> Seq<Seq<char>>
    decreases lru.len(),
{
    if lru.len() == 0 || to_free == 0 {
        Seq::empty()
    } else {
        match entry_for(entries, lru[0]@) {
            Some(e) => if retained(e, config) {
                eviction_spec(entries, lru.drop_first(), to_free, config)
            } else {
                seq![lru[0]@] + eviction_spec(entries, lru.drop_first(),
                    if to_free >= e.memory_usage { (to_free - e.memory_usage) as nat } else { 0nat }, config)
            },
            None => eviction_spec(entries, lru.drop_first(), to_free, config),
        }
    }
}

/// The texts of a list of keys.
pub open spec fn key_texts(keys: Seq<String>) -> Seq<Seq<char>> {
    keys.map_values(|k: String| k@)
}

/// A key eviction may select: it is in the LRU order and names an entry that
/// is not retained.
pub open spec fn evictable(entries: Seq<(String, CacheEntry)>, lru: Seq<String>, k: Seq<char>, config: CacheConfig) -> bool {
    &&& key_texts(lru).contains(k)
    &&& entry_for(entries, k) matches Some(e) && !retained(e, config)
}

/// Eviction spares the entries it should keep: every key it selects comes
/// from the LRU order and names an entry that is neither high nor critical
/// priority nor, under execution-based retention, frequently executed.
pub proof fn lemma_evictions_spare_retained(entries: Seq<(String, CacheEntry)>, lru: Seq<String>, to_free: nat, config: CacheConfig)
    ensures
        forall|i: int| 0 <= i < eviction_spec(entries, lru, to_free, config).len()
            ==> evictable(entries, lru, #[trigger] eviction_spec(entries, lru, to_free, config)[i], config),
    decreases lru.len(),
{
    if lru.len() == 0 || to_free == 0 {
    } else {
        let rest = lru.drop_first();
        assert forall|k: Seq<char>| key_texts(rest).contains(k) implies key_texts(lru).contains(k) by {
            let j = choose|j: int| 0 <= j < key_texts(rest).len() && key_texts(rest)[j] == k;
            assert(key_texts(lru)[j + 1] == k);
        }
        assert(key_texts(lru)[0] == lru[0]@);
        match entry_for(entries, lru[0]@) {
            Some(e) => {
                let freed: nat = if to_free >= e.memory_usage { (to_free - e.memory_usage) as nat } else { 0nat };
                if retained(e, config) {
                    lemma_evictions_spare_retained(entries, rest, to_free, config);
                    assert forall|i: int| 0 <= i < eviction_spec(entries, lru, to_free, config).len()
                        implies evictable(entries, lru, #[trigger] eviction_spec(entries, lru, to_free, config)[i], config) by {
                        assert(evictable(entries, rest, eviction_spec(entries, rest, to_free, config)[i], config));
                    }
                } else {
                    lemma_evictions_spare_retained(entries, rest, freed, config);
                    assert forall|i: int| 0 <= i < eviction_spec(entries, lru, to_free, config).len()
                        implies evictable(entries, lru, #[trigger] eviction_spec(entries, lru, to_free, config)[i], config) by {
                        if i > 0 {
                            assert(eviction_spec(entries, lru, to_free, config)[i] == eviction_spec(entries, rest, freed, config)[i - 1]);
                            assert(evictable(entries, rest, eviction_spec(entries, rest, freed, config)[i - 1], config));
                        }
                    }
                }
            },
            None => {
                lemma_evictions_spare_retained(entries, rest, to_free, config);
                assert forall|i: int| 0 <= i < eviction_spec(entries, lru, to_free, config).len()
                    implies evictable(entries, lru, #[trigger] eviction_spec(entries, lru, to_free, config)[i], config) by {
                    assert(evictable(entries, rest, eviction_spec(entries, rest, to_free, config)[i], config));
                }
            },
        }
    }
}

fn find_entry(entries: &Vec<(String, CacheEntry)>, key: &String) -> (r: Option<usize>)
    ensures
        match r {
            Some(i) => i < entries@.len() && entry_for(entries@, key@) == Some(entries@[i as int].1),
            None => entry_for(entries@, key@) is None,
        },
{
    let mut i: usize = 0;
    assert(entries@.skip(0) =~= entries@);
    while i < entries.len()
        invariant
            i <= entries@.len(),
            entry_for(entries@, key@) == entry_for(entries@.skip(i as int), key@),
        decreases entries@.len() - i,
    {
        let ghost rest = entries@.skip(i as int);
        assert(rest[0] == entries@[i as int]);
        assert(rest.drop_first() =~= entries@.skip(i + 1));
        if same_text(&entries[i].0, key.as_str()) {
            return Some(i);
        }
        i = i + 1;
    }
    assert(entries@.skip(i as int).len() == 0);
    None
}

/// The keys to evict, in LRU order, to free `memory_to_free` bytes; see
/// `eviction_spec`.
pub fn select_evictions(
    entries: &Vec<(String, CacheEntry)>,
    lru_order: &Vec<String>,
    memory_to_free: usize,
    config: &CacheConfig,
) -> (keys: Vec<String>)
    ensures
        key_texts(keys@) == eviction_spec(entries@, lru_order@, memory_to_free as nat, *config),
{
    let mut keys: Vec<String> = Vec::new();
    let mut to_free = memory_to_free;
    let mut i: usize = 0;
    assert(lru_order@.skip(0) =~= lru_order@);
    assert(key_texts(keys@) + eviction_spec(entries@, lru_order@, memory_to_free as nat, *config)
        =~= eviction_spec(entries@, lru_order@, memory_to_free as nat, *config));
    while i < lru_order.len()
        invariant
            i <= lru_order@.len(),
            key_texts(keys@) + eviction_spec(entries@, lru_order@.skip(i as int), to_free as nat, *config)
                == eviction_spec(entries@, lru_order@, memory_to_free as nat, *config),
        decreases lru_order@.len() - i,
    {
        let ghost rest = lru_order@.skip(i as int);
        assert(rest[0] == lru_order@[i as int]);
        assert(rest.drop_first() =~= lru_order@.skip(i + 1));
        if to_free == 0 {
            assert(eviction_spec(entries@, rest, 0, *config) == Seq::<Seq<char>>::empty());
            assert(key_texts(keys@) + Seq::<Seq<char>>::empty() =~= key_texts(keys@));
            return keys;
        }
        let key = &lru_order[i];
        match find_entry(entries, key) {
            Some(k) => {
                let entry = &entries[k].1;
                let high = match entry.priority {
                    CachePriority::High => true,
                    CachePriority::Critical => true,
                    _ => false,
                };
                let kept = high || (config.execution_based_retention
                    && entry.execution_count >= config.min_execution_count_for_retention);
                if !kept {
                    let ghost before = keys@;
                    keys.push(key.clone());
                    proof {
                        assert(key_texts(keys@) =~= key_texts(before) + seq![lru_order@[i as int]@]);
                    }
                    to_free = if to_free >= entry.memory_usage { to_free - entry.memory_usage } else { 0 };
                    proof {
                        let tail = eviction_spec(entries@, lru_order@.skip(i + 1), to_free as nat, *config);
                        assert(key_texts(before) + (seq![lru_order@[i as int]@] + tail)
                            =~= key_texts(keys@) + tail);
                    }
                }
            },
            None => {},
        }
        i = i + 1;
    }
    assert(lru_order@.skip(i as int).len() == 0);
    assert(key_texts(keys@) + Seq::<Seq<char>>::empty() =~= key_texts(keys@));
    keys
}


/// `keys` without any occurrence of `key`.
pub open spec fn without_key(keys: Seq<Seq<char>>, key: Seq<char>) -> Seq<Seq<char>>
    decreases keys.len(),
{
    if keys.len() == 0 {
        Seq::empty()
    } else {
        without_key(keys.subrange(0, keys.len() - 1), key)
            + if keys[keys.len() - 1] == key { Seq::<Seq<char>>::empty() } else { seq![keys[keys.len() - 1]] }
    }
}

fn remove_key(v: &Vec<String>, key: &String) -> (r: Vec<String>)
    ensures
        key_texts(r@) == without_key(key_texts(v@), key@),
{
    let mut r: Vec<String> = Vec::new();
    let mut i: usize = 0;
    assert(key_texts(v@).subrange(0, 0) =~= Seq::<Seq<char>>::empty());
    assert(key_texts(r@) =~= Seq::<Seq<char>>::empty());
    while i < v.len()
        invariant
            i <= v@.len(),
            key_texts(r@) == without_key(key_texts(v@).subrange(0, i as int), key@),
        decreases v@.len() - i,
    {
        let ghost before = r@;
        let same = v[i] == *key;
        if !same {
            r.push(v[i].clone());
        }
        proof {
            let t = key_texts(v@).subrange(0, i + 1);
            assert(t.subrange(0, i as int) =~= key_texts(v@).subrange(0, i as int));
            assert(t[i as int] == v@[i as int]@);
            if same {
                assert(key_texts(r@) =~= without_key(t, key@));
            } else {
                assert(key_texts(r@) =~= key_texts(before).push(v@[i as int]@));
                assert(key_texts(r@) =~= without_key(t, key@));
            }
        }
        i = i + 1;
    }
    assert(key_texts(v@).subrange(0, v@.len() as int) =~= key_texts(v@));
    r
}

/// The memory of the entries that `keys` name, in order (a key without an
/// entry counts nothing).
pub open spec fn keys_memory(entries: Seq<(String, CacheEntry)>, keys: Seq<Seq<char>>) -> nat
    decreases keys.len(),
{
    if keys.len() == 0 {
        0
    } else {
        (match entry_for(entries, keys[0]) {
            Some(e) => e.memory_usage as nat,
            None => 0nat,
        }) + keys_memory(entries, keys.drop_first())
    }
}

proof fn lemma_eviction_stops_when_freed(entries: Seq<(String, CacheEntry)>, lru: Seq<String>, to_free: nat, config: CacheConfig, i: int)
    requires
        0 <= i < eviction_spec(entries, lru, to_free, config).len(),
    ensures
        keys_memory(entries, eviction_spec(entries, lru, to_free, config).take(i)) < to_free,
    decreases lru.len(),
{
    let ev = eviction_spec(entries, lru, to_free, config);
    let rest = lru.drop_first();
    match entry_for(entries, lru[0]@) {
        Some(e) => {
            if retained(e, config) {
                lemma_eviction_stops_when_freed(entries, rest, to_free, config, i);
            } else {
                let freed: nat = if to_free >= e.memory_usage { (to_free - e.memory_usage) as nat } else { 0nat };
                let tail = eviction_spec(entries, rest, freed, config);
                assert(ev == seq![lru[0]@] + tail);
                if i == 0 {
                    assert(ev.take(0) =~= Seq::<Seq<char>>::empty());
                } else {
                    lemma_eviction_stops_when_freed(entries, rest, freed, config, i - 1);
                    assert(ev.take(i)[0] == lru[0]@);
                    assert(ev.take(i).drop_first() =~= tail.take(i - 1));
                    assert(freed > 0);
                }
            }
        },
        None => {
            lemma_eviction_stops_when_freed(entries, rest, to_free, config, i);
        },
    }
}

proof fn lemma_eviction_frees_enough(entries: Seq<(String, CacheEntry)>, lru: Seq<String>, to_free: nat, config: CacheConfig)
    ensures
        keys_memory(entries, eviction_spec(entries, lru, to_free, config)) >= to_free
            || forall|j: int| 0 <= j < lru.len() && (#[trigger] entry_for(entries, lru[j]@) matches Some(e) && !retained(e, config))
                ==> eviction_spec(entries, lru, to_free, config).contains(lru[j]@),
    decreases lru.len(),
{
    let ev = eviction_spec(entries, lru, to_free, config);
    if lru.len() == 0 || to_free == 0 {
    } else {
        let rest = lru.drop_first();
        match entry_for(entries, lru[0]@) {
            Some(e) => {
                if retained(e, config) {
                    lemma_eviction_frees_enough(entries, rest, to_free, config);
                    assert forall|j: int| 0 <= j < lru.len() && (#[trigger] entry_for(entries, lru[j]@) matches Some(e2) && !retained(e2, config))
                        && (forall|j2: int| 0 <= j2 < rest.len() && (#[trigger] entry_for(entries, rest[j2]@) matches Some(e3) && !retained(e3, config))
                            ==> ev.contains(rest[j2]@))
                        implies ev.contains(lru[j]@) by {
                        assert(j > 0);
                        assert(rest[j - 1] == lru[j]);
                    }
                } else {
                    let freed: nat = if to_free >= e.memory_usage { (to_free - e.memory_usage) as nat } else { 0nat };
                    let tail = eviction_spec(entries, rest, freed, config);
                    lemma_eviction_frees_enough(entries, rest, freed, config);
                    assert(ev == seq![lru[0]@] + tail);
                    assert(ev[0] == lru[0]@);
                    assert(ev.drop_first() =~= tail);
                    assert(keys_memory(entries, ev) == e.memory_usage + keys_memory(entries, tail));
                    assert forall|j: int| 0 <= j < lru.len() && (#[trigger] entry_for(entries, lru[j]@) matches Some(e2) && !retained(e2, config))
                        && (forall|j2: int| 0 <= j2 < rest.len() && (#[trigger] entry_for(entries, rest[j2]@) matches Some(e3) && !retained(e3, config))
                            ==> tail.contains(rest[j2]@))
                        implies ev.contains(lru[j]@) by {
                        if j == 0 {
                            assert(ev[0] == lru[j]@);
                        } else {
                            assert(rest[j - 1] == lru[j]);
                            assert(tail.contains(lru[j]@));
                            let k = choose|k: int| 0 <= k < tail.len() && tail[k] == lru[j]@;
                            assert(ev[k + 1] == tail[k]);
                        }
                    }
                }
            },
            None => {
                lemma_eviction_frees_enough(entries, rest, to_free, config);
                assert forall|j: int| 0 <= j < lru.len() && (#[trigger] entry_for(entries, lru[j]@) matches Some(e2) && !retained(e2, config))
                    && (forall|j2: int| 0 <= j2 < rest.len() && (#[trigger] entry_for(entries, rest[j2]@) matches Some(e3) && !retained(e3, config))
                        ==> ev.contains(rest[j2]@))
                    implies ev.contains(lru[j]@) by {
                    assert(j > 0);
                    assert(rest[j - 1] == lru[j]);
                }
            },
        }
    }
}

/// Eviction under memory pressure frees enough: the keys it evicts hold
/// the memory above 70% of the limit, unless every key in the LRU order
/// whose entry is not retained was evicted.
pub proof fn lemma_eviction_reaches_target(
    entries: Seq<(String, CacheEntry)>,
    lru: Seq<String>,
    usage: nat,
    config: CacheConfig,
)
    requires
        config.enable_lru_eviction,
    ensures
        keys_memory(entries, evicted_keys(entries, lru, usage, config)) + config.max_memory_bytes * 7 / 10 >= usage
            || forall|j: int| 0 <= j < lru.len() && (#[trigger] entry_for(entries, lru[j]@) matches Some(e) && !retained(e, config))
                ==> evicted_keys(entries, lru, usage, config).contains(lru[j]@),
{
    let target = config.max_memory_bytes * 7 / 10;
    let to_free: nat = if usage >= target { (usage - target) as nat } else { 0nat };
    lemma_eviction_frees_enough(entries, lru, to_free, config);
}

/// Eviction under memory pressure only brings the usage down to 70% of the
/// memory limit: each evicted key is taken while the usage, less the memory
/// of the keys evicted before it, is still above 70% of the limit. Nothing is
/// evicted while the usage is within the target.
pub proof fn lemma_eviction_targets_seventy_percent(
    entries: Seq<(String, CacheEntry)>,
    lru: Seq<String>,
    usage: nat,
    config: CacheConfig,
)
    ensures
        forall|i: int| 0 <= i < evicted_keys(entries, lru, usage, config).len() ==>
            #[trigger] keys_memory(entries, evicted_keys(entries, lru, usage, config).take(i))
                + config.max_memory_bytes * 7 / 10 < usage,
        usage <= config.max_memory_bytes * 7 / 10 ==> evicted_keys(entries, lru, usage, config).len() == 0,
{
    let target = config.max_memory_bytes * 7 / 10;
    let to_free: nat = if usage >= target { (usage - target) as nat } else { 0nat };
    if config.enable_lru_eviction {
        assert forall|i: int| 0 <= i < evicted_keys(entries, lru, usage, config).len() implies
            #[trigger] keys_memory(entries, evicted_keys(entries, lru, usage, config).take(i)) + target < usage by {
            lemma_eviction_stops_when_freed(entries, lru, to_free, config, i);
        }
        if usage <= target {
            assert(to_free == 0);
            if lru.len() > 0 {
                assert(eviction_spec(entries, lru, 0, config) == Seq::<Seq<char>>::empty());
            }
        }
    }
}

/// Whether `usage` bytes put the cache under memory pressure: more than the
/// threshold percentage of the memory limit.
pub open spec fn under_pressure(usage: nat, config: CacheConfig) -> bool {
    usage * 100 > config.memory_pressure_threshold_percent * config.max_memory_bytes
}

/// The usage eviction aims for: 70% of the memory limit, rounded down.
pub open spec fn eviction_target(config: CacheConfig) -> nat {
    (config.max_memory_bytes * 7 / 10) as nat
}

/// The keys an eviction pass selects at `usage` bytes: none without LRU
/// eviction, else those of `eviction_spec` for the usage above the target.
pub open spec fn evicted_keys(entries: Seq<(String, CacheEntry)>, lru: Seq<String>, usage: nat, config: CacheConfig) -> Seq<Seq<char>> {
    if config.enable_lru_eviction {
        eviction_spec(entries, lru,
            if usage >= eviction_target(config) { (usage - eviction_target(config)) as nat } else { 0nat }, config)
    } else {
        Seq::empty()
    }
}

/// `n - k`, or zero when `k` is larger.
pub open spec fn saturating_minus(n: nat, k: nat) -> nat {
    if n >= k { (n - k) as nat } else { 0 }
}

/// `s` without any occurrence of the keys in `keys`, removed in order.
pub open spec fn without_keys(s: Seq<Seq<char>>, keys: Seq<Seq<char>>) -> Seq<Seq<char>>
    decreases keys.len(),
{
    if keys.len() == 0 {
        s
    } else {
        without_key(without_keys(s, keys.drop_last()), keys.last())
    }
}

/// The usage left after invalidating `keys` in order, starting from `usage`
/// with the entries `entries`: each key still cached frees the memory of its
/// entry (the usage does not fall below zero); a key already invalidated, or
/// never cached, frees nothing.
pub open spec fn freed_usage(entries: Seq<(String, CacheEntry)>, keys: Seq<Seq<char>>, usage: nat) -> nat
    decreases keys.len(),
{
    if keys.len() == 0 {
        usage
    } else {
        let prev = freed_usage(entries, keys.drop_last(), usage);
        if keys.drop_last().contains(keys.last()) {
            prev
        } else {
            match entry_for(entries, keys.last()) {
                Some(e) => saturating_minus(prev, e.memory_usage as nat),
                None => prev,
            }
        }
    }
}

/// `after` is `before` with the keys `keys` invalidated in order: none of
/// them stays cached, every other key keeps its entry, the memory of the
/// dropped entries is released, the keys leave the LRU order (when LRU
/// eviction is on), and each invalidation is counted. The compaction count
/// is left to the caller's contract.
pub open spec fn after_evictions(before: CodeCache, after: CodeCache, keys: Seq<Seq<char>>) -> bool {
    &&& after.wf()
    &&& after.config_view() == before.config_view()
    &&& forall|k: Seq<char>| #[trigger] after.cached(k) == if keys.contains(k) { None } else { before.cached(k) }
    &&& after.usage() == freed_usage(before.entries_view(), keys, before.usage() as nat)
    &&& after.lru_view() == if before.config_view().enable_lru_eviction {
        without_keys(before.lru_view(), keys)
    } else {
        before.lru_view()
    }
    &&& after.stats_view() == (CacheStats {
        entries_evicted: (before.stats_view().entries_evicted + keys.len()) as u64,
        current_entries: saturating_minus(before.stats_view().current_entries as nat, keys.len()) as usize,
        compactions_performed: after.stats_view().compactions_performed,
        ..before.stats_view()
    })
}

/// No eviction leaves a cache as it was.
proof fn lemma_no_eviction(c: CodeCache)
    requires
        c.wf(),
    ensures
        after_evictions(c, c, Seq::empty()),
{
    let e = Seq::<Seq<char>>::empty();
    assert forall|k: Seq<char>| #[trigger] c.cached(k) == if e.contains(k) { None } else { c.cached(k) } by {}
    assert(without_keys(c.lru_view(), e) == c.lru_view());
}

/// One more invalidation extends a run of evictions by its key.
proof fn lemma_eviction_step(start: CodeCache, mid: CodeCache, after: CodeCache, done: Seq<Seq<char>>, key: Seq<char>)
    requires
        after_evictions(start, mid, done),
        after.wf(),
        after.cached(key) is None,
        forall|k: Seq<char>| k != key ==> #[trigger] after.cached(k) == mid.cached(k),
        after.usage() == match mid.cached(key) {
            Some(e) => saturating_minus(mid.usage() as nat, e.memory_usage as nat),
            None => mid.usage() as nat,
        },
        after.lru_view() == if mid.config_view().enable_lru_eviction {
            without_key(mid.lru_view(), key)
        } else {
            mid.lru_view()
        },
        after.stats_view() == (CacheStats {
            entries_evicted: (mid.stats_view().entries_evicted + 1) as u64,
            current_entries: saturating_minus(mid.stats_view().current_entries as nat, 1) as usize,
            ..mid.stats_view()
        }),
        after.config_view() == mid.config_view(),
        start.stats_view().entries_evicted + done.len() + 1 <= u64::MAX,
    ensures
        after_evictions(start, after, done.push(key)),
{
    let all = done.push(key);
    assert(all.drop_last() =~= done);
    assert(all.last() == key);
    assert forall|k: Seq<char>| #[trigger] after.cached(k) == if all.contains(k) { None } else { start.cached(k) } by {
        if k == key {
            assert(all[done.len() as int] == key);
        } else {
            if done.contains(k) {
                let i = choose|i: int| 0 <= i < done.len() && done[i] == k;
                assert(all[i] == k);
            }
            if all.contains(k) {
                let i = choose|i: int| 0 <= i < all.len() && all[i] == k;
                assert(i < done.len());
                assert(done[i] == k);
            }
        }
    }
    assert(mid.cached(key) == if done.contains(key) { None } else { start.cached(key) });
}

/// Invalidating one key is a run of evictions of that key.
proof fn lemma_one_eviction(before: CodeCache, after: CodeCache, key: Seq<char>)
    requires
        before.wf(),
        after.wf(),
        after.cached(key) is None,
        forall|k: Seq<char>| k != key ==> #[trigger] after.cached(k) == before.cached(k),
        after.usage() == match before.cached(key) {
            Some(e) => saturating_minus(before.usage() as nat, e.memory_usage as nat),
            None => before.usage() as nat,
        },
        after.lru_view() == if before.config_view().enable_lru_eviction {
            without_key(before.lru_view(), key)
        } else {
            before.lru_view()
        },
        after.stats_view() == (CacheStats {
            entries_evicted: (before.stats_view().entries_evicted + 1) as u64,
            current_entries: saturating_minus(before.stats_view().current_entries as nat, 1) as usize,
            ..before.stats_view()
        }),
        after.config_view() == before.config_view(),
        before.stats_view().entries_evicted + 1 <= u64::MAX,
    ensures
        after_evictions(before, after, seq![key]),
{
    lemma_no_eviction(before);
    assert(Seq::<Seq<char>>::empty().push(key) =~= seq![key]);
    lemma_eviction_step(before, before, after, Seq::empty(), key);
}

/// Removing a key twice removes it once.
pub proof fn lemma_without_key_twice(s: Seq<Seq<char>>, k: Seq<char>)
    ensures
        without_key(without_key(s, k), k) == without_key(s, k),
    decreases s.len(),
{
    if s.len() > 0 {
        let init = s.subrange(0, s.len() - 1);
        lemma_without_key_twice(init, k);
        let w = without_key(init, k);
        if s[s.len() - 1] != k {
            let t = w.push(s[s.len() - 1]);
            assert(t.subrange(0, t.len() - 1) =~= w);
            assert(without_key(s, k) =~= t);
        } else {
            assert(without_key(s, k) =~= w);
        }
    }
}

proof fn lemma_eviction_len(entries: Seq<(String, CacheEntry)>, lru: Seq<String>, to_free: nat, config: CacheConfig)
    ensures
        eviction_spec(entries, lru, to_free, config).len() <= lru.len(),
    decreases lru.len(),
{
    if lru.len() > 0 && to_free > 0 {
        lemma_eviction_len(entries, lru.drop_first(), to_free, config);
        if let Some(e) = entry_for(entries, lru[0]@) {
            let freed: nat = if to_free >= e.memory_usage { (to_free - e.memory_usage) as nat } else { 0nat };
            lemma_eviction_len(entries, lru.drop_first(), freed, config);
        }
    }
}

/// JIT code cache: entries by expression key, their LRU order, the memory
/// they use and the cache's statistics.
pub struct CodeCache {
    config: CacheConfig,
    entries: Vec<(String, CacheEntry)>,
    lru_order: Vec<String>,
    current_memory_usage: usize,
    memory_manager: MemoryManager,
    stats: CacheStats,
    last_compaction: Instant,
}

impl CodeCache {
    /// The configuration.
    pub closed spec fn config_view(&self) -> CacheConfig {
        self.config
    }

    /// The entries, by key.
    pub closed spec fn entries_view(&self) -> Seq<(String, CacheEntry)> {
        self.entries@
    }

    /// The keys in LRU order, oldest first.
    pub open spec fn lru_view(&self) -> Seq<Seq<char>> {
        key_texts(self.lru_keys())
    }

    /// The keys in LRU order, as stored.
    pub closed spec fn lru_keys(&self) -> Seq<String> {
        self.lru_order@
    }

    /// The memory the entries are counted as using.
    pub closed spec fn usage(&self) -> usize {
        self.current_memory_usage
    }

    /// The statistics.
    pub closed spec fn stats_view(&self) -> CacheStats {
        self.stats
    }

    /// The entry cached under `key`.
    pub open spec fn cached(&self, key: Seq<char>) -> Option<CacheEntry> {
        entry_for(self.entries_view(), key)
    }

    /// The keys evicted when the usage grows by `m` bytes: those of an
    /// eviction pass when the grown usage is under memory pressure.
    pub open spec fn evictions_on_store(&self, m: nat) -> Seq<Seq<char>> {
        if under_pressure((self.usage() + m) as nat, self.config_view()) {
            evicted_keys(self.entries_view(), self.lru_keys(), (self.usage() + m) as nat, self.config_view())
        } else {
            Seq::empty()
        }
    }

    /// Each key has at most one entry.
    pub open spec fn wf(&self) -> bool {
        keys_unique(self.entries_view())
    }

    /// An empty cache with the given configuration.
    pub fn new(config: CacheConfig) -> (r: Result<Self, crate::error::LambdustError>)
        ensures
            r matches Ok(c) && {
                &&& c.wf()
                &&& c.config_view() == config
                &&& c.entries_view().len() == 0
                &&& c.lru_view().len() == 0
                &&& c.usage() == 0
                &&& c.stats_view() == zero_stats()
            },
    {
        let memory_manager = match MemoryManager::new(config.max_memory_bytes) {
            Ok(m) => m,
            Err(e) => {
                return Err(e);
            },
        };
        let c = CodeCache {
            config,
            entries: Vec::new(),
            lru_order: Vec::new(),
            current_memory_usage: 0,
            memory_manager,
            stats: CacheStats::default(),
            last_compaction: Instant::now(),
        };
        assert(key_texts(c.lru_order@) =~= Seq::<Seq<char>>::empty());
        Ok(c)
    }

    fn find(&self, key: &String) -> (r: Option<usize>)
        requires
            self.wf(),
        ensures
            match r {
                Some(i) => i < self.entries_view().len() && self.entries_view()[i as int].0@ == key@
                    && self.cached(key@) == Some(self.entries_view()[i as int].1),
                None => self.cached(key@) is None,
            },
    {
        let mut i: usize = 0;
        while i < self.entries.len()
            invariant
                self.wf(),
                i <= self.entries@.len(),
                forall|k: int| 0 <= k < i ==> #[trigger] self.entries@[k].0@ != key@,
            decreases self.entries@.len() - i,
        {
            if self.entries[i].0 == *key {
                proof {
                    lemma_entry_for_index(self.entries@, i as int);
                }
                return Some(i);
            }
            i = i + 1;
        }
        proof {
            lemma_entry_for_none(self.entries@, key@);
        }
        None
    }

    /// Stores `code` for `expr`: the entry's memory is added to the usage,
    /// memory pressure is handled (`handle_memory_pressure`), the entry is
    /// stored under the expression's key (replacing an earlier one), the key
    /// is appended to the LRU order when LRU eviction is on, and the stored
    /// and current entry counts grow by one.
    pub fn store(&mut self, expr: Expr, code: NativeCode) -> (r: Result<(), crate::error::LambdustError>)
        requires
            old(self).wf(),
            old(self).usage() + code.machine_code@.len() + vstd::layout::size_of::<CacheEntry>() <= usize::MAX,
            old(self).stats_view().entries_stored < u64::MAX,
            old(self).stats_view().current_entries < usize::MAX,
            old(self).stats_view().entries_evicted + old(self).lru_keys().len() <= u64::MAX,
            old(self).stats_view().compactions_performed < u64::MAX,
        ensures
            r is Ok,
            final(self).wf(),
            final(self).config_view() == old(self).config_view(),
            final(self).cached(expr_text(expr)) matches Some(e) && {
                &&& e.key@ == expr_text(expr)
                &&& e.code == code
                &&& e.created_at == e.last_accessed
                &&& e.access_count == 0
                &&& e.execution_count == 0
                &&& e.total_execution_time@ == 0
                &&& e.avg_execution_time@ == 0
                &&& e.priority == CachePriority::Normal
                &&& e.memory_usage == code.machine_code@.len() + vstd::layout::size_of::<CacheEntry>()
            },
            forall|k: Seq<char>| k != expr_text(expr) ==> #[trigger] final(self).cached(k)
                == if old(self).evictions_on_store(code.machine_code@.len() + vstd::layout::size_of::<CacheEntry>()).contains(k) { None } else { old(self).cached(k) },
            final(self).usage() == freed_usage(old(self).entries_view(), old(self).evictions_on_store(code.machine_code@.len() + vstd::layout::size_of::<CacheEntry>()),
                (old(self).usage() + code.machine_code@.len() + vstd::layout::size_of::<CacheEntry>()) as nat),
            final(self).lru_view() == if old(self).config_view().enable_lru_eviction {
                without_keys(old(self).lru_view(), old(self).evictions_on_store(code.machine_code@.len() + vstd::layout::size_of::<CacheEntry>())).push(expr_text(expr))
            } else {
                old(self).lru_view()
            },
            final(self).stats_view() == (CacheStats {
                entries_stored: (old(self).stats_view().entries_stored + 1) as u64,
                current_entries: (saturating_minus(old(self).stats_view().current_entries as nat,
                    old(self).evictions_on_store(code.machine_code@.len() + vstd::layout::size_of::<CacheEntry>()).len()) + 1) as usize,
                entries_evicted: (old(self).stats_view().entries_evicted
                    + old(self).evictions_on_store(code.machine_code@.len() + vstd::layout::size_of::<CacheEntry>()).len()) as u64,
                compactions_performed: final(self).stats_view().compactions_performed,
                ..old(self).stats_view()
            }),
            final(self).stats_view().compactions_performed == old(self).stats_view().compactions_performed
                || (old(self).config_view().enable_compaction
                    && final(self).stats_view().compactions_performed == old(self).stats_view().compactions_performed + 1),
    {
        let key = expression_text(&expr);
        let entry = CacheEntry::new(key.clone(), code);
        self.current_memory_usage = self.current_memory_usage + entry.memory_usage;
        let ghost pre = *self;
        assert(forall|k: Seq<char>| #[trigger] pre.cached(k) == old(self).cached(k));
        self.handle_memory_pressure();
        let ghost mid = *self;
        let ghost before = self.entries@;
        match self.find(&key) {
            Some(i) => {
                self.entries.set(i, (key.clone(), entry));
                proof {
                    assert forall|n: Seq<char>| #[trigger] entry_for(self.entries@, n)
                        == if n == key@ { Some(self.entries@[i as int].1) } else { entry_for(before, n) } by {
                        lemma_entry_for_update(before, i as int, self.entries@[i as int], n);
                    }
                    lemma_entry_for_update(before, i as int, self.entries@[i as int], key@);
                }
            },
            None => {
                self.entries.push((key.clone(), entry));
                proof {
                    let x = self.entries@[before.len() as int];
                    assert(self.entries@ =~= before.push(x));
                    assert forall|n: Seq<char>| #[trigger] entry_for(self.entries@, n)
                        == if n == key@ { Some(x.1) } else { entry_for(before, n) } by {
                        lemma_entry_for_push(before, x, n);
                    }
                    lemma_entry_for_push(before, x, key@);
                }
            },
        }
        if self.config.enable_lru_eviction {
            let ghost b = self.lru_order@;
            self.lru_order.push(key.clone());
            assert(key_texts(self.lru_order@) =~= key_texts(b) + seq![key@]);
        } else {
            assert(key_texts(self.lru_order@) =~= key_texts(self.lru_order@) + Seq::<Seq<char>>::empty());
        }
        self.stats.entries_stored = self.stats.entries_stored + 1;
        self.stats.current_entries = self.stats.current_entries + 1;
        assert forall|k: Seq<char>| k != key@
            implies #[trigger] self.cached(k) == if old(self).evictions_on_store(entry.memory_usage as nat).contains(k) {
                None
            } else {
                old(self).cached(k)
            } by {
            assert(entry_for(before, k) == mid.cached(k));
        }
        Ok(())
    }

    /// Looks up the code cached for `expr`: a hit records an access to the
    /// entry and, with LRU eviction, makes its key the most recent; hits and
    /// misses are counted.
    pub fn get(&mut self, expr: &Expr) -> (r: Result<Option<NativeCode>, crate::error::LambdustError>)
        requires
            old(self).wf(),
            old(self).stats_view().cache_hits < u64::MAX,
            old(self).stats_view().cache_misses < u64::MAX,
            old(self).cached(expr_text(*expr)) matches Some(e) ==> e.access_count < u64::MAX,
        ensures
            final(self).wf(),
            r matches Ok(c) && match old(self).cached(expr_text(*expr)) {
                Some(e) => c matches Some(code) && native_code_view(code) == native_code_view(e.code),
                None => c is None,
            },
            final(self).stats_view() == (CacheStats {
                cache_hits: (old(self).stats_view().cache_hits
                    + if old(self).cached(expr_text(*expr)) is Some { 1int } else { 0int }) as u64,
                cache_misses: (old(self).stats_view().cache_misses
                    + if old(self).cached(expr_text(*expr)) is Some { 0int } else { 1int }) as u64,
                ..old(self).stats_view()
            }),
            old(self).cached(expr_text(*expr)) matches Some(e) ==> (final(self).cached(expr_text(*expr)) matches Some(e2)
                && e2.access_count == e.access_count + 1
                && e2.last_accessed@ >= e.last_accessed@
                && e2.code == e.code
                && e2.execution_count == e.execution_count
                && e2.memory_usage == e.memory_usage
                && e2.priority == e.priority),
            forall|k: Seq<char>| k != expr_text(*expr) ==> #[trigger] final(self).cached(k) == old(self).cached(k),
            final(self).lru_view() == if old(self).config_view().enable_lru_eviction && old(self).cached(expr_text(*expr)) is Some {
                without_key(old(self).lru_view(), expr_text(*expr)).push(expr_text(*expr))
            } else {
                old(self).lru_view()
            },
            final(self).usage() == old(self).usage(),
            final(self).config_view() == old(self).config_view(),
    {
        let key = expression_text(expr);
        let code = match self.find(&key) {
            Some(i) => {
                let ghost old_entries = self.entries@;
                let (k, mut e) = self.entries.remove(i);
                e.record_access();
                let c = copy_native_code(&e.code);
                self.entries.insert(i, (k, e));
                proof {
                    assert(self.entries@ =~= old_entries.update(i as int, self.entries@[i as int]));
                    assert forall|n: Seq<char>| #[trigger] entry_for(self.entries@, n)
                        == if n == key@ { Some(self.entries@[i as int].1) } else { entry_for(old_entries, n) } by {
                        lemma_entry_for_update(old_entries, i as int, self.entries@[i as int], n);
                    }
                    lemma_entry_for_update(old_entries, i as int, self.entries@[i as int], key@);
                }
                if self.config.enable_lru_eviction {
                    let mut order = remove_key(&self.lru_order, &key);
                    let ghost before = order@;
                    order.push(key.clone());
                    proof {
                        assert(key_texts(order@) =~= key_texts(before).push(key@));
                    }
                    self.lru_order = order;
                }
                Some(c)
            },
            None => None,
        };
        if code.is_some() {
            self.stats.cache_hits = self.stats.cache_hits + 1;
        } else {
            self.stats.cache_misses = self.stats.cache_misses + 1;
        }
        Ok(code)
    }

    /// Records an execution of the code cached for `expr`; nothing changes
    /// when no code is cached for it.
    pub fn record_execution(&mut self, expr: &Expr, execution_time: Duration) -> (r: Result<(), crate::error::LambdustError>)
        requires
            old(self).wf(),
            old(self).cached(expr_text(*expr)) matches Some(e) ==> {
                &&& e.execution_count < u64::MAX
                &&& e.total_execution_time@ + execution_time@ <= MAX_NANOS
                &&& (e.execution_count + 1) % 0x1_0000_0000 != 0
            },
        ensures
            final(self).wf(),
            r is Ok,
            old(self).cached(expr_text(*expr)) matches Some(e) ==> (final(self).cached(expr_text(*expr)) matches Some(e2)
                && e2.execution_count == e.execution_count + 1
                && e2.total_execution_time@ == e.total_execution_time@ + execution_time@
                && e2.avg_execution_time@ == div_spec(e2.total_execution_time@, (e2.execution_count % 0x1_0000_0000) as nat)
                && e2.access_count == e.access_count
                && e2.last_accessed == e.last_accessed
                && e2.code == e.code
                && e2.memory_usage == e.memory_usage
                && e2.priority == e.priority),
            old(self).cached(expr_text(*expr)) is None ==> final(self).cached(expr_text(*expr)) is None,
            forall|k: Seq<char>| k != expr_text(*expr) ==> #[trigger] final(self).cached(k) == old(self).cached(k),
            final(self).lru_view() == old(self).lru_view(),
            final(self).usage() == old(self).usage(),
            final(self).stats_view() == old(self).stats_view(),
            final(self).config_view() == old(self).config_view(),
    {
        let key = expression_text(expr);
        match self.find(&key) {
            Some(i) => {
                let ghost old_entries = self.entries@;
                let (k, mut e) = self.entries.remove(i);
                e.record_execution(execution_time);
                self.entries.insert(i, (k, e));
                proof {
                    assert(self.entries@ =~= old_entries.update(i as int, self.entries@[i as int]));
                    assert forall|n: Seq<char>| #[trigger] entry_for(self.entries@, n)
                        == if n == key@ { Some(self.entries@[i as int].1) } else { entry_for(old_entries, n) } by {
                        lemma_entry_for_update(old_entries, i as int, self.entries@[i as int], n);
                    }
                    lemma_entry_for_update(old_entries, i as int, self.entries@[i as int], key@);
                }
            },
            None => {},
        }
        Ok(())
    }

    /// Drops the code cached for `expr`: its memory is released and its key
    /// leaves the LRU order. The eviction count grows and the entry count
    /// falls by one (not below zero) whether or not code was cached.
    pub fn invalidate(&mut self, expr: &Expr) -> (r: Result<(), crate::error::LambdustError>)
        requires
            old(self).wf(),
            old(self).stats_view().entries_evicted < u64::MAX,
        ensures
            r is Ok,
            after_evictions(*old(self), *final(self), seq![expr_text(*expr)]),
            final(self).stats_view().compactions_performed == old(self).stats_view().compactions_performed,
    {
        let key = expression_text(expr);
        self.invalidate_key(&key);
        proof {
            lemma_one_eviction(*old(self), *self, key@);
        }
        Ok(())
    }

    /// Drops the code cached under `key`, as `invalidate` does.
    fn invalidate_key(&mut self, key: &String)
        requires
            old(self).wf(),
            old(self).stats_view().entries_evicted < u64::MAX,
        ensures
            final(self).wf(),
            final(self).cached(key@) is None,
            forall|k: Seq<char>| k != key@ ==> #[trigger] final(self).cached(k) == old(self).cached(k),
            final(self).usage() == match old(self).cached(key@) {
                Some(e) => saturating_minus(old(self).usage() as nat, e.memory_usage as nat),
                None => old(self).usage() as nat,
            },
            final(self).lru_view() == if old(self).config_view().enable_lru_eviction {
                without_key(old(self).lru_view(), key@)
            } else {
                old(self).lru_view()
            },
            final(self).stats_view() == (CacheStats {
                entries_evicted: (old(self).stats_view().entries_evicted + 1) as u64,
                current_entries: saturating_minus(old(self).stats_view().current_entries as nat, 1) as usize,
                ..old(self).stats_view()
            }),
            final(self).config_view() == old(self).config_view(),
    {
        let freed: usize = match self.find(key) {
            Some(i) => {
                let ghost old_entries = self.entries@;
                let (_k, e) = self.entries.remove(i);
                proof {
                    assert forall|n: Seq<char>| #[trigger] entry_for(self.entries@, n)
                        == if n == key@ { None } else { entry_for(old_entries, n) } by {
                        lemma_entry_for_remove(old_entries, i as int, n);
                    }
                    lemma_entry_for_remove(old_entries, i as int, key@);
                }
                e.memory_usage
            },
            None => 0,
        };
        if freed > 0 {
            self.current_memory_usage = self.current_memory_usage.saturating_sub(freed);
        }
        if self.config.enable_lru_eviction {
            self.lru_order = remove_key(&self.lru_order, key);
        }
        self.stats.entries_evicted = self.stats.entries_evicted + 1;
        self.stats.current_entries = self.stats.current_entries.saturating_sub(1);
    }

    /// Drops every entry: no code stays cached, the memory in use is zero and
    /// the entry count is zero; the LRU order empties when LRU eviction is on.
    pub fn clear(&mut self) -> (r: Result<(), crate::error::LambdustError>)
        ensures
            final(self).wf(),
            r is Ok,
            final(self).entries_view().len() == 0,
            forall|k: Seq<char>| #[trigger] final(self).cached(k) is None,
            final(self).lru_view() == if old(self).config_view().enable_lru_eviction {
                Seq::<Seq<char>>::empty()
            } else {
                old(self).lru_view()
            },
            final(self).usage() == 0,
            final(self).stats_view() == (CacheStats { current_entries: 0, ..old(self).stats_view() }),
            final(self).config_view() == old(self).config_view(),
    {
        self.entries.clear();
        if self.config.enable_lru_eviction {
            self.lru_order.clear();
            assert(key_texts(self.lru_order@) =~= Seq::<Seq<char>>::empty());
        }
        self.current_memory_usage = 0;
        self.stats.current_entries = 0;
        assert forall|k: Seq<char>| #[trigger] entry_for(self.entries@, k) is None by {
            lemma_entry_for_none(self.entries@, k);
        }
        Ok(())
    }


    /// Evicts: with LRU eviction on, selects keys with `select_evictions`
    /// for the usage above `eviction_target` and invalidates each of them, in
    /// LRU order, as `invalidate` does.
    fn evict_entries(&mut self) -> (r: Result<(), crate::error::LambdustError>)
        requires
            old(self).wf(),
            old(self).stats_view().entries_evicted + old(self).lru_keys().len() <= u64::MAX,
        ensures
            r is Ok,
            after_evictions(*old(self), *final(self),
                evicted_keys(old(self).entries_view(), old(self).lru_keys(), old(self).usage() as nat, old(self).config_view())),
            final(self).stats_view().compactions_performed == old(self).stats_view().compactions_performed,
    {
        let ghost start = *self;
        let ghost to_free: nat = if self.current_memory_usage >= eviction_target(self.config) {
            (self.current_memory_usage - eviction_target(self.config)) as nat
        } else {
            0nat
        };
        assert((self.config.max_memory_bytes as u128) * 7 / 10 <= self.config.max_memory_bytes) by (nonlinear_arith);
        let target: usize = ((self.config.max_memory_bytes as u128) * 7 / 10) as usize;
        if !self.config.enable_lru_eviction {
            proof {
                lemma_no_eviction(start);
            }
            return Ok(());
        }
        let keys = select_evictions(&self.entries, &self.lru_order, self.current_memory_usage.saturating_sub(target), &self.config);
        let ghost ks = key_texts(keys@);
        proof {
            lemma_eviction_len(self.entries@, self.lru_order@, to_free, self.config);
            assert(keys@.len() == ks.len());
            lemma_no_eviction(start);
            assert(ks.subrange(0, 0) =~= Seq::<Seq<char>>::empty());
        }
        let n = keys.len();
        let mut j: usize = 0;
        while j < n
            invariant
                j <= n,
                n == keys@.len(),
                ks == key_texts(keys@),
                ks == evicted_keys(start.entries_view(), start.lru_keys(), start.usage() as nat, start.config_view()),
                start.wf(),
                start.config_view().enable_lru_eviction,
                start.stats_view().entries_evicted + n <= u64::MAX,
                after_evictions(start, *self, ks.subrange(0, j as int)),
                self.stats_view().compactions_performed == start.stats_view().compactions_performed,
            decreases n - j,
        {
            let ghost mid = *self;
            self.invalidate_key(&keys[j]);
            proof {
                assert(keys@[j as int]@ == ks[j as int]);
                lemma_eviction_step(start, mid, *self, ks.subrange(0, j as int), ks[j as int]);
                assert(ks.subrange(0, j + 1) =~= ks.subrange(0, j as int).push(ks[j as int]));
            }
            j = j + 1;
        }
        assert(ks.subrange(0, n as int) =~= ks);
        Ok(())
    }

    /// Records a compaction at the current clock reading.
    fn compact(&mut self) -> (r: Result<(), crate::error::LambdustError>)
        requires
            old(self).stats_view().compactions_performed < u64::MAX,
        ensures
            r is Ok,
            final(self).wf() == old(self).wf(),
            final(self).entries_view() == old(self).entries_view(),
            final(self).lru_keys() == old(self).lru_keys(),
            final(self).usage() == old(self).usage(),
            final(self).config_view() == old(self).config_view(),
            final(self).stats_view() == (CacheStats {
                compactions_performed: (old(self).stats_view().compactions_performed + 1) as u64,
                ..old(self).stats_view()
            }),
    {
        self.last_compaction = Instant::now();
        self.stats.compactions_performed = self.stats.compactions_performed + 1;
        Ok(())
    }

    /// Under memory pressure, evicts; then, with compaction on, compacts
    /// when the compaction interval has passed since the last one (a clock
    /// reading decides).
    fn handle_memory_pressure(&mut self) -> (r: Result<(), crate::error::LambdustError>)
        requires
            old(self).wf(),
            old(self).stats_view().entries_evicted + old(self).lru_keys().len() <= u64::MAX,
            old(self).stats_view().compactions_performed < u64::MAX,
        ensures
            r is Ok,
            after_evictions(*old(self), *final(self),
                if under_pressure(old(self).usage() as nat, old(self).config_view()) {
                    evicted_keys(old(self).entries_view(), old(self).lru_keys(), old(self).usage() as nat, old(self).config_view())
                } else {
                    Seq::empty()
                }),
            final(self).stats_view().compactions_performed == old(self).stats_view().compactions_performed
                || (old(self).config_view().enable_compaction
                    && final(self).stats_view().compactions_performed == old(self).stats_view().compactions_performed + 1),
    {
        let ghost start = *self;
        let ghost n: Seq<Seq<char>> = if under_pressure(start.usage() as nat, start.config_view()) {
            evicted_keys(start.entries_view(), start.lru_keys(), start.usage() as nat, start.config_view())
        } else {
            Seq::empty()
        };
        assert((self.config.memory_pressure_threshold_percent as u128) * (self.config.max_memory_bytes as u128)
            <= 255 * 0xffff_ffff_ffff_ffffu128) by (nonlinear_arith)
            requires
                self.config.memory_pressure_threshold_percent <= 255,
                self.config.max_memory_bytes <= 0xffff_ffff_ffff_ffffu128;
        let pressure = (self.current_memory_usage as u128) * 100
            > (self.config.memory_pressure_threshold_percent as u128) * (self.config.max_memory_bytes as u128);
        if pressure {
            self.evict_entries();
        } else {
            proof {
                lemma_no_eviction(start);
            }
        }
        assert(after_evictions(start, *self, n));
        if self.config.enable_compaction {
            let elapsed = self.last_compaction.elapsed();
            if elapsed.as_nanos() > self.config.compaction_interval.as_nanos() {
                let ghost mid = *self;
                self.compact();
                assert(forall|k: Seq<char>| #[trigger] self.cached(k) == mid.cached(k));
                assert(self.lru_view() == mid.lru_view());
                assert(after_evictions(start, *self, n));
                return Ok(());
            }
        }
        Ok(())
    }

    /// The entry cached for `expr`, if any.
    pub fn cached_entry(&self, expr: &Expr) -> (r: Option<&CacheEntry>)
        requires
            self.wf(),
        ensures
            match r {
                Some(e) => self.cached(expr_text(*expr)) == Some(*e),
                None => self.cached(expr_text(*expr)) is None,
            },
    {
        let key = expression_text(expr);
        match self.find(&key) {
            Some(i) => Some(&self.entries[i].1),
            None => None,
        }
    }

    /// Sets the priority of the entry cached for `expr` (the usage score that
    /// decides it is computed outside); nothing changes when no code is
    /// cached for it.
    pub fn set_priority(&mut self, expr: &Expr, priority: CachePriority)
        requires
            old(self).wf(),
        ensures
            final(self).wf(),
            match old(self).cached(expr_text(*expr)) {
                Some(e) => final(self).cached(expr_text(*expr)) == Some(CacheEntry { priority, ..e }),
                None => final(self).cached(expr_text(*expr)) is None,
            },
            forall|k: Seq<char>| k != expr_text(*expr) ==> #[trigger] final(self).cached(k) == old(self).cached(k),
            final(self).lru_view() == old(self).lru_view(),
            final(self).usage() == old(self).usage(),
            final(self).stats_view() == old(self).stats_view(),
            final(self).config_view() == old(self).config_view(),
    {
        let key = expression_text(expr);
        match self.find(&key) {
            Some(i) => {
                let ghost old_entries = self.entries@;
                let (k, mut e) = self.entries.remove(i);
                e.priority = priority;
                self.entries.insert(i, (k, e));
                proof {
                    assert(self.entries@ =~= old_entries.update(i as int, self.entries@[i as int]));
                    assert forall|n: Seq<char>| #[trigger] entry_for(self.entries@, n)
                        == if n == key@ { Some(self.entries@[i as int].1) } else { entry_for(old_entries, n) } by {
                        lemma_entry_for_update(old_entries, i as int, self.entries@[i as int], n);
                    }
                    lemma_entry_for_update(old_entries, i as int, self.entries@[i as int], key@);
                }
            },
            None => {},
        }
    }

    /// The cache statistics.
    pub fn stats(&self) -> (r: Result<CacheStats, crate::error::LambdustError>)
        ensures
            r == Ok::<CacheStats, crate::error::LambdustError>(self.stats_view()),
    {
        Ok(self.stats)
    }

    /// The memory the cached entries are counted as using.
    pub fn memory_usage(&self) -> (r: Result<usize, crate::error::LambdustError>)
        ensures
            r == Ok::<usize, crate::error::LambdustError>(self.usage()),
    {
        Ok(self.current_memory_usage)
    }

    /// The number of cached entries.
    pub fn size(&self) -> (r: Result<usize, crate::error::LambdustError>)
        ensures
            r == Ok::<usize, crate::error::LambdustError>(self.entries_view().len() as usize),
    {
        Ok(self.entries.len())
    }
}

/// Cache statistics.
#[derive(Debug, Clone, Copy, PartialEq, Eq, Structural)]
pub struct CacheStats {
    /// Total entries stored
    pub entries_stored: u64,
    /// Current number of entries
    pub current_entries: usize,
    /// Cache hits
    pub cache_hits: u64,
    /// Cache misses
    pub cache_misses: u64,
    /// Entries evicted
    pub entries_evicted: u64,
    /// Compactions performed
    pub compactions_performed: u64,
    /// Total memory allocated
    pub total_memory_allocated: usize,
    /// Current memory usage
    pub current_memory_usage: usize,
    /// Peak memory usage
    pub peak_memory_usage: usize,
}

/// Statistics with every count at zero.
pub open spec fn zero_stats() -> CacheStats {
    CacheStats {
        entries_stored: 0,
        current_entries: 0,
        cache_hits: 0,
        cache_misses: 0,
        entries_evicted: 0,
        compactions_performed: 0,
        total_memory_allocated: 0,
        current_memory_usage: 0,
        peak_memory_usage: 0,
    }
}

impl Default for CacheStats {
    fn default() -> (s: Self)
        ensures
            s == (CacheStats {
                entries_stored: 0,
                current_entries: 0,
                cache_hits: 0,
                cache_misses: 0,
                entries_evicted: 0,
                compactions_performed: 0,
                total_memory_allocated: 0,
                current_memory_usage: 0,
                peak_memory_usage: 0,
            }),
    {
        CacheStats {
            entries_stored: 0,
            current_entries: 0,
            cache_hits: 0,
            cache_misses: 0,
            entries_evicted: 0,
            compactions_performed: 0,
            total_memory_allocated: 0,
            current_memory_usage: 0,
            peak_memory_usage: 0,
        }
    }
}

} // verus!
