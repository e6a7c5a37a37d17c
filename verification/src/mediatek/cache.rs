//! The caches of compiled models: entries in order of use, the latest last.

use crate::text::same_text;
use vstd::prelude::*;
use vstd::std_specs::cmp::PartialEqSpec;

verus! {

pub const MAX_GATED_GELU_FFN_CACHE_ENTRIES: usize = 4;

pub const MAX_GATED_GELU_FFN_BATCHED_CACHE_ENTRIES: usize = 10;

/// Where a weight tensor came from.
#[derive(Debug, Clone, Copy, PartialEq, Eq, Hash, Structural)]
pub struct GatedGeluFfnF32WeightKey {
    pub generation_id: u64,
    pub raw_addr: usize,
    pub raw_len: usize,
    pub rows: usize,
    pub cols: usize,
    pub ggml_type: u32,
}

/// What a compiled feed-forward block was compiled for.
#[derive(Debug, Clone, Eq, Hash)]
pub struct GatedGeluFfnF32CacheKey {
    pub device_name_substring: String,
    pub layer_idx: usize,
    pub input_size: usize,
    pub ffn_inner_size: usize,
    pub output_size: usize,
    pub gate: GatedGeluFfnF32WeightKey,
    pub up: GatedGeluFfnF32WeightKey,
    pub down: GatedGeluFfnF32WeightKey,
}

/// What a compiled batch of feed-forward blocks was compiled for.
#[derive(Debug, Clone, Eq, Hash)]
pub struct GatedGeluFfnF32BatchedCacheKey {
    pub base: GatedGeluFfnF32CacheKey,
    pub batch: usize,
}

impl GatedGeluFfnF32CacheKey {
    /// Whether two keys agree in every part.
    pub open spec fn same(&self, other: &Self) -> bool {
        &&& self.device_name_substring@ == other.device_name_substring@
        &&& self.layer_idx == other.layer_idx
        &&& self.input_size == other.input_size
        &&& self.ffn_inner_size == other.ffn_inner_size
        &&& self.output_size == other.output_size
        &&& self.gate == other.gate
        &&& self.up == other.up
        &&& self.down == other.down
    }

    /// The three weights have the shapes that the sizes ask for.
    pub open spec fn weights_match_sizes(&self) -> bool {
        &&& self.gate.rows == self.ffn_inner_size
        &&& self.gate.cols == self.input_size
        &&& self.up.rows == self.ffn_inner_size
        &&& self.up.cols == self.input_size
        &&& self.down.rows == self.output_size
        &&& self.down.cols == self.ffn_inner_size
    }
}

impl GatedGeluFfnF32BatchedCacheKey {
    /// Whether two keys agree in every part.
    pub open spec fn same(&self, other: &Self) -> bool {
        self.base.same(&other.base) && self.batch == other.batch
    }
}

impl PartialEq for GatedGeluFfnF32CacheKey {
    fn eq(&self, other: &Self) -> (equal: bool) {
        same_text(self.device_name_substring.as_str(), other.device_name_substring.as_str())
            && self.layer_idx == other.layer_idx && self.input_size == other.input_size
            && self.ffn_inner_size == other.ffn_inner_size && self.output_size
            == other.output_size && self.gate == other.gate && self.up == other.up && self.down
            == other.down
    }
}

impl vstd::std_specs::cmp::PartialEqSpecImpl for GatedGeluFfnF32CacheKey {
    open spec fn obeys_eq_spec() -> bool {
        true
    }

    open spec fn eq_spec(&self, other: &Self) -> bool {
        self.same(other)
    }
}

impl PartialEq for GatedGeluFfnF32BatchedCacheKey {
    fn eq(&self, other: &Self) -> (equal: bool) {
        self.base == other.base && self.batch == other.batch
    }
}

impl vstd::std_specs::cmp::PartialEqSpecImpl for GatedGeluFfnF32BatchedCacheKey {
    open spec fn obeys_eq_spec() -> bool {
        true
    }

    open spec fn eq_spec(&self, other: &Self) -> bool {
        self.same(other)
    }
}

/// The place of the first entry under `key`.
pub open spec fn position_of<K: PartialEq, T>(entries: Seq<(K, T)>, key: K, from: int) -> Option<
    int,
>
    decreases entries.len() - from,
{
    if from < 0 || from >= entries.len() {
        None
    } else if entries[from].0.eq_spec(&key) {
        Some(from)
    } else {
        position_of(entries, key, from + 1)
    }
}

/// Looks an entry up by its key.
pub fn cache_entry_position<K: PartialEq, T>(entries: &[(K, T)], key: &K) -> (position: Option<
    usize,
>)
    requires
        K::obeys_eq_spec(),
    ensures
        match position {
            Some(place) => position_of(entries@, *key, 0) == Some(place as int),
            None => position_of(entries@, *key, 0) is None,
        },
{
    let mut i: usize = 0;
    while i < entries.len()
        invariant
            K::obeys_eq_spec(),
            i <= entries@.len(),
            position_of(entries@, *key, 0) == position_of(entries@, *key, i as int),
        decreases entries@.len() - i,
    {
        if entries[i].0 == *key {
            return Some(i);
        }
        i += 1;
    }
    None
}

/// `entries` with the one at `position` moved behind all others.
pub open spec fn promoted<E>(entries: Seq<E>, position: int) -> Seq<E> {
    if 0 <= position < entries.len() {
        entries.remove(position).push(entries[position])
    } else {
        entries
    }
}

/// Makes the entry at `position` the latest.
pub fn promote_cache_entry<K, T>(entries: &mut Vec<(K, T)>, position: usize)
    ensures
        final(entries)@ == promoted(old(entries)@, position as int),
{
    if position < entries.len() && position + 1 < entries.len() {
        let entry = entries.remove(position);
        entries.push(entry);
    } else {
        proof {
            let before = entries@;
            if position < before.len() {
                assert(before =~= before.remove(position as int).push(before[position as int]));
            }
        }
    }
}

/// The latest `capacity` entries.
pub open spec fn latest<E>(entries: Seq<E>, capacity: int) -> Seq<E> {
    if entries.len() <= capacity {
        entries
    } else {
        entries.skip(entries.len() - capacity)
    }
}

/// The keys of the entries that are older than the latest `capacity`.
pub open spec fn evicted_keys<K, T>(entries: Seq<(K, T)>, capacity: int) -> Seq<K> {
    if entries.len() <= capacity {
        Seq::empty()
    } else {
        Seq::new((entries.len() - capacity) as nat, |k: int| entries[k].0)
    }
}

/// Drops the oldest entries until `max_entries` are left; returns their keys, the
/// oldest first.
pub fn evict_cache_to_capacity<K, T>(entries: &mut Vec<(K, T)>, max_entries: usize) -> (evicted:
    Vec<K>)
    ensures
        final(entries)@ == latest(old(entries)@, max_entries as int),
        evicted@ == evicted_keys(old(entries)@, max_entries as int),
{
    let ghost before = entries@;
    let mut evicted: Vec<K> = Vec::new();
    assert(before.skip(0) =~= before);
    while entries.len() > max_entries
        invariant
            evicted@.len() <= before.len(),
            evicted@.len() > 0 ==> before.len() - evicted@.len() >= max_entries,
            entries@ == before.skip(evicted@.len() as int),
            forall|k: int| 0 <= k < evicted@.len() ==> evicted@[k] == before[k].0,
        decreases entries@.len(),
    {
        let ghost n = evicted@.len() as int;
        let (key, _compiled) = entries.remove(0);
        evicted.push(key);
        assert(before.skip(n).remove(0) =~= before.skip(n + 1));
    }
    assert(evicted@ =~= evicted_keys(before, max_entries as int));
    evicted
}

/// What a hit at `position` leaves: the entry becomes the latest, then the oldest
/// ones go.
pub open spec fn after_hit<E>(entries: Seq<E>, position: int, capacity: int) -> Seq<E> {
    latest(promoted(entries, position), capacity)
}

/// What a newly compiled entry leaves: it becomes the latest, then the oldest
/// ones go.
pub open spec fn after_store<E>(entries: Seq<E>, entry: E, capacity: int) -> Seq<E> {
    latest(entries.push(entry), capacity)
}

/// Uses the entry under `key`, if there is one.
pub fn touch_cache_entry<K: PartialEq, T>(
    entries: &mut Vec<(K, T)>,
    key: &K,
    max_entries: usize,
) -> (hit: bool)
    requires
        K::obeys_eq_spec(),
    ensures
        hit == (position_of(old(entries)@, *key, 0) is Some),
        final(entries)@ == (match position_of(old(entries)@, *key, 0) {
            Some(position) => after_hit(old(entries)@, position, max_entries as int),
            None => old(entries)@,
        }),
{
    match cache_entry_position(entries.as_slice(), key) {
        Some(position) => {
            proof {
                law_position(entries@, *key, 0);
            }
            promote_cache_entry(entries, position);
            let _ = evict_cache_to_capacity(entries, max_entries);
            true
        },
        None => false,
    }
}

/// Adds a newly compiled entry.
pub fn store_cache_entry<K, T>(
    entries: &mut Vec<(K, T)>,
    key: K,
    compiled: T,
    max_entries: usize,
)
    ensures
        final(entries)@ == after_store(old(entries)@, (key, compiled), max_entries as int),
{
    entries.push((key, compiled));
    let _ = evict_cache_to_capacity(entries, max_entries);
}

/// `entries` without the oldest one under `key`.
pub open spec fn without_key<K: PartialEq, T>(entries: Seq<(K, T)>, key: K) -> Seq<(K, T)> {
    match position_of(entries, key, 0) {
        Some(position) => entries.remove(position),
        None => entries,
    }
}

/// Removes the first entry under `key`, if there is one.
pub fn remove_cache_entry<K: PartialEq, T>(entries: &mut Vec<(K, T)>, key: &K)
    requires
        K::obeys_eq_spec(),
    ensures
        final(entries)@ == without_key(old(entries)@, *key),
{
    if let Some(position) = cache_entry_position(entries.as_slice(), key) {
        proof {
            law_position(entries@, *key, 0);
        }
        let _entry = entries.remove(position);
    }
}

/// Whether a compiled batch is resident.
pub fn is_gated_gelu_ffn_f32_batched_cached<T>(
    cache: &Vec<(GatedGeluFfnF32BatchedCacheKey, T)>,
    key: &GatedGeluFfnF32BatchedCacheKey,
) -> (cached: bool)
    ensures
        cached == exists|k: int| 0 <= k < cache@.len() && (#[trigger] cache@[k]).0.same(key),
{
    proof {
        law_position(cache@, *key, 0);
    }
    cache_entry_position(cache.as_slice(), key).is_some()
}

pub fn clear_gated_gelu_ffn_f32_batched_cache<T>(
    cache: &mut Vec<(GatedGeluFfnF32BatchedCacheKey, T)>,
)
    ensures
        final(cache)@.len() == 0,
{
    cache.clear();
}

/// Whether a compiled block is resident.
pub fn is_gated_gelu_ffn_f32_cached<T>(
    cache: &Vec<(GatedGeluFfnF32CacheKey, T)>,
    key: &GatedGeluFfnF32CacheKey,
) -> (cached: bool)
    ensures
        cached == exists|k: int| 0 <= k < cache@.len() && (#[trigger] cache@[k]).0.same(key),
{
    proof {
        law_position(cache@, *key, 0);
    }
    cache_entry_position(cache.as_slice(), key).is_some()
}

pub fn clear_gated_gelu_ffn_f32_cache<T>(cache: &mut Vec<(GatedGeluFfnF32CacheKey, T)>)
    ensures
        final(cache)@.len() == 0,
{
    cache.clear();
}

/// Whether a compiled quantized block is resident, whatever it was quantized with.
pub fn is_gated_gelu_ffn_quantized_cached<P, T>(
    cache: &Vec<(GatedGeluFfnF32CacheKey, (P, T))>,
    key: &GatedGeluFfnF32CacheKey,
) -> (cached: bool)
    ensures
        cached == exists|k: int| 0 <= k < cache@.len() && (#[trigger] cache@[k]).0.same(key),
{
    proof {
        law_position(cache@, *key, 0);
    }
    cache_entry_position(cache.as_slice(), key).is_some()
}

/// The place of the first entry under `key` that was quantized with `params`.
pub open spec fn quantized_position_of<P: PartialEq, T>(
    entries: Seq<(GatedGeluFfnF32CacheKey, (P, T))>,
    key: GatedGeluFfnF32CacheKey,
    params: P,
    from: int,
) -> Option<int>
    decreases entries.len() - from,
{
    if from < 0 || from >= entries.len() {
        None
    } else if entries[from].0.same(&key) && entries[from].1.0.eq_spec(&params) {
        Some(from)
    } else {
        quantized_position_of(entries, key, params, from + 1)
    }
}

pub fn quantized_cache_entry_position<P: PartialEq, T>(
    entries: &[(GatedGeluFfnF32CacheKey, (P, T))],
    key: &GatedGeluFfnF32CacheKey,
    params: &P,
) -> (position: Option<usize>)
    requires
        P::obeys_eq_spec(),
    ensures
        match position {
            Some(place) => quantized_position_of(entries@, *key, *params, 0) == Some(place as int),
            None => quantized_position_of(entries@, *key, *params, 0) is None,
        },
{
    let mut i: usize = 0;
    while i < entries.len()
        invariant
            P::obeys_eq_spec(),
            i <= entries@.len(),
            quantized_position_of(entries@, *key, *params, 0) == quantized_position_of(
                entries@,
                *key,
                *params,
                i as int,
            ),
        decreases entries@.len() - i,
    {
        if entries[i].0 == *key && entries[i].1.0 == *params {
            return Some(i);
        }
        i += 1;
    }
    None
}

/// Whether a block that was quantized with `params` is resident.
pub fn is_gated_gelu_ffn_quantized_cached_with_params<P: PartialEq, T>(
    cache: &Vec<(GatedGeluFfnF32CacheKey, (P, T))>,
    key: &GatedGeluFfnF32CacheKey,
    params: &P,
) -> (cached: bool)
    requires
        P::obeys_eq_spec(),
    ensures
        cached == (quantized_position_of(cache@, *key, *params, 0) is Some),
{
    quantized_cache_entry_position(cache.as_slice(), key, params).is_some()
}

pub fn clear_gated_gelu_ffn_quantized_cache<P, T>(
    cache: &mut Vec<(GatedGeluFfnF32CacheKey, (P, T))>,
)
    ensures
        final(cache)@.len() == 0,
{
    cache.clear();
}

/// Removes a quantized block, whatever it was quantized with.
pub fn remove_gated_gelu_ffn_quantized_cache_entry<P, T>(
    cache: &mut Vec<(GatedGeluFfnF32CacheKey, (P, T))>,
    key: &GatedGeluFfnF32CacheKey,
)
    ensures
        final(cache)@ == without_key(old(cache)@, *key),
{
    remove_cache_entry(cache, key);
}

/// Uses the block that was quantized with `params`, if it is resident; else
/// drops what else stands under the key, so that it can be compiled anew.
pub fn touch_quantized_cache_entry<P: PartialEq, T>(
    entries: &mut Vec<(GatedGeluFfnF32CacheKey, (P, T))>,
    key: &GatedGeluFfnF32CacheKey,
    params: &P,
    max_entries: usize,
) -> (hit: bool)
    requires
        P::obeys_eq_spec(),
    ensures
        hit == (quantized_position_of(old(entries)@, *key, *params, 0) is Some),
        final(entries)@ == (match quantized_position_of(old(entries)@, *key, *params, 0) {
            Some(position) => after_hit(old(entries)@, position, max_entries as int),
            None => without_key(old(entries)@, *key),
        }),
{
    match quantized_cache_entry_position(entries.as_slice(), key, params) {
        Some(position) => {
            proof {
                law_quantized_position(entries@, *key, *params, 0);
            }
            promote_cache_entry(entries, position);
            let _ = evict_cache_to_capacity(entries, max_entries);
            true
        },
        None => {
            remove_cache_entry(entries, key);
            false
        },
    }
}

/// A lookup finds an entry exactly if there is one under the key, and finds the
/// oldest such.
pub proof fn law_position<K: PartialEq, T>(entries: Seq<(K, T)>, key: K, from: int)
    requires
        0 <= from,
    ensures
        match position_of(entries, key, from) {
            Some(place) => {
                &&& from <= place < entries.len()
                &&& entries[place].0.eq_spec(&key)
                &&& forall|k: int|
                    from <= k < place ==> !(#[trigger] entries[k]).0.eq_spec(&key)
            },
            None => forall|k: int|
                from <= k < entries.len() ==> !(#[trigger] entries[k]).0.eq_spec(&key),
        },
    decreases entries.len() - from,
{
    if from < entries.len() && !entries[from].0.eq_spec(&key) {
        law_position(entries, key, from + 1);
    }
}

/// A lookup by key and parameters finds an entry exactly if there is one with
/// both.
pub proof fn law_quantized_position<P: PartialEq, T>(
    entries: Seq<(GatedGeluFfnF32CacheKey, (P, T))>,
    key: GatedGeluFfnF32CacheKey,
    params: P,
    from: int,
)
    requires
        0 <= from,
    ensures
        match quantized_position_of(entries, key, params, from) {
            Some(place) => {
                &&& from <= place < entries.len()
                &&& entries[place].0.same(&key)
                &&& entries[place].1.0.eq_spec(&params)
            },
            None => forall|k: int|
                from <= k < entries.len() ==> !((#[trigger] entries[k]).0.same(&key)
                    && entries[k].1.0.eq_spec(&params)),
        },
    decreases entries.len() - from,
{
    if from < entries.len() {
        law_quantized_position(entries, key, params, from + 1);
    }
}

/// A hit survives the trimming that follows it: it is the latest entry, the cache
/// is within its capacity, and all that is left was there before.
pub proof fn law_hit_survives<E>(entries: Seq<E>, position: int, capacity: int)
    requires
        0 <= position < entries.len(),
        1 <= capacity,
    ensures
        after_hit(entries, position, capacity).len() > 0,
        after_hit(entries, position, capacity).last() == entries[position],
        after_hit(entries, position, capacity).len() == if entries.len() <= capacity {
            entries.len() as int
        } else {
            capacity
        },
        forall|k: int|
            0 <= k < after_hit(entries, position, capacity).len() ==> entries.contains(
                #[trigger] after_hit(entries, position, capacity)[k],
            ),
{
    let moved = promoted(entries, position);
    let kept = latest(moved, capacity);
    assert forall|k: int| 0 <= k < kept.len() implies entries.contains(#[trigger] kept[k]) by {
        let j = k + (moved.len() - kept.len());
        assert(kept[k] == moved[j]);
        if j == moved.len() - 1 {
            assert(moved[j] == entries[position]);
        } else if j < position {
            assert(moved[j] == entries[j]);
        } else {
            assert(moved[j] == entries[j + 1]);
        }
    }
}

/// A newly stored entry is the latest one, the cache is within its capacity, and
/// what was evicted is exactly the oldest.
pub proof fn law_store_keeps_the_latest<E>(entries: Seq<E>, entry: E, capacity: int)
    requires
        1 <= capacity,
    ensures
        after_store(entries, entry, capacity).last() == entry,
        1 <= after_store(entries, entry, capacity).len() <= capacity || entries.len() < capacity,
        forall|k: int|
            0 <= k < after_store(entries, entry, capacity).len() ==> #[trigger] after_store(
                entries,
                entry,
                capacity,
            )[k] == entries.push(entry)[k + entries.len() + 1 - after_store(
                entries,
                entry,
                capacity,
            ).len()],
{
}

/// Eviction splits the cache: the evicted keys, then the kept entries, are the
/// cache as it was.
pub proof fn law_eviction_splits_the_cache<K, T>(entries: Seq<(K, T)>, capacity: int)
    requires
        0 <= capacity,
    ensures
        evicted_keys(entries, capacity).len() + latest(entries, capacity).len() == entries.len(),
        latest(entries, capacity).len() <= capacity,
        forall|k: int|
            0 <= k < evicted_keys(entries, capacity).len() ==> #[trigger] evicted_keys(
                entries,
                capacity,
            )[k] == entries[k].0,
        forall|k: int|
            0 <= k < latest(entries, capacity).len() ==> #[trigger] latest(entries, capacity)[k]
                == entries[k + evicted_keys(entries, capacity).len()],
{
}

/// Whether it does not matter in which order two keys are compared.
pub open spec fn compares_both_ways<K: PartialEq>() -> bool {
    forall|a: K, b: K| #[trigger] a.eq_spec(&b) ==> b.eq_spec(&a)
}

/// At most one entry stands under each key.
pub open spec fn one_per_key<K: PartialEq, T>(entries: Seq<(K, T)>) -> bool {
    forall|i: int, j: int|
        0 <= i < entries.len() && 0 <= j < entries.len() && i != j ==> !(
        #[trigger] entries[i]).0.eq_spec(&(#[trigger] entries[j]).0)
}

/// The keys of the caches can be compared in either order.
pub proof fn law_cache_keys_compare_both_ways()
    ensures
        compares_both_ways::<GatedGeluFfnF32CacheKey>(),
        compares_both_ways::<GatedGeluFfnF32BatchedCacheKey>(),
{
}

proof fn lemma_latest_keeps_one_per_key<K: PartialEq, T>(entries: Seq<(K, T)>, capacity: int)
    requires
        0 <= capacity,
        one_per_key(entries),
    ensures
        one_per_key(latest(entries, capacity)),
{
    let kept = latest(entries, capacity);
    let shift = entries.len() - kept.len();
    assert forall|i: int, j: int|
        0 <= i < kept.len() && 0 <= j < kept.len() && i != j implies !(
    #[trigger] kept[i]).0.eq_spec(&(#[trigger] kept[j]).0) by {
        assert(kept[i] == entries[i + shift] && kept[j] == entries[j + shift]);
    }
}

/// A hit keeps at most one entry under each key.
pub proof fn law_hit_keeps_one_per_key<K: PartialEq, T>(
    entries: Seq<(K, T)>,
    position: int,
    capacity: int,
)
    requires
        0 <= position < entries.len(),
        0 <= capacity,
        one_per_key(entries),
    ensures
        one_per_key(after_hit(entries, position, capacity)),
{
    let moved = promoted(entries, position);
    let origin = |k: int|
        if k == moved.len() - 1 {
            position
        } else if k < position {
            k
        } else {
            k + 1
        };
    assert forall|i: int, j: int|
        0 <= i < moved.len() && 0 <= j < moved.len() && i != j implies !(
    #[trigger] moved[i]).0.eq_spec(&(#[trigger] moved[j]).0) by {
        assert(moved[i] == entries[origin(i)] && moved[j] == entries[origin(j)]);
    }
    lemma_latest_keeps_one_per_key(moved, capacity);
}

/// Storing a model whose key has none keeps at most one entry under each key.
pub proof fn law_store_keeps_one_per_key<K: PartialEq, T>(
    entries: Seq<(K, T)>,
    key: K,
    compiled: T,
    capacity: int,
)
    requires
        compares_both_ways::<K>(),
        0 <= capacity,
        one_per_key(entries),
        position_of(entries, key, 0) is None,
    ensures
        one_per_key(after_store(entries, (key, compiled), capacity)),
{
    law_position(entries, key, 0);
    let stored = entries.push((key, compiled));
    assert forall|i: int, j: int|
        0 <= i < stored.len() && 0 <= j < stored.len() && i != j implies !(
    #[trigger] stored[i]).0.eq_spec(&(#[trigger] stored[j]).0) by {
        if i == entries.len() {
            assert(stored[j] == entries[j]);
            assert(!entries[j].0.eq_spec(&key));
        } else {
            assert(stored[i] == entries[i]);
            if j == entries.len() {
                assert(!entries[i].0.eq_spec(&key));
            } else {
                assert(stored[j] == entries[j]);
            }
        }
    }
    lemma_latest_keeps_one_per_key(stored, capacity);
}

/// Whether keys that equal a third equal each other.
pub open spec fn compares_through<K: PartialEq>() -> bool {
    forall|a: K, b: K, c: K| #[trigger] a.eq_spec(&b) && #[trigger] c.eq_spec(&b) ==> a.eq_spec(&c)
}

/// The keys of the caches that equal a third equal each other.
pub proof fn law_cache_keys_compare_through()
    ensures
        compares_through::<GatedGeluFfnF32CacheKey>(),
        compares_through::<GatedGeluFfnF32BatchedCacheKey>(),
{
}

/// Where at most one entry stands under each key, removing the oldest under a key leaves
/// none there, and at most one under each other.
pub proof fn law_removed_key_is_gone<K: PartialEq, T>(entries: Seq<(K, T)>, key: K)
    requires
        compares_through::<K>(),
        one_per_key(entries),
    ensures
        one_per_key(without_key(entries, key)),
        position_of(without_key(entries, key), key, 0) is None,
{
    law_position(entries, key, 0);
    let left = without_key(entries, key);
    law_position(left, key, 0);
    if let Some(position) = position_of(entries, key, 0) {
        let origin = |k: int|
            if k < position {
                k
            } else {
                k + 1
            };
        assert forall|i: int, j: int|
            0 <= i < left.len() && 0 <= j < left.len() && i != j implies !(
        #[trigger] left[i]).0.eq_spec(&(#[trigger] left[j]).0) by {
            assert(left[i] == entries[origin(i)] && left[j] == entries[origin(j)]);
        }
        assert forall|k: int| 0 <= k < left.len() implies !(#[trigger] left[k]).0.eq_spec(&key) by {
            assert(left[k] == entries[origin(k)]);
            if left[k].0.eq_spec(&key) {
                assert(entries[position].0.eq_spec(&key));
                assert(!entries[origin(k)].0.eq_spec(&entries[position].0));
            }
        }
    }
}

/// Two keys are equal only if they agree on the device, the layer, the sizes and, for each
/// of the three weights, on the loading it came from, its place, its length, its shape and
/// its format.
pub proof fn law_keys_are_equal_in_every_part(
    a: GatedGeluFfnF32CacheKey,
    b: GatedGeluFfnF32CacheKey,
    m: usize,
    n: usize,
)
    ensures
        a.eq_spec(&b) <==> {
            &&& a.device_name_substring@ == b.device_name_substring@
            &&& a.layer_idx == b.layer_idx
            &&& a.input_size == b.input_size
            &&& a.ffn_inner_size == b.ffn_inner_size
            &&& a.output_size == b.output_size
            &&& a.gate.generation_id == b.gate.generation_id
            &&& a.gate.raw_addr == b.gate.raw_addr && a.gate.raw_len == b.gate.raw_len
            &&& a.gate.rows == b.gate.rows && a.gate.cols == b.gate.cols
            &&& a.gate.ggml_type == b.gate.ggml_type
            &&& a.up.generation_id == b.up.generation_id
            &&& a.up.raw_addr == b.up.raw_addr && a.up.raw_len == b.up.raw_len
            &&& a.up.rows == b.up.rows && a.up.cols == b.up.cols
            &&& a.up.ggml_type == b.up.ggml_type
            &&& a.down.generation_id == b.down.generation_id
            &&& a.down.raw_addr == b.down.raw_addr && a.down.raw_len == b.down.raw_len
            &&& a.down.rows == b.down.rows && a.down.cols == b.down.cols
            &&& a.down.ggml_type == b.down.ggml_type
        },
        (GatedGeluFfnF32BatchedCacheKey { base: a, batch: m }).eq_spec(
            &(GatedGeluFfnF32BatchedCacheKey { base: b, batch: n }),
        ) <==> a.eq_spec(&b) && m == n,
{
}

/// A key whose weights were loaded anew finds nothing that was stored for the old ones.
pub proof fn law_weights_loaded_anew_are_not_found<T>(
    entries: Seq<(GatedGeluFfnF32CacheKey, T)>,
    key: GatedGeluFfnF32CacheKey,
)
    requires
        forall|k: int|
            0 <= k < entries.len() ==> (#[trigger] entries[k]).0.gate.generation_id
                != key.gate.generation_id || entries[k].0.up.generation_id != key.up.generation_id
                || entries[k].0.down.generation_id != key.down.generation_id,
    ensures
        position_of(entries, key, 0) is None,
{
    law_position(entries, key, 0);
}

/// Making an entry the latest leaves the others in their order: those before it stay, those
/// behind it move up by one.
pub proof fn law_promotion_keeps_the_others_in_order<E>(entries: Seq<E>, position: int)
    requires
        0 <= position < entries.len(),
    ensures
        promoted(entries, position).len() == entries.len(),
        promoted(entries, position).last() == entries[position],
        forall|k: int|
            0 <= k < position ==> #[trigger] promoted(entries, position)[k] == entries[k],
        forall|k: int|
            position <= k < entries.len() - 1 ==> #[trigger] promoted(entries, position)[k]
                == entries[k + 1],
{
}

/// What stays of a cache is its end, as long as the capacity allows and no longer.
pub proof fn law_the_latest_stay<E>(entries: Seq<E>, capacity: int)
    requires
        0 <= capacity,
    ensures
        entries.len() <= capacity ==> latest(entries, capacity) == entries,
        entries.len() > capacity ==> latest(entries, capacity).len() == capacity,
        forall|k: int|
            1 <= k <= latest(entries, capacity).len() ==> #[trigger] latest(
                entries,
                capacity,
            )[latest(entries, capacity).len() - k] == entries[entries.len() - k],
{
}

/// Weights match the sizes of a block where gate and up map the input to the inner size
/// and down maps that to the output.
pub proof fn law_weights_that_match_their_sizes(key: GatedGeluFfnF32CacheKey)
    ensures
        key.weights_match_sizes() <==> (key.gate.rows, key.gate.cols) == (
            key.ffn_inner_size,
            key.input_size,
        ) && (key.up.rows, key.up.cols) == (key.ffn_inner_size, key.input_size) && (
            key.down.rows,
            key.down.cols,
        ) == (key.output_size, key.ffn_inner_size),
{
}

} // verus!
