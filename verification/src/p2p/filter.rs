//! Deduplication filter over a least-recently-used cache.
use vstd::prelude::*;
use lru::LruCache;

verus! {

/// An `lru` crate cache of hashes (with unit values), held opaquely: the
/// cache's default hasher is a type Verus cannot be told of.
#[verifier::external_body]
pub struct LruHashes {
    cache: LruCache<[u8; 32], ()>,
}

/// The keys held by a cache, most recently used first.
pub uninterp spec fn lru_keys(cache: LruHashes) -> Seq<[u8; 32]>;

/// The capacity a cache was created with.
pub uninterp spec fn lru_cap(cache: LruHashes) -> nat;

/// The keys after putting `k` into a cache holding `keys` with capacity
/// `cap`: `k` becomes the most recently used; a new key evicts the least
/// recently used one when the cache is full.
pub open spec fn keys_after_put(keys: Seq<[u8; 32]>, cap: nat, k: [u8; 32]) -> Seq<[u8; 32]> {
    if keys.contains(k) {
        seq![k] + keys.remove(keys.index_of(k))
    } else if keys.len() >= cap {
        seq![k] + keys.drop_last()
    } else {
        seq![k] + keys
    }
}

/// The keys after `k` is checked: unchanged when `k` is already held,
/// otherwise `k` is put in.
pub open spec fn keys_after_check(keys: Seq<[u8; 32]>, cap: nat, k: [u8; 32]) -> Seq<[u8; 32]> {
    if keys.contains(k) {
        keys
    } else {
        keys_after_put(keys, cap, k)
    }
}

/// Creates a cache of capacity `cap` (`LruCache::new` with `cap` as a
/// `NonZeroUsize`): it is empty and remembers its capacity.
#[verifier::external_body]
fn lru_new(cap: usize) -> (r: LruHashes)
    requires
        cap > 0,
    ensures
        lru_keys(r) == Seq::<[u8; 32]>::empty(),
        lru_cap(r) == cap,
{
    LruHashes { cache: LruCache::new(std::num::NonZeroUsize::new(cap).unwrap()) }
}

/// `LruCache::contains`: whether the key is held; the recency order is not
/// touched.
#[verifier::external_body]
fn lru_contains(cache: &LruHashes, k: &[u8; 32]) -> (r: bool)
    ensures
        r == lru_keys(*cache).contains(*k),
{
    cache.cache.contains(k)
}

/// `LruCache::put` with the unit value: a held key moves to the front; a
/// new key goes to the front, after the least recently used key is evicted
/// if the cache is at capacity. The capacity is unchanged.
#[verifier::external_body]
fn lru_put(cache: &mut LruHashes, k: [u8; 32])
    ensures
        lru_keys(*final(cache)) == keys_after_put(lru_keys(*old(cache)), lru_cap(*old(cache)), k),
        lru_cap(*final(cache)) == lru_cap(*old(cache)),
{
    cache.cache.put(k, ());
}

/// `LruCache::len`: the number of keys held.
#[verifier::external_body]
fn lru_len(cache: &LruHashes) -> (r: usize)
    ensures
        r == lru_keys(*cache).len(),
{
    cache.cache.len()
}

/// `LruCache::clear`: every key is removed; the capacity is unchanged.
#[verifier::external_body]
fn lru_clear(cache: &mut LruHashes)
    ensures
        lru_keys(*final(cache)) == Seq::<[u8; 32]>::empty(),
        lru_cap(*final(cache)) == lru_cap(*old(cache)),
{
    cache.cache.clear();
}

/// Default capacity for seen items.
pub const DEFAULT_CAPACITY: usize = 10000;

/// LRU-based deduplication filter.
pub struct SeenFilter {
    /// LRU cache of seen hashes.
    cache: LruHashes,
}

/// Putting a key keeps the keys distinct and within the capacity.
pub proof fn lemma_put_keeps_bounds(keys: Seq<[u8; 32]>, cap: nat, k: [u8; 32])
    requires
        keys.no_duplicates(),
        keys.len() <= cap,
        cap >= 1,
    ensures
        keys_after_put(keys, cap, k).no_duplicates(),
        keys_after_put(keys, cap, k).len() <= cap,
        keys_after_put(keys, cap, k).contains(k),
        keys_after_put(keys, cap, k)[0] == k,
{
    let r = keys_after_put(keys, cap, k);
    assert(r[0] == k);
    let rest = if keys.contains(k) {
        keys.remove(keys.index_of(k))
    } else if keys.len() >= cap {
        keys.drop_last()
    } else {
        keys
    };
    assert(r == seq![k] + rest);
    assert(!rest.contains(k) && rest.no_duplicates()) by {
        if keys.contains(k) {
            let i = keys.index_of(k);
            assert(0 <= i < keys.len() && keys[i] == k);
            assert forall|a: int, b: int|
                0 <= a < rest.len() && 0 <= b < rest.len() && a != b implies rest[a] != rest[b] by {
                let a0 = if a < i { a } else { a + 1 };
                let b0 = if b < i { b } else { b + 1 };
                assert(rest[a] == keys[a0] && rest[b] == keys[b0]);
            }
            if rest.contains(k) {
                let j = choose|j: int| 0 <= j < rest.len() && rest[j] == k;
                let j0 = if j < i { j } else { j + 1 };
                assert(keys[j0] == k && j0 != i);
            }
        } else if keys.len() >= cap {
            if rest.contains(k) {
                let j = choose|j: int| 0 <= j < rest.len() && rest[j] == k;
                assert(keys[j] == k);
            }
        }
    }
    assert forall|a: int, b: int| 0 <= a < r.len() && 0 <= b < r.len() && a != b implies r[a] != r[b] by {
        if a == 0 {
            assert(r[b] == rest[b - 1]);
        } else if b == 0 {
            assert(r[a] == rest[a - 1]);
        } else {
            assert(r[a] == rest[a - 1] && r[b] == rest[b - 1]);
        }
    }
    assert(r.contains(k));
}

/// Putting the key that was just put changes nothing more.
pub proof fn lemma_put_again(keys: Seq<[u8; 32]>, cap: nat, k: [u8; 32])
    requires
        keys.no_duplicates(),
        keys.len() <= cap,
        cap >= 1,
    ensures
        keys_after_put(keys_after_put(keys, cap, k), cap, k) == keys_after_put(keys, cap, k),
{
    lemma_put_keeps_bounds(keys, cap, k);
    let s = keys_after_put(keys, cap, k);
    let i = s.index_of(k);
    assert(0 <= i < s.len() && s[i] == k);
    assert(i == 0);
    assert(seq![k] + s.remove(0) =~= s);
}

impl SeenFilter {
    /// The hashes currently remembered, most recently seen first.
    pub closed spec fn seen(&self) -> Seq<[u8; 32]> {
        lru_keys(self.cache)
    }

    /// How many hashes the filter remembers at most.
    pub closed spec fn capacity(&self) -> nat {
        lru_cap(self.cache)
    }

    /// The remembered hashes are distinct and within the capacity.
    pub open spec fn wf(&self) -> bool {
        &&& self.seen().no_duplicates()
        &&& self.seen().len() <= self.capacity()
        &&& self.capacity() >= 1
    }

    /// Create a new filter with the specified capacity (at least one).
    pub fn new(capacity: usize) -> (r: Self)
        ensures
            r.wf(),
            r.seen() == Seq::<[u8; 32]>::empty(),
            r.capacity() == (if capacity == 0 { 1 } else { capacity }),
    {
        let cap = if capacity == 0 { 1 } else { capacity };
        SeenFilter { cache: lru_new(cap) }
    }

    /// Create a new filter with default capacity.
    pub fn with_default_capacity() -> (r: Self)
        ensures
            r.wf(),
            r.seen() == Seq::<[u8; 32]>::empty(),
            r.capacity() == DEFAULT_CAPACITY,
    {
        SeenFilter::new(DEFAULT_CAPACITY)
    }

    /// Check if an item has been seen before, remembering it if not.
    ///
    /// Returns true if the item was NOT seen before (i.e., is new).
    /// Returns false if the item WAS seen before (i.e., is duplicate).
    pub fn check(&mut self, hash: &[u8; 32]) -> (r: bool)
        requires
            old(self).wf(),
        ensures
            final(self).wf(),
            r == !old(self).seen().contains(*hash),
            r ==> final(self).seen() == keys_after_put(old(self).seen(), old(self).capacity(), *hash),
            !r ==> final(self).seen() == old(self).seen(),
            final(self).seen() == keys_after_check(old(self).seen(), old(self).capacity(), *hash),
            final(self).seen().contains(*hash),
            final(self).capacity() == old(self).capacity(),
    {
        if lru_contains(&self.cache, hash) {
            false
        } else {
            proof {
                lemma_put_keeps_bounds(self.seen(), self.capacity(), *hash);
            }
            lru_put(&mut self.cache, *hash);
            true
        }
    }

    /// Check if an item is in the filter without modifying it.
    pub fn contains(&self, hash: &[u8; 32]) -> (r: bool)
        ensures
            r == self.seen().contains(*hash),
    {
        lru_contains(&self.cache, hash)
    }

    /// Mark an item as seen (it becomes the most recently seen).
    pub fn mark_seen(&mut self, hash: [u8; 32])
        requires
            old(self).wf(),
        ensures
            final(self).wf(),
            final(self).seen() == keys_after_put(old(self).seen(), old(self).capacity(), hash),
            final(self).seen().contains(hash),
            final(self).capacity() == old(self).capacity(),
    {
        proof {
            lemma_put_keeps_bounds(self.seen(), self.capacity(), hash);
        }
        lru_put(&mut self.cache, hash);
    }

    /// Get the number of items in the filter.
    pub fn len(&self) -> (r: usize)
        ensures
            r == self.seen().len(),
    {
        lru_len(&self.cache)
    }

    /// Check if the filter is empty.
    pub fn is_empty(&self) -> (r: bool)
        ensures
            r == (self.seen().len() == 0),
    {
        lru_len(&self.cache) == 0
    }

    /// Clear the filter.
    pub fn clear(&mut self)
        requires
            old(self).wf(),
        ensures
            final(self).wf(),
            final(self).seen() == Seq::<[u8; 32]>::empty(),
            final(self).capacity() == old(self).capacity(),
    {
        lru_clear(&mut self.cache);
    }
}

/// A hash just checked (or marked seen) is reported as a duplicate by the
/// next check: whatever the filter held, the hash is then the most recently
/// seen, and the filter stays within its capacity.
pub proof fn lemma_second_check_is_duplicate(seen: Seq<[u8; 32]>, cap: nat, h: [u8; 32])
    requires
        seen.no_duplicates(),
        seen.len() <= cap,
        cap >= 1,
    ensures
        (if seen.contains(h) { seen } else { keys_after_put(seen, cap, h) }).contains(h),
        keys_after_put(seen, cap, h).len() <= cap,
{
    lemma_put_keeps_bounds(seen, cap, h);
}

} // verus!
