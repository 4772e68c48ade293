//! Finite maps stored as vectors of key/value pairs.
//!
//! Keys are byte arrays (addresses, hashes, denominations) and tuples of
//! them; each map is viewed as a `Map<K, V>` and never holds a key twice.
use vstd::prelude::*;

verus! {

broadcast use vstd::array::group_array_axioms;

/// Keys that can be compared in executable code with the meaning of `==`.
pub trait KeyEq: Sized {
    /// Whether the two keys are the same value.
    fn key_eq(&self, other: &Self) -> (r: bool)
        ensures
            r == (*self == *other),
    ;
}

/// Compares two byte arrays element by element.
pub fn bytes_eq<const N: usize>(a: &[u8; N], b: &[u8; N]) -> (r: bool)
    ensures
        r == (*a == *b),
{
    let mut i: usize = 0;
    while i < N
        invariant
            0 <= i <= N,
            a@.len() == N,
            b@.len() == N,
            forall|j: int| 0 <= j < i ==> a@[j] == b@[j],
        decreases N - i,
    {
        if a[i] != b[i] {
            return false;
        }
        i += 1;
    }
    assert(*a =~= *b) by {
        assert forall|j: int| 0 <= j < N implies a[j] == b[j] by {
            assert(a@[j] == b@[j]);
        }
    }
    true
}

impl<const N: usize> KeyEq for [u8; N] {
    fn key_eq(&self, other: &Self) -> (r: bool) {
        bytes_eq(self, other)
    }
}

impl<A: KeyEq, B: KeyEq> KeyEq for (A, B) {
    fn key_eq(&self, other: &Self) -> (r: bool) {
        self.0.key_eq(&other.0) && self.1.key_eq(&other.1)
    }
}

impl<A: KeyEq, B: KeyEq, C: KeyEq> KeyEq for (A, B, C) {
    fn key_eq(&self, other: &Self) -> (r: bool) {
        self.0.key_eq(&other.0) && self.1.key_eq(&other.1) && self.2.key_eq(&other.2)
    }
}

impl KeyEq for u64 {
    fn key_eq(&self, other: &Self) -> (r: bool) {
        *self == *other
    }
}

/// The keys of a sequence of entries, in order.
pub open spec fn keys_of<K, V>(s: Seq<(K, V)>) -> Seq<K> {
    s.map_values(|e: (K, V)| e.0)
}

/// Whether key `k` occurs at some index of `s`.
pub open spec fn has_key<K, V>(s: Seq<(K, V)>, k: K) -> bool {
    exists|i: int| 0 <= i < s.len() && s[i].0 == k
}

/// The value stored beside the (first) occurrence of key `k`.
pub open spec fn value_at<K, V>(s: Seq<(K, V)>, k: K) -> V {
    s[choose|i: int| 0 <= i < s.len() && s[i].0 == k].1
}

/// The map that a duplicate-free sequence of entries stands for.
pub open spec fn entries_map<K, V>(s: Seq<(K, V)>) -> Map<K, V> {
    Map::new(|k: K| has_key(s, k), |k: K| value_at(s, k))
}

/// No key occurs twice.
pub open spec fn unique_keys<K, V>(s: Seq<(K, V)>) -> bool {
    forall|i: int, j: int| 0 <= i < s.len() && 0 <= j < s.len() && i != j ==> s[i].0 != s[j].0
}

/// In a duplicate-free sequence the value of a key is the one at its index.
pub proof fn lemma_value_at_index<K, V>(s: Seq<(K, V)>, i: int)
    requires
        unique_keys(s),
        0 <= i < s.len(),
    ensures
        has_key(s, s[i].0),
        value_at(s, s[i].0) == s[i].1,
        entries_map(s).contains_key(s[i].0),
        entries_map(s)[s[i].0] == s[i].1,
{
    let k = s[i].0;
    assert(has_key(s, k));
    let j = choose|j: int| 0 <= j < s.len() && s[j].0 == k;
    assert(j == i);
}

/// A map from keys to values, kept as a vector without repeated keys.
#[derive(Debug)]
pub struct AssocMap<K, V> {
    entries: Vec<(K, V)>,
}

impl<K, V> AssocMap<K, V> {
    /// No key occurs twice.
    pub closed spec fn wf(&self) -> bool {
        unique_keys(self.entries@)
    }

    /// The entries, in the order they are kept.
    pub closed spec fn entries(&self) -> Seq<(K, V)> {
        self.entries@
    }
}

impl<K, V> View for AssocMap<K, V> {
    type V = Map<K, V>;

    closed spec fn view(&self) -> Map<K, V> {
        entries_map(self.entries@)
    }
}

impl<K: KeyEq + Copy, V> AssocMap<K, V> {
    /// The domain of the map is finite.
    pub proof fn lemma_dom_finite(&self)
        ensures
            self@.dom().finite(),
            self@.dom() == keys_of(self.entries()).to_set(),
    {
        let s = self.entries@;
        assert(self@.dom() =~= keys_of(s).to_set()) by {
            assert forall|k: K| self@.dom().contains(k) implies keys_of(s).to_set().contains(k) by {
                let i = choose|i: int| 0 <= i < s.len() && s[i].0 == k;
                assert(keys_of(s)[i] == k);
            }
            assert forall|k: K| keys_of(s).to_set().contains(k) implies self@.dom().contains(k) by {
                let i = choose|i: int| 0 <= i < keys_of(s).len() && keys_of(s)[i] == k;
                assert(s[i].0 == k);
            }
        }
        vstd::seq_lib::seq_to_set_is_finite(keys_of(s));
    }

    /// The number of keys.
    proof fn lemma_len(&self)
        requires
            unique_keys(self.entries()),
        ensures
            self@.len() == self.entries().len(),
    {
        self.lemma_dom_finite();
        let s = self.entries@;
        assert(keys_of(s).no_duplicates()) by {
            assert forall|i: int, j: int|
                0 <= i < keys_of(s).len() && 0 <= j < keys_of(s).len() && i != j implies
                keys_of(s)[i] != keys_of(s)[j] by {
                assert(keys_of(s)[i] == s[i].0);
                assert(keys_of(s)[j] == s[j].0);
            }
        }
        keys_of(s).unique_seq_to_set();
    }

    /// An empty map.
    pub fn new() -> (r: Self)
        ensures
            r@ == Map::<K, V>::empty(),
            r.wf(),
    {
        let r = AssocMap { entries: Vec::new() };
        assert(r@ =~= Map::<K, V>::empty());
        r
    }

    /// The index of key `k`, if it is there.
    fn find(&self, k: &K) -> (r: Option<usize>)
        requires
            self.wf(),
        ensures
            match r {
                Some(i) => i < self.entries@.len() && self.entries@[i as int].0 == *k,
                None => !has_key(self.entries@, *k),
            },
    {
        let mut i: usize = 0;
        while i < self.entries.len()
            invariant
                0 <= i <= self.entries@.len(),
                forall|j: int| 0 <= j < i ==> self.entries@[j].0 != *k,
            decreases self.entries@.len() - i,
        {
            if self.entries[i].0.key_eq(k) {
                return Some(i);
            }
            i += 1;
        }
        None
    }

    /// The number of keys in the map.
    pub fn len(&self) -> (r: usize)
        requires
            self.wf(),
        ensures
            r == self@.len(),
    {
        proof {
            self.lemma_len();
        }
        self.entries.len()
    }

    /// Whether the map holds key `k`.
    pub fn contains_key(&self, k: &K) -> (r: bool)
        requires
            self.wf(),
        ensures
            r == self@.contains_key(*k),
    {
        self.find(k).is_some()
    }

    /// Sets the value at key `k`, adding the key if it is new.
    pub fn insert(&mut self, k: K, v: V)
        requires
            old(self).wf(),
        ensures
            final(self)@ == old(self)@.insert(k, v),
            final(self).wf(),
    {
        let ghost old_s = self.entries@;
        match self.find(&k) {
            Some(i) => {
                self.entries.set(i, (k, v));
                proof {
                    let s = self.entries@;
                    assert(s == old_s.update(i as int, (k, v)));
                    assert(unique_keys(s));
                    assert forall|key: K| #[trigger] entries_map(s).contains_key(key) == old(self)@.insert(k, v).contains_key(key) by {
                        if has_key(old_s, key) && key != k {
                            let j = choose|j: int| 0 <= j < old_s.len() && old_s[j].0 == key;
                            assert(s[j].0 == key);
                        }
                        if has_key(s, key) {
                            let j = choose|j: int| 0 <= j < s.len() && s[j].0 == key;
                            if j != i {
                                assert(old_s[j].0 == key);
                            }
                        }
                        assert(s[i as int].0 == k);
                    }
                    assert forall|key: K| #[trigger] entries_map(s).contains_key(key) implies entries_map(s)[key] == old(self)@.insert(k, v)[key] by {
                        let j = choose|j: int| 0 <= j < s.len() && s[j].0 == key;
                        lemma_value_at_index(s, j);
                        if j != i {
                            lemma_value_at_index(old_s, j);
                        }
                    }
                    assert(entries_map(s) =~= old(self)@.insert(k, v));
                }
            },
            None => {
                self.entries.push((k, v));
                proof {
                    let s = self.entries@;
                    assert(s == old_s.push((k, v)));
                    assert(unique_keys(s)) by {
                        assert forall|i: int, j: int| 0 <= i < s.len() && 0 <= j < s.len() && i != j implies s[i].0 != s[j].0 by {
                            if i < old_s.len() && j < old_s.len() {
                                assert(s[i] == old_s[i]);
                                assert(s[j] == old_s[j]);
                            } else if i < old_s.len() {
                                assert(s[i] == old_s[i]);
                            } else {
                                assert(s[j] == old_s[j]);
                            }
                        }
                    }
                    assert forall|key: K| #[trigger] entries_map(s).contains_key(key) == old(self)@.insert(k, v).contains_key(key) by {
                        if has_key(old_s, key) {
                            let j = choose|j: int| 0 <= j < old_s.len() && old_s[j].0 == key;
                            assert(s[j].0 == key);
                        }
                        if has_key(s, key) {
                            let j = choose|j: int| 0 <= j < s.len() && s[j].0 == key;
                            if j < old_s.len() {
                                assert(old_s[j].0 == key);
                            }
                        }
                        assert(s[old_s.len() as int].0 == k);
                    }
                    assert forall|key: K| #[trigger] entries_map(s).contains_key(key) implies entries_map(s)[key] == old(self)@.insert(k, v)[key] by {
                        let j = choose|j: int| 0 <= j < s.len() && s[j].0 == key;
                        lemma_value_at_index(s, j);
                        if j < old_s.len() {
                            assert(s[j] == old_s[j]);
                            lemma_value_at_index(old_s, j);
                        }
                    }
                    assert(entries_map(s) =~= old(self)@.insert(k, v));
                }
            },
        }
    }

    /// Removes key `k`, returning its value if it was there.
    pub fn remove(&mut self, k: &K) -> (r: Option<V>)
        requires
            old(self).wf(),
        ensures
            final(self)@ == old(self)@.remove(*k),
            final(self).wf(),
            r == (if old(self)@.contains_key(*k) { Some(old(self)@[*k]) } else { None::<V> }),
    {
        let ghost old_s = self.entries@;
        match self.find(k) {
            Some(i) => {
                proof {
                    lemma_value_at_index(old_s, i as int);
                }
                let e = self.entries.remove(i);
                proof {
                    let s = self.entries@;
                    assert(s == old_s.remove(i as int));
                    assert(unique_keys(s)) by {
                        assert forall|a: int, b: int| 0 <= a < s.len() && 0 <= b < s.len() && a != b implies s[a].0 != s[b].0 by {
                            let oa = if a < i { a } else { a + 1 };
                            let ob = if b < i { b } else { b + 1 };
                            assert(s[a] == old_s[oa]);
                            assert(s[b] == old_s[ob]);
                        }
                    }
                    assert forall|key: K| #[trigger] entries_map(s).contains_key(key) == old(self)@.remove(*k).contains_key(key) by {
                        if has_key(old_s, key) && key != *k {
                            let j = choose|j: int| 0 <= j < old_s.len() && old_s[j].0 == key;
                            assert(j != i);
                            let sj = if j < i { j } else { j - 1 };
                            assert(s[sj] == old_s[j]);
                        }
                        if has_key(s, key) {
                            let j = choose|j: int| 0 <= j < s.len() && s[j].0 == key;
                            let oj = if j < i { j } else { j + 1 };
                            assert(s[j] == old_s[oj]);
                            assert(oj != i);
                        }
                    }
                    assert forall|key: K| #[trigger] entries_map(s).contains_key(key) implies entries_map(s)[key] == old(self)@.remove(*k)[key] by {
                        let j = choose|j: int| 0 <= j < s.len() && s[j].0 == key;
                        let oj = if j < i { j } else { j + 1 };
                        assert(s[j] == old_s[oj]);
                        lemma_value_at_index(s, j);
                        lemma_value_at_index(old_s, oj);
                    }
                    assert(entries_map(s) =~= old(self)@.remove(*k));
                }
                Some(e.1)
            },
            None => {
                assert(self@ =~= old(self)@.remove(*k));
                None
            },
        }
    }

    /// The number of stored entries.
    pub fn entry_count(&self) -> (r: usize)
        requires
            self.wf(),
        ensures
            r == self.entries().len(),
            r == self@.len(),
    {
        proof {
            self.lemma_len();
        }
        self.entries.len()
    }

    /// Removes every entry.
    pub fn clear(&mut self)
        ensures
            final(self)@ == Map::<K, V>::empty(),
            final(self).wf(),
    {
        self.entries.clear();
        assert(self@ =~= Map::<K, V>::empty());
    }
}

impl<K: KeyEq + Copy, V: Copy> AssocMap<K, V> {
    /// The value at key `k`, if any.
    pub fn get(&self, k: &K) -> (r: Option<V>)
        requires
            self.wf(),
        ensures
            r == (if self@.contains_key(*k) { Some(self@[*k]) } else { None::<V> }),
    {
        match self.find(k) {
            Some(i) => {
                proof {
                    lemma_value_at_index(self.entries@, i as int);
                }
                Some(self.entries[i].1)
            },
            None => None,
        }
    }

    /// The entry at position `i` of the stored order.
    pub fn entry_at(&self, i: usize) -> (r: (K, V))
        requires
            self.wf(),
            i < self.entries().len(),
        ensures
            r == self.entries()[i as int],
            self@.contains_key(r.0),
            self@[r.0] == r.1,
    {
        proof {
            lemma_value_at_index(self.entries@, i as int);
        }
        self.entries[i]
    }
}

} // verus!
