//! Finite sets stored as vectors without repeated elements.
use vstd::prelude::*;
use crate::assoc_map::KeyEq;

verus! {

/// A set of keys, kept as a vector in which no key occurs twice.
#[derive(Debug)]
pub struct VecSet<K> {
    items: Vec<K>,
}

impl<K> VecSet<K> {
    /// No key occurs twice.
    pub closed spec fn wf(&self) -> bool {
        self.items@.no_duplicates()
    }

    /// The keys in the order they are kept.
    pub closed spec fn items(&self) -> Seq<K> {
        self.items@
    }
}

impl<K> View for VecSet<K> {
    type V = Set<K>;

    closed spec fn view(&self) -> Set<K> {
        self.items@.to_set()
    }
}

impl<K: KeyEq + Copy> VecSet<K> {
    /// The view is the set of the kept keys, and its size is their number.
    pub proof fn lemma_view(&self)
        requires
            self.wf(),
        ensures
            self@ == self.items().to_set(),
            self@.finite(),
            self@.len() == self.items().len(),
            forall|k: K| self@.contains(k) <==> self.items().contains(k),
    {
        self.items@.unique_seq_to_set();
        vstd::seq_lib::seq_to_set_is_finite(self.items@);
    }

    /// An empty set.
    pub fn new() -> (r: Self)
        ensures
            r.wf(),
            r@ == Set::<K>::empty(),
    {
        let r = VecSet { items: Vec::new() };
        assert(r.items@.to_set() =~= Set::<K>::empty());
        r
    }

    /// Position of `k`, if present.
    fn find(&self, k: &K) -> (r: Option<usize>)
        ensures
            match r {
                Some(i) => i < self.items@.len() && self.items@[i as int] == *k,
                None => !self.items@.contains(*k),
            },
    {
        let mut i: usize = 0;
        while i < self.items.len()
            invariant
                0 <= i <= self.items@.len(),
                forall|j: int| 0 <= j < i ==> self.items@[j] != *k,
            decreases self.items@.len() - i,
        {
            if self.items[i].key_eq(k) {
                return Some(i);
            }
            i += 1;
        }
        None
    }

    /// Whether `k` is in the set.
    pub fn contains(&self, k: &K) -> (r: bool)
        ensures
            r == self@.contains(*k),
    {
        self.find(k).is_some()
    }

    /// Adds `k`; the result says whether it was not already present.
    pub fn insert(&mut self, k: K) -> (r: bool)
        requires
            old(self).wf(),
        ensures
            final(self).wf(),
            r == !old(self)@.contains(k),
            final(self)@ == old(self)@.insert(k),
    {
        match self.find(&k) {
            Some(_) => {
                assert(self@ =~= old(self)@.insert(k));
                false
            },
            None => {
                let ghost before = self.items@;
                self.items.push(k);
                proof {
                    let after = self.items@;
                    assert forall|x: K| after.contains(x) <==> (before.contains(x) || x == k) by {
                        if after.contains(x) {
                            let j = choose|j: int| 0 <= j < after.len() && after[j] == x;
                            if j < before.len() {
                                assert(before[j] == x);
                            }
                        }
                        if before.contains(x) {
                            let j = choose|j: int| 0 <= j < before.len() && before[j] == x;
                            assert(after[j] == x);
                        }
                        if x == k {
                            assert(after[before.len() as int] == x);
                        }
                    }
                    assert(self@ =~= old(self)@.insert(k));
                }
                true
            },
        }
    }

    /// Removes `k`; the result says whether it was present.
    pub fn remove(&mut self, k: &K) -> (r: bool)
        requires
            old(self).wf(),
        ensures
            final(self).wf(),
            r == old(self)@.contains(*k),
            final(self)@ == old(self)@.remove(*k),
    {
        match self.find(k) {
            Some(i) => {
                let ghost before = self.items@;
                self.items.remove(i);
                proof {
                    let after = self.items@;
                    assert(after =~= before.remove(i as int));
                    assert forall|a: int, b: int|
                        0 <= a < b < after.len() implies after[a] != after[b] by {
                        let a0 = if a < i { a } else { a + 1 };
                        let b0 = if b < i { b } else { b + 1 };
                        assert(after[a] == before[a0] && after[b] == before[b0]);
                    }
                    assert forall|x: K| after.contains(x) <==> (before.contains(x) && x != *k) by {
                        if after.contains(x) {
                            let j = choose|j: int| 0 <= j < after.len() && after[j] == x;
                            let j0 = if j < i { j } else { j + 1 };
                            assert(before[j0] == x);
                            assert(j0 != i as int);
                        }
                        if before.contains(x) && x != *k {
                            let j = choose|j: int| 0 <= j < before.len() && before[j] == x;
                            assert(j != i as int);
                            if j < i {
                                assert(after[j] == x);
                            } else {
                                assert(after[j - 1] == x);
                            }
                        }
                    }
                    assert(self@ =~= old(self)@.remove(*k));
                }
                true
            },
            None => {
                assert(self@ =~= old(self)@.remove(*k));
                false
            },
        }
    }

    /// The number of keys.
    pub fn len(&self) -> (r: usize)
        requires
            self.wf(),
        ensures
            r == self@.len(),
    {
        proof {
            self.lemma_view();
        }
        self.items.len()
    }

    /// Removes every key.
    pub fn clear(&mut self)
        ensures
            final(self).wf(),
            final(self)@ == Set::<K>::empty(),
    {
        self.items.clear();
        assert(self.items@.to_set() =~= Set::<K>::empty());
    }

    /// The keys, in the order they are kept.
    pub fn to_vec(&self) -> (r: Vec<K>)
        ensures
            r@ == self.items(),
    {
        let mut out: Vec<K> = Vec::new();
        let mut i: usize = 0;
        while i < self.items.len()
            invariant
                0 <= i <= self.items@.len(),
                out@ == self.items@.subrange(0, i as int),
            decreases self.items@.len() - i,
        {
            out.push(self.items[i]);
            i += 1;
            assert(out@ =~= self.items@.subrange(0, i as int));
        }
        assert(self.items@.subrange(0, self.items@.len() as int) =~= self.items@);
        out
    }
}

} // verus!
