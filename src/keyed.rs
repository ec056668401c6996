//! A small map from string keys to values, kept as two parallel vectors with
//! unique keys, so that its contents are a `Map` that Verus can reason about.

use vstd::prelude::*;

verus! {

/// Index of the entry whose key is `k` (meaningful when one exists).
pub open spec fn index_in(keys: Seq<String>, k: Seq<char>) -> int {
    choose|i: int| 0 <= i < keys.len() && keys[i]@ == k
}

pub open spec fn has_key(keys: Seq<String>, k: Seq<char>) -> bool {
    exists|i: int| 0 <= i < keys.len() && keys[i]@ == k
}

pub open spec fn keys_unique(keys: Seq<String>) -> bool {
    forall|i: int, j: int| 0 <= i < keys.len() && 0 <= j < keys.len() && i != j ==> keys[i]@ != keys[j]@
}

proof fn lemma_index_in(keys: Seq<String>, k: Seq<char>, j: int)
    requires
        keys_unique(keys),
        0 <= j < keys.len(),
        keys[j]@ == k,
    ensures
        index_in(keys, k) == j,
{
    assert(has_key(keys, k));
}

/// Entries keyed by string, each key at most once.
pub struct KeyedVec<V> {
    keys: Vec<String>,
    vals: Vec<V>,
}

impl<V> View for KeyedVec<V> {
    type V = Map<Seq<char>, V>;

    closed spec fn view(&self) -> Map<Seq<char>, V> {
        Map::new(
            |k: Seq<char>| has_key(self.keys@, k),
            |k: Seq<char>| self.vals@[index_in(self.keys@, k)],
        )
    }
}

impl<V> KeyedVec<V> {
    pub closed spec fn wf(&self) -> bool {
        &&& self.keys@.len() == self.vals@.len()
        &&& keys_unique(self.keys@)
    }

    pub fn new() -> (r: Self)
        ensures
            r.wf(),
            r@ == Map::<Seq<char>, V>::empty(),
    {
        let r = KeyedVec { keys: Vec::new(), vals: Vec::new() };
        assert(r@ =~= Map::<Seq<char>, V>::empty());
        r
    }

    fn find(&self, k: &String) -> (r: Option<usize>)
        requires
            self.wf(),
        ensures
            r is None ==> !has_key(self.keys@, k@),
            r matches Some(i) ==> i < self.keys@.len() && self.keys@[i as int]@ == k@,
    {
        let mut i: usize = 0;
        while i < self.keys.len()
            invariant
                i <= self.keys@.len(),
                forall|j: int| 0 <= j < i ==> self.keys@[j]@ != k@,
            decreases self.keys@.len() - i,
        {
            if self.keys[i] == *k {
                return Some(i);
            }
            i = i + 1;
        }
        None
    }

    pub fn contains_key(&self, k: &String) -> (r: bool)
        requires
            self.wf(),
        ensures
            r == self@.contains_key(k@),
    {
        self.find(k).is_some()
    }

    pub fn get(&self, k: &String) -> (r: Option<&V>)
        requires
            self.wf(),
        ensures
            r is Some == self@.contains_key(k@),
            r matches Some(v) ==> *v == self@[k@],
    {
        match self.find(k) {
            Some(i) => {
                proof {
                    lemma_index_in(self.keys@, k@, i as int);
                }
                Some(&self.vals[i])
            },
            None => None,
        }
    }

    /// Sets the value under `k`, replacing any value it had.
    pub fn insert(&mut self, k: String, v: V)
        requires
            old(self).wf(),
        ensures
            final(self).wf(),
            final(self)@ == old(self)@.insert(k@, v),
    {
        let ghost old_keys = self.keys@;
        let ghost old_vals = self.vals@;
        let ghost old_view = self@;
        match self.find(&k) {
            Some(i) => {
                let ghost kv = k@;
                self.vals.set(i, v);
                proof {
                    assert(self.keys@ == old_keys);
                    assert forall|q: Seq<char>| #[trigger] has_key(self.keys@, q) implies
                        self.vals@[index_in(self.keys@, q)] == (if q == kv { v } else { old_vals[index_in(old_keys, q)] }) by {
                        let j = index_in(self.keys@, q);
                        assert(0 <= j < self.keys@.len() && self.keys@[j]@ == q);
                        if q == kv {
                            lemma_index_in(self.keys@, q, i as int);
                        } else {
                            assert(j != i);
                        }
                    };
                    assert(self@ =~= old_view.insert(kv, v));
                }
            },
            None => {
                let ghost kv = k@;
                self.keys.push(k);
                self.vals.push(v);
                proof {
                    let n = old_keys.len() as int;
                    assert forall|a: int, b: int| 0 <= a < self.keys@.len() && 0 <= b < self.keys@.len() && a != b
                        implies self.keys@[a]@ != self.keys@[b]@ by {
                        if a == n {
                            assert(!has_key(old_keys, kv));
                            assert(old_keys[b]@ != kv);
                        } else if b == n {
                            assert(!has_key(old_keys, kv));
                            assert(old_keys[a]@ != kv);
                        }
                    };
                    assert forall|q: Seq<char>| has_key(self.keys@, q) == (has_key(old_keys, q) || q == kv) by {
                        if has_key(old_keys, q) {
                            let j = choose|j: int| 0 <= j < old_keys.len() && old_keys[j]@ == q;
                            assert(self.keys@[j]@ == q);
                        }
                        if q == kv {
                            assert(self.keys@[n]@ == q);
                        }
                        if has_key(self.keys@, q) && q != kv {
                            let j = choose|j: int| 0 <= j < self.keys@.len() && self.keys@[j]@ == q;
                            assert(j != n);
                            assert(old_keys[j]@ == q);
                        }
                    };
                    assert forall|q: Seq<char>| #[trigger] has_key(self.keys@, q) implies
                        self.vals@[index_in(self.keys@, q)] == (if q == kv { v } else { old_vals[index_in(old_keys, q)] }) by {
                        if q == kv {
                            lemma_index_in(self.keys@, q, n);
                        } else {
                            let j = index_in(old_keys, q);
                            assert(0 <= j < old_keys.len() && old_keys[j]@ == q);
                            assert(self.keys@[j]@ == q);
                            lemma_index_in(self.keys@, q, j);
                        }
                    };
                    assert(self@ =~= old_view.insert(kv, v));
                }
            },
        }
    }

    /// Takes out the value under `k`, if any.
    pub fn remove(&mut self, k: &String) -> (r: Option<V>)
        requires
            old(self).wf(),
        ensures
            final(self).wf(),
            final(self)@ == old(self)@.remove(k@),
            r is Some == old(self)@.contains_key(k@),
            r matches Some(v) ==> v == old(self)@[k@],
    {
        let ghost old_keys = self.keys@;
        let ghost old_vals = self.vals@;
        let ghost old_view = self@;
        match self.find(k) {
            Some(i) => {
                proof {
                    lemma_index_in(old_keys, k@, i as int);
                }
                let _ = self.keys.remove(i);
                let v = self.vals.remove(i);
                proof {
                    let kv = k@;
                    assert forall|a: int, b: int| 0 <= a < self.keys@.len() && 0 <= b < self.keys@.len() && a != b
                        implies self.keys@[a]@ != self.keys@[b]@ by {
                        let a0 = if a < i { a } else { a + 1 };
                        let b0 = if b < i { b } else { b + 1 };
                        assert(self.keys@[a] == old_keys[a0]);
                        assert(self.keys@[b] == old_keys[b0]);
                    };
                    assert forall|q: Seq<char>| has_key(self.keys@, q) == (has_key(old_keys, q) && q != kv) by {
                        if has_key(old_keys, q) && q != kv {
                            let j = choose|j: int| 0 <= j < old_keys.len() && old_keys[j]@ == q;
                            assert(j != i);
                            let j1 = if j < i { j } else { j - 1 };
                            assert(self.keys@[j1]@ == q);
                        }
                        if has_key(self.keys@, q) {
                            let j = choose|j: int| 0 <= j < self.keys@.len() && self.keys@[j]@ == q;
                            let j0 = if j < i { j } else { j + 1 };
                            assert(old_keys[j0]@ == q);
                            assert(j0 != i);
                        }
                    };
                    assert forall|q: Seq<char>| #[trigger] has_key(self.keys@, q) implies
                        self.vals@[index_in(self.keys@, q)] == old_vals[index_in(old_keys, q)] by {
                        let j = index_in(self.keys@, q);
                        assert(0 <= j < self.keys@.len() && self.keys@[j]@ == q);
                        let j0 = if j < i { j } else { j + 1 };
                        assert(old_keys[j0]@ == q);
                        lemma_index_in(old_keys, q, j0);
                    };
                    assert(self@ =~= old_view.remove(kv));
                }
                Some(v)
            },
            None => {
                assert(self@ =~= old_view.remove(k@));
                None
            },
        }
    }
}

} // verus!
