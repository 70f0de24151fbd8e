use vstd::prelude::*;
use crate::key::Keyed;

verus! {

/// A keyed store: at most one value per key, looked up by key view.
pub struct Table<K: View, V> {
    entries: Vec<(K, V)>,
    model: Ghost<Map<K::V, V>>,
}

impl<K: Keyed, V> Table<K, V> {
    /// What the table holds: each stored key's view mapped to its value.
    pub closed spec fn view(&self) -> Map<K::V, V> {
        self.model@
    }

    pub closed spec fn key_at(&self, i: int) -> K::V {
        self.entries@[i].0@
    }

    /// Keys are unique, and the entries are exactly what the model holds.
    pub closed spec fn wf(&self) -> bool {
        &&& forall|i: int, j: int|
            0 <= i < j < self.entries@.len() ==> #[trigger] self.key_at(i) != #[trigger] self.key_at(j)
        &&& forall|i: int|
            0 <= i < self.entries@.len() ==> {
                &&& self.model@.contains_key(#[trigger] self.key_at(i))
                &&& self.model@[self.key_at(i)] == self.entries@[i].1
            }
        &&& forall|k: K::V|
            #[trigger] self.model@.contains_key(k) ==> exists|i: int|
                0 <= i < self.entries@.len() && #[trigger] self.key_at(i) == k
    }

    pub fn new() -> (t: Self)
        ensures
            t.wf(),
            t.view() == Map::<K::V, V>::empty(),
    {
        Table { entries: Vec::new(), model: Ghost(Map::empty()) }
    }

    fn find(&self, k: &K) -> (r: Option<usize>)
        requires
            self.wf(),
        ensures
            match r {
                Some(i) => i < self.entries@.len() && self.key_at(i as int) == k@,
                None => !self.view().contains_key(k@),
            },
    {
        let mut i: usize = 0;
        while i < self.entries.len()
            invariant
                i <= self.entries@.len(),
                forall|j: int| 0 <= j < i ==> #[trigger] self.key_at(j) != k@,
            decreases self.entries@.len() - i,
        {
            if self.entries[i].0.same(k) {
                return Some(i);
            }
            i += 1;
        }
        None
    }

    pub fn get(&self, k: &K) -> (r: Option<&V>)
        requires
            self.wf(),
        ensures
            match r {
                Some(v) => self.view().contains_key(k@) && *v == self.view()[k@],
                None => !self.view().contains_key(k@),
            },
    {
        match self.find(k) {
            Some(i) => Some(&self.entries[i].1),
            None => None,
        }
    }

    /// Stores `v` under `k`, replacing what was there.
    pub fn insert(&mut self, k: K, v: V)
        requires
            old(self).wf(),
        ensures
            final(self).wf(),
            final(self).view() == old(self).view().insert(k@, v),
    {
        let ghost kv = k@;
        let ghost old_self = *self;
        let ghost mut pos: int = 0;
        match self.find(&k) {
            Some(i) => {
                self.entries.set(i, (k, v));
                proof { pos = i as int; }
            },
            None => {
                self.entries.push((k, v));
                proof { pos = old_self.entries@.len() as int; }
            },
        }
        self.model = Ghost(self.model@.insert(kv, v));
        assert(self.key_at(pos) == kv);
        assert forall|j: int| 0 <= j < self.entries@.len() && j != pos implies
            #[trigger] self.key_at(j) == old_self.key_at(j) by {}
        assert forall|q: K::V| #[trigger] self.model@.contains_key(q) implies exists|i: int|
            0 <= i < self.entries@.len() && #[trigger] self.key_at(i) == q by {
            if q != kv {
                assert(old_self.model@.contains_key(q));
                let i = choose|i: int| 0 <= i < old_self.entries@.len() && old_self.key_at(i) == q;
                assert(i != pos);
                assert(self.key_at(i) == q);
            }
        }
    }

    /// Drops whatever is stored under `k`.
    pub fn remove(&mut self, k: &K)
        requires
            old(self).wf(),
        ensures
            final(self).wf(),
            final(self).view() == old(self).view().remove(k@),
    {
        let ghost old_self = *self;
        match self.find(k) {
            Some(i) => {
                self.entries.remove(i);
                self.model = Ghost(self.model@.remove(k@));
                assert forall|j: int| 0 <= j < self.entries@.len() implies
                    #[trigger] self.key_at(j) == old_self.key_at(if j < i { j } else { j + 1 }) by {}
                assert forall|q: K::V| #[trigger] self.model@.contains_key(q) implies exists|j: int|
                    0 <= j < self.entries@.len() && #[trigger] self.key_at(j) == q by {
                    assert(old_self.model@.contains_key(q));
                    let j = choose|j: int| 0 <= j < old_self.entries@.len() && old_self.key_at(j) == q;
                    assert(j != i);
                    if j < i {
                        assert(self.key_at(j) == q);
                    } else {
                        assert(self.key_at(j - 1) == q);
                    }
                }
                assert forall|j: int| 0 <= j < self.entries@.len() implies {
                    &&& self.model@.contains_key(#[trigger] self.key_at(j))
                    &&& self.model@[self.key_at(j)] == self.entries@[j].1
                } by {
                    let o = if j < i { j } else { j + 1 };
                    assert(old_self.key_at(o) != old_self.key_at(i as int));
                }
            },
            None => {
                assert(self.model@.remove(k@) =~= self.model@);
            },
        }
    }
}

} // verus!
