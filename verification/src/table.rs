//! An insertion-ordered lookup table.
//!
//! Every repository of the protocol (positions, per-asset settings, account
//! flags, proposals, backups) is a `Table`: a pair of parallel vectors in
//! which no key identifier occurs twice. Its view is the finite map from key
//! identifiers to stored values, and every operation is specified on that map.

use vstd::prelude::*;

verus! {

/// A value that can serve as a lookup key. Two keys address the same entry
/// exactly when their identifiers agree.
pub trait Keyed: Sized {
    type Id;

    /// The mathematical identity of the key.
    spec fn id(&self) -> Self::Id;

    /// Decides whether two keys have the same identifier.
    fn same_key(&self, other: &Self) -> (r: bool)
        ensures
            r == (self.id() == other.id()),
    ;
}

impl Keyed for String {
    type Id = Seq<char>;

    open spec fn id(&self) -> Seq<char> {
        self@
    }

    fn same_key(&self, other: &Self) -> (r: bool) {
        *self == *other
    }
}

impl Keyed for u32 {
    type Id = u32;

    open spec fn id(&self) -> u32 {
        *self
    }

    fn same_key(&self, other: &Self) -> (r: bool) {
        *self == *other
    }
}

/// Keys and values in insertion order; `keys[i]` addresses `values[i]`.
pub struct Table<K: Keyed, V> {
    pub keys: Vec<K>,
    pub values: Vec<V>,
}

impl<K: Keyed, V> Table<K, V> {
    /// Both vectors have the same length and no identifier occurs twice.
    pub open spec fn wf(&self) -> bool {
        &&& self.keys@.len() == self.values@.len()
        &&& forall|i: int, j: int|
            0 <= i < j < self.keys@.len() ==> self.keys@[i].id() != self.keys@[j].id()
    }

    /// Some stored key has identifier `id`.
    pub open spec fn has(&self, id: K::Id) -> bool {
        exists|i: int| 0 <= i < self.keys@.len() && #[trigger] self.keys@[i].id() == id
    }

    /// The position at which `id` is stored, when it is stored at all.
    pub open spec fn slot(&self, id: K::Id) -> int {
        choose|i: int| 0 <= i < self.keys@.len() && #[trigger] self.keys@[i].id() == id
    }

    /// The table as a finite map from identifiers to values.
    pub open spec fn view(&self) -> Map<K::Id, V> {
        Map::new(|id: K::Id| self.has(id), |id: K::Id| self.values@[self.slot(id)])
    }

    /// In a well-formed table the entry at position `i` is the one the map
    /// holds for the identifier of `keys[i]`.
    pub proof fn lemma_entry(&self, i: int)
        requires
            self.wf(),
            0 <= i < self.keys@.len(),
        ensures
            self@.contains_key(self.keys@[i].id()),
            self@[self.keys@[i].id()] == self.values@[i],
    {
        let id = self.keys@[i].id();
        let s = self.slot(id);
        assert(self.keys@[s].id() == id);
        assert(s == i);
    }

    /// An empty table.
    pub fn new() -> (r: Self)
        ensures
            r.wf(),
            r@ == Map::<K::Id, V>::empty(),
            r.keys@.len() == 0,
    {
        let r = Table { keys: Vec::new(), values: Vec::new() };
        assert(r@ =~= Map::<K::Id, V>::empty());
        r
    }

    /// Number of stored entries.
    pub fn len(&self) -> (r: usize)
        requires
            self.wf(),
        ensures
            r == self.keys@.len(),
            r == self.values@.len(),
    {
        self.keys.len()
    }

    /// Position of the entry for `key`, if there is one.
    pub fn find(&self, key: &K) -> (r: Option<usize>)
        requires
            self.wf(),
        ensures
            r is Some <==> self@.contains_key(key.id()),
            r is Some ==> r.unwrap() < self.keys@.len() && self.keys@[r.unwrap() as int].id()
                == key.id() && self@[key.id()] == self.values@[r.unwrap() as int],
    {
        let mut i: usize = 0;
        while i < self.keys.len()
            invariant
                self.wf(),
                0 <= i <= self.keys@.len(),
                forall|j: int| 0 <= j < i ==> self.keys@[j].id() != key.id(),
            decreases self.keys@.len() - i,
        {
            if self.keys[i].same_key(key) {
                proof {
                    self.lemma_entry(i as int);
                }
                return Some(i);
            }
            i += 1;
        }
        None
    }

    /// Whether there is an entry for `key`.
    pub fn contains_key(&self, key: &K) -> (r: bool)
        requires
            self.wf(),
        ensures
            r == self@.contains_key(key.id()),
    {
        self.find(key).is_some()
    }

    /// The value stored for `key`, if there is one.
    pub fn get(&self, key: &K) -> (r: Option<&V>)
        requires
            self.wf(),
        ensures
            r == (if self@.contains_key(key.id()) {
                Some(&self@[key.id()])
            } else {
                None
            }),
    {
        match self.find(key) {
            Some(i) => Some(&self.values[i]),
            None => None,
        }
    }

    /// Stores `value` for `key`, replacing what was stored for it before. A
    /// new key goes to the end; a known key keeps its place.
    pub fn insert(&mut self, key: K, value: V)
        requires
            old(self).wf(),
        ensures
            final(self).wf(),
            final(self)@ == old(self)@.insert(key.id(), value),
            final(self).keys@.len() == old(self).keys@.len() + (if old(self)@.contains_key(
                key.id(),
            ) {
                0int
            } else {
                1int
            }),
    {
        match self.find(&key) {
            Some(i) => {
                self.values.set(i, value);
                assert(self.keys@ == old(self).keys@);
                assert forall|id: K::Id| #[trigger] self.has(id) <==> old(self).has(id) by {
                    if old(self).has(id) {
                        let s = old(self).slot(id);
                        assert(self.keys@[s].id() == id);
                    }
                    if self.has(id) {
                        let s = self.slot(id);
                        assert(old(self).keys@[s].id() == id);
                    }
                }
                assert forall|id: K::Id| self.has(id) implies #[trigger] self@[id] == old(
                    self,
                )@.insert(key.id(), value)[id] by {
                    let s = self.slot(id);
                    assert(old(self).keys@[s].id() == id);
                    let t = old(self).slot(id);
                    assert(old(self).keys@[t].id() == id);
                    assert(s == t);
                    if id == key.id() {
                        assert(s == i as int);
                    }
                }
                assert(self@ =~= old(self)@.insert(key.id(), value));
            },
            None => {
                let ghost n = self.keys@.len() as int;
                self.keys.push(key);
                self.values.push(value);
                assert(self.keys@[n].id() == key.id());
                assert forall|id: K::Id| #[trigger]
                    self.has(id) <==> (old(self).has(id) || id == key.id()) by {
                    if old(self).has(id) {
                        let s = old(self).slot(id);
                        assert(self.keys@[s].id() == id);
                    }
                    if self.has(id) {
                        let s = self.slot(id);
                        if s < n {
                            assert(old(self).keys@[s].id() == id);
                        }
                    }
                }
                assert forall|id: K::Id| self.has(id) implies #[trigger] self@[id] == old(
                    self,
                )@.insert(key.id(), value)[id] by {
                    let s = self.slot(id);
                    if s < n {
                        assert(old(self).keys@[s].id() == id);
                        assert(old(self).slot(id) == s);
                    }
                }
                assert(self@ =~= old(self)@.insert(key.id(), value));
            },
        }
    }

    /// Takes the entry for `key` out of the table and returns its value. The
    /// entries behind it move up by one place.
    pub fn remove(&mut self, key: &K) -> (r: Option<V>)
        requires
            old(self).wf(),
        ensures
            final(self).wf(),
            final(self)@ == old(self)@.remove(key.id()),
            r == (if old(self)@.contains_key(key.id()) {
                Some(old(self)@[key.id()])
            } else {
                None
            }),
    {
        match self.find(key) {
            Some(i) => {
                let ghost n = self.keys@.len() as int;
                let _k = self.keys.remove(i);
                let v = self.values.remove(i);
                assert forall|a: int, b: int| 0 <= a < b < self.keys@.len() implies self.keys@[a].id()
                    != self.keys@[b].id() by {
                    let a0 = if a < i { a } else { a + 1 };
                    let b0 = if b < i { b } else { b + 1 };
                    assert(self.keys@[a] == old(self).keys@[a0]);
                    assert(self.keys@[b] == old(self).keys@[b0]);
                }
                assert forall|id: K::Id| #[trigger]
                    self.has(id) <==> (old(self).has(id) && id != key.id()) by {
                    if old(self).has(id) && id != key.id() {
                        let s = old(self).slot(id);
                        let s1 = if s < i { s } else { s - 1 };
                        assert(self.keys@[s1] == old(self).keys@[s]);
                        assert(self.keys@[s1].id() == id);
                    }
                    if self.has(id) {
                        let s = self.slot(id);
                        let s0 = if s < i { s } else { s + 1 };
                        assert(self.keys@[s] == old(self).keys@[s0]);
                        assert(old(self).keys@[s0].id() == id);
                    }
                }
                assert forall|id: K::Id| self.has(id) implies #[trigger] self@[id] == old(
                    self,
                )@.remove(key.id())[id] by {
                    let s = self.slot(id);
                    let s0 = if s < i { s } else { s + 1 };
                    assert(self.keys@[s] == old(self).keys@[s0]);
                    assert(old(self).keys@[s0].id() == id);
                    assert(old(self).slot(id) == s0);
                    assert(self.values@[s] == old(self).values@[s0]);
                }
                assert(self@ =~= old(self)@.remove(key.id()));
                Some(v)
            },
            None => {
                assert(self@ =~= old(self)@.remove(key.id()));
                None
            },
        }
    }
}

} // verus!
