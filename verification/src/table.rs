//! A small map that remembers the order in which its keys came.

use crate::grouped::GroupKey;
use vstd::prelude::*;

verus! {

/// Values under distinct keys, which keep the order in which they first came.
pub struct Table<K, V> {
    pub keys: Vec<K>,
    pub values: Vec<V>,
}

/// The keys with one more at the end, where it is not among them.
pub open spec fn with_key<K>(keys: Seq<K>, key: K) -> Seq<K> {
    if keys.contains(key) {
        keys
    } else {
        keys.push(key)
    }
}

impl<K: GroupKey, V> Table<K, V> {
    /// Each key is there once, with its value at the same place.
    pub open spec fn wf(self) -> bool {
        &&& self.keys@.len() == self.values@.len()
        &&& self.keys@.no_duplicates()
    }

    pub open spec fn view(self) -> Map<K, V> {
        Map::new(
            |key: K| self.keys@.contains(key),
            |key: K| self.values@[self.keys@.index_of(key)],
        )
    }

    proof fn lemma_value_at(self, place: int)
        requires
            self.wf(),
            0 <= place < self.keys@.len(),
        ensures
            self@.dom().contains(self.keys@[place]),
            self@[self.keys@[place]] == self.values@[place],
    {
        let key = self.keys@[place];
        assert(self.keys@.contains(key));
        assert(self.keys@[self.keys@.index_of(key)] == key);
    }

    pub fn new() -> (r: Self)
        ensures
            r.wf(),
            r.keys@ == Seq::<K>::empty(),
            r@ == Map::<K, V>::empty(),
    {
        let r = Table { keys: Vec::new(), values: Vec::new() };
        assert(r@ =~= Map::<K, V>::empty());
        r
    }

    fn place(&self, key: &K) -> (r: Option<usize>)
        requires
            self.wf(),
        ensures
            match r {
                Some(place) => place < self.keys@.len() && self.keys@[place as int] == *key,
                None => !self.keys@.contains(*key),
            },
    {
        let mut i: usize = 0;
        while i < self.keys.len()
            invariant
                i <= self.keys@.len(),
                forall|j: int| 0 <= j < i ==> self.keys@[j] != *key,
            decreases self.keys@.len() - i,
        {
            if self.keys[i].same(key) {
                return Some(i);
            }
            i = i + 1;
        }
        None
    }

    /// There is a value under a key.
    pub fn contains(&self, key: &K) -> (r: bool)
        requires
            self.wf(),
        ensures
            r == self@.dom().contains(*key),
            r == self.keys@.contains(*key),
    {
        match self.place(key) {
            Some(place) => {
                proof {
                    self.lemma_value_at(place as int);
                }
                true
            },
            None => false,
        }
    }

    /// The value under a key.
    pub fn get(&self, key: &K) -> (r: Option<&V>)
        requires
            self.wf(),
        ensures
            match r {
                Some(value) => self@.dom().contains(*key) && self@[*key] == *value,
                None => !self@.dom().contains(*key),
            },
    {
        match self.place(key) {
            Some(place) => {
                proof {
                    self.lemma_value_at(place as int);
                }
                Some(&self.values[place])
            },
            None => None,
        }
    }

    /// The value under a key, to be changed.
    pub fn get_mut(&mut self, key: &K) -> (r: Option<&mut V>)
        requires
            old(self).wf(),
        ensures
            final(self).wf(),
            final(self).keys@ == old(self).keys@,
            match r {
                Some(value) => {
                    &&& old(self)@.dom().contains(*key)
                    &&& *value == old(self)@[*key]
                    &&& final(self)@ == old(self)@.insert(*key, *final(value))
                },
                None => !old(self)@.dom().contains(*key) && final(self)@ == old(self)@,
            },
    {
        match self.place(key) {
            Some(place) => {
                proof {
                    self.lemma_value_at(place as int);
                }
                Some(&mut self.values[place])
            },
            None => None,
        }
    }

    /// Puts a value under a key, in place of the one that was there.
    pub fn insert(&mut self, key: K, value: V)
        requires
            old(self).wf(),
        ensures
            final(self).wf(),
            final(self).keys@ == with_key(old(self).keys@, key),
            final(self)@ == old(self)@.insert(key, value),
    {
        match self.place(&key) {
            Some(place) => {
                self.values.set(place, value);
                proof {
                    self.lemma_value_at(place as int);
                    assert(self.keys@.contains(key));
                    assert forall|k: K| #[trigger] self.keys@.contains(k) && k != key implies
                    self@[k] == old(self)@[k] by {
                        assert(self.keys@[self.keys@.index_of(k)] == k);
                    }
                    assert(self@ =~= old(self)@.insert(key, value));
                }
            },
            None => {
                self.keys.push(key);
                self.values.push(value);
                proof {
                    let n = old(self).keys@.len() as int;
                    self.lemma_value_at(n);
                    assert forall|k: K| k != key implies self.keys@.contains(k) == old(
                        self,
                    ).keys@.contains(k) by {
                        if old(self).keys@.contains(k) {
                            assert(self.keys@[old(self).keys@.index_of(k)] == k);
                        }
                    }
                    assert forall|k: K| #[trigger] old(self).keys@.contains(k) implies self@[k]
                        == old(self)@[k] by {
                        let at = old(self).keys@.index_of(k);
                        assert(self.keys@[at] == k);
                        self.lemma_value_at(at);
                    }
                    assert(self@ =~= old(self)@.insert(key, value));
                }
            },
        }
    }

    /// Takes out the value under a key.
    pub fn remove(&mut self, key: &K) -> (r: Option<V>)
        requires
            old(self).wf(),
        ensures
            final(self).wf(),
            final(self).keys@ == old(self).keys@.remove_value(*key),
            final(self)@ == old(self)@.remove(*key),
            r == (if old(self)@.dom().contains(*key) {
                Some(old(self)@[*key])
            } else {
                None
            }),
    {
        match self.place(key) {
            Some(place) => {
                let _ = self.keys.remove(place);
                let value = self.values.remove(place);
                proof {
                    let before = old(self).keys@;
                    old(self).lemma_value_at(place as int);
                    before.index_of_first_ensures(*key);
                    assert(before.remove_value(*key) == before.remove(place as int));
                    assert forall|k: K| k != *key implies self.keys@.contains(k)
                        == before.contains(k) by {
                        if before.contains(k) {
                            let at = before.index_of(k);
                            assert(self.keys@[if at < place { at } else { at - 1 }] == k);
                        }
                    }
                    assert(!self.keys@.contains(*key));
                    assert forall|k: K| #[trigger] self.keys@.contains(k) implies self@[k] == old(
                        self,
                    )@[k] by {
                        let at = self.keys@.index_of(k);
                        self.lemma_value_at(at);
                        old(self).lemma_value_at(if at < place { at } else { at + 1 });
                    }
                    assert(self@ =~= old(self)@.remove(*key));
                }
                Some(value)
            },
            None => {
                proof {
                    assert(self@ =~= old(self)@.remove(*key));
                    assert(self.keys@.index_of_first(*key) is None) by {
                        self.keys@.index_of_first_ensures(*key);
                    }
                }
                None
            },
        }
    }
}

/// The same items again.
pub fn copied<T: Copy>(items: &Vec<T>) -> (r: Vec<T>)
    ensures
        r@ == items@,
{
    let mut r: Vec<T> = Vec::new();
    let mut i: usize = 0;
    while i < items.len()
        invariant
            i <= items@.len(),
            r@ == items@.take(i as int),
        decreases items@.len() - i,
    {
        r.push(items[i]);
        i = i + 1;
        assert(r@ =~= items@.take(i as int));
    }
    assert(r@ =~= items@);
    r
}

impl<K: GroupKey + Copy, V: Copy> Table<K, V> {
    /// The same table again.
    pub fn duplicate(&self) -> (r: Self)
        requires
            self.wf(),
        ensures
            r.wf(),
            r.keys@ == self.keys@,
            r@ == self@,
    {
        let r = Table { keys: copied(&self.keys), values: copied(&self.values) };
        assert(r@ =~= self@);
        r
    }
}

} // verus!
