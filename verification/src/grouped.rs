//! Values collected in groups, each under its own key.

use crate::internal_types::TextureSource;
use crate::units::DeviceIntRect;
use vstd::prelude::*;

verus! {

/// What values can be grouped by.
pub trait GroupKey: Sized {
    fn same(&self, other: &Self) -> (r: bool)
        ensures
            r == (*self == *other),
    ;
}

impl GroupKey for TextureSource {
    fn same(&self, other: &Self) -> (r: bool) {
        *self == *other
    }
}

impl GroupKey for DeviceIntRect {
    fn same(&self, other: &Self) -> (r: bool) {
        *self == *other
    }
}

/// The place of the group with a key, or the number of groups where there is none.
pub open spec fn group_place<K, V>(groups: Seq<(K, Seq<V>)>, key: K) -> int
    decreases groups.len(),
{
    if groups.len() == 0 {
        0
    } else {
        let place = group_place(groups.drop_last(), key);
        if place < groups.len() - 1 || groups.last().0 == key {
            place
        } else {
            groups.len() as int
        }
    }
}

/// The values under a key, in the order in which they were added.
pub open spec fn group_values<K, V>(groups: Seq<(K, Seq<V>)>, key: K) -> Seq<V> {
    let place = group_place(groups, key);
    if place < groups.len() {
        groups[place].1
    } else {
        Seq::empty()
    }
}

/// The groups with one more value.
pub open spec fn with_value<K, V>(groups: Seq<(K, Seq<V>)>, key: K, value: V) -> Seq<
    (K, Seq<V>),
> {
    let place = group_place(groups, key);
    if place < groups.len() {
        groups.update(place, (groups[place].0, groups[place].1.push(value)))
    } else {
        groups.push((key, seq![value]))
    }
}

/// The groups with several more values under one key.
pub open spec fn with_values<K, V>(groups: Seq<(K, Seq<V>)>, key: K, values: Seq<V>) -> Seq<
    (K, Seq<V>),
>
    decreases values.len(),
{
    if values.len() == 0 {
        groups
    } else {
        with_value(with_values(groups, key, values.drop_last()), key, values.last())
    }
}

/// No two groups have the same key.
pub open spec fn distinct_keys<K, V>(groups: Seq<(K, Seq<V>)>) -> bool {
    forall|i: int, j: int|
        0 <= i < j < groups.len() ==> (#[trigger] groups[i]).0 != (#[trigger] groups[j]).0
}

/// The place of a group is that of the first group with its key.
pub proof fn lemma_group_place<K, V>(groups: Seq<(K, Seq<V>)>, key: K)
    ensures
        0 <= group_place(groups, key) <= groups.len(),
        group_place(groups, key) < groups.len() ==> groups[group_place(groups, key)].0 == key,
        forall|i: int|
            0 <= i < group_place(groups, key) ==> (#[trigger] groups[i]).0 != key,
    decreases groups.len(),
{
    if groups.len() > 0 {
        lemma_group_place(groups.drop_last(), key);
        let place = group_place(groups.drop_last(), key);
        assert forall|i: int| 0 <= i < group_place(groups, key) implies (
        #[trigger] groups[i]).0 != key by {
            if i < groups.len() - 1 {
                assert(groups[i] == groups.drop_last()[i]);
            }
        }
        if place < groups.len() - 1 {
            assert(groups[place] == groups.drop_last()[place]);
        }
    }
}

/// A value that was added is the last under its key, the values under every other key
/// stay as they were, and the keys stay distinct.
pub proof fn adding_keeps_other_groups<K, V>(
    groups: Seq<(K, Seq<V>)>,
    key: K,
    value: V,
    other: K,
)
    requires
        distinct_keys(groups),
    ensures
        distinct_keys(with_value(groups, key, value)),
        group_values(with_value(groups, key, value), key) == group_values(groups, key).push(value),
        other != key ==> group_values(with_value(groups, key, value), other) == group_values(
            groups,
            other,
        ),
{
    let after = with_value(groups, key, value);
    lemma_group_place(groups, key);
    lemma_group_place(groups, other);
    lemma_group_place(after, key);
    lemma_group_place(after, other);
    let p = group_place(groups, key);
    assert(after[p].0 == key);
    assert(group_place(after, key) == p);
    assert(group_values(after, key) =~= group_values(groups, key).push(value));
    if other != key {
        let q = group_place(groups, other);
        let r = group_place(after, other);
        if q < groups.len() {
            assert(after[q].0 == other);
            assert(r <= q);
            assert(after[r].0 == other);
            if r < q {
                assert(groups[r].0 == other);
            }
        } else if r < after.len() {
            assert(after[r].0 == other);
            if r < groups.len() {
                assert(groups[r].0 == other);
            }
        }
    }
    assert forall|i: int, j: int| 0 <= i < j < after.len() implies (#[trigger] after[i]).0 != (
    #[trigger] after[j]).0 by {
        if j < groups.len() {
            assert(groups[i].0 != groups[j].0);
        } else {
            assert(groups[i].0 != key);
        }
    }
}

/// Values in groups, in the order in which the groups were begun.
pub struct Grouped<K, V> {
    pub groups: Vec<(K, Vec<V>)>,
}

impl<K, V> Grouped<K, V> {
    pub open spec fn view(self) -> Seq<(K, Seq<V>)> {
        self.groups@.map_values(|g: (K, Vec<V>)| (g.0, g.1@))
    }

    pub open spec fn wf(self) -> bool {
        distinct_keys(self@)
    }

    pub fn new() -> (r: Self)
        ensures
            r@ == Seq::<(K, Seq<V>)>::empty(),
            r.wf(),
    {
        let r = Grouped { groups: Vec::new() };
        assert(r@ =~= Seq::<(K, Seq<V>)>::empty());
        r
    }

    /// There is no value under any key.
    pub fn is_empty(&self) -> (r: bool)
        ensures
            r == (self@.len() == 0),
    {
        self.groups.len() == 0
    }
}

impl<K: GroupKey, V> Grouped<K, V> {
    fn place(&self, key: &K) -> (r: usize)
        ensures
            r == group_place(self@, *key),
    {
        let mut i: usize = 0;
        assert(self@.take(0) =~= Seq::<(K, Seq<V>)>::empty());
        while i < self.groups.len()
            invariant
                i <= self.groups@.len(),
                group_place(self@.take(i as int), *key) == i,
            decreases self.groups@.len() - i,
        {
            let ghost next = self@.take(i as int + 1);
            assert(next.drop_last() =~= self@.take(i as int));
            assert(next.last() == self@[i as int]);
            if self.groups[i].0.same(key) {
                proof {
                    lemma_group_place(next, *key);
                    lemma_group_place(self@, *key);
                    let p = group_place(self@, *key);
                    assert(self@[i as int].0 == *key);
                    if p < i {
                        assert(next[p].0 == self@[p].0);
                    }
                }
                return i;
            }
            i = i + 1;
        }
        assert(self@.take(i as int) =~= self@);
        i
    }

    /// Adds a value at the end of the group with the key.
    pub fn insert(&mut self, key: K, value: V)
        ensures
            final(self)@ == with_value(old(self)@, key, value),
            old(self).wf() ==> final(self).wf(),
    {
        let place = self.place(&key);
        proof {
            lemma_group_place(self@, key);
            if self.wf() {
                adding_keeps_other_groups(self@, key, value, key);
            }
        }
        if place < self.groups.len() {
            self.groups[place].1.push(value);
        } else {
            let mut values: Vec<V> = Vec::new();
            values.push(value);
            assert(values@ =~= seq![value]);
            self.groups.push((key, values));
        }
        assert(self@ =~= with_value(old(self)@, key, value));
    }
}

} // verus!
