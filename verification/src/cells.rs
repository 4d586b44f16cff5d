//! A mapping from keys to cells that are made when they are first asked for
//! and never removed, so that the place of a cell stays the same.
//!
//! The entries stand in a list and are found by comparing keys. A hash map
//! would find them by the hash and the `==` of the key, and of neither is
//! anything known where the key is a type of this library; a key is
//! therefore compared by `Key::same_key`, which is proved to compare views.

use vstd::prelude::*;

verus! {

/// A key of a mapping: a value with a view that can be compared with
/// another by their views.
pub trait Key: View + Sized {
    /// Whether two keys have the same view.
    fn same_key(&self, other: &Self) -> (same: bool)
        ensures
            same == (self@ == other@),
    ;
}

/// A mapping from keys to values of `V`. A key that is asked for and has no
/// value yet gets the default value; no entry ever leaves, and each keeps the
/// slot that it was given.
#[derive(Debug)]
pub struct SlotMap<K, V> {
    entries: Vec<(K, V)>,
}

impl<K: Key, V> View for SlotMap<K, V> {
    type V = Seq<(K::V, V)>;

    closed spec fn view(&self) -> Seq<(K::V, V)> {
        self.entries@.map_values(|entry: (K, V)| (entry.0@, entry.1))
    }
}

/// Whether `key` has an entry among `slots`.
pub open spec fn has_key<A, V>(slots: Seq<(A, V)>, key: A) -> bool {
    exists|i: int| 0 <= i < slots.len() && (#[trigger] slots[i]).0 == key
}

/// Whether no key has two entries among `slots`.
pub open spec fn keys_differ<A, V>(slots: Seq<(A, V)>) -> bool {
    forall|i: int, j: int|
        0 <= i < j < slots.len() ==> (#[trigger] slots[i]).0 != (#[trigger] slots[j]).0
}

/// The mapping that the slots stand for: each key with the value in its slot.
pub open spec fn as_map<A, V>(slots: Seq<(A, V)>) -> Map<A, V>
    decreases slots.len(),
{
    if slots.len() == 0 {
        Map::empty()
    } else {
        as_map(slots.drop_last()).insert(slots.last().0, slots.last().1)
    }
}

/// The keys of the mapping are those that have a slot.
pub proof fn lemma_as_map_keys<A, V>(slots: Seq<(A, V)>, key: A)
    ensures
        as_map(slots).dom().contains(key) <==> has_key(slots, key),
    decreases slots.len(),
{
    if slots.len() > 0 {
        let earlier = slots.drop_last();
        lemma_as_map_keys(earlier, key);
        if has_key(earlier, key) {
            let i = choose|i: int| 0 <= i < earlier.len() && (#[trigger] earlier[i]).0 == key;
            assert(slots[i].0 == key);
        }
        if slots.last().0 == key {
            assert(slots[slots.len() - 1].0 == key);
        }
        if has_key(slots, key) {
            let i = choose|i: int| 0 <= i < slots.len() && (#[trigger] slots[i]).0 == key;
            if i < slots.len() - 1 {
                assert(earlier[i].0 == key);
            }
        }
    }
}

/// Where no key has two slots, the mapping gives each key the value in its
/// slot.
pub proof fn lemma_as_map_value<A, V>(slots: Seq<(A, V)>, at: int)
    requires
        keys_differ(slots),
        0 <= at < slots.len(),
    ensures
        as_map(slots).dom().contains(slots[at].0),
        as_map(slots)[slots[at].0] == slots[at].1,
    decreases slots.len(),
{
    let earlier = slots.drop_last();
    if at < slots.len() - 1 {
        assert(keys_differ(earlier)) by {
            assert forall|i: int, j: int| 0 <= i < j < earlier.len() implies (#[trigger] earlier[i]).0
                != (#[trigger] earlier[j]).0 by {
                assert(slots[i].0 != slots[j].0);
            }
        }
        lemma_as_map_value(earlier, at);
        assert(earlier[at] == slots[at]);
        assert(slots[at].0 != slots[slots.len() - 1].0);
    }
}

/// Where no key has two slots, a new value in a slot is a new value for its
/// key, and for no other.
pub proof fn lemma_as_map_update<A, V>(slots: Seq<(A, V)>, at: int, value: V)
    requires
        keys_differ(slots),
        0 <= at < slots.len(),
    ensures
        keys_differ(slots.update(at, (slots[at].0, value))),
        as_map(slots.update(at, (slots[at].0, value))) == as_map(slots).insert(
            slots[at].0,
            value,
        ),
    decreases slots.len(),
{
    let changed = slots.update(at, (slots[at].0, value));
    let earlier = slots.drop_last();
    assert(keys_differ(changed)) by {
        assert forall|i: int, j: int| 0 <= i < j < changed.len() implies (#[trigger] changed[i]).0
            != (#[trigger] changed[j]).0 by {
            assert(slots[i].0 != slots[j].0);
        }
    }
    if at < slots.len() - 1 {
        assert(keys_differ(earlier)) by {
            assert forall|i: int, j: int| 0 <= i < j < earlier.len() implies (#[trigger] earlier[i]).0
                != (#[trigger] earlier[j]).0 by {
                assert(slots[i].0 != slots[j].0);
            }
        }
        lemma_as_map_update(earlier, at, value);
        assert(earlier[at] == slots[at]);
        assert(changed.drop_last() =~= earlier.update(at, (slots[at].0, value)));
        assert(slots[at].0 != slots[slots.len() - 1].0);
        assert(as_map(changed) =~= as_map(slots).insert(slots[at].0, value));
    } else {
        assert(changed.drop_last() =~= earlier);
        assert(as_map(changed) =~= as_map(slots).insert(slots[at].0, value));
    }
}

impl<K: Key, V> Default for SlotMap<K, V> {
    fn default() -> (map: Self)
        ensures
            map.wf(),
            map@.len() == 0,
    {
        SlotMap { entries: Vec::new() }
    }
}

impl<K: Key, V> SlotMap<K, V> {
    /// Whether the mapping is in order: no key has two entries.
    pub open spec fn wf(&self) -> bool {
        keys_differ(self@)
    }

    /// The empty mapping.
    pub fn new() -> (map: Self)
        ensures
            map.wf(),
            map@.len() == 0,
    {
        SlotMap { entries: Vec::new() }
    }

    /// The slot of the entry of `k`, if `k` has one.
    pub fn find(&self, k: &K) -> (slot: Option<usize>)
        ensures
            slot matches Some(at) ==> at < self@.len() && self@[at as int].0 == k@,
            slot is None ==> !has_key(self@, k@),
    {
        let mut i: usize = 0;
        while i < self.entries.len()
            invariant
                i <= self.entries.len(),
                forall|j: int| 0 <= j < i ==> self.entries@[j].0@ != k@,
            decreases self.entries.len() - i,
        {
            if self.entries[i].0.same_key(k) {
                proof {
                    assert(self@[i as int].0 == k@);
                }
                return Some(i);
            }
            i += 1;
        }
        proof {
            assert forall|j: int| 0 <= j < self@.len() implies (#[trigger] self@[j]).0 != k@ by {
                assert(self.entries@[j].0@ != k@);
            }
        }
        None
    }

    /// The slot of the entry of `k`, which is made with the default value of
    /// `V` if `k` has none yet. Every other entry stays as and where it is.
    pub fn get(&mut self, k: K) -> (slot: usize) where V: Default
        requires
            old(self).wf(),
        ensures
            final(self).wf(),
            slot < final(self)@.len(),
            final(self)@[slot as int].0 == k@,
            has_key(old(self)@, k@) ==> final(self)@ == old(self)@,
            !has_key(old(self)@, k@) ==> {
                &&& slot == old(self)@.len()
                &&& final(self)@.len() == old(self)@.len() + 1
                &&& final(self)@.take(slot as int) == old(self)@
                &&& call_ensures(V::default, (), final(self)@[slot as int].1)
            },
    {
        match self.find(&k) {
            Some(slot) => {
                return slot;
            },
            None => {},
        }
        let i = self.entries.len();
        let ghost before = self@;
        let fresh = V::default();
        self.entries.push((k, fresh));
        proof {
            assert(self@ =~= before.push((k@, fresh)));
            assert(self@.take(i as int) =~= before);
        }
        i
    }

    /// The value in `slot`.
    pub fn value(&self, slot: usize) -> (value: &V)
        requires
            slot < self@.len(),
        ensures
            *value == self@[slot as int].1,
    {
        &self.entries[slot].1
    }

    /// Puts `value` in `slot`, in place of what was there.
    pub fn set(&mut self, slot: usize, value: V)
        requires
            old(self).wf(),
            slot < old(self)@.len(),
        ensures
            final(self).wf(),
            final(self)@ == old(self)@.update(slot as int, (old(self)@[slot as int].0, value)),
    {
        let ghost before = self@;
        self.entries[slot].1 = value;
        proof {
            assert(self@ =~= before.update(slot as int, (before[slot as int].0, value)));
            lemma_as_map_update(before, slot as int, value);
        }
    }
}

} // verus!
