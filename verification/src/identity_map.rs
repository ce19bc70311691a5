//! A finite map keyed by identity, kept as a list of entries in which no
//! key occurs twice.

use crate::principal::{list_contains, Principal};
use vstd::prelude::*;

verus! {

/// No identity is the key of two entries.
pub open spec fn keys_distinct<V>(entries: Seq<(Principal, V)>) -> bool {
    forall|i: int, j: int|
        0 <= i < j < entries.len() ==> (#[trigger] entries[i]).0 != (#[trigger] entries[j]).0
}

/// Some entry has the key `key`.
pub open spec fn has_key<V>(entries: Seq<(Principal, V)>, key: Principal) -> bool {
    exists|i: int| 0 <= i < entries.len() && (#[trigger] entries[i]).0 == key
}

/// The map that a list of entries stands for. Where a key occurs more than
/// once, one of its entries is taken.
pub open spec fn map_of<V>(entries: Seq<(Principal, V)>) -> Map<Principal, V> {
    Map::new(
        |k: Principal| has_key(entries, k),
        |k: Principal|
            entries[choose|i: int| 0 <= i < entries.len() && (#[trigger] entries[i]).0 == k].1,
    )
}

/// In a list with distinct keys every entry is the one its key maps to.
pub proof fn lemma_map_of_entry<V>(entries: Seq<(Principal, V)>, i: int)
    requires
        keys_distinct(entries),
        0 <= i < entries.len(),
    ensures
        map_of(entries).contains_key(entries[i].0),
        map_of(entries)[entries[i].0] == entries[i].1,
{
    let k = entries[i].0;
    let j = choose|j: int| 0 <= j < entries.len() && (#[trigger] entries[j]).0 == k;
    assert(j == i);
}

/// A map from identities to values of type `V`.
pub struct IdentityMap<V> {
    entries: Vec<(Principal, V)>,
}

impl<V> View for IdentityMap<V> {
    type V = Map<Principal, V>;

    closed spec fn view(&self) -> Map<Principal, V> {
        map_of(self.entries@)
    }
}

impl<V: Copy> IdentityMap<V> {
    /// The invariant of the representation: no key is stored twice.
    pub closed spec fn wf(&self) -> bool {
        keys_distinct(self.entries@)
    }

    /// The empty map.
    pub fn new() -> (m: Self)
        ensures
            m.wf(),
            m@ == Map::<Principal, V>::empty(),
    {
        let m = IdentityMap { entries: Vec::new() };
        assert(m@ =~= Map::<Principal, V>::empty());
        m
    }

    fn position(&self, key: &Principal) -> (r: Option<usize>)
        ensures
            match r {
                Some(i) => i < self.entries@.len() && self.entries@[i as int].0 == *key,
                None => !has_key(self.entries@, *key),
            },
    {
        let mut i: usize = 0;
        while i < self.entries.len()
            invariant
                0 <= i <= self.entries@.len(),
                forall|j: int| 0 <= j < i ==> (#[trigger] self.entries@[j]).0 != *key,
            decreases self.entries@.len() - i,
        {
            if self.entries[i].0.same(key) {
                return Some(i);
            }
            i = i + 1;
        }
        None
    }

    /// Whether `key` has a value.
    pub fn contains_key(&self, key: &Principal) -> (r: bool)
        requires
            self.wf(),
        ensures
            r == self@.contains_key(*key),
    {
        self.position(key).is_some()
    }

    /// The value of `key`, if it has one.
    pub fn get(&self, key: &Principal) -> (r: Option<V>)
        requires
            self.wf(),
        ensures
            r == (if self@.contains_key(*key) {
                Some(self@[*key])
            } else {
                None
            }),
    {
        match self.position(key) {
            Some(i) => {
                proof {
                    lemma_map_of_entry(self.entries@, i as int);
                }
                Some(self.entries[i].1)
            },
            None => None,
        }
    }

    /// Maps `key` to `value`, replacing the value it had.
    pub fn insert(&mut self, key: Principal, value: V)
        requires
            old(self).wf(),
        ensures
            final(self).wf(),
            final(self)@ == old(self)@.insert(key, value),
    {
        let found = self.position(&key);
        match found {
            Some(i) => {
                self.entries.set(i, (key, value));
            },
            None => {
                self.entries.push((key, value));
            },
        }
        proof {
            let before = old(self).entries@;
            let after = self.entries@;
            assert(keys_distinct(after));
            let stored = match found {
                Some(i) => i as int,
                None => after.len() - 1,
            };
            assert(after[stored] == (key, value));
            assert forall|k: Principal|
                map_of(after).contains_key(k) <==> map_of(before).insert(key, value).contains_key(
                    k,
                ) by {
                if has_key(after, k) && k != key {
                    let j = choose|j: int| 0 <= j < after.len() && (#[trigger] after[j]).0 == k;
                    assert(before[j].0 == k);
                }
                if has_key(before, k) {
                    let j = choose|j: int| 0 <= j < before.len() && (#[trigger] before[j]).0 == k;
                    assert(after[j].0 == k);
                }
            }
            assert forall|k: Principal| map_of(after).contains_key(k) implies map_of(after)[k]
                == map_of(before).insert(key, value)[k] by {
                let j = choose|j: int| 0 <= j < after.len() && (#[trigger] after[j]).0 == k;
                lemma_map_of_entry(after, j);
                if k != key {
                    assert(before[j].0 == k);
                    lemma_map_of_entry(before, j);
                }
            }
            assert(map_of(after) =~= map_of(before).insert(key, value));
        }
    }

    /// Takes `key` out of the map and returns the value it had.
    pub fn remove(&mut self, key: &Principal) -> (r: Option<V>)
        requires
            old(self).wf(),
        ensures
            final(self).wf(),
            final(self)@ == old(self)@.remove(*key),
            r == (if old(self)@.contains_key(*key) {
                Some(old(self)@[*key])
            } else {
                None
            }),
    {
        match self.position(key) {
            Some(i) => {
                proof {
                    lemma_map_of_entry(self.entries@, i as int);
                }
                let entry = self.entries.remove(i);
                proof {
                    let before = old(self).entries@;
                    let after = self.entries@;
                    assert forall|a: int, b: int| 0 <= a < b < after.len() implies (
                    #[trigger] after[a]).0 != (#[trigger] after[b]).0 by {
                        let a0 = if a < i { a } else { a + 1 };
                        let b0 = if b < i { b } else { b + 1 };
                        assert(after[a] == before[a0]);
                        assert(after[b] == before[b0]);
                    }
                    assert forall|k: Principal|
                        map_of(after).contains_key(k) <==> map_of(before).remove(
                            *key,
                        ).contains_key(k) by {
                        if has_key(after, k) {
                            let j = choose|j: int| 0 <= j < after.len() && (#[trigger] after[j]).0 == k;
                            let j0 = if j < i { j } else { j + 1 };
                            assert(before[j0].0 == k);
                        }
                        if has_key(before, k) && k != *key {
                            let j = choose|j: int| 0 <= j < before.len() && (#[trigger] before[j]).0 == k;
                            let j1 = if j < i { j } else { j - 1 };
                            assert(after[j1].0 == k);
                        }
                    }
                    assert forall|k: Principal|
                        map_of(after).contains_key(k) implies map_of(after)[k] == map_of(
                            before,
                        ).remove(*key)[k] by {
                        let j = choose|j: int| 0 <= j < after.len() && (#[trigger] after[j]).0 == k;
                        let j0 = if j < i { j } else { j + 1 };
                        assert(before[j0] == after[j]);
                        lemma_map_of_entry(after, j);
                        lemma_map_of_entry(before, j0);
                    }
                    assert(map_of(after) =~= map_of(before).remove(*key));
                }
                Some(entry.1)
            },
            None => {
                assert(self@ =~= old(self)@.remove(*key));
                None
            },
        }
    }

    /// The entries of the map, each key once.
    pub fn to_entries(&self) -> (entries: Vec<(Principal, V)>)
        requires
            self.wf(),
        ensures
            keys_distinct(entries@),
            map_of(entries@) == self@,
    {
        let mut out: Vec<(Principal, V)> = Vec::new();
        let mut i: usize = 0;
        while i < self.entries.len()
            invariant
                0 <= i <= self.entries@.len(),
                out@ == self.entries@.take(i as int),
            decreases self.entries@.len() - i,
        {
            out.push(self.entries[i]);
            assert(self.entries@.take(i + 1) =~= self.entries@.take(i as int).push(
                self.entries@[i as int],
            ));
            i = i + 1;
        }
        assert(out@ =~= self.entries@);
        out
    }

    /// Builds the map that `entries` stands for; `None` where a key occurs
    /// twice.
    pub fn from_entries(entries: Vec<(Principal, V)>) -> (r: Option<Self>)
        ensures
            r.is_some() == keys_distinct(entries@),
            r matches Some(m) ==> m.wf() && m@ == map_of(entries@),
    {
        if distinct_keys(&entries) {
            Some(IdentityMap { entries })
        } else {
            None
        }
    }
}

/// Decides whether no key occurs twice in `entries`.
pub fn distinct_keys<V>(entries: &Vec<(Principal, V)>) -> (r: bool)
    ensures
        r == keys_distinct(entries@),
{
    let mut i: usize = 0;
    while i < entries.len()
        invariant
            0 <= i <= entries@.len(),
            forall|a: int, b: int|
                0 <= a < b < i ==> (#[trigger] entries@[a]).0 != (#[trigger] entries@[b]).0,
        decreases entries@.len() - i,
    {
        let mut j: usize = 0;
        while j < i
            invariant
                0 <= j <= i < entries@.len(),
                forall|a: int| 0 <= a < j ==> (#[trigger] entries@[a]).0 != entries@[i as int].0,
            decreases i - j,
        {
            if entries[j].0.same(&entries[i].0) {
                return false;
            }
            j = j + 1;
        }
        i = i + 1;
    }
    true
}

impl IdentityMap<Principal> {
    /// Whether some key maps to `value`.
    pub fn contains_value(&self, value: &Principal) -> (r: bool)
        requires
            self.wf(),
        ensures
            r == self@.contains_value(*value),
    {
        let mut i: usize = 0;
        while i < self.entries.len()
            invariant
                self.wf(),
                0 <= i <= self.entries@.len(),
                forall|j: int| 0 <= j < i ==> (#[trigger] self.entries@[j]).1 != *value,
            decreases self.entries@.len() - i,
        {
            if self.entries[i].1.same(value) {
                proof {
                    lemma_map_of_entry(self.entries@, i as int);
                    assert(self@.dom().contains(self.entries@[i as int].0));
                }
                return true;
            }
            i = i + 1;
        }
        proof {
            assert forall|k: Principal| #[trigger] self@.dom().contains(k) implies self@[k] != *value by {
                let j = choose|j: int|
                    0 <= j < self.entries@.len() && (#[trigger] self.entries@[j]).0 == k;
                lemma_map_of_entry(self.entries@, j);
            }
        }
        false
    }

    /// Whether every value of the map occurs in `list`.
    pub fn values_all_in(&self, list: &Vec<Principal>) -> (r: bool)
        requires
            self.wf(),
        ensures
            r == forall|k: Principal| #[trigger]
                self@.contains_key(k) ==> list@.contains(self@[k]),
    {
        let mut i: usize = 0;
        while i < self.entries.len()
            invariant
                self.wf(),
                0 <= i <= self.entries@.len(),
                forall|j: int| 0 <= j < i ==> list@.contains((#[trigger] self.entries@[j]).1),
            decreases self.entries@.len() - i,
        {
            if !list_contains(list, &self.entries[i].1) {
                proof {
                    lemma_map_of_entry(self.entries@, i as int);
                    assert(self@.contains_key(self.entries@[i as int].0));
                }
                return false;
            }
            i = i + 1;
        }
        proof {
            assert forall|k: Principal| #[trigger] self@.contains_key(k) implies list@.contains(
                self@[k],
            ) by {
                let j = choose|j: int|
                    0 <= j < self.entries@.len() && (#[trigger] self.entries@[j]).0 == k;
                lemma_map_of_entry(self.entries@, j);
            }
        }
        true
    }

    /// Whether no two keys map to the same value.
    pub fn is_injective(&self) -> (r: bool)
        requires
            self.wf(),
        ensures
            r == self@.is_injective(),
    {
        let mut i: usize = 0;
        while i < self.entries.len()
            invariant
                self.wf(),
                0 <= i <= self.entries@.len(),
                forall|a: int, b: int|
                    0 <= a < b < i ==> (#[trigger] self.entries@[a]).1 != (
                    #[trigger] self.entries@[b]).1,
            decreases self.entries@.len() - i,
        {
            let mut j: usize = 0;
            while j < i
                invariant
                    self.wf(),
                    0 <= j <= i < self.entries@.len(),
                    forall|a: int|
                        0 <= a < j ==> (#[trigger] self.entries@[a]).1 != self.entries@[i as int].1,
                decreases i - j,
            {
                if self.entries[j].1.same(&self.entries[i].1) {
                    proof {
                        lemma_map_of_entry(self.entries@, i as int);
                        lemma_map_of_entry(self.entries@, j as int);
                        let x = self.entries@[i as int].0;
                        let y = self.entries@[j as int].0;
                        assert(x != y);
                        assert(self@.dom().contains(x) && self@.dom().contains(y));
                        assert(self@[x] == self@[y]);
                    }
                    return false;
                }
                j = j + 1;
            }
            i = i + 1;
        }
        proof {
            assert forall|x: Principal, y: Principal|
                x != y && self@.dom().contains(x) && self@.dom().contains(y) implies #[trigger] self@[x]
                != #[trigger] self@[y] by {
                let a = choose|a: int|
                    0 <= a < self.entries@.len() && (#[trigger] self.entries@[a]).0 == x;
                let b = choose|b: int|
                    0 <= b < self.entries@.len() && (#[trigger] self.entries@[b]).0 == y;
                lemma_map_of_entry(self.entries@, a);
                lemma_map_of_entry(self.entries@, b);
                if a < b {
                    assert(self.entries@[a].1 != self.entries@[b].1);
                } else {
                    assert(self.entries@[b].1 != self.entries@[a].1);
                }
            }
        }
        true
    }
}

} // verus!
