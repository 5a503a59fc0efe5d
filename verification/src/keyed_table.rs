//! A table of values keyed by text, each key at most once, kept in insertion order.
use vstd::prelude::*;

use crate::text::text_eq;

verus! {

/// The value stored under `k`, looking from the most recent entry back.
pub open spec fn lookup<V>(entries: Seq<(String, V)>, k: Seq<char>) -> Option<V>
    decreases entries.len(),
{
    if entries.len() == 0 {
        None
    } else if entries.last().0@ == k {
        Some(entries.last().1)
    } else {
        lookup(entries.drop_last(), k)
    }
}

/// No key occurs twice.
pub open spec fn distinct_keys<V>(entries: Seq<(String, V)>) -> bool {
    forall|i: int, j: int|
        0 <= i < entries.len() && 0 <= j < entries.len() && i != j ==> (#[trigger] entries[i]).0@
            != (#[trigger] entries[j]).0@
}

/// The map that a sequence of entries stands for.
pub open spec fn entries_map<V>(entries: Seq<(String, V)>) -> Map<Seq<char>, V> {
    Map::new(|k: Seq<char>| lookup(entries, k) is Some, |k: Seq<char>| lookup(entries, k)->0)
}

/// The entries without the one under `k`, the others in their order.
pub open spec fn without_key<V>(entries: Seq<(String, V)>, k: Seq<char>) -> Seq<(String, V)>
    decreases entries.len(),
{
    if entries.len() == 0 {
        entries
    } else if entries.last().0@ == k {
        without_key(entries.drop_last(), k)
    } else {
        without_key(entries.drop_last(), k).push(entries.last())
    }
}

/// Without a matching key, nothing is left out.
proof fn lemma_without_absent<V>(entries: Seq<(String, V)>, k: Seq<char>)
    requires
        forall|j: int| 0 <= j < entries.len() ==> (#[trigger] entries[j]).0@ != k,
    ensures
        without_key(entries, k) == entries,
    decreases entries.len(),
{
    if entries.len() > 0 {
        assert forall|j: int| 0 <= j < entries.drop_last().len() implies (#[trigger] entries.drop_last()[j]).0@ != k by {
            assert(entries.drop_last()[j] == entries[j]);
        }
        lemma_without_absent(entries.drop_last(), k);
        assert(entries.drop_last().push(entries.last()) =~= entries);
    }
}

/// With distinct keys, leaving out the key at position `i` removes just that entry.
proof fn lemma_without_present<V>(entries: Seq<(String, V)>, i: int)
    requires
        distinct_keys(entries),
        0 <= i < entries.len(),
    ensures
        without_key(entries, entries[i].0@) == entries.remove(i),
    decreases entries.len(),
{
    let k = entries[i].0@;
    if i == entries.len() - 1 {
        assert forall|j: int| 0 <= j < entries.drop_last().len() implies (#[trigger] entries.drop_last()[j]).0@ != k by {
            assert(entries.drop_last()[j] == entries[j]);
        }
        lemma_without_absent(entries.drop_last(), k);
        assert(entries.remove(i) =~= entries.drop_last());
    } else {
        let d = entries.drop_last();
        assert(d[i] == entries[i]);
        assert forall|a: int, b: int| 0 <= a < d.len() && 0 <= b < d.len() && a != b implies (#[trigger] d[a]).0@
            != (#[trigger] d[b]).0@ by {
            assert(d[a] == entries[a]);
            assert(d[b] == entries[b]);
        }
        lemma_without_present(d, i);
        assert(entries.last().0@ != k);
        assert(d.remove(i).push(entries.last()) =~= entries.remove(i));
    }
}

/// A key-to-value table; iteration follows insertion order.
#[derive(Debug)]
pub struct KeyedTable<V> {
    entries: Vec<(String, V)>,
}

proof fn lemma_lookup_absent<V>(entries: Seq<(String, V)>, k: Seq<char>)
    requires
        forall|j: int| 0 <= j < entries.len() ==> (#[trigger] entries[j]).0@ != k,
    ensures
        lookup(entries, k) is None,
    decreases entries.len(),
{
    if entries.len() > 0 {
        lemma_lookup_absent(entries.drop_last(), k);
    }
}

proof fn lemma_lookup_present<V>(entries: Seq<(String, V)>, i: int)
    requires
        distinct_keys(entries),
        0 <= i < entries.len(),
    ensures
        lookup(entries, entries[i].0@) == Some(entries[i].1),
    decreases entries.len(),
{
    if i < entries.len() - 1 {
        assert(entries.drop_last()[i] == entries[i]);
        lemma_lookup_present(entries.drop_last(), i);
    }
}

proof fn lemma_lookup_remove<V>(entries: Seq<(String, V)>, i: int, k: Seq<char>)
    requires
        0 <= i < entries.len(),
        entries[i].0@ != k,
    ensures
        lookup(entries.remove(i), k) == lookup(entries, k),
    decreases entries.len(),
{
    let r = entries.remove(i);
    if i == entries.len() - 1 {
        assert(r =~= entries.drop_last());
    } else {
        assert(r.last() == entries.last());
        assert(r.drop_last() =~= entries.drop_last().remove(i));
        lemma_lookup_remove(entries.drop_last(), i, k);
    }
}

proof fn lemma_distinct_remove<V>(entries: Seq<(String, V)>, i: int)
    requires
        distinct_keys(entries),
        0 <= i < entries.len(),
    ensures
        distinct_keys(entries.remove(i)),
        forall|j: int| 0 <= j < entries.remove(i).len() ==> (#[trigger] entries.remove(i)[j]).0@ != entries[i].0@,
{
    let r = entries.remove(i);
    assert forall|a: int, b: int| 0 <= a < r.len() && 0 <= b < r.len() && a != b implies (#[trigger] r[a]).0@
        != (#[trigger] r[b]).0@ by {
        let a2 = if a < i { a } else { a + 1 };
        let b2 = if b < i { b } else { b + 1 };
        assert(r[a] == entries[a2]);
        assert(r[b] == entries[b2]);
    }
    assert forall|j: int| 0 <= j < r.len() implies (#[trigger] r[j]).0@ != entries[i].0@ by {
        let j2 = if j < i { j } else { j + 1 };
        assert(r[j] == entries[j2]);
    }
}

impl<V> View for KeyedTable<V> {
    type V = Map<Seq<char>, V>;

    closed spec fn view(&self) -> Map<Seq<char>, V> {
        entries_map(self.entries@)
    }
}

impl<V> KeyedTable<V> {
    /// The entries in insertion order.
    pub closed spec fn entry_seq(&self) -> Seq<(String, V)> {
        self.entries@
    }

    /// Each key occurs once.
    pub closed spec fn wf(&self) -> bool {
        distinct_keys(self.entries@)
    }

    /// The map view is what the entries say, each key once.
    pub proof fn lemma_view(&self)
        requires
            self.wf(),
        ensures
            self@ == entries_map(self.entry_seq()),
            distinct_keys(self.entry_seq()),
            forall|i: int|
                0 <= i < self.entry_seq().len() ==> #[trigger] self@.dom().contains(
                    self.entry_seq()[i].0@,
                ) && self@[self.entry_seq()[i].0@] == self.entry_seq()[i].1,
            forall|k: Seq<char>|
                #[trigger] self@.dom().contains(k) ==> exists|i: int|
                    0 <= i < self.entry_seq().len() && self.entry_seq()[i].0@ == k,
    {
        assert forall|i: int| 0 <= i < self.entry_seq().len() implies #[trigger] self@.dom().contains(
            self.entry_seq()[i].0@,
        ) && self@[self.entry_seq()[i].0@] == self.entry_seq()[i].1 by {
            lemma_lookup_present(self.entries@, i);
        }
        assert forall|k: Seq<char>| #[trigger] self@.dom().contains(k) implies exists|i: int|
            0 <= i < self.entry_seq().len() && self.entry_seq()[i].0@ == k by {
            if !(exists|i: int| 0 <= i < self.entry_seq().len() && self.entry_seq()[i].0@ == k) {
                lemma_lookup_absent(self.entries@, k);
            }
        }
    }

    /// An empty table.
    pub fn new() -> (r: Self)
        ensures
            r.wf(),
            r@ == Map::<Seq<char>, V>::empty(),
            r.entry_seq().len() == 0,
    {
        let r = KeyedTable { entries: Vec::new() };
        assert(r@ =~= Map::<Seq<char>, V>::empty());
        r
    }

    /// The entries in insertion order.
    pub fn entries(&self) -> (r: &Vec<(String, V)>)
        ensures
            r@ == self.entry_seq(),
    {
        &self.entries
    }

    /// The position of `key`, if present.
    fn position(&self, key: &str) -> (r: Option<usize>)
        requires
            self.wf(),
        ensures
            match r {
                Some(i) => i < self.entries@.len() && self.entries@[i as int].0@ == key@,
                None => forall|j: int| 0 <= j < self.entries@.len() ==> (#[trigger] self.entries@[j]).0@ != key@,
            },
    {
        let mut i: usize = 0;
        while i < self.entries.len()
            invariant
                i <= self.entries@.len(),
                forall|j: int| 0 <= j < i ==> (#[trigger] self.entries@[j]).0@ != key@,
            decreases self.entries@.len() - i,
        {
            if text_eq(self.entries[i].0.as_str(), key) {
                return Some(i);
            }
            i = i + 1;
        }
        None
    }

    /// The value stored under `key`.
    pub fn get(&self, key: &str) -> (r: Option<&V>)
        requires
            self.wf(),
        ensures
            match r {
                Some(v) => self@.dom().contains(key@) && self@[key@] == *v,
                None => !self@.dom().contains(key@),
            },
    {
        match self.position(key) {
            Some(i) => {
                proof {
                    lemma_lookup_present(self.entries@, i as int);
                }
                Some(&self.entries[i].1)
            },
            None => {
                proof {
                    lemma_lookup_absent(self.entries@, key@);
                }
                None
            },
        }
    }

    /// Whether `key` is present.
    pub fn contains_key(&self, key: &str) -> (r: bool)
        requires
            self.wf(),
        ensures
            r == self@.dom().contains(key@),
    {
        self.get(key).is_some()
    }

    /// Removes the entry under `key`, if any; the other entries keep their order.
    pub fn remove(&mut self, key: &str)
        requires
            old(self).wf(),
        ensures
            final(self).wf(),
            final(self)@ == old(self)@.remove(key@),
            forall|i: int| 0 <= i < final(self).entry_seq().len() ==> (#[trigger] final(self).entry_seq()[i]).0@ != key@,
            final(self).entry_seq() == without_key(old(self).entry_seq(), key@),
    {
        match self.position(key) {
            Some(i) => {
                let ghost before = self.entries@;
                let _gone = self.entries.remove(i);
                proof {
                    lemma_without_present(before, i as int);
                    lemma_distinct_remove(before, i as int);
                    lemma_lookup_absent(self.entries@, key@);
                    assert forall|k: Seq<char>| k != key@ implies lookup(self.entries@, k) == lookup(before, k) by {
                        lemma_lookup_remove(before, i as int, k);
                    }
                    assert(self@ =~= entries_map(before).remove(key@));
                }
            },
            None => {
                proof {
                    lemma_lookup_absent(self.entries@, key@);
                    lemma_without_absent(self.entries@, key@);
                    assert(self@ =~= self@.remove(key@));
                }
            },
        }
    }

    /// Stores `value` under `key`, replacing what was there; a new key goes last.
    pub fn insert(&mut self, key: String, value: V)
        requires
            old(self).wf(),
        ensures
            final(self).wf(),
            final(self)@ == old(self)@.insert(key@, value),
            final(self).entry_seq() == without_key(old(self).entry_seq(), key@).push((key, value)),
    {
        self.remove(key.as_str());
        let ghost before = self.entries@;
        assert forall|i: int| 0 <= i < before.len() implies (#[trigger] before[i]).0@ != key@ by {
            assert(self.entry_seq()[i] == before[i]);
        }
        let ghost k = key@;
        self.entries.push((key, value));
        proof {
            let after = self.entries@;
            assert(after.drop_last() =~= before);
            assert forall|a: int, b: int| 0 <= a < after.len() && 0 <= b < after.len() && a != b implies (#[trigger] after[a]).0@
                != (#[trigger] after[b]).0@ by {
                if a < before.len() && b < before.len() {
                    assert(after[a] == before[a]);
                    assert(after[b] == before[b]);
                } else if a < before.len() {
                    assert(after[a] == before[a]);
                    assert(after[b].0@ == k);
                    assert(before[a].0@ != k);
                } else {
                    assert(after[b] == before[b]);
                    assert(after[a].0@ == k);
                    assert(before[b].0@ != k);
                }
            }
            assert(self@ =~= entries_map(before).insert(k, value));
        }
    }
}

} // verus!
