//! A small map, kept as a list of entries. Unlike vstd's map of texts, it takes keys that are
//! more than a text, and hands a value out to be changed in its place.
use vstd::prelude::*;

verus! {

/// A value that entries of a table are found by.
pub trait Key: View + Sized {
    /// Whether the two keys find the same entry.
    fn same(&self, other: &Self) -> (r: bool)
        ensures
            r == (self@ == other@),
    ;
}

impl Key for String {
    fn same(&self, other: &String) -> (r: bool) {
        *self == *other
    }
}

/// The entry at a position has the key.
spec fn holds<K: Key, V>(entries: Seq<(K, V)>, i: int, key: K::V) -> bool {
    0 <= i < entries.len() && entries[i].0@ == key
}

/// No two entries have the same key.
spec fn unique<K: Key, V>(entries: Seq<(K, V)>) -> bool {
    forall|i: int, j: int|
        0 <= i < entries.len() && 0 <= j < entries.len() && (#[trigger] entries[i]).0@ == (
        #[trigger] entries[j]).0@ ==> i == j
}

/// The entries' values by their keys.
spec fn as_map<K: Key, V>(entries: Seq<(K, V)>) -> Map<K::V, V> {
    Map::new(
        |key: K::V| exists|i: int| holds(entries, i, key),
        |key: K::V| entries[choose|i: int| holds(entries, i, key)].1,
    )
}

/// What the map has at the key of an entry is the entry's value.
proof fn lemma_entry<K: Key, V>(entries: Seq<(K, V)>, i: int)
    requires
        unique(entries),
        0 <= i < entries.len(),
    ensures
        as_map(entries).contains_key(entries[i].0@),
        as_map(entries)[entries[i].0@] == entries[i].1,
{
    assert(holds(entries, i, entries[i].0@));
}

/// The map agrees with every entry, and has no other keys: this pins it down.
proof fn lemma_pinned<K: Key, V>(entries: Seq<(K, V)>, m: Map<K::V, V>)
    requires
        unique(entries),
        forall|i: int|
            0 <= i < entries.len() ==> m.contains_key((#[trigger] entries[i]).0@)
                && m[entries[i].0@] == entries[i].1,
        forall|key: K::V| #[trigger]
            m.contains_key(key) ==> exists|i: int| holds(entries, i, key),
    ensures
        as_map(entries) == m,
{
    assert forall|key: K::V| as_map(entries).contains_key(key) == m.contains_key(key) by {
        if as_map(entries).contains_key(key) {
            let i = choose|i: int| holds(entries, i, key);
            assert(m.contains_key(entries[i].0@));
        }
    }
    assert forall|key: K::V| m.contains_key(key) implies as_map(entries)[key] == m[key] by {
        let i = choose|i: int| holds(entries, i, key);
        lemma_entry(entries, i);
        assert(m[entries[i].0@] == entries[i].1);
    }
    assert(as_map(entries) =~= m);
}

proof fn lemma_update<K: Key, V>(entries: Seq<(K, V)>, i: int, value: V)
    requires
        unique(entries),
        0 <= i < entries.len(),
    ensures
        unique(entries.update(i, (entries[i].0, value))),
        as_map(entries.update(i, (entries[i].0, value))) == as_map(entries).insert(
            entries[i].0@,
            value,
        ),
{
    let after = entries.update(i, (entries[i].0, value));
    let m = as_map(entries).insert(entries[i].0@, value);
    assert forall|j: int| 0 <= j < after.len() implies m.contains_key((#[trigger] after[j]).0@)
        && m[after[j].0@] == after[j].1 by {
        lemma_entry(entries, j);
        assert(entries[j].0@ == after[j].0@);
    }
    assert forall|key: K::V| #[trigger] m.contains_key(key) implies exists|j: int|
        holds(after, j, key) by {
        if key == entries[i].0@ {
            assert(holds(after, i, key));
        } else {
            let j = choose|j: int| holds(entries, j, key);
            assert(holds(after, j, key));
        }
    }
    lemma_pinned(after, m);
}

proof fn lemma_push<K: Key, V>(entries: Seq<(K, V)>, key: K, value: V)
    requires
        unique(entries),
        forall|i: int| !holds(entries, i, key@),
    ensures
        unique(entries.push((key, value))),
        as_map(entries.push((key, value))) == as_map(entries).insert(key@, value),
{
    let after = entries.push((key, value));
    let m = as_map(entries).insert(key@, value);
    assert forall|i: int| 0 <= i < entries.len() implies (#[trigger] entries[i]).0@ != key@ by {
        assert(!holds(entries, i, key@));
    }
    assert forall|j: int| 0 <= j < after.len() implies m.contains_key((#[trigger] after[j]).0@)
        && m[after[j].0@] == after[j].1 by {
        if j < entries.len() {
            lemma_entry(entries, j);
            assert(after[j] == entries[j]);
        }
    }
    assert forall|k: K::V| #[trigger] m.contains_key(k) implies exists|j: int|
        holds(after, j, k) by {
        if k == key@ {
            assert(holds(after, entries.len() as int, k));
        } else {
            let j = choose|j: int| holds(entries, j, k);
            assert(holds(after, j, k));
        }
    }
    assert forall|i: int, j: int|
        0 <= i < after.len() && 0 <= j < after.len() && (#[trigger] after[i]).0@ == (
        #[trigger] after[j]).0@ implies i == j by {
        if i < entries.len() && j < entries.len() {
            assert(entries[i].0@ == entries[j].0@);
        } else if i < entries.len() {
            assert(entries[i].0@ != key@);
        } else if j < entries.len() {
            assert(entries[j].0@ != key@);
        }
    }
    lemma_pinned(after, m);
}

proof fn lemma_remove<K: Key, V>(entries: Seq<(K, V)>, i: int)
    requires
        unique(entries),
        0 <= i < entries.len(),
    ensures
        unique(entries.remove(i)),
        as_map(entries.remove(i)) == as_map(entries).remove(entries[i].0@),
{
    let after = entries.remove(i);
    let m = as_map(entries).remove(entries[i].0@);
    assert forall|j: int| 0 <= j < after.len() implies m.contains_key((#[trigger] after[j]).0@)
        && m[after[j].0@] == after[j].1 by {
        let k = if j < i {
            j
        } else {
            j + 1
        };
        assert(after[j] == entries[k]);
        lemma_entry(entries, k);
        assert(entries[k].0@ != entries[i].0@);
    }
    assert forall|key: K::V| #[trigger] m.contains_key(key) implies exists|j: int|
        holds(after, j, key) by {
        let k = choose|k: int| holds(entries, k, key);
        assert(entries[k].0@ == key);
        if k < i {
            assert(holds(after, k, key));
        } else {
            assert(k != i);
            assert(after[k - 1] == entries[k]);
            assert(holds(after, k - 1, key));
        }
    }
    assert forall|a: int, b: int|
        0 <= a < after.len() && 0 <= b < after.len() && (#[trigger] after[a]).0@ == (
        #[trigger] after[b]).0@ implies a == b by {
        let x = if a < i {
            a
        } else {
            a + 1
        };
        let y = if b < i {
            b
        } else {
            b + 1
        };
        assert(after[a] == entries[x]);
        assert(after[b] == entries[y]);
    }
    lemma_pinned(after, m);
}

/// Values by their keys, no two of which are the same.
#[derive(Debug, PartialEq, Eq)]
pub struct Table<K, V> {
    entries: Vec<(K, V)>,
}

impl<K: Key, V> View for Table<K, V> {
    type V = Map<K::V, V>;

    closed spec fn view(&self) -> Map<K::V, V> {
        as_map(self.entries@)
    }
}

impl<K: Key, V> Table<K, V> {
    /// No two entries have the same key.
    pub closed spec fn wf(self) -> bool {
        unique(self.entries@)
    }

    /// A table without entries.
    pub fn new() -> (r: Table<K, V>)
        ensures
            r.wf(),
            r@ == Map::<K::V, V>::empty(),
    {
        let r = Table { entries: Vec::new() };
        proof {
            lemma_pinned(r.entries@, Map::<K::V, V>::empty());
        }
        r
    }

    /// The position of the entry with the key, or the number of entries.
    fn find(&self, key: &K) -> (r: usize)
        ensures
            r < self.entries@.len() ==> holds(self.entries@, r as int, key@),
            r >= self.entries@.len() ==> r == self.entries@.len() && forall|i: int|
                !holds(self.entries@, i, key@),
    {
        let mut i: usize = 0;
        while i < self.entries.len()
            invariant
                i <= self.entries@.len(),
                forall|j: int| 0 <= j < i ==> !holds(self.entries@, j, key@),
            decreases self.entries@.len() - i,
        {
            if self.entries[i].0.same(key) {
                return i;
            }
            i = i + 1;
        }
        i
    }

    /// The value at the key, if there is one.
    pub fn get(&self, key: &K) -> (r: Option<&V>)
        requires
            self.wf(),
        ensures
            r == (if self@.contains_key(key@) {
                Some(&self@[key@])
            } else {
                None
            }),
    {
        let i = self.find(key);
        if i < self.entries.len() {
            proof {
                lemma_entry(self.entries@, i as int);
            }
            Some(&self.entries[i].1)
        } else {
            None
        }
    }

    /// The value at the key; where there is none, the default is put there first.
    pub fn entry(&mut self, key: K, default: V) -> (r: &mut V)
        requires
            old(self).wf(),
        ensures
            *r == (if old(self)@.contains_key(key@) {
                old(self)@[key@]
            } else {
                default
            }),
            final(self).wf(),
            final(self)@ == old(self)@.insert(key@, *final(r)),
    {
        let i = self.find(&key);
        let ghost before = self.entries@;
        if i >= self.entries.len() {
            proof {
                lemma_push(before, key, default);
                assert(!as_map(before).contains_key(key@));
            }
            self.entries.push((key, default));
        } else {
            proof {
                lemma_entry(before, i as int);
            }
        }
        let ghost entries = self.entries@;
        let ghost id = entries[i as int].0@;
        let r = &mut self.entries[i].1;
        proof {
            lemma_update(entries, i as int, *final(r));
            assert(as_map(entries).insert(id, *final(r)) =~= as_map(before).insert(
                id,
                *final(r),
            ));
        }
        r
    }

    /// Takes the entry with the key out, if there is one.
    pub fn remove(&mut self, key: &K)
        requires
            old(self).wf(),
        ensures
            final(self).wf(),
            final(self)@ == old(self)@.remove(key@),
    {
        let i = self.find(key);
        if i < self.entries.len() {
            proof {
                lemma_remove(self.entries@, i as int);
            }
            self.entries.remove(i);
        } else {
            proof {
                assert(!self@.contains_key(key@));
                assert(self@.remove(key@) =~= self@);
            }
        }
    }
}

} // verus!
