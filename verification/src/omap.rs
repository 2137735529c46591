//! A map with `u64` keys kept as a vector of entries sorted by key.
//!
//! The transaction cache needs an ordered mapping (eviction picks the oldest
//! transaction id at or after the nonce) and the liquidity ledger needs to
//! sum its entries, so the entries are exposed both as a sorted sequence and
//! as a mathematical `Map`.

use vstd::prelude::*;

verus! {

/// The mathematical map described by a sequence of key-value entries; later
/// entries win, though a well-formed [`OrderedMap`] never repeats a key.
pub open spec fn seq_to_map<V>(s: Seq<(u64, V)>) -> Map<u64, V>
    decreases s.len(),
{
    if s.len() == 0 {
        Map::empty()
    } else {
        seq_to_map(s.drop_last()).insert(s.last().0, s.last().1)
    }
}

/// No key occurs twice.
pub open spec fn distinct_keys<V>(s: Seq<(u64, V)>) -> bool {
    forall|m: int, n: int| 0 <= m < n < s.len() ==> s[m].0 != s[n].0
}

/// A key is in the map exactly when some entry holds it, and then the map
/// returns that entry's value.
pub proof fn lemma_seq_to_map_index<V>(s: Seq<(u64, V)>, i: int)
    requires
        distinct_keys(s),
        0 <= i < s.len(),
    ensures
        seq_to_map(s).contains_key(s[i].0),
        seq_to_map(s)[s[i].0] == s[i].1,
    decreases s.len(),
{
    if i < s.len() - 1 {
        lemma_seq_to_map_index(s.drop_last(), i);
    }
}

/// A key no entry holds is not in the map.
pub proof fn lemma_seq_to_map_absent<V>(s: Seq<(u64, V)>, k: u64)
    requires
        forall|i: int| 0 <= i < s.len() ==> s[i].0 != k,
    ensures
        !seq_to_map(s).contains_key(k),
    decreases s.len(),
{
    if s.len() > 0 {
        lemma_seq_to_map_absent(s.drop_last(), k);
    }
}

/// A key in the map is held by some entry.
pub proof fn lemma_seq_to_map_contains<V>(s: Seq<(u64, V)>, k: u64)
    requires
        seq_to_map(s).contains_key(k),
    ensures
        exists|i: int| 0 <= i < s.len() && s[i].0 == k,
    decreases s.len(),
{
    if s.len() > 0 {
        if s.last().0 == k {
            assert(s[s.len() - 1].0 == k);
        } else {
            lemma_seq_to_map_contains(s.drop_last(), k);
            let i = choose|i: int| 0 <= i < s.drop_last().len() && s.drop_last()[i].0 == k;
            assert(s[i].0 == k);
        }
    }
}

/// Replacing the value at one entry is a map insert of that entry's key.
pub proof fn lemma_seq_to_map_update<V>(s: Seq<(u64, V)>, i: int, v: V)
    requires
        distinct_keys(s),
        0 <= i < s.len(),
    ensures
        seq_to_map(s.update(i, (s[i].0, v))) == seq_to_map(s).insert(s[i].0, v),
    decreases s.len(),
{
    let t = s.update(i, (s[i].0, v));
    if i == s.len() - 1 {
        assert(t.drop_last() =~= s.drop_last());
        assert(seq_to_map(t) =~= seq_to_map(s).insert(s[i].0, v));
    } else {
        lemma_seq_to_map_update(s.drop_last(), i, v);
        assert(t.drop_last() =~= s.drop_last().update(i, (s[i].0, v)));
        assert(t.last() == s.last());
        assert(seq_to_map(t) =~= seq_to_map(s).insert(s[i].0, v));
    }
}

/// Inserting an entry with a fresh key at any position is a map insert.
pub proof fn lemma_seq_to_map_insert<V>(s: Seq<(u64, V)>, i: int, k: u64, v: V)
    requires
        forall|m: int| 0 <= m < s.len() ==> s[m].0 != k,
        0 <= i <= s.len(),
    ensures
        seq_to_map(s.insert(i, (k, v))) == seq_to_map(s).insert(k, v),
    decreases s.len(),
{
    let t = s.insert(i, (k, v));
    if i == s.len() {
        assert(t.drop_last() =~= s);
        assert(seq_to_map(t) =~= seq_to_map(s).insert(k, v));
    } else {
        lemma_seq_to_map_insert(s.drop_last(), i, k, v);
        assert(t.drop_last() =~= s.drop_last().insert(i, (k, v)));
        assert(t.last() == s.last());
        lemma_seq_to_map_absent(s.drop_last(), k);
        assert(seq_to_map(t) =~= seq_to_map(s).insert(k, v));
    }
}

/// Removing an entry is a map remove of its key.
pub proof fn lemma_seq_to_map_remove<V>(s: Seq<(u64, V)>, i: int)
    requires
        distinct_keys(s),
        0 <= i < s.len(),
    ensures
        seq_to_map(s.remove(i)) == seq_to_map(s).remove(s[i].0),
    decreases s.len(),
{
    let t = s.remove(i);
    if i == s.len() - 1 {
        assert(t =~= s.drop_last());
        lemma_seq_to_map_absent(s.drop_last(), s[i].0);
        assert(seq_to_map(t) =~= seq_to_map(s).remove(s[i].0));
    } else {
        lemma_seq_to_map_remove(s.drop_last(), i);
        assert(t.drop_last() =~= s.drop_last().remove(i));
        assert(t.last() == s.last());
        assert(seq_to_map(t) =~= seq_to_map(s).remove(s[i].0));
    }
}

/// A map over `u64` keys, held as a vector of entries strictly sorted by
/// key.
pub struct OrderedMap<V> {
    pub entries: Vec<(u64, V)>,
}

impl<V: Copy> OrderedMap<V> {
    /// The entries, sorted by key.
    pub open spec fn seq(self) -> Seq<(u64, V)> {
        self.entries@
    }

    /// The mathematical map the entries describe.
    pub open spec fn as_map(self) -> Map<u64, V> {
        seq_to_map(self.entries@)
    }

    /// Keys strictly increase along the vector.
    pub open spec fn wf(self) -> bool {
        forall|m: int, n: int|
            0 <= m < n < self.entries@.len() ==> self.entries@[m].0 < self.entries@[n].0
    }

    pub proof fn lemma_distinct(self)
        requires
            self.wf(),
        ensures
            distinct_keys(self.seq()),
    {
    }

    pub fn new() -> (r: Self)
        ensures
            r.wf(),
            r.seq() == Seq::<(u64, V)>::empty(),
            r.as_map() == Map::<u64, V>::empty(),
    {
        let r = OrderedMap { entries: Vec::new() };
        proof {
            assert(r.entries@ =~= Seq::<(u64, V)>::empty());
        }
        r
    }

    pub fn len(&self) -> (r: usize)
        ensures
            r == self.seq().len(),
    {
        self.entries.len()
    }

    /// The entry at a position in key order.
    pub fn entry_at(&self, i: usize) -> (r: (u64, V))
        requires
            i < self.seq().len(),
        ensures
            r == self.seq()[i as int],
    {
        self.entries[i]
    }

    /// The position holding a key, if any.
    fn index_of(&self, key: u64) -> (r: Option<usize>)
        ensures
            match r {
                Some(i) => i < self.seq().len() && self.seq()[i as int].0 == key,
                None => forall|i: int| 0 <= i < self.seq().len() ==> self.seq()[i].0 != key,
            },
    {
        let mut i: usize = 0;
        let n = self.entries.len();
        while i < n
            invariant
                i <= n,
                n == self.entries@.len(),
                forall|m: int| 0 <= m < i ==> self.entries@[m].0 != key,
            decreases n - i,
        {
            if self.entries[i].0 == key {
                return Some(i);
            }
            i = i + 1;
        }
        None
    }

    pub fn contains_key(&self, key: u64) -> (r: bool)
        requires
            self.wf(),
        ensures
            r == self.as_map().contains_key(key),
    {
        self.get(key).is_some()
    }

    pub fn get(&self, key: u64) -> (r: Option<V>)
        requires
            self.wf(),
        ensures
            r == if self.as_map().contains_key(key) {
                Some(self.as_map()[key])
            } else {
                None::<V>
            },
    {
        match self.index_of(key) {
            Some(i) => {
                proof {
                    self.lemma_distinct();
                    lemma_seq_to_map_index(self.seq(), i as int);
                }
                Some(self.entries[i].1)
            },
            None => {
                proof {
                    lemma_seq_to_map_absent(self.seq(), key);
                }
                None
            },
        }
    }

    /// Puts `value` under `key`, keeping the entries sorted; returns the
    /// position the entry now occupies.
    pub fn insert(&mut self, key: u64, value: V) -> (i: usize)
        requires
            old(self).wf(),
        ensures
            final(self).wf(),
            final(self).as_map() == old(self).as_map().insert(key, value),
            if old(self).as_map().contains_key(key) {
                i < old(self).seq().len() && old(self).seq()[i as int].0 == key
                    && final(self).seq() == old(self).seq().update(i as int, (key, value))
            } else {
                i <= old(self).seq().len() && final(self).seq() == old(self).seq().insert(
                    i as int,
                    (key, value),
                )
            },
    {
        proof {
            self.lemma_distinct();
        }
        let n = self.entries.len();
        // Fast path: a key above every present key goes at the end.
        if n == 0 || self.entries[n - 1].0 < key {
            proof {
                lemma_seq_to_map_absent(self.seq(), key);
                lemma_seq_to_map_insert(self.seq(), n as int, key, value);
                assert(old(self).seq().insert(n as int, (key, value)) =~= old(self).seq().push(
                    (key, value),
                ));
            }
            self.entries.push((key, value));
            return n;
        }
        let mut i: usize = 0;
        while i < n && self.entries[i].0 < key
            invariant
                i <= n,
                n == self.entries@.len(),
                self.entries@ == old(self).seq(),
                forall|m: int| 0 <= m < i ==> self.entries@[m].0 < key,
            decreases n - i,
        {
            i = i + 1;
        }
        if i < n && self.entries[i].0 == key {
            proof {
                lemma_seq_to_map_update(self.seq(), i as int, value);
                lemma_seq_to_map_index(self.seq(), i as int);
            }
            let entry = vstd::std_specs::vec::vec_index_mut(&mut self.entries, i);
            *entry = (key, value);
            i
        } else {
            proof {
                assert(forall|m: int|
                    0 <= m < old(self).seq().len() ==> old(self).seq()[m].0 != key);
                lemma_seq_to_map_absent(self.seq(), key);
                lemma_seq_to_map_insert(self.seq(), i as int, key, value);
            }
            self.entries.insert(i, (key, value));
            i
        }
    }

    /// Takes the entry under `key` out, if present.
    pub fn remove(&mut self, key: u64) -> (r: Option<V>)
        requires
            old(self).wf(),
        ensures
            final(self).wf(),
            final(self).as_map() == old(self).as_map().remove(key),
            match r {
                Some(v) => old(self).as_map().contains_key(key) && v == old(self).as_map()[key]
                    && exists|i: int|
                        0 <= i < old(self).seq().len() && old(self).seq()[i] == (key, v)
                            && final(self).seq() == old(self).seq().remove(i),
                None => !old(self).as_map().contains_key(key)
                    && final(self).seq() == old(self).seq(),
            },
    {
        proof {
            self.lemma_distinct();
        }
        match self.index_of(key) {
            Some(i) => {
                proof {
                    lemma_seq_to_map_index(self.seq(), i as int);
                    lemma_seq_to_map_remove(self.seq(), i as int);
                }
                let (_, v) = self.entries.remove(i);
                Some(v)
            },
            None => {
                proof {
                    lemma_seq_to_map_absent(self.seq(), key);
                    assert(self.as_map() =~= self.as_map().remove(key));
                }
                None
            },
        }
    }

    /// A copy of the map, for state snapshots.
    pub fn duplicate(&self) -> (r: Self)
        ensures
            r.seq() == self.seq(),
    {
        let mut entries: Vec<(u64, V)> = Vec::new();
        let n = self.entries.len();
        let mut i: usize = 0;
        while i < n
            invariant
                i <= n,
                n == self.entries@.len(),
                entries@ =~= self.entries@.subrange(0, i as int),
            decreases n - i,
        {
            entries.push(self.entries[i]);
            proof {
                assert(entries@ =~= self.entries@.subrange(0, i as int + 1));
            }
            i = i + 1;
        }
        proof {
            assert(entries@ =~= self.entries@);
        }
        OrderedMap { entries }
    }

    /// The entry with the smallest key.
    pub fn first(&self) -> (r: Option<(u64, V)>)
        ensures
            r == if self.seq().len() > 0 {
                Some(self.seq()[0])
            } else {
                None::<(u64, V)>
            },
    {
        if self.entries.len() > 0 {
            Some(self.entries[0])
        } else {
            None
        }
    }

    /// The entry with the smallest key at or after `key`.
    pub fn next_at_or_after(&self, key: u64) -> (r: Option<(u64, V)>)
        requires
            self.wf(),
        ensures
            match r {
                Some(e) => {
                    &&& exists|i: int| 0 <= i < self.seq().len() && self.seq()[i] == e
                    &&& e.0 >= key
                    &&& forall|i: int|
                        0 <= i < self.seq().len() && self.seq()[i].0 >= key ==> e.0
                            <= self.seq()[i].0
                },
                None => forall|i: int| 0 <= i < self.seq().len() ==> self.seq()[i].0 < key,
            },
    {
        let mut i: usize = 0;
        let n = self.entries.len();
        while i < n
            invariant
                self.wf(),
                i <= n,
                n == self.entries@.len(),
                forall|m: int| 0 <= m < i ==> self.entries@[m].0 < key,
            decreases n - i,
        {
            if self.entries[i].0 >= key {
                proof {
                    assert((i as int) < self.seq().len() && self.seq()[i as int]
                        == self.entries@[i as int]);
                }
                return Some(self.entries[i]);
            }
            i = i + 1;
        }
        None
    }
}

} // verus!
