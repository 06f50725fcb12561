//! Address-keyed ledger tables.
//!
//! The persistent ledger keeps whitelist membership and mint counters in
//! tables keyed by address.  [`Table`] is such a table, viewed as a
//! mathematical map from the address's character sequence to the stored
//! value.  Absence of a key is meaningful (it is the ledger's "missing
//! record" condition), so lookups return an `Option`.

use vstd::prelude::*;

verus! {

/// The map a sequence of key-value entries stands for.
spec fn map_of<V>(entries: Seq<(String, V)>) -> Map<Seq<char>, V> {
    Map::new(
        |k: Seq<char>| exists|i: int| 0 <= i < entries.len() && entries[i].0@ == k,
        |k: Seq<char>| entries[choose|i: int| 0 <= i < entries.len() && entries[i].0@ == k].1,
    )
}

spec fn distinct_keys<V>(entries: Seq<(String, V)>) -> bool {
    forall|i: int, j: int| 0 <= i < j < entries.len() ==> entries[i].0@ != entries[j].0@
}

/// With distinct keys, the map agrees with the entry at each index.
proof fn lemma_map_at<V>(entries: Seq<(String, V)>, i: int)
    requires
        distinct_keys(entries),
        0 <= i < entries.len(),
    ensures
        map_of(entries).contains_key(entries[i].0@),
        map_of(entries)[entries[i].0@] == entries[i].1,
{
    let k = entries[i].0@;
    assert(map_of(entries).contains_key(k));
    let j = choose|j: int| 0 <= j < entries.len() && entries[j].0@ == k;
    if i < j {
        assert(entries[i].0@ != entries[j].0@);
    } else if j < i {
        assert(entries[j].0@ != entries[i].0@);
    }
}

/// A table keyed by addresses, backed by a vector of entries with
/// pairwise distinct keys.  Its view is the map from each key's
/// character sequence to its stored value.
#[derive(Debug)]
pub struct Table<V> {
    entries: Vec<(String, V)>,
}

impl<V> View for Table<V> {
    type V = Map<Seq<char>, V>;

    closed spec fn view(&self) -> Map<Seq<char>, V> {
        map_of(self.entries@)
    }
}

impl<V> Table<V> {
    #[verifier::type_invariant]
    spec fn inv(self) -> bool {
        distinct_keys(self.entries@)
    }
}

impl<V: Copy> Table<V> {
    /// An empty table.
    pub fn new() -> (t: Self)
        ensures
            t@ == Map::<Seq<char>, V>::empty(),
    {
        let t = Table { entries: Vec::new() };
        proof {
            assert(t@ =~= Map::<Seq<char>, V>::empty());
        }
        t
    }

    /// Index of the entry holding `key`, if the table has one.
    fn find(entries: &Vec<(String, V)>, key: &String) -> (r: Option<usize>)
        ensures
            match r {
                Some(i) => i < entries@.len() && entries@[i as int].0@ == key@,
                None => forall|i: int| 0 <= i < entries@.len() ==> entries@[i].0@ != key@,
            },
    {
        let n = entries.len();
        let mut i: usize = 0;
        while i < n
            invariant
                i <= n,
                n == entries@.len(),
                forall|j: int| 0 <= j < i ==> entries@[j].0@ != key@,
            decreases n - i,
        {
            if entries[i].0 == *key {
                return Some(i);
            }
            i = i + 1;
        }
        None
    }

    /// The value recorded for `key`, or `None` where the table has no
    /// record for it.
    pub fn get(&self, key: &String) -> (r: Option<V>)
        ensures
            r == self@.index_opt(key@),
    {
        proof {
            use_type_invariant(&*self);
        }
        match Self::find(&self.entries, key) {
            Some(i) => {
                proof {
                    lemma_map_at(self.entries@, i as int);
                }
                Some(self.entries[i].1)
            },
            None => {
                proof {
                    assert(!self@.contains_key(key@));
                }
                None
            },
        }
    }

    /// Creates or overwrites the record for `key`.
    pub fn set(&mut self, key: &String, value: V)
        ensures
            final(self)@ == old(self)@.insert(key@, value),
    {
        proof {
            use_type_invariant(&*self);
        }
        let mut entries: Vec<(String, V)> = Vec::new();
        core::mem::swap(&mut entries, &mut self.entries);
        let ghost olde = entries@;
        match Self::find(&entries, key) {
            Some(i) => {
                entries[i].1 = value;
                proof {
                    let newe = entries@;
                    assert forall|p: int, q: int| 0 <= p < q < newe.len() implies newe[p].0@
                        != newe[q].0@ by {
                        assert(olde[p].0@ != olde[q].0@);
                    }
                    lemma_set_found(olde, newe, key@, value, i as int);
                }
            },
            None => {
                entries.push((key.clone(), value));
                proof {
                    let newe = entries@;
                    lemma_set_fresh(olde, newe, key@, value);
                }
            },
        }
        core::mem::swap(&mut entries, &mut self.entries);
    }

    /// All records of the table, keys pairwise distinct.  Every pair is
    /// in the map, and every key of the map appears: the result is the
    /// table's contents up to order.
    pub fn items(&self) -> (r: Vec<(String, V)>)
        ensures
            forall|i: int|
                0 <= i < r@.len() ==> self@.contains_key(#[trigger] r@[i].0@) && self@[r@[i].0@]
                    == r@[i].1,
            forall|k: Seq<char>|
                self@.contains_key(k) ==> exists|i: int| 0 <= i < r@.len() && r@[i].0@ == k,
            forall|i: int, j: int| 0 <= i < j < r@.len() ==> r@[i].0@ != r@[j].0@,
    {
        proof {
            use_type_invariant(&*self);
        }
        let n = self.entries.len();
        let mut r: Vec<(String, V)> = Vec::new();
        let mut i: usize = 0;
        while i < n
            invariant
                i <= n,
                n == self.entries@.len(),
                r@.len() == i,
                forall|j: int| 0 <= j < i ==> r@[j] == self.entries@[j],
            decreases n - i,
        {
            r.push((self.entries[i].0.clone(), self.entries[i].1));
            i = i + 1;
        }
        proof {
            assert forall|j: int|
                0 <= j < r@.len() implies self@.contains_key(#[trigger] r@[j].0@) && self@[r@[j].0@]
                == r@[j].1 by {
                lemma_map_at(self.entries@, j);
            }
            assert forall|k: Seq<char>| self@.contains_key(k) implies exists|i2: int|
                0 <= i2 < r@.len() && r@[i2].0@ == k by {
                let j = choose|j: int|
                    0 <= j < self.entries@.len() && (#[trigger] self.entries@[j].0@) == k;
                assert(r@[j].0@ == k);
            }
        }
        r
    }

    /// Deletes the record for `key`; a missing record is left missing.
    pub fn remove(&mut self, key: &String)
        ensures
            final(self)@ == old(self)@.remove(key@),
    {
        proof {
            use_type_invariant(&*self);
        }
        let mut entries: Vec<(String, V)> = Vec::new();
        core::mem::swap(&mut entries, &mut self.entries);
        let ghost olde = entries@;
        match Self::find(&entries, key) {
            Some(i) => {
                entries.remove(i);
                proof {
                    let newe = entries@;
                    assert forall|p: int, q: int| 0 <= p < q < newe.len() implies newe[p].0@
                        != newe[q].0@ by {
                        let p0: int = if p < i { p } else { p + 1 };
                        let q0: int = if q < i { q } else { q + 1 };
                        assert(newe[p] == olde[p0]);
                        assert(newe[q] == olde[q0]);
                        assert(olde[p0].0@ != olde[q0].0@);
                    }
                    lemma_remove_found(olde, newe, key@, i as int);
                }
            },
            None => {
                proof {
                    assert(!map_of(olde).contains_key(key@));
                    assert(map_of(olde) =~= map_of(olde).remove(key@));
                }
            },
        }
        core::mem::swap(&mut entries, &mut self.entries);
    }
}

/// Overwriting the value at index `i`, which holds `key`, makes the map
/// `insert(key, value)`.
proof fn lemma_set_found<V>(
    olde: Seq<(String, V)>,
    newe: Seq<(String, V)>,
    key: Seq<char>,
    value: V,
    i: int,
)
    requires
        distinct_keys(olde),
        distinct_keys(newe),
        0 <= i < olde.len(),
        olde[i].0@ == key,
        newe.len() == olde.len(),
        forall|j: int| 0 <= j < olde.len() && j != i ==> newe[j] == olde[j],
        newe[i].0@ == key,
        newe[i].1 == value,
    ensures
        map_of(newe) == map_of(olde).insert(key, value),
{
    assert forall|k: Seq<char>|
        map_of(newe).contains_key(k) <==> map_of(olde).insert(key, value).contains_key(k) by {
        if exists|j: int| 0 <= j < newe.len() && newe[j].0@ == k {
            let j = choose|j: int| 0 <= j < newe.len() && newe[j].0@ == k;
            assert(olde[j].0@ == k);
        }
        if exists|j: int| 0 <= j < olde.len() && olde[j].0@ == k {
            let j = choose|j: int| 0 <= j < olde.len() && olde[j].0@ == k;
            assert(newe[j].0@ == k);
        }
    }
    assert forall|k: Seq<char>| map_of(newe).contains_key(k) implies map_of(newe)[k] == map_of(
        olde,
    ).insert(key, value)[k] by {
        let j = choose|j: int| 0 <= j < newe.len() && newe[j].0@ == k;
        lemma_map_at(newe, j);
        if k == key {
            if j < i {
                assert(newe[j].0@ != newe[i].0@);
            } else if i < j {
                assert(newe[i].0@ != newe[j].0@);
            }
            assert(j == i);
        } else {
            assert(j != i);
            lemma_map_at(olde, j);
        }
    }
    assert(map_of(newe) =~= map_of(olde).insert(key, value));
}

/// Appending an entry with a key the table lacks makes the map
/// `insert(key, value)`.
proof fn lemma_set_fresh<V>(
    olde: Seq<(String, V)>,
    newe: Seq<(String, V)>,
    key: Seq<char>,
    value: V,
)
    requires
        distinct_keys(olde),
        forall|j: int| 0 <= j < olde.len() ==> olde[j].0@ != key,
        newe.len() == olde.len() + 1,
        forall|j: int| 0 <= j < olde.len() ==> newe[j] == olde[j],
        newe[olde.len() as int].0@ == key,
        newe[olde.len() as int].1 == value,
    ensures
        distinct_keys(newe),
        map_of(newe) == map_of(olde).insert(key, value),
{
    let n = olde.len() as int;
    assert forall|p: int, q: int| 0 <= p < q < newe.len() implies newe[p].0@ != newe[q].0@ by {
        if q < n {
            assert(olde[p].0@ != olde[q].0@);
        } else {
            assert(olde[p].0@ != key);
        }
    }
    assert forall|k: Seq<char>|
        map_of(newe).contains_key(k) <==> map_of(olde).insert(key, value).contains_key(k) by {
        if exists|j: int| 0 <= j < newe.len() && newe[j].0@ == k {
            let j = choose|j: int| 0 <= j < newe.len() && newe[j].0@ == k;
            if j < n {
                assert(olde[j].0@ == k);
            }
        }
        if k != key && exists|j: int| 0 <= j < olde.len() && olde[j].0@ == k {
            let j = choose|j: int| 0 <= j < olde.len() && olde[j].0@ == k;
            assert(newe[j].0@ == k);
        }
    }
    assert forall|k: Seq<char>| map_of(newe).contains_key(k) implies map_of(newe)[k] == map_of(
        olde,
    ).insert(key, value)[k] by {
        let j = choose|j: int| 0 <= j < newe.len() && newe[j].0@ == k;
        lemma_map_at(newe, j);
        if k == key {
            if j < n {
                assert(olde[j].0@ != key);
                assert(false);
            }
        } else {
            assert(j != n);
            lemma_map_at(olde, j);
        }
    }
    assert(map_of(newe) =~= map_of(olde).insert(key, value));
}

/// Deleting the entry at index `i`, which holds `key`, makes the map
/// `remove(key)`.
proof fn lemma_remove_found<V>(olde: Seq<(String, V)>, newe: Seq<(String, V)>, key: Seq<char>, i: int)
    requires
        distinct_keys(olde),
        distinct_keys(newe),
        0 <= i < olde.len(),
        olde[i].0@ == key,
        newe.len() == olde.len() - 1,
        forall|j: int| 0 <= j < i ==> newe[j] == olde[j],
        forall|j: int| i <= j < newe.len() ==> newe[j] == olde[j + 1],
    ensures
        map_of(newe) == map_of(olde).remove(key),
{
    assert forall|k: Seq<char>|
        map_of(newe).contains_key(k) <==> map_of(olde).remove(key).contains_key(k) by {
        if exists|j: int| 0 <= j < newe.len() && newe[j].0@ == k {
            let j = choose|j: int| 0 <= j < newe.len() && newe[j].0@ == k;
            let j0: int = if j < i { j } else { j + 1 };
            assert(olde[j0].0@ == k);
            if j0 < i {
                assert(olde[j0].0@ != olde[i].0@);
            } else {
                assert(olde[i].0@ != olde[j0].0@);
            }
        }
        if k != key && exists|j: int| 0 <= j < olde.len() && olde[j].0@ == k {
            let j0 = choose|j: int| 0 <= j < olde.len() && olde[j].0@ == k;
            let j: int = if j0 < i { j0 } else { j0 - 1 };
            assert(j0 != i);
            assert(newe[j].0@ == k);
        }
    }
    assert forall|k: Seq<char>| map_of(newe).contains_key(k) implies map_of(newe)[k] == map_of(
        olde,
    ).remove(key)[k] by {
        let j = choose|j: int| 0 <= j < newe.len() && newe[j].0@ == k;
        lemma_map_at(newe, j);
        let j0: int = if j < i { j } else { j + 1 };
        assert(olde[j0].0@ == k);
        lemma_map_at(olde, j0);
    }
    assert(map_of(newe) =~= map_of(olde).remove(key));
}

} // verus!
