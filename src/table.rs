//! A small association table from keys to `u32` amounts, in which a key that
//! was never set reads as zero.
use vstd::prelude::*;

verus! {

/// Keys that can be compared for equality in executable code.
pub trait TableKey: Sized {
    fn same(&self, other: &Self) -> (r: bool)
        ensures
            r == (*self == *other),
    ;
}

/// The amount held under `k`: the last entry for `k`, or zero if there is none.
pub open spec fn lookup<K>(s: Seq<(K, u32)>, k: K) -> u32
    decreases s.len(),
{
    if s.len() == 0 {
        0
    } else if s.last().0 == k {
        s.last().1
    } else {
        lookup(s.drop_last(), k)
    }
}

/// The sum of all amounts in the entries.
pub open spec fn total<K>(s: Seq<(K, u32)>) -> int
    decreases s.len(),
{
    if s.len() == 0 {
        0
    } else {
        total(s.drop_last()) + s.last().1
    }
}

/// No key occurs in two entries.
pub open spec fn keys_distinct<K>(s: Seq<(K, u32)>) -> bool {
    forall|i: int, j: int| 0 <= i < j < s.len() ==> s[i].0 != s[j].0
}

proof fn lemma_lookup_at<K>(s: Seq<(K, u32)>, i: int)
    requires
        keys_distinct(s),
        0 <= i < s.len(),
    ensures
        lookup(s, s[i].0) == s[i].1,
    decreases s.len(),
{
    if i < s.len() - 1 {
        assert(s.last().0 != s[i].0);
        assert(s.drop_last()[i] == s[i]);
        lemma_lookup_at(s.drop_last(), i);
    }
}

proof fn lemma_lookup_absent<K>(s: Seq<(K, u32)>, k: K)
    requires
        forall|i: int| 0 <= i < s.len() ==> s[i].0 != k,
    ensures
        lookup(s, k) == 0,
    decreases s.len(),
{
    if s.len() > 0 {
        assert(s.last() == s[s.len() - 1]);
        lemma_lookup_absent(s.drop_last(), k);
    }
}

proof fn lemma_update<K>(s: Seq<(K, u32)>, i: int, v: u32, j: K)
    requires
        keys_distinct(s),
        0 <= i < s.len(),
    ensures
        lookup(s.update(i, (s[i].0, v)), j) == (if j == s[i].0 { v } else { lookup(s, j) }),
        total(s.update(i, (s[i].0, v))) == total(s) - s[i].1 + v,
    decreases s.len(),
{
    let t = s.update(i, (s[i].0, v));
    if i == s.len() - 1 {
        assert(t.drop_last() =~= s.drop_last());
    } else {
        assert(t.drop_last() =~= s.drop_last().update(i, (s[i].0, v)));
        assert(s.drop_last()[i] == s[i]);
        assert(t.last() == s.last());
        if s.last().0 == j {
            assert(s.last().0 != s[i].0);
        }
        lemma_update(s.drop_last(), i, v, j);
    }
}

proof fn lemma_push<K>(s: Seq<(K, u32)>, k: K, v: u32, j: K)
    ensures
        lookup(s.push((k, v)), j) == (if j == k { v } else { lookup(s, j) }),
        total(s.push((k, v))) == total(s) + v,
{
    assert(s.push((k, v)).drop_last() =~= s);
}

proof fn lemma_bound_one<K>(s: Seq<(K, u32)>, a: K)
    ensures
        lookup(s, a) <= total(s),
        0 <= total(s),
    decreases s.len(),
{
    if s.len() > 0 {
        lemma_bound_one(s.drop_last(), a);
    }
}

proof fn lemma_bound_two<K>(s: Seq<(K, u32)>, a: K, b: K)
    requires
        keys_distinct(s),
        a != b,
    ensures
        lookup(s, a) + lookup(s, b) <= total(s),
    decreases s.len(),
{
    if s.len() > 0 {
        let d = s.drop_last();
        assert(keys_distinct(d)) by {
            assert forall|i: int, j: int| 0 <= i < j < d.len() implies d[i].0 != d[j].0 by {
                assert(d[i] == s[i] && d[j] == s[j]);
            }
        }
        if s.last().0 == a {
            lemma_bound_one(d, b);
        } else if s.last().0 == b {
            lemma_bound_one(d, a);
        } else {
            lemma_bound_two(d, a, b);
        }
    }
}

/// A table of amounts, one entry per key.
pub struct Table<K> {
    entries: Vec<(K, u32)>,
}

impl<K: TableKey> Table<K> {
    /// The amount under `k`, zero when `k` was never set.
    pub closed spec fn get_spec(&self, k: K) -> u32 {
        lookup(self.entries@, k)
    }

    /// The sum of the amounts of all keys.
    pub closed spec fn sum(&self) -> int {
        total(self.entries@)
    }

    /// Each key has one entry.
    pub closed spec fn wf(&self) -> bool {
        keys_distinct(self.entries@)
    }

    /// A table in which every key reads as zero.
    pub fn new() -> (r: Table<K>)
        ensures
            r.wf(),
            r.sum() == 0,
            forall|k: K| #[trigger] r.get_spec(k) == 0,
    {
        Table { entries: Vec::new() }
    }

    fn find(&self, k: &K) -> (r: Option<usize>)
        ensures
            r matches Some(i) ==> i < self.entries@.len() && self.entries@[i as int].0 == *k,
            r is None ==> forall|i: int|
                0 <= i < self.entries@.len() ==> self.entries@[i].0 != *k,
    {
        let mut i: usize = 0;
        while i < self.entries.len()
            invariant
                0 <= i <= self.entries@.len(),
                forall|j: int| 0 <= j < i ==> self.entries@[j].0 != *k,
            decreases self.entries@.len() - i,
        {
            if self.entries[i].0.same(k) {
                return Some(i);
            }
            i = i + 1;
        }
        None
    }

    /// Reads the amount under `k`.
    pub fn get(&self, k: &K) -> (r: u32)
        requires
            self.wf(),
        ensures
            r == self.get_spec(*k),
    {
        match self.find(k) {
            Some(i) => {
                proof {
                    lemma_lookup_at(self.entries@, i as int);
                }
                self.entries[i].1
            },
            None => {
                proof {
                    lemma_lookup_absent(self.entries@, *k);
                }
                0
            },
        }
    }

    /// Sets the amount under `k` to `v`, leaving every other key as it was.
    pub fn set(&mut self, k: K, v: u32)
        requires
            old(self).wf(),
        ensures
            final(self).wf(),
            forall|j: K| #[trigger]
                final(self).get_spec(j) == (if j == k { v } else { old(self).get_spec(j) }),
            final(self).sum() == old(self).sum() - old(self).get_spec(k) + v,
    {
        let ghost s = self.entries@;
        match self.find(&k) {
            Some(i) => {
                proof {
                    lemma_lookup_at(s, i as int);
                }
                self.entries.set(i, (k, v));
                proof {
                    assert(self.entries@ =~= s.update(i as int, (s[i as int].0, v)));
                    lemma_update(s, i as int, v, k);
                    assert forall|j: K| #[trigger]
                        self.get_spec(j) == (if j == k { v } else { lookup(s, j) }) by {
                        lemma_update(s, i as int, v, j);
                    }
                }
            },
            None => {
                self.entries.push((k, v));
                proof {
                    lemma_lookup_absent(s, k);
                    lemma_push(s, k, v, k);
                    assert forall|j: K| #[trigger]
                        self.get_spec(j) == (if j == k { v } else { lookup(s, j) }) by {
                        lemma_push(s, k, v, j);
                    }
                    assert forall|a: int, b: int|
                        0 <= a < b < self.entries@.len() implies self.entries@[a].0
                        != self.entries@[b].0 by {
                        if b == s.len() {
                            assert(self.entries@[a] == s[a]);
                        } else {
                            assert(self.entries@[a] == s[a] && self.entries@[b] == s[b]);
                        }
                    }
                }
            },
        }
    }

    /// The amounts of one key are part of the sum.
    pub proof fn lemma_le_sum(&self, a: K)
        ensures
            self.get_spec(a) <= self.sum(),
            0 <= self.sum(),
    {
        lemma_bound_one(self.entries@, a);
    }

    /// The amounts of two distinct keys together are part of the sum.
    pub proof fn lemma_two_le_sum(&self, a: K, b: K)
        requires
            self.wf(),
            a != b,
        ensures
            self.get_spec(a) + self.get_spec(b) <= self.sum(),
    {
        lemma_bound_two(self.entries@, a, b);
    }
}

} // verus!
