//! A verified string-keyed association store.
//!
//! Counters, gauges, service registries and the generic state store all need
//! a map from string names to values with exclusive-access writes.  This
//! module provides one as a vector of pairs with unique keys, specified by
//! the spec function [`lookup`] over the sequence of entries.

use vstd::prelude::*;

verus! {

/// What a sequence of entries associates with a key: the value of the first
/// entry whose key matches, if any.
pub open spec fn lookup<V>(s: Seq<(String, V)>, k: Seq<char>) -> Option<V>
    decreases s.len(),
{
    if s.len() == 0 {
        None
    } else if s[0].0@ == k {
        Some(s[0].1)
    } else {
        lookup(s.subrange(1, s.len() as int), k)
    }
}

/// All keys of a sequence of entries are pairwise distinct.
pub open spec fn keys_unique<V>(s: Seq<(String, V)>) -> bool {
    forall|i: int, j: int| 0 <= i < j < s.len() ==> s[i].0@ != s[j].0@
}

/// Skipping entries whose keys all differ from `k` does not change the lookup.
proof fn lemma_lookup_skip<V>(s: Seq<(String, V)>, k: Seq<char>, i: int)
    requires
        0 <= i <= s.len(),
        forall|j: int| 0 <= j < i ==> s[j].0@ != k,
    ensures
        lookup(s, k) == lookup(s.subrange(i, s.len() as int), k),
    decreases i,
{
    if i > 0 {
        assert(s.subrange(1, s.len() as int).subrange(i - 1, s.len() - 1)
            =~= s.subrange(i, s.len() as int));
        lemma_lookup_skip(s.subrange(1, s.len() as int), k, i - 1);
    } else {
        assert(s.subrange(0, s.len() as int) =~= s);
    }
}

/// The lookup finds the first entry whose key matches.
proof fn lemma_lookup_found<V>(s: Seq<(String, V)>, k: Seq<char>, i: int)
    requires
        0 <= i < s.len(),
        s[i].0@ == k,
        forall|j: int| 0 <= j < i ==> s[j].0@ != k,
    ensures
        lookup(s, k) == Some(s[i].1),
{
    lemma_lookup_skip(s, k, i);
    assert(s.subrange(i, s.len() as int)[0] == s[i]);
}

/// If no entry's key matches, the lookup yields nothing.
proof fn lemma_lookup_none<V>(s: Seq<(String, V)>, k: Seq<char>)
    requires
        forall|j: int| 0 <= j < s.len() ==> s[j].0@ != k,
    ensures
        lookup(s, k) == None::<V>,
{
    lemma_lookup_skip(s, k, s.len() as int);
}

/// Replacing an entry whose key differs from `k` does not change what `k`
/// maps to.
proof fn lemma_lookup_update_other<V>(s: Seq<(String, V)>, i: int, p: (String, V), k: Seq<char>)
    requires
        0 <= i < s.len(),
        s[i].0@ != k,
        p.0@ != k,
    ensures
        lookup(s.update(i, p), k) == lookup(s, k),
    decreases i,
{
    let t = s.update(i, p);
    if s[0].0@ == k {
        assert(t[0] == s[0]);
    } else if i == 0 {
        assert(t.subrange(1, t.len() as int) =~= s.subrange(1, s.len() as int));
    } else {
        assert(t.subrange(1, t.len() as int) =~= s.subrange(1, s.len() as int).update(i - 1, p));
        lemma_lookup_update_other(s.subrange(1, s.len() as int), i - 1, p, k);
    }
}

/// A string-keyed association store with unique keys.
#[derive(Debug)]
pub struct StrMap<V> {
    entries: Vec<(String, V)>,
}

impl<V> StrMap<V> {
    /// The entries, in insertion order.
    pub closed spec fn entries(&self) -> Seq<(String, V)> {
        self.entries@
    }

    /// The value associated with a key, if any.
    pub open spec fn spec_get(&self, k: Seq<char>) -> Option<V> {
        lookup(self.entries(), k)
    }

    pub open spec fn contains_key(&self, k: Seq<char>) -> bool {
        self.spec_get(k) is Some
    }

    /// Well-formed: keys are pairwise distinct.
    pub closed spec fn wf(&self) -> bool {
        keys_unique(self.entries@)
    }

    /// In a well-formed store, two distinct entries have distinct keys.
    pub proof fn lemma_distinct_keys(&self, i: int, j: int)
        requires
            self.wf(),
            0 <= i < j < self.entries().len(),
        ensures
            self.entries()[i].0@ != self.entries()[j].0@,
    {
    }

    /// A key of an entry is always found by the lookup.
    pub proof fn lemma_entry_key_found(&self, i: int)
        requires
            self.wf(),
            0 <= i < self.entries().len(),
        ensures
            self.spec_get(self.entries()[i].0@) == Some(self.entries()[i].1),
    {
        lemma_lookup_found(self.entries@, self.entries@[i].0@, i);
    }

    /// A key found by the lookup belongs to some entry.
    pub proof fn lemma_get_is_entry(&self, k: Seq<char>)
        requires
            self.spec_get(k) is Some,
        ensures
            exists|i: int|
                0 <= i < self.entries().len() && self.entries()[i].0@ == k
                    && self.entries()[i].1 == self.spec_get(k)->Some_0,
    {
        lemma_lookup_exists(self.entries@, k);
    }

    pub fn new() -> (r: Self)
        ensures
            r.wf(),
            r.entries() == Seq::<(String, V)>::empty(),
            forall|k: Seq<char>| r.spec_get(k) == None::<V>,
    {
        let r = StrMap { entries: Vec::new() };
        proof {
            assert forall|k: Seq<char>| r.spec_get(k) == None::<V> by {
                lemma_lookup_none(r.entries@, k);
            }
        }
        r
    }

    pub fn len(&self) -> (r: usize)
        ensures
            r == self.entries().len(),
    {
        self.entries.len()
    }

    pub fn is_empty(&self) -> (r: bool)
        ensures
            r == (self.entries().len() == 0),
    {
        self.entries.len() == 0
    }

    /// The entries as a slice of pairs, for iteration by callers.
    pub fn pairs(&self) -> (r: &Vec<(String, V)>)
        ensures
            r@ == self.entries(),
    {
        &self.entries
    }

    /// Position of the entry holding `k`, if any.
    fn position(&self, k: &str) -> (r: Option<usize>)
        ensures
            match r {
                Some(i) => i < self.entries().len() && self.entries()[i as int].0@ == k@
                    && self.spec_get(k@) == Some(self.entries()[i as int].1),
                None => self.spec_get(k@) == None::<V>,
            },
    {
        let n = self.entries.len();
        for i in 0..n
            invariant
                n == self.entries@.len(),
                forall|j: int| 0 <= j < i ==> self.entries@[j].0@ != k@,
        {
            if crate::strutil::str_eq(self.entries[i].0.as_str(), k) {
                proof {
                    lemma_lookup_found(self.entries@, k@, i as int);
                }
                return Some(i);
            }
        }
        proof {
            lemma_lookup_none(self.entries@, k@);
        }
        None
    }

    /// Whether the store holds a value for `k`.
    pub fn has_key(&self, k: &str) -> (r: bool)
        ensures
            r == self.contains_key(k@),
    {
        self.position(k).is_some()
    }

    /// The value held for `k`, if any.
    pub fn get(&self, k: &str) -> (r: Option<&V>)
        ensures
            match r {
                Some(v) => self.spec_get(k@) == Some(*v),
                None => self.spec_get(k@) == None::<V>,
            },
    {
        match self.position(k) {
            Some(i) => Some(&self.entries[i].1),
            None => None,
        }
    }

    /// Insert a value for `k`, replacing any value held before.  Every other
    /// key keeps its value.
    pub fn set(&mut self, k: String, v: V)
        requires
            old(self).wf(),
        ensures
            final(self).wf(),
            final(self).spec_get(k@) == Some(v),
            forall|k2: Seq<char>| k2 != k@ ==> final(self).spec_get(k2) == old(self).spec_get(k2),
            final(self).entries().len() == if old(self).contains_key(k@) {
                old(self).entries().len()
            } else {
                old(self).entries().len() + 1
            },
    {
        let ghost olds = self.entries@;
        match self.position(k.as_str()) {
            Some(i) => {
                self.entries[i] = (k, v);
                proof {
                    let news = self.entries@;
                    lemma_lookup_found(news, news[i as int].0@, i as int);
                    assert forall|k2: Seq<char>| k2 != news[i as int].0@
                        implies lookup(news, k2) == lookup(olds, k2) by {
                        lemma_lookup_update_other(olds, i as int, news[i as int], k2);
                    }
                }
            },
            None => {
                proof {
                    lemma_lookup_exists_contra(olds, k@);
                }
                self.entries.push((k, v));
                proof {
                    let news = self.entries@;
                    lemma_lookup_found(news, news[olds.len() as int].0@, olds.len() as int);
                    assert forall|k2: Seq<char>| k2 != news[olds.len() as int].0@
                        implies lookup(news, k2) == lookup(olds, k2) by {
                        lemma_lookup_push_other(olds, news[olds.len() as int], k2);
                    }
                }
            },
        }
    }

    /// Remove the value held for `k` and hand it back.  Every other key keeps
    /// its value.
    pub fn remove(&mut self, k: &str) -> (r: Option<V>)
        requires
            old(self).wf(),
        ensures
            final(self).wf(),
            r == old(self).spec_get(k@),
            final(self).spec_get(k@) == None::<V>,
            forall|k2: Seq<char>| k2 != k@ ==> final(self).spec_get(k2) == old(self).spec_get(k2),
            final(self).entries().len() == if old(self).contains_key(k@) {
                old(self).entries().len() - 1
            } else {
                old(self).entries().len() as int
            },
    {
        let ghost olds = self.entries@;
        match self.position(k) {
            Some(i) => {
                let (_key, v) = self.entries.remove(i);
                proof {
                    let news = self.entries@;
                    assert(news =~= olds.remove(i as int));
                    assert forall|k2: Seq<char>| #![auto] true
                        implies lookup(news, k2) == (if k2 == k@ {
                            None::<V>
                        } else {
                            lookup(olds, k2)
                        }) by {
                        lemma_lookup_remove(olds, i as int, k2);
                    }
                }
                Some(v)
            },
            None => None,
        }
    }

    /// A copy of the store, with equal entries.
    pub fn duplicate(&self) -> (r: Self) where V: Copy
        ensures
            r.entries() == self.entries(),
    {
        let mut out: Vec<(String, V)> = Vec::new();
        let n = self.entries.len();
        for i in 0..n
            invariant
                n == self.entries@.len(),
                out@.len() == i,
                forall|j: int| 0 <= j < i ==> out@[j] == self.entries@[j],
        {
            let (k, v) = &self.entries[i];
            out.push((k.clone(), *v));
        }
        proof {
            assert(out@ =~= self.entries@);
        }
        StrMap { entries: out }
    }

    /// Drop every entry.
    pub fn clear(&mut self)
        ensures
            final(self).wf(),
            final(self).entries().len() == 0,
            forall|k: Seq<char>| final(self).spec_get(k) == None::<V>,
    {
        self.entries.clear();
        proof {
            assert forall|k: Seq<char>| self.spec_get(k) == None::<V> by {
                lemma_lookup_none(self.entries@, k);
            }
        }
    }
}

/// A positive lookup names a matching entry.
proof fn lemma_lookup_exists<V>(s: Seq<(String, V)>, k: Seq<char>)
    requires
        lookup(s, k) is Some,
    ensures
        exists|i: int| 0 <= i < s.len() && s[i].0@ == k && s[i].1 == lookup(s, k)->Some_0,
    decreases s.len(),
{
    if s.len() > 0 && s[0].0@ != k {
        lemma_lookup_exists(s.subrange(1, s.len() as int), k);
        let i = choose|i: int|
            0 <= i < s.len() - 1 && s.subrange(1, s.len() as int)[i].0@ == k
                && s.subrange(1, s.len() as int)[i].1 == lookup(s.subrange(1, s.len() as int), k)->Some_0;
        assert(s[i + 1].0@ == k && s[i + 1].1 == lookup(s, k)->Some_0);
    }
}

/// A negative lookup means no entry's key matches.
proof fn lemma_lookup_exists_contra<V>(s: Seq<(String, V)>, k: Seq<char>)
    requires
        lookup(s, k) is None,
    ensures
        forall|i: int| 0 <= i < s.len() ==> s[i].0@ != k,
    decreases s.len(),
{
    if s.len() > 0 {
        lemma_lookup_exists_contra(s.subrange(1, s.len() as int), k);
        assert forall|i: int| 0 <= i < s.len() implies s[i].0@ != k by {
            if i > 0 {
                assert(s.subrange(1, s.len() as int)[i - 1] == s[i]);
            }
        }
    }
}

/// Appending an entry does not change what other keys map to.
proof fn lemma_lookup_push_other<V>(s: Seq<(String, V)>, p: (String, V), k: Seq<char>)
    requires
        k != p.0@,
    ensures
        lookup(s.push(p), k) == lookup(s, k),
    decreases s.len(),
{
    let t = s.push(p);
    assert(t.len() == s.len() + 1);
    if s.len() == 0 {
        assert(t[0] == p);
        assert(t.subrange(1, t.len() as int) =~= Seq::<(String, V)>::empty());
        assert(lookup(t, k) == lookup(t.subrange(1, t.len() as int), k));
    } else {
        assert(t[0] == s[0]);
        if s[0].0@ != k {
            assert(t.subrange(1, t.len() as int) =~= s.subrange(1, s.len() as int).push(p));
            lemma_lookup_push_other(s.subrange(1, s.len() as int), p, k);
            assert(lookup(t, k) == lookup(t.subrange(1, t.len() as int), k));
            assert(lookup(s, k) == lookup(s.subrange(1, s.len() as int), k));
        } else {
            assert(lookup(t, k) == Some(t[0].1));
            assert(lookup(s, k) == Some(s[0].1));
        }
    }
}

/// Removing the one entry whose key is `k` (in a store with unique keys)
/// empties `k` and leaves every other key unchanged.
proof fn lemma_lookup_remove<V>(s: Seq<(String, V)>, i: int, k2: Seq<char>)
    requires
        keys_unique(s),
        0 <= i < s.len(),
        forall|j: int| 0 <= j < i ==> s[j].0@ != s[i].0@,
    ensures
        keys_unique(s.remove(i)),
        lookup(s.remove(i), k2) == (if k2 == s[i].0@ {
            None::<V>
        } else {
            lookup(s, k2)
        }),
    decreases s.len(),
{
    let t = s.remove(i);
    assert forall|a: int, b: int| 0 <= a < b < t.len() implies t[a].0@ != t[b].0@ by {
        let a2 = if a < i { a } else { a + 1 };
        let b2 = if b < i { b } else { b + 1 };
        assert(t[a] == s[a2] && t[b] == s[b2]);
    }
    if i == 0 {
        assert(t =~= s.subrange(1, s.len() as int));
        if k2 == s[0].0@ {
            assert forall|j: int| 0 <= j < t.len() implies t[j].0@ != k2 by {
                assert(t[j] == s[j + 1]);
            }
            lemma_lookup_none(t, k2);
        }
    } else {
        assert(t[0] == s[0]);
        if s[0].0@ == k2 {
        } else {
            assert(t.subrange(1, t.len() as int) =~= s.subrange(1, s.len() as int).remove(i - 1));
            assert forall|j: int| 0 <= j < i - 1
                implies #[trigger] s.subrange(1, s.len() as int)[j].0@
                    != s.subrange(1, s.len() as int)[i - 1].0@ by {
                assert(s.subrange(1, s.len() as int)[j] == s[j + 1]);
            }
            lemma_lookup_remove(s.subrange(1, s.len() as int), i - 1, k2);
            assert(s.subrange(1, s.len() as int)[i - 1] == s[i]);
        }
    }
}

} // verus!
