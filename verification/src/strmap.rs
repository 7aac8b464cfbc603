//! A string-keyed association map with a `Map<Seq<char>, _>` abstraction,
//! used for a document's server entries, a server's environment values, and
//! the per-app status report.

use vstd::prelude::*;

use crate::strutil::str_eq;

verus! {

/// A value-preserving duplicate: the copy has the same abstract value.
pub trait Dup: View + Sized {
    fn dup(&self) -> (r: Self)
        ensures
            r@ == self@,
    ;
}

/// The abstraction of an entry list as a mathematical map; the earliest entry
/// of a key decides its value.
pub open spec fn entries_map<V: View>(s: Seq<(String, V)>) -> Map<Seq<char>, V::V>
    decreases s.len(),
{
    if s.len() == 0 {
        Map::empty()
    } else {
        entries_map(s.drop_first()).insert(s.first().0@, s.first().1@)
    }
}

/// No two entries share a key.
pub open spec fn entries_unique<V: View>(s: Seq<(String, V)>) -> bool {
    forall|i: int, j: int| 0 <= i < j < s.len() ==> s[i].0@ != s[j].0@
}

/// A map from strings to values, stored as an ordered entry list and viewed
/// as a `Map<Seq<char>, V::V>`.
pub struct StrMap<V: View> {
    entries: Vec<(String, V)>,
}

impl<V: View> View for StrMap<V> {
    type V = Map<Seq<char>, V::V>;

    closed spec fn view(&self) -> Map<Seq<char>, V::V> {
        entries_map(self.entries@)
    }
}

/// The abstract domain of an entry list is exactly its keys.
proof fn lemma_entries_map_dom<V: View>(s: Seq<(String, V)>)
    ensures
        forall|k: Seq<char>|
            entries_map(s).contains_key(k) <==> exists|i: int|
                0 <= i < s.len() && #[trigger] s[i].0@ == k,
    decreases s.len(),
{
    if s.len() > 0 {
        let sdf = s.drop_first();
        lemma_entries_map_dom(sdf);
        assert(entries_map(s) == entries_map(sdf).insert(s.first().0@, s.first().1@));
        assert forall|k: Seq<char>| entries_map(s).contains_key(k) implies exists|i: int|
            0 <= i < s.len() && #[trigger] s[i].0@ == k by {
            if k == s.first().0@ {
                assert(s[0].0@ == k);
            } else {
                assert(entries_map(sdf).contains_key(k));
                let i = choose|i: int| 0 <= i < sdf.len() && #[trigger] sdf[i].0@ == k;
                assert(sdf[i] == s[i + 1]);
                assert(s[i + 1].0@ == k);
            }
        }
        assert forall|k: Seq<char>|
            (exists|i: int| 0 <= i < s.len() && #[trigger] s[i].0@ == k) implies entries_map(
            s,
        ).contains_key(k) by {
            let i = choose|i: int| 0 <= i < s.len() && #[trigger] s[i].0@ == k;
            if i > 0 {
                assert(sdf[i - 1] == s[i]);
                assert(sdf[i - 1].0@ == k);
                assert(entries_map(sdf).contains_key(k));
            }
        }
    }
}

/// The earliest entry of a key gives the abstract map's value at that key.
proof fn lemma_entries_map_first_index<V: View>(s: Seq<(String, V)>, i: int)
    requires
        0 <= i < s.len(),
        forall|k: int| 0 <= k < i ==> s[k].0@ != s[i].0@,
    ensures
        entries_map(s).contains_key(s[i].0@),
        entries_map(s)[s[i].0@] == s[i].1@,
    decreases s.len(),
{
    if i == 0 {
    } else {
        let sdf = s.drop_first();
        assert(sdf[i - 1] == s[i]);
        assert forall|k: int| 0 <= k < i - 1 implies #[trigger] sdf[k].0@ != sdf[i - 1].0@ by {
            assert(sdf[k] == s[k + 1]);
        }
        lemma_entries_map_first_index(sdf, i - 1);
        assert(s.first().0@ != s[i].0@);
    }
}

/// Replacing the earliest entry of a key updates the abstract map at it.
proof fn lemma_entries_map_replace<V: View>(s: Seq<(String, V)>, i: int, e: (String, V))
    requires
        0 <= i < s.len(),
        forall|k: int| 0 <= k < i ==> s[k].0@ != s[i].0@,
        e.0@ == s[i].0@,
    ensures
        entries_map(s.update(i, e)) == entries_map(s).insert(e.0@, e.1@),
        entries_unique(s) ==> entries_unique(s.update(i, e)),
    decreases s.len(),
{
    let t = s.update(i, e);
    if i == 0 {
        assert(t.drop_first() =~= s.drop_first());
        assert(entries_map(t) =~= entries_map(s).insert(e.0@, e.1@));
    } else {
        let sdf = s.drop_first();
        assert(sdf[i - 1] == s[i]);
        assert forall|k: int| 0 <= k < i - 1 implies #[trigger] sdf[k].0@ != sdf[i - 1].0@ by {
            assert(sdf[k] == s[k + 1]);
        }
        lemma_entries_map_replace(sdf, i - 1, e);
        assert(t.drop_first() =~= sdf.update(i - 1, e));
        assert(t.first() == s.first());
        assert(entries_map(t) =~= entries_map(s).insert(e.0@, e.1@));
    }
    if entries_unique(s) {
        assert forall|a: int, b: int| 0 <= a < b < t.len() implies t[a].0@ != t[b].0@ by {
            assert(s[a].0@ != s[b].0@);
        }
    }
}

/// Appending an entry whose key is absent adds it to the abstract map.
proof fn lemma_entries_map_push<V: View>(s: Seq<(String, V)>, e: (String, V))
    requires
        forall|k: int| 0 <= k < s.len() ==> s[k].0@ != e.0@,
    ensures
        entries_map(s.push(e)) == entries_map(s).insert(e.0@, e.1@),
        entries_unique(s) ==> entries_unique(s.push(e)),
    decreases s.len(),
{
    let t = s.push(e);
    if s.len() == 0 {
        assert(t.len() == 1);
        assert(t.first() == e);
        assert(t.drop_first() =~= Seq::<(String, V)>::empty());
        assert(entries_map(t.drop_first()) == Map::<Seq<char>, V::V>::empty());
        assert(entries_map(s) == Map::<Seq<char>, V::V>::empty());
        assert(entries_map(t) =~= entries_map(s).insert(e.0@, e.1@));
    } else {
        let sdf = s.drop_first();
        assert forall|k: int| 0 <= k < sdf.len() implies sdf[k].0@ != e.0@ by {
            assert(sdf[k] == s[k + 1]);
        }
        lemma_entries_map_push(sdf, e);
        assert(t.drop_first() =~= sdf.push(e));
        assert(t.first() == s.first());
        assert(s.first().0@ != e.0@);
        assert(entries_map(t) =~= entries_map(s).insert(e.0@, e.1@));
    }
    if entries_unique(s) {
        assert forall|a: int, b: int| 0 <= a < b < t.len() implies t[a].0@ != t[b].0@ by {
            if b < s.len() {
                assert(s[a].0@ != s[b].0@);
            } else {
                assert(s[a].0@ != e.0@);
            }
        }
    }
}

/// Removing the only entry of a key removes the key from the abstract map.
proof fn lemma_entries_map_remove<V: View>(s: Seq<(String, V)>, i: int)
    requires
        entries_unique(s),
        0 <= i < s.len(),
    ensures
        entries_unique(s.remove(i)),
        entries_map(s.remove(i)) == entries_map(s).remove(s[i].0@),
    decreases s.len(),
{
    let t = s.remove(i);
    assert forall|a: int, b: int| 0 <= a < b < t.len() implies t[a].0@ != t[b].0@ by {
        let sa = if a < i {
            a
        } else {
            a + 1
        };
        let sb = if b < i {
            b
        } else {
            b + 1
        };
        assert(t[a] == s[sa]);
        assert(t[b] == s[sb]);
        assert(s[sa].0@ != s[sb].0@);
    }
    if i == 0 {
        assert(t =~= s.drop_first());
        lemma_entries_map_dom(t);
        assert(!entries_map(t).contains_key(s[0].0@));
        assert(entries_map(t) =~= entries_map(s).remove(s[0].0@));
    } else {
        let sdf = s.drop_first();
        assert(sdf[i - 1] == s[i]);
        lemma_entries_map_remove(sdf, i - 1);
        assert(t.drop_first() =~= sdf.remove(i - 1));
        assert(t.first() == s.first());
        assert(s.first().0@ != s[i].0@);
        assert(entries_map(t) =~= entries_map(s).remove(s[i].0@));
    }
}

/// Entry lists with pointwise equal key and value views abstract to the same
/// map.
proof fn lemma_entries_map_congruent<V: View>(s: Seq<(String, V)>, t: Seq<(String, V)>)
    requires
        s.len() == t.len(),
        forall|i: int|
            0 <= i < s.len() ==> #[trigger] t[i].0@ == s[i].0@ && t[i].1@ == s[i].1@,
    ensures
        entries_map(t) == entries_map(s),
    decreases s.len(),
{
    if s.len() > 0 {
        assert forall|i: int|
            0 <= i < s.drop_first().len() implies #[trigger] t.drop_first()[i].0@
            == s.drop_first()[i].0@ && t.drop_first()[i].1@ == s.drop_first()[i].1@ by {
            assert(s.drop_first()[i] == s[i + 1]);
            assert(t.drop_first()[i] == t[i + 1]);
        }
        lemma_entries_map_congruent(s.drop_first(), t.drop_first());
        assert(entries_map(t) =~= entries_map(s));
    }
}

impl<V: View> StrMap<V> {
    /// The empty map.
    pub fn new() -> (r: StrMap<V>)
        ensures
            r@ == Map::<Seq<char>, V::V>::empty(),
            r.spec_len() == 0,
            r.wf(),
    {
        let r = StrMap { entries: Vec::new() };
        proof {
            assert(r@ =~= Map::<Seq<char>, V::V>::empty());
        }
        r
    }

    /// The number of entries.
    pub fn len(&self) -> (r: usize)
        ensures
            r == self.spec_len(),
    {
        self.entries.len()
    }

    pub closed spec fn spec_len(&self) -> nat {
        self.entries@.len()
    }

    /// Well-formedness: no two entries share a key. Constructors establish it
    /// and every mutating method preserves it; only removal relies on it.
    pub closed spec fn wf(&self) -> bool {
        entries_unique(self.entries@)
    }

    /// The map is empty exactly when its abstraction is.
    pub fn is_empty(&self) -> (r: bool)
        ensures
            r == (self@ == Map::<Seq<char>, V::V>::empty()),
    {
        proof {
            if self.entries@.len() > 0 {
                assert(self@.contains_key(self.entries@.first().0@));
            } else {
                assert(self@ =~= Map::<Seq<char>, V::V>::empty());
            }
        }
        self.entries.len() == 0
    }

    /// The index of the earliest entry with key `k`, if any.
    fn find_index(&self, k: &str) -> (r: Option<usize>)
        ensures
            match r {
                Some(i) => i < self.entries@.len() && self.entries@[i as int].0@ == k@ && forall|
                    j: int,
                |
                    0 <= j < i ==> self.entries@[j].0@ != k@,
                None => !self@.contains_key(k@),
            },
    {
        proof {
            lemma_entries_map_dom(self.entries@);
        }
        let n = self.entries.len();
        for i in 0..n
            invariant
                n == self.entries@.len(),
                forall|j: int| 0 <= j < i ==> self.entries@[j].0@ != k@,
        {
            if str_eq(self.entries[i].0.as_str(), k) {
                return Some(i);
            }
        }
        None
    }

    /// Looks a key up.
    pub fn get(&self, k: &str) -> (r: Option<&V>)
        ensures
            match r {
                Some(v) => self@.contains_key(k@) && v@ == self@[k@],
                None => !self@.contains_key(k@),
            },
    {
        match self.find_index(k) {
            Some(i) => {
                proof {
                    lemma_entries_map_first_index(self.entries@, i as int);
                }
                Some(&self.entries[i].1)
            },
            None => None,
        }
    }

    /// True exactly when the key is present.
    pub fn contains_key(&self, k: &str) -> (r: bool)
        ensures
            r == self@.contains_key(k@),
    {
        self.get(k).is_some()
    }

    /// Inserts or replaces the value under `k`.
    pub fn insert(&mut self, k: String, v: V)
        ensures
            final(self)@ == old(self)@.insert(k@, v@),
            old(self).wf() ==> final(self).wf(),
    {
        let ghost old_entries = self.entries@;
        match self.find_index(k.as_str()) {
            Some(i) => {
                self.entries.set(i, (k, v));
                proof {
                    lemma_entries_map_replace(old_entries, i as int, self.entries@[i as int]);
                }
            },
            None => {
                proof {
                    lemma_entries_map_dom(old_entries);
                }
                self.entries.push((k, v));
                proof {
                    lemma_entries_map_push(old_entries, self.entries@.last());
                    assert(self.entries@ =~= old_entries.push(self.entries@.last()));
                }
            },
        }
    }

    /// Removes the entry under `k`, if any.
    pub fn remove(&mut self, k: &str)
        requires
            old(self).wf(),
        ensures
            final(self).wf(),
            final(self)@ == old(self)@.remove(k@),
    {
        let ghost old_entries = self.entries@;
        match self.find_index(k) {
            Some(i) => {
                self.entries.remove(i);
                proof {
                    lemma_entries_map_remove(old_entries, i as int);
                }
            },
            None => {
                proof {
                    assert(final(self)@ =~= old(self)@.remove(k@));
                }
            },
        }
    }

    /// The key of the entry at position `i` in the entry list; with unique
    /// keys it maps to that entry's value.
    pub fn key_at(&self, i: usize) -> (r: &String)
        requires
            i < self.spec_len(),
        ensures
            self@.contains_key(r@),
            self.wf() ==> self@[r@] == self.val_at_spec(i as int),
    {
        proof {
            lemma_entries_map_dom(self.entries@);
            assert(self.entries@[i as int].0@ == self.entries@[i as int].0@);
            if entries_unique(self.entries@) {
                lemma_entries_map_first_index(self.entries@, i as int);
            }
        }
        &self.entries[i].0
    }

    /// The value of the entry at position `i` in the entry list.
    pub fn val_at(&self, i: usize) -> (r: &V)
        requires
            i < self.spec_len(),
        ensures
            r@ == self.val_at_spec(i as int),
    {
        &self.entries[i].1
    }

    /// The abstract value of the entry at position `i`.
    pub closed spec fn val_at_spec(&self, i: int) -> V::V {
        self.entries@[i].1@
    }
}

impl<V: Dup> StrMap<V> {
    /// A copy with the same abstract map.
    pub fn dup(&self) -> (r: StrMap<V>)
        ensures
            r@ == self@,
            r.wf() == self.wf(),
            r.spec_len() == self.spec_len(),
    {
        let mut entries: Vec<(String, V)> = Vec::new();
        let n = self.entries.len();
        for i in 0..n
            invariant
                n == self.entries@.len(),
                entries@.len() == i,
                forall|j: int| 0 <= j < i ==> #[trigger] entries@[j].0@ == self.entries@[j].0@,
                forall|j: int| 0 <= j < i ==> #[trigger] entries@[j].1@ == self.entries@[j].1@,
        {
            entries.push((self.entries[i].0.clone(), self.entries[i].1.dup()));
        }
        let r = StrMap { entries };
        proof {
            lemma_entries_map_congruent(self.entries@, r.entries@);
            if entries_unique(self.entries@) {
                assert forall|a: int, b: int|
                    0 <= a < b < r.entries@.len() implies r.entries@[a].0@
                    != r.entries@[b].0@ by {
                    assert(self.entries@[a].0@ != self.entries@[b].0@);
                }
            }
            if entries_unique(r.entries@) {
                assert forall|a: int, b: int|
                    0 <= a < b < self.entries@.len() implies self.entries@[a].0@
                    != self.entries@[b].0@ by {
                    assert(r.entries@[a].0@ != r.entries@[b].0@);
                }
            }
        }
        r
    }

    /// The union of two maps; on a shared key the entry of `other` wins.
    pub fn union_prefer(&self, other: &StrMap<V>) -> (r: StrMap<V>)
        requires
            other.wf(),
        ensures
            r@ == self@.union_prefer_right(other@),
            self.wf() ==> r.wf(),
    {
        let mut r = self.dup();
        let n = other.entries.len();
        for i in 0..n
            invariant
                other.wf(),
                n == other.entries@.len(),
                r@ == self@.union_prefer_right(entries_map(other.entries@.take(i as int))),
                self.wf() ==> r.wf(),
        {
            let ghost prefix = other.entries@.take(i as int);
            r.insert(other.entries[i].0.clone(), other.entries[i].1.dup());
            proof {
                assert forall|k: int| 0 <= k < prefix.len() implies prefix[k].0@
                    != other.entries@[i as int].0@ by {
                    assert(prefix[k] == other.entries@[k]);
                }
                lemma_entries_map_push(prefix, other.entries@[i as int]);
                assert(other.entries@.take(i as int + 1) =~= prefix.push(
                    other.entries@[i as int],
                ));
                assert(entries_map(other.entries@.take(i as int + 1)) == entries_map(
                    prefix,
                ).insert(other.entries@[i as int].0@, other.entries@[i as int].1@));
                assert(r@ =~= self@.union_prefer_right(
                    entries_map(other.entries@.take(i as int + 1)),
                ));
            }
        }
        proof {
            assert(other.entries@.take(n as int) =~= other.entries@);
        }
        r
    }
}

} // verus!
