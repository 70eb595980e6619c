//! An association table keyed by a `u32` identifier, used by the drive
//! bridge both as the pending-request table (completion id to stored
//! continuation) and as the open-handle table (file id to path).
//!
//! The table is an association list whose mathematical model is a
//! `Map<u32, T>`.  Well-formedness — at most one entry per identifier —
//! is established by the constructor and preserved by every operation.

use vstd::prelude::*;

verus! {

/// Whether `k` occurs as a key in `s`.
pub open spec fn key_in<T>(s: Seq<(u32, T)>, k: u32) -> bool {
    exists|i: int| 0 <= i < s.len() && s[i].0 == k
}

/// All keys of `s` are distinct.
pub open spec fn distinct_keys<T>(s: Seq<(u32, T)>) -> bool {
    forall|i: int, j: int| 0 <= i < j < s.len() ==> s[i].0 != s[j].0
}

/// The map an association list denotes; later entries would win, though a
/// well-formed table never repeats a key.
pub open spec fn as_map<T>(s: Seq<(u32, T)>) -> Map<u32, T>
    decreases s.len(),
{
    if s.len() == 0 {
        Map::empty()
    } else {
        as_map(s.drop_last()).insert(s.last().0, s.last().1)
    }
}

pub proof fn lemma_as_map_dom<T>(s: Seq<(u32, T)>, k: u32)
    ensures
        as_map(s).dom().contains(k) <==> key_in(s, k),
    decreases s.len(),
{
    if s.len() > 0 {
        lemma_as_map_dom(s.drop_last(), k);
        if s.last().0 == k {
            assert(s[s.len() - 1].0 == k);
        } else if key_in(s.drop_last(), k) {
            let i = choose|i: int| 0 <= i < s.drop_last().len() && s.drop_last()[i].0 == k;
            assert(s[i].0 == k);
        } else if key_in(s, k) {
            let i = choose|i: int| 0 <= i < s.len() && s[i].0 == k;
            assert(s.drop_last()[i].0 == k);
        }
    }
}

pub proof fn lemma_as_map_get<T>(s: Seq<(u32, T)>, i: int)
    requires
        distinct_keys(s),
        0 <= i < s.len(),
    ensures
        as_map(s).dom().contains(s[i].0),
        as_map(s)[s[i].0] == s[i].1,
    decreases s.len(),
{
    if i == s.len() - 1 {
        assert(s.last() == s[i]);
    } else {
        assert(s.drop_last()[i] == s[i]);
        lemma_as_map_get(s.drop_last(), i);
        assert(s.last().0 != s[i].0);
    }
}

/// Removing the entry at index `i` removes exactly key `s[i].0` from the map.
pub proof fn lemma_as_map_remove<T>(s: Seq<(u32, T)>, i: int)
    requires
        distinct_keys(s),
        0 <= i < s.len(),
    ensures
        as_map(s.remove(i)) =~= as_map(s).remove(s[i].0),
    decreases s.len(),
{
    let k = s[i].0;
    if i == s.len() - 1 {
        assert(s.remove(i) =~= s.drop_last());
        lemma_as_map_dom(s.drop_last(), k);
        assert(forall|j: int| 0 <= j < s.len() - 1 ==> s.drop_last()[j].0 == s[j].0);
        assert(!key_in(s.drop_last(), k)) by {
            if key_in(s.drop_last(), k) {
                let j = choose|j: int|
                    0 <= j < s.drop_last().len() && s.drop_last()[j].0 == k;
                assert(s[j].0 == s[i].0);
            }
        }
        assert(as_map(s.drop_last()).remove(k) =~= as_map(s.drop_last()));
        assert(as_map(s).remove(k) =~= as_map(s.drop_last()).insert(k, s.last().1).remove(k));
    } else {
        let t = s.drop_last();
        assert(forall|j: int| 0 <= j < t.len() ==> t[j] == s[j]);
        assert(distinct_keys(t));
        lemma_as_map_remove(t, i);
        // s.remove(i) ends with s.last(), and dropping it gives t.remove(i).
        assert(s.remove(i).len() == s.len() - 1);
        assert(s.remove(i).last() == s.last());
        assert(s.remove(i).drop_last() =~= t.remove(i));
        assert(as_map(s.remove(i)) =~= as_map(t.remove(i)).insert(s.last().0, s.last().1));
        assert(s.last().0 != k);
        assert(as_map(t).remove(k).insert(s.last().0, s.last().1)
            =~= as_map(t).insert(s.last().0, s.last().1).remove(k));
    }
}

/// An association table keyed by a `u32` identifier.
pub struct IdTable<T> {
    entries: Vec<(u32, T)>,
}

impl<T> IdTable<T> {
    /// The entries in insertion order.
    pub closed spec fn entries_seq(&self) -> Seq<(u32, T)> {
        self.entries@
    }

    /// Identifier uniqueness: at most one entry per key.
    pub open spec fn wf(&self) -> bool {
        distinct_keys(self.entries_seq())
    }

    /// The mathematical content of the table.
    pub open spec fn view(&self) -> Map<u32, T> {
        as_map(self.entries_seq())
    }

    pub fn new() -> (t: IdTable<T>)
        ensures
            t.wf(),
            t@ =~= Map::empty(),
            t.entries_seq().len() == 0,
    {
        IdTable { entries: Vec::new() }
    }

    pub fn len(&self) -> (n: usize)
        ensures
            n == self.entries_seq().len(),
    {
        self.entries.len()
    }

    /// Whether an entry for `id` is present.
    pub fn contains_id(&self, id: u32) -> (r: bool)
        ensures
            r == self@.dom().contains(id),
    {
        let mut i: usize = 0;
        let n = self.entries.len();
        while i < n
            invariant
                n == self.entries@.len(),
                i <= n,
                forall|j: int| 0 <= j < i ==> self.entries@[j].0 != id,
            decreases n - i,
        {
            if self.entries[i].0 == id {
                proof {
                    lemma_as_map_dom(self.entries@, id);
                }
                return true;
            }
            i = i + 1;
        }
        proof {
            lemma_as_map_dom(self.entries@, id);
        }
        false
    }

    /// The value stored under `id`, if any.
    pub fn get(&self, id: u32) -> (r: Option<&T>)
        requires
            self.wf(),
        ensures
            self@.dom().contains(id) ==> r is Some && *r->Some_0 == self@[id],
            !self@.dom().contains(id) ==> r is None,
    {
        let mut i: usize = 0;
        let n = self.entries.len();
        while i < n
            invariant
                distinct_keys(self.entries@),
                n == self.entries@.len(),
                i <= n,
                forall|j: int| 0 <= j < i ==> self.entries@[j].0 != id,
            decreases n - i,
        {
            if self.entries[i].0 == id {
                proof {
                    lemma_as_map_get(self.entries@, i as int);
                }
                return Some(&self.entries[i].1);
            }
            i = i + 1;
        }
        proof {
            lemma_as_map_dom(self.entries@, id);
        }
        None
    }

    /// Installs the value for a fresh identifier.
    pub fn insert(&mut self, id: u32, v: T)
        requires
            old(self).wf(),
            !old(self)@.dom().contains(id),
        ensures
            final(self).wf(),
            final(self)@ =~= old(self)@.insert(id, v),
            final(self).entries_seq().len() == old(self).entries_seq().len() + 1,
    {
        proof {
            lemma_as_map_dom(self.entries@, id);
        }
        let ghost before = self.entries@;
        self.entries.push((id, v));
        proof {
            assert(self.entries@.drop_last() =~= before);
            assert(forall|j: int| 0 <= j < before.len() ==> self.entries@[j] == before[j]);
        }
    }

    /// Removes and returns the value for `id`; leaves the table
    /// unchanged when no entry matches.
    pub fn remove(&mut self, id: u32) -> (r: Option<T>)
        requires
            old(self).wf(),
        ensures
            final(self).wf(),
            old(self)@.dom().contains(id) ==> r is Some && r->Some_0 == old(self)@[id]
                && final(self)@ =~= old(self)@.remove(id)
                && final(self).entries_seq().len() == old(self).entries_seq().len() - 1,
            !old(self)@.dom().contains(id) ==> r is None && final(self)@ =~= old(self)@
                && final(self).entries_seq() == old(self).entries_seq(),
    {
        let mut i: usize = 0;
        let n = self.entries.len();
        while i < n
            invariant
                self.entries@ == old(self).entries@,
                distinct_keys(self.entries@),
                n == self.entries@.len(),
                i <= n,
                forall|j: int| 0 <= j < i ==> self.entries@[j].0 != id,
            decreases n - i,
        {
            if self.entries[i].0 == id {
                proof {
                    lemma_as_map_get(self.entries@, i as int);
                    lemma_as_map_remove(self.entries@, i as int);
                }
                let ghost before = self.entries@;
                let (_, v) = self.entries.remove(i);
                proof {
                    assert(self.entries@ =~= before.remove(i as int));
                    let after = before.remove(i as int);
                    assert forall|p: int, q: int| 0 <= p < q < after.len()
                        implies after[p].0 != after[q].0 by {
                        let p0: int = if p < i as int { p } else { p + 1 };
                        let q0: int = if q < i as int { q } else { q + 1 };
                        assert(after[p] == before[p0]);
                        assert(after[q] == before[q0]);
                    }
                    lemma_as_map_dom(before, id);
                }
                return Some(v);
            }
            i = i + 1;
        }
        proof {
            lemma_as_map_dom(self.entries@, id);
        }
        None
    }
}

/// Identifier uniqueness: a well-formed table never holds two entries
/// with the same key; for the pending-request table this is the
/// at-most-one-entry-per-completion-id invariant.
pub proof fn lemma_id_unique<T>(t: &IdTable<T>)
    requires
        t.wf(),
    ensures
        forall|i: int, j: int|
            0 <= i < t.entries_seq().len() && 0 <= j < t.entries_seq().len() && i != j
                ==> t.entries_seq()[i].0 != t.entries_seq()[j].0,
{
}

} // verus!
