//! An association list keyed by strings, viewed as a `Map` from key
//! contents to value views.
//!
//! Configuration documents, monitor and command collections and host
//! records are all keyed by names, so this one container backs most of
//! the engine's state.

use vstd::prelude::*;

verus! {

/// A copy that keeps the view. Implemented by every value type the
/// engine stores in a [`StringMap`].
pub trait ViewClone: View + Sized {
    fn view_clone(&self) -> (r: Self)
        ensures
            r@ == self@,
    ;
}

impl ViewClone for String {
    fn view_clone(&self) -> (r: Self)
        ensures
            r@ == self@,
    {
        self.clone()
    }
}

pub struct StringMap<V> {
    entries: Vec<(String, V)>,
}

/// The mapping described by an entry list; a later entry wins over an
/// earlier one with the same key.
pub open spec fn entries_map<V: View>(s: Seq<(String, V)>) -> Map<Seq<char>, V::V>
    decreases s.len(),
{
    if s.len() == 0 {
        Map::empty()
    } else {
        entries_map(s.drop_last()).insert(s.last().0@, s.last().1@)
    }
}

proof fn lemma_entries_map_key<V: View>(s: Seq<(String, V)>, k: Seq<char>)
    ensures
        entries_map(s).contains_key(k) <==> exists|i: int| 0 <= i < s.len() && s[i].0@ == k,
    decreases s.len(),
{
    if s.len() > 0 {
        lemma_entries_map_key(s.drop_last(), k);
        if s.last().0@ != k && entries_map(s).contains_key(k) {
            let i = choose|i: int| 0 <= i < s.drop_last().len() && s.drop_last()[i].0@ == k;
            assert(s[i].0@ == k);
        }
        if exists|i: int| 0 <= i < s.len() && s[i].0@ == k {
            let i = choose|i: int| 0 <= i < s.len() && s[i].0@ == k;
            if i < s.len() - 1 {
                assert(s.drop_last()[i].0@ == k);
            }
        }
    }
}

proof fn lemma_entries_map_at<V: View>(s: Seq<(String, V)>, i: int)
    requires
        0 <= i < s.len(),
        forall|j: int, l: int| 0 <= j < l < s.len() ==> s[j].0@ != s[l].0@,
    ensures
        entries_map(s).contains_key(s[i].0@),
        entries_map(s)[s[i].0@] == s[i].1@,
    decreases s.len(),
{
    lemma_entries_map_key(s, s[i].0@);
    if i < s.len() - 1 {
        assert(s.drop_last()[i] == s[i]);
        lemma_entries_map_at(s.drop_last(), i);
        assert(s.last().0@ != s[i].0@);
    }
}

/// Removing the entry that holds a key removes exactly that key from the map.
proof fn lemma_entries_map_remove<V: View>(s: Seq<(String, V)>, i: int)
    requires
        0 <= i < s.len(),
        forall|j: int, l: int| 0 <= j < l < s.len() ==> s[j].0@ != s[l].0@,
    ensures
        entries_map(s.remove(i)) == entries_map(s).remove(s[i].0@),
    decreases s.len(),
{
    let k = s[i].0@;
    lemma_entries_map_key(s, k);
    lemma_entries_map_key(s.remove(i), k);
    if i == s.len() - 1 {
        assert(s.remove(i) =~= s.drop_last());
        lemma_entries_map_key(s.drop_last(), k);
        assert(!entries_map(s.drop_last()).contains_key(k));
        assert(entries_map(s.drop_last()) =~= entries_map(s).remove(k));
    } else {
        let t = s.remove(i);
        assert(t.drop_last() =~= s.drop_last().remove(i));
        assert(t.last() == s.last());
        lemma_entries_map_remove(s.drop_last(), i);
        assert(entries_map(t) =~= entries_map(s).remove(k));
    }
}

impl<V> StringMap<V> {
    /// Every key appears in at most one entry. Holds of every value of
    /// the type; `use_type_invariant` recovers it where a proof needs it.
    #[verifier::type_invariant]
    pub closed spec fn wf(&self) -> bool {
        forall|j: int, l: int|
            0 <= j < l < self.entries@.len() ==> self.entries@[j].0@ != self.entries@[l].0@
    }

    /// The underlying entries, in insertion order.
    pub closed spec fn entry_seq(&self) -> Seq<(String, V)> {
        self.entries@
    }

    pub open spec fn spec_len(&self) -> nat {
        self.entry_seq().len()
    }
}

impl<V: View> StringMap<V> {
    /// Each entry's key is in the map and maps to that entry's value.
    pub proof fn lemma_entry_at(&self, i: int)
        requires
            self.wf(),
            0 <= i < self.spec_len(),
        ensures
            self@.contains_key(self.entry_seq()[i].0@),
            self@[self.entry_seq()[i].0@] == self.entry_seq()[i].1@,
    {
        lemma_entries_map_at(self.entries@, i);
    }

    /// Entries hold pairwise distinct keys.
    pub proof fn lemma_keys_distinct(&self, j: int, l: int)
        requires
            self.wf(),
            0 <= j < l < self.spec_len(),
        ensures
            self.entry_seq()[j].0@ != self.entry_seq()[l].0@,
    {
    }

    /// Every key in the map is the key of some entry.
    pub proof fn lemma_key_has_entry(&self, k: Seq<char>)
        requires
            self@.contains_key(k),
        ensures
            exists|i: int| 0 <= i < self.spec_len() && self.entry_seq()[i].0@ == k,
    {
        lemma_entries_map_key(self.entries@, k);
        let i = choose|i: int| 0 <= i < self.entries@.len() && self.entries@[i].0@ == k;
        assert(0 <= i < self.spec_len() && self.entry_seq()[i].0@ == k);
    }

    pub fn new() -> (r: Self)
        ensures
            r@ == Map::<Seq<char>, V::V>::empty(),
            r.spec_len() == 0,
    {
        StringMap { entries: Vec::new() }
    }

    pub fn len(&self) -> (r: usize)
        ensures
            r == self.spec_len(),
    {
        self.entries.len()
    }

    fn position_of(&self, key: &str) -> (r: Option<usize>)
        ensures
            match r {
                Some(i) => i < self.entry_seq().len() && self.entry_seq()[i as int].0@ == key@
                    && self@.contains_key(key@) && self@[key@] == self.entry_seq()[i as int].1@,
                None => !self@.contains_key(key@),
            },
    {
        proof {
            use_type_invariant(&*self);
        }
        let ghost s = self.entries@;
        let mut i: usize = 0;
        while i < self.entries.len()
            invariant
                self.wf(),
                s == self.entries@,
                0 <= i <= s.len(),
                forall|j: int| 0 <= j < i ==> s[j].0@ != key@,
            decreases self.entries.len() - i,
        {
            if crate::utils::str_eq(self.entries[i].0.as_str(), key) {
                proof {
                    lemma_entries_map_at(s, i as int);
                }
                return Some(i);
            }
            i += 1;
        }
        proof {
            lemma_entries_map_key(s, key@);
        }
        None
    }

    pub fn contains_key(&self, key: &str) -> (r: bool)
        ensures
            r == self@.contains_key(key@),
    {
        self.position_of(key).is_some()
    }

    pub fn get(&self, key: &str) -> (r: Option<&V>)
        ensures
            match r {
                Some(v) => self@.contains_key(key@) && v@ == self@[key@] && exists|i: int|
                    0 <= i < self.spec_len() && self.entry_seq()[i].0@ == key@ && *v
                        == self.entry_seq()[i].1,
                None => !self@.contains_key(key@),
            },
    {
        match self.position_of(key) {
            Some(i) => Some(&self.entries[i].1),
            None => None,
        }
    }

    pub fn insert(&mut self, key: String, value: V)
        ensures
            final(self)@ == old(self)@.insert(key@, value@),
    {
        proof {
            use_type_invariant(&*self);
        }
        let ghost s0 = self.entries@;
        let position = self.position_of(key.as_str());
        let mut entries: Vec<(String, V)> = Vec::new();
        core::mem::swap(&mut entries, &mut self.entries);
        match position {
            Some(i) => {
                entries.remove(i);
                proof {
                    lemma_entries_map_remove(s0, i as int);
                }
                let ghost s1 = entries@;
                entries.push((key, value));
                proof {
                    assert(entries@.drop_last() =~= s1);
                    assert(entries_map(entries@) =~= entries_map(s0).insert(key@, value@));
                    assert forall|j: int, l: int|
                        0 <= j < l < entries@.len() implies entries@[j].0@
                        != entries@[l].0@ by {
                        if l == entries@.len() - 1 {
                            if j < i {
                                assert(s1[j] == s0[j]);
                            } else {
                                assert(s1[j] == s0[j + 1]);
                            }
                        }
                    }
                }
            },
            None => {
                let ghost s1 = entries@;
                entries.push((key, value));
                proof {
                    assert(entries@.drop_last() =~= s1);
                    assert(entries_map(entries@) =~= entries_map(s0).insert(key@, value@));
                    lemma_entries_map_key(s1, key@);
                }
            },
        }
        self.entries = entries;
    }

    pub fn remove(&mut self, key: &str)
        ensures
            final(self)@ == old(self)@.remove(key@),
    {
        proof {
            use_type_invariant(&*self);
        }
        let ghost s0 = self.entries@;
        let position = self.position_of(key);
        match position {
            Some(i) => {
                let mut entries: Vec<(String, V)> = Vec::new();
                core::mem::swap(&mut entries, &mut self.entries);
                entries.remove(i);
                proof {
                    lemma_entries_map_remove(s0, i as int);
                    assert forall|j: int, l: int|
                        0 <= j < l < entries@.len() implies entries@[j].0@
                        != entries@[l].0@ by {
                        let jj = if j < i { j } else { j + 1 };
                        let ll = if l < i { l } else { l + 1 };
                        assert(entries@[j] == s0[jj]);
                        assert(entries@[l] == s0[ll]);
                    }
                }
                self.entries = entries;
            },
            None => {
                proof {
                    assert(entries_map(s0) =~= entries_map(s0).remove(key@));
                }
            },
        }
    }

    /// The key of the entry at a position, for iteration.
    pub fn key_at(&self, i: usize) -> (r: &String)
        requires
            i < self.spec_len(),
        ensures
            r@ == self.entry_seq()[i as int].0@,
            self@.contains_key(r@),
            self@[r@] == self.entry_seq()[i as int].1@,
    {
        proof {
            use_type_invariant(&*self);
            lemma_entries_map_at(self.entries@, i as int);
        }
        &self.entries[i].0
    }

    /// The value of the entry at a position, for iteration.
    pub fn value_at(&self, i: usize) -> (r: &V)
        requires
            i < self.spec_len(),
        ensures
            *r == self.entry_seq()[i as int].1,
            self@.contains_key(self.entry_seq()[i as int].0@),
            self@[self.entry_seq()[i as int].0@] == r@,
    {
        proof {
            use_type_invariant(&*self);
            lemma_entries_map_at(self.entries@, i as int);
        }
        &self.entries[i].1
    }

    /// Inserts every entry of `other`; on a key both maps hold,
    /// `other`'s value wins.
    pub fn extend_with(&mut self, other: StringMap<V>)
        ensures
            final(self)@ == old(self)@.union_prefer_right(other@),
    {
        let StringMap { entries: mut rest } = other;
        let ghost done: Seq<(String, V)> = Seq::empty();
        proof {
            assert(done + rest@ =~= other.entry_seq());
        }
        while rest.len() > 0
            invariant
                done + rest@ == other.entry_seq(),
                self@ == old(self)@.union_prefer_right(entries_map(done)),
            decreases rest.len(),
        {
            let ghost done0 = done;
            let (key, value) = rest.remove(0);
            proof {
                done = done0.push((key, value));
                assert(done + rest@ =~= other.entry_seq());
                assert(done.drop_last() =~= done0);
            }
            self.insert(key, value);
            proof {
                assert(self@ =~= old(self)@.union_prefer_right(entries_map(done)));
            }
        }
        proof {
            assert(done =~= other.entry_seq());
            assert(self@ =~= old(self)@.union_prefer_right(other@));
        }
    }

    /// Removes and returns the value stored under a key.
    pub fn take(&mut self, key: &str) -> (r: Option<V>)
        ensures
            final(self)@ == old(self)@.remove(key@),
            match r {
                Some(v) => old(self)@.contains_key(key@) && v@ == old(self)@[key@],
                None => !old(self)@.contains_key(key@),
            },
    {
        proof {
            use_type_invariant(&*self);
        }
        let ghost s0 = self.entries@;
        let position = self.position_of(key);
        match position {
            Some(i) => {
                let mut entries: Vec<(String, V)> = Vec::new();
                core::mem::swap(&mut entries, &mut self.entries);
                let (_, value) = entries.remove(i);
                proof {
                    lemma_entries_map_remove(s0, i as int);
                    assert forall|j: int, l: int|
                        0 <= j < l < entries@.len() implies entries@[j].0@
                        != entries@[l].0@ by {
                        let jj = if j < i { j } else { j + 1 };
                        let ll = if l < i { l } else { l + 1 };
                        assert(entries@[j] == s0[jj]);
                        assert(entries@[l] == s0[ll]);
                    }
                }
                self.entries = entries;
                Some(value)
            },
            None => {
                proof {
                    assert(entries_map(s0) =~= entries_map(s0).remove(key@));
                }
                None
            },
        }
    }

    pub fn clear(&mut self)
        ensures
            final(self)@ == Map::<Seq<char>, V::V>::empty(),
            final(self).spec_len() == 0,
    {
        self.entries = Vec::new();
    }
}

impl<V: View> View for StringMap<V> {
    type V = Map<Seq<char>, V::V>;

    closed spec fn view(&self) -> Map<Seq<char>, V::V> {
        entries_map(self.entries@)
    }
}

impl<V: ViewClone> ViewClone for StringMap<V> {
    fn view_clone(&self) -> (r: Self)
        ensures
            r@ == self@,
    {
        let mut r = StringMap::new();
        let n = self.entries.len();
        let mut i: usize = 0;
        while i < n
            invariant
                0 <= i <= n,
                n == self.entries@.len(),
                r@ == entries_map(self.entries@.take(i as int)),
            decreases n - i,
        {
            let key = self.entries[i].0.clone();
            let value = self.entries[i].1.view_clone();
            r.insert(key, value);
            proof {
                assert(self.entries@.take(i as int + 1).drop_last() =~= self.entries@.take(
                    i as int,
                ));
            }
            i += 1;
        }
        proof {
            assert(self.entries@.take(n as int) =~= self.entries@);
        }
        r
    }
}

} // verus!
