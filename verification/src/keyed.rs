//! An ordered map from names to values, the registry behind the method, session,
//! template, tool, server and credential stores. Names are unique; entries keep
//! the order in which their names were first inserted.

use vstd::prelude::*;
use crate::text::str_eq;

verus! {

/// The names of a list of entries are pairwise distinct.
pub open spec fn unique_names<V>(s: Seq<(String, V)>) -> bool {
    forall|i: int, j: int| 0 <= i < s.len() && 0 <= j < s.len() && i != j ==> s[i].0@ != s[j].0@
}

/// Some entry carries the name `k`.
pub open spec fn has_name<V>(s: Seq<(String, V)>, k: Seq<char>) -> bool {
    exists|i: int| 0 <= i < s.len() && s[i].0@ == k
}

/// The value of the entry named `k`.
pub open spec fn lookup<V>(s: Seq<(String, V)>, k: Seq<char>) -> Option<V> {
    if has_name(s, k) {
        Some(s[choose|i: int| 0 <= i < s.len() && s[i].0@ == k].1)
    } else {
        None
    }
}

/// The names of the entries, in order.
pub open spec fn names_of<V>(s: Seq<(String, V)>) -> Seq<Seq<char>> {
    s.map_values(|e: (String, V)| e.0@)
}

/// The entries after storing `v` under the name of `k`: in place of the entry
/// with that name if there is one, as a new last entry otherwise.
pub open spec fn insert_entry<V>(s: Seq<(String, V)>, k: String, v: V) -> Seq<(String, V)> {
    if has_name(s, k@) {
        s.update(choose|i: int| 0 <= i < s.len() && s[i].0@ == k@, (k, v))
    } else {
        s.push((k, v))
    }
}

/// The entries after storing each of `pairs` in turn.
pub open spec fn insert_all<V>(s: Seq<(String, V)>, pairs: Seq<(String, V)>) -> Seq<(String, V)>
    decreases pairs.len(),
{
    if pairs.len() == 0 {
        s
    } else {
        insert_entry(insert_all(s, pairs.drop_last()), pairs.last().0, pairs.last().1)
    }
}

/// With distinct names, the entry at `i` is the one found under its name.
pub proof fn lemma_lookup_at<V>(s: Seq<(String, V)>, i: int)
    requires
        unique_names(s),
        0 <= i < s.len(),
    ensures
        lookup(s, s[i].0@) == Some(s[i].1),
{
    assert(has_name(s, s[i].0@));
    let j = choose|j: int| 0 <= j < s.len() && s[j].0@ == s[i].0@;
    assert(j == i);
}

/// Storing keeps names distinct; the name stored under then gives the value
/// stored, and every other name gives what it gave before.
pub proof fn lemma_insert_lookup<V>(s: Seq<(String, V)>, k: String, v: V)
    requires
        unique_names(s),
    ensures
        unique_names(insert_entry(s, k, v)),
        lookup(insert_entry(s, k, v), k@) == Some(v),
        forall|j: Seq<char>| j != k@ ==> lookup(insert_entry(s, k, v), j) == lookup(s, j),
{
    let t = insert_entry(s, k, v);
    if has_name(s, k@) {
        let i = choose|i: int| 0 <= i < s.len() && s[i].0@ == k@;
        assert(t == s.update(i, (k, v)));
        assert(unique_names(t));
        lemma_lookup_at(t, i);
        assert forall|j: Seq<char>| j != k@ implies lookup(t, j) == lookup(s, j) by {
            if has_name(s, j) {
                let a = choose|a: int| 0 <= a < s.len() && s[a].0@ == j;
                lemma_lookup_at(s, a);
                lemma_lookup_at(t, a);
            } else {
                assert forall|a: int| 0 <= a < t.len() implies t[a].0@ != j by {
                    if a != i { assert(t[a] == s[a]); }
                }
            }
        }
    } else {
        assert(t == s.push((k, v)));
        assert(unique_names(t));
        lemma_lookup_at(t, s.len() as int);
        assert forall|j: Seq<char>| j != k@ implies lookup(t, j) == lookup(s, j) by {
            if has_name(s, j) {
                let a = choose|a: int| 0 <= a < s.len() && s[a].0@ == j;
                lemma_lookup_at(s, a);
                lemma_lookup_at(t, a);
            } else {
                assert forall|a: int| 0 <= a < t.len() implies t[a].0@ != j by {
                    if a < s.len() { assert(t[a] == s[a]); }
                }
            }
        }
    }
}

/// An ordered map from names to values with distinct names.
#[derive(Debug)]
pub struct KeyedList<V> {
    entries: Vec<(String, V)>,
}

impl<V> KeyedList<V> {
    /// The entries, in order.
    pub closed spec fn entries(&self) -> Seq<(String, V)> {
        self.entries@
    }

    /// The value stored under `k`.
    pub open spec fn spec_get(&self, k: Seq<char>) -> Option<V> {
        lookup(self.entries(), k)
    }

    /// The names, in order.
    pub open spec fn names(&self) -> Seq<Seq<char>> {
        names_of(self.entries())
    }

    #[verifier::type_invariant]
    closed spec fn inv(&self) -> bool {
        unique_names(self.entries@)
    }

    /// A name is stored exactly when it is among the names.
    pub proof fn lemma_names_are_keys(&self)
        ensures
            forall|k: Seq<char>| self.spec_get(k) is Some <==> self.names().contains(k),
    {
        assert forall|k: Seq<char>| self.spec_get(k) is Some <==> self.names().contains(k) by {
            if self.spec_get(k) is Some {
                let i = choose|i: int| 0 <= i < self.entries().len() && self.entries()[i].0@ == k;
                assert(self.names()[i] == k);
            }
            if self.names().contains(k) {
                let i = choose|i: int| 0 <= i < self.names().len() && self.names()[i] == k;
                assert(self.entries()[i].0@ == k);
            }
        }
    }

    /// An empty map.
    pub fn new() -> (r: KeyedList<V>)
        ensures
            r.entries().len() == 0,
            forall|k: Seq<char>| r.spec_get(k) is None,
    {
        KeyedList { entries: Vec::new() }
    }

    /// The number of entries.
    pub fn len(&self) -> (r: usize)
        ensures
            r == self.entries().len(),
            unique_names(self.entries()),
    {
        proof { use_type_invariant(self); }
        self.entries.len()
    }

    /// The index of the entry named `k`.
    fn index_of(&self, k: &str) -> (r: Option<usize>)
        ensures
            match r {
                Some(i) => i < self.entries().len() && self.entries()[i as int].0@ == k@,
                None => !has_name(self.entries(), k@),
            },
    {
        let mut i: usize = 0;
        while i < self.entries.len()
            invariant
                i <= self.entries@.len(),
                forall|j: int| 0 <= j < i ==> self.entries@[j].0@ != k@,
            decreases self.entries.len() - i,
        {
            if str_eq(self.entries[i].0.as_str(), k) {
                return Some(i);
            }
            i = i + 1;
        }
        None
    }

    /// The value stored under `k`.
    pub fn get(&self, k: &str) -> (r: Option<&V>)
        ensures
            match r {
                Some(v) => self.spec_get(k@) == Some(*v),
                None => self.spec_get(k@) is None,
            },
            unique_names(self.entries()),
    {
        proof { use_type_invariant(self); }
        match self.index_of(k) {
            Some(i) => {
                proof { lemma_lookup_at(self.entries@, i as int); }
                Some(&self.entries[i].1)
            },
            None => None,
        }
    }

    /// Whether a value is stored under `k`.
    pub fn contains_key(&self, k: &str) -> (r: bool)
        ensures
            r == self.spec_get(k@) is Some,
    {
        self.index_of(k).is_some()
    }

    /// The entry at position `i`.
    pub fn entry_at(&self, i: usize) -> (r: (&String, &V))
        requires
            i < self.entries().len(),
        ensures
            *r.0 == self.entries()[i as int].0,
            *r.1 == self.entries()[i as int].1,
            self.spec_get(r.0@) == Some(*r.1),
    {
        proof {
            use_type_invariant(self);
            lemma_lookup_at(self.entries@, i as int);
        }
        (&self.entries[i].0, &self.entries[i].1)
    }

    /// Stores `v` under `k`: in place of the old value when `k` is present, as a
    /// new last entry otherwise. Gives back the old value.
    pub fn insert(&mut self, k: String, v: V) -> (r: Option<V>)
        ensures
            r == old(self).spec_get(k@),
            final(self).entries() == insert_entry(old(self).entries(), k, v),
            final(self).spec_get(k@) == Some(v),
            forall|j: Seq<char>| j != k@ ==> final(self).spec_get(j) == old(self).spec_get(j),
            old(self).spec_get(k@) is Some ==> final(self).names() == old(self).names(),
            old(self).spec_get(k@) is None ==> final(self).names() == old(self).names().push(k@),
            unique_names(final(self).entries()),
    {
        proof { use_type_invariant(&*self); }
        let ghost old_entries = self.entries@;
        match self.index_of(k.as_str()) {
            Some(i) => {
                proof {
                    lemma_lookup_at(old_entries, i as int);
                    let c = choose|c: int| 0 <= c < old_entries.len() && old_entries[c].0@ == k@;
                    assert(c == i);
                }
                let mut es: Vec<(String, V)> = Vec::new();
                std::mem::swap(&mut es, &mut self.entries);
                let old_v = es.remove(i);
                es.insert(i, (k, v));
                proof {
                    let s = es@;
                    assert(s =~= old_entries.update(i as int, s[i as int]));
                    assert(unique_names(s));
                    lemma_lookup_at(s, i as int);
                    assert forall|j: Seq<char>| j != s[i as int].0@ implies lookup(s, j) == lookup(old_entries, j) by {
                        if has_name(s, j) {
                            let a = choose|a: int| 0 <= a < s.len() && s[a].0@ == j;
                            lemma_lookup_at(s, a);
                            lemma_lookup_at(old_entries, a);
                        } else {
                            assert forall|a: int| 0 <= a < old_entries.len() implies old_entries[a].0@ != j by {
                                if a != i { assert(s[a] == old_entries[a]); }
                            }
                        }
                    }
                    assert(names_of(s) =~= names_of(old_entries));
                }
                self.entries = es;
                Some(old_v.1)
            },
            None => {
                let mut es: Vec<(String, V)> = Vec::new();
                std::mem::swap(&mut es, &mut self.entries);
                es.push((k, v));
                proof {
                    let s = es@;
                    assert(unique_names(s));
                    lemma_lookup_at(s, (s.len() - 1) as int);
                    assert forall|j: Seq<char>| j != k@ implies lookup(s, j) == lookup(old_entries, j) by {
                        if has_name(old_entries, j) {
                            let a = choose|a: int| 0 <= a < old_entries.len() && old_entries[a].0@ == j;
                            lemma_lookup_at(s, a);
                            lemma_lookup_at(old_entries, a);
                        } else {
                            assert forall|a: int| 0 <= a < s.len() implies s[a].0@ != j by {
                                if a < old_entries.len() { assert(s[a] == old_entries[a]); }
                            }
                        }
                    }
                    assert(names_of(s) =~= names_of(old_entries).push(k@));
                }
                self.entries = es;
                None
            },
        }
    }

    /// Removes the entry named `k`, giving back its value.
    pub fn remove(&mut self, k: &str) -> (r: Option<V>)
        ensures
            r == old(self).spec_get(k@),
            final(self).spec_get(k@) is None,
            forall|j: Seq<char>| j != k@ ==> final(self).spec_get(j) == old(self).spec_get(j),
            old(self).spec_get(k@) is None ==> final(self).entries() == old(self).entries(),
            old(self).spec_get(k@) is Some ==> exists|i: int| 0 <= i < old(self).entries().len()
                && final(self).entries() == old(self).entries().remove(i),
    {
        proof { use_type_invariant(&*self); }
        let ghost old_entries = self.entries@;
        match self.index_of(k) {
            Some(i) => {
                proof { lemma_lookup_at(old_entries, i as int); }
                let mut es: Vec<(String, V)> = Vec::new();
                std::mem::swap(&mut es, &mut self.entries);
                let e = es.remove(i);
                proof {
                    let s = es@;
                    assert(s =~= old_entries.remove(i as int));
                    assert(unique_names(s));
                    assert forall|a: int| 0 <= a < s.len() implies s[a].0@ != k@ by {
                        if a < i { assert(s[a] == old_entries[a]); } else { assert(s[a] == old_entries[a + 1]); }
                    }
                    assert forall|j: Seq<char>| j != k@ implies lookup(s, j) == lookup(old_entries, j) by {
                        if has_name(s, j) {
                            let a = choose|a: int| 0 <= a < s.len() && s[a].0@ == j;
                            lemma_lookup_at(s, a);
                            if a < i { lemma_lookup_at(old_entries, a); } else { lemma_lookup_at(old_entries, a + 1); }
                        } else {
                            assert forall|a: int| 0 <= a < old_entries.len() implies old_entries[a].0@ != j by {
                                if a < i { assert(s[a] == old_entries[a]); }
                                else if a > i { assert(s[a - 1] == old_entries[a]); }
                            }
                        }
                    }
                }
                self.entries = es;
                Some(e.1)
            },
            None => None,
        }
    }

    /// The names, in order.
    pub fn key_list(&self) -> (r: Vec<String>)
        ensures
            r@.map_values(|s: String| s@) == self.names(),
    {
        let mut out: Vec<String> = Vec::new();
        let mut i: usize = 0;
        while i < self.entries.len()
            invariant
                i <= self.entries@.len(),
                out@.map_values(|s: String| s@) == names_of(self.entries@.subrange(0, i as int)),
            decreases self.entries.len() - i,
        {
            let ghost prev = out@;
            let name = self.entries[i].0.clone();
            out.push(name);
            assert(self.entries@.subrange(0, i + 1) =~= self.entries@.subrange(0, i as int).push(self.entries@[i as int]));
            assert(out@ =~= prev.push(name));
            assert(out@.map_values(|s: String| s@) =~= prev.map_values(|s: String| s@).push(name@));
            i = i + 1;
            assert(out@.map_values(|s: String| s@) =~= names_of(self.entries@.subrange(0, i as int)));
        }
        assert(self.entries@.subrange(0, self.entries@.len() as int) =~= self.entries@);
        out
    }
}

impl<V: Clone> Clone for KeyedList<V> {
    /// A copy with the same names, in the same order, each value cloned.
    fn clone(&self) -> (r: Self)
        ensures
            r.entries().len() == self.entries().len(),
            forall|i: int| 0 <= i < self.entries().len() ==> #[trigger] r.entries()[i].0 == self.entries()[i].0,
            forall|i: int| 0 <= i < self.entries().len() ==> cloned::<V>(self.entries()[i].1, #[trigger] r.entries()[i].1),
    {
        proof { use_type_invariant(self); }
        let mut out: Vec<(String, V)> = Vec::new();
        let mut i: usize = 0;
        while i < self.entries.len()
            invariant
                i <= self.entries@.len(),
                out@.len() == i,
                unique_names(self.entries@),
                forall|j: int| 0 <= j < i ==> #[trigger] out@[j].0 == self.entries@[j].0,
                forall|j: int| 0 <= j < i ==> cloned::<V>(self.entries@[j].1, #[trigger] out@[j].1),
            decreases self.entries.len() - i,
        {
            let k = self.entries[i].0.clone();
            let v = self.entries[i].1.clone();
            out.push((k, v));
            i = i + 1;
        }
        assert(unique_names(out@));
        KeyedList { entries: out }
    }
}

} // verus!
