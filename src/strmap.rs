//! A map from names to values that keeps its entries sorted by name.
use vstd::prelude::*;
use crate::text::str_eq;
use crate::order::{lemma_lex_irreflexive, lemma_lex_total, lemma_lex_transitive, lex_lt, str_lt};

verus! {

/// No two entries carry the same name.
pub open spec fn names_unique<V>(s: Seq<(String, V)>) -> bool {
    forall|i: int, j: int| 0 <= i < j < s.len() ==> s[i].0@ != s[j].0@
}

/// Some entry carries the name `k`.
pub open spec fn has_name<V>(s: Seq<(String, V)>, k: Seq<char>) -> bool {
    exists|i: int| 0 <= i < s.len() && s[i].0@ == k
}

/// The map that a sequence of entries with unique names stands for.
pub open spec fn entries_view<V>(s: Seq<(String, V)>) -> Map<Seq<char>, V> {
    Map::new(
        |k: Seq<char>| has_name(s, k),
        |k: Seq<char>| s[choose|i: int| 0 <= i < s.len() && s[i].0@ == k].1,
    )
}

/// In a sequence with unique names, each entry is what the map holds under its name.
pub proof fn lemma_entry_in_view<V>(s: Seq<(String, V)>, i: int)
    requires
        names_unique(s),
        0 <= i < s.len(),
    ensures
        entries_view(s).contains_key(s[i].0@),
        entries_view(s)[s[i].0@] == s[i].1,
{
    let k = s[i].0@;
    assert(has_name(s, k));
    let j = choose|j: int| 0 <= j < s.len() && s[j].0@ == k;
    if j != i {
        if j < i {
            assert(s[j].0@ != s[i].0@);
        } else {
            assert(s[i].0@ != s[j].0@);
        }
    }
}

/// The entries of `s` taken one after another into a map.
pub proof fn lemma_view_of_prefix<V>(s: Seq<(String, V)>, i: int)
    requires
        names_unique(s),
        0 <= i < s.len(),
    ensures
        entries_view(s.take(i + 1)) == entries_view(s.take(i)).insert(s[i].0@, s[i].1),
{
    let a = s.take(i);
    let b = s.take(i + 1);
    assert(names_unique(a));
    assert(names_unique(b));
    assert forall|q: Seq<char>| #[trigger] has_name(b, q) == (has_name(a, q) || q == s[i].0@) by {
        if has_name(b, q) {
            let j = choose|j: int| 0 <= j < b.len() && b[j].0@ == q;
            if j < i {
                assert(a[j].0@ == q);
            }
        }
        if has_name(a, q) {
            let j = choose|j: int| 0 <= j < a.len() && a[j].0@ == q;
            assert(b[j].0@ == q);
        }
        if q == s[i].0@ {
            assert(b[i].0@ == q);
        }
    }
    assert forall|q: Seq<char>| #[trigger] has_name(b, q) implies (if q == s[i].0@ {
        entries_view(b)[q] == s[i].1
    } else {
        entries_view(b)[q] == entries_view(a)[q]
    }) by {
        let j = choose|j: int| 0 <= j < b.len() && b[j].0@ == q;
        lemma_entry_in_view(b, j);
        if j < i {
            lemma_entry_in_view(a, j);
        }
        lemma_entry_in_view(b, i);
    }
    assert(entries_view(b) =~= entries_view(a).insert(s[i].0@, s[i].1));
}

/// A sequence with unique names stands for a finite map with one key per entry.
pub proof fn lemma_view_len<V>(s: Seq<(String, V)>)
    requires
        names_unique(s),
    ensures
        entries_view(s).dom().finite(),
        entries_view(s).dom().len() == s.len(),
    decreases s.len(),
{
    if s.len() == 0 {
        assert(entries_view(s) =~= Map::<Seq<char>, V>::empty());
    } else {
        let n = s.len() - 1;
        let t = s.drop_last();
        assert(names_unique(t));
        lemma_view_len(t);
        lemma_view_of_prefix(s, n);
        assert(s.take(n + 1) =~= s);
        assert(s.take(n) =~= t);
        if has_name(t, s[n].0@) {
            let j = choose|j: int| 0 <= j < t.len() && t[j].0@ == s[n].0@;
            assert(s[j].0@ != s[n].0@);
        }
        assert(!entries_view(t).contains_key(s[n].0@));
    }
}

/// The names strictly increase along the entries.
pub open spec fn keys_sorted<V>(s: Seq<(String, V)>) -> bool {
    forall|i: int, j: int| 0 <= i < j < s.len() ==> lex_lt(#[trigger] s[i].0@, #[trigger] s[j].0@)
}

/// Entries sorted by name carry unique names.
pub proof fn lemma_sorted_unique<V>(s: Seq<(String, V)>)
    requires
        keys_sorted(s),
    ensures
        names_unique(s),
{
    assert forall|i: int, j: int| 0 <= i < j < s.len() implies s[i].0@ != s[j].0@ by {
        lemma_lex_irreflexive(s[i].0@);
        assert(lex_lt(s[i].0@, s[j].0@));
    }
}

proof fn lemma_insert_sorted_entries<V>(s: Seq<(String, V)>, p: int, e: (String, V))
    requires
        keys_sorted(s),
        0 <= p <= s.len(),
        !has_name(s, e.0@),
        forall|q: int| 0 <= q < p ==> !lex_lt(e.0@, #[trigger] s[q].0@),
        p < s.len() ==> lex_lt(e.0@, s[p].0@),
    ensures
        keys_sorted(s.insert(p, e)),
        entries_view(s.insert(p, e)) == entries_view(s).insert(e.0@, e.1),
{
    let t = s.insert(p, e);
    s.insert_ensures(p, e);
    lemma_sorted_unique(s);
    assert forall|q: int| 0 <= q < p implies lex_lt(#[trigger] s[q].0@, e.0@) by {
        if s[q].0@ == e.0@ {
            assert(has_name(s, e.0@));
        }
        lemma_lex_total(s[q].0@, e.0@);
    }
    assert forall|q: int| p <= q < s.len() implies lex_lt(e.0@, #[trigger] s[q].0@) by {
        if q > p {
            lemma_lex_transitive(e.0@, s[p].0@, s[q].0@);
        }
    }
    assert forall|i: int, j: int| 0 <= i < j < t.len() implies lex_lt(#[trigger] t[i].0@, #[trigger] t[j].0@) by {
        if j < p {
            assert(t[i] == s[i] && t[j] == s[j]);
        } else if j == p {
            assert(t[i] == s[i]);
        } else if i < p {
            assert(t[i] == s[i] && t[j] == s[j - 1]);
            lemma_lex_transitive(s[i].0@, e.0@, s[j - 1].0@);
        } else if i == p {
            assert(t[j] == s[j - 1]);
        } else {
            assert(t[i] == s[i - 1] && t[j] == s[j - 1]);
        }
    }
    lemma_sorted_unique(t);
    assert forall|k: Seq<char>| #[trigger] has_name(t, k) == (has_name(s, k) || k == e.0@) by {
        if has_name(t, k) {
            let j = choose|j: int| 0 <= j < t.len() && t[j].0@ == k;
            if j < p {
                assert(s[j].0@ == k);
            } else if j > p {
                assert(s[j - 1].0@ == k);
            }
        }
        if has_name(s, k) {
            let j = choose|j: int| 0 <= j < s.len() && s[j].0@ == k;
            if j < p {
                assert(t[j].0@ == k);
            } else {
                assert(t[j + 1].0@ == k);
            }
        }
        if k == e.0@ {
            assert(t[p].0@ == k);
        }
    }
    assert forall|k: Seq<char>| #[trigger] has_name(t, k) implies entries_view(t)[k] == entries_view(s).insert(e.0@, e.1)[k] by {
        let j = choose|j: int| 0 <= j < t.len() && t[j].0@ == k;
        lemma_entry_in_view(t, j);
        if j < p {
            lemma_entry_in_view(s, j);
        } else if j > p {
            lemma_entry_in_view(s, j - 1);
        }
    }
    assert(entries_view(t) =~= entries_view(s).insert(e.0@, e.1));
}

/// A map from names to values, kept as a list of entries sorted by name.
#[derive(Debug, PartialEq)]
pub struct StrMap<V> {
    entries: Vec<(String, V)>,
}

impl<V> StrMap<V> {
    /// The entries, in ascending order of name.
    pub closed spec fn spec_entries(self) -> Seq<(String, V)> {
        self.entries@
    }

    #[verifier::type_invariant]
    spec fn inv(self) -> bool {
        names_unique(self.entries@) && keys_sorted(self.entries@)
    }

    /// The map that the entries stand for.
    pub open spec fn view(&self) -> Map<Seq<char>, V> {
        entries_view(self.spec_entries())
    }

    /// An empty map.
    pub fn new() -> (r: Self)
        ensures
            r.spec_entries() == Seq::<(String, V)>::empty(),
            r@ == Map::<Seq<char>, V>::empty(),
    {
        let r = StrMap { entries: Vec::new() };
        assert(r@ =~= Map::<Seq<char>, V>::empty());
        r
    }

    /// The entries, in ascending order of name.
    pub fn entries(&self) -> (r: &Vec<(String, V)>)
        ensures
            r@ == self.spec_entries(),
            names_unique(r@),
            keys_sorted(r@),
    {
        proof {
            use_type_invariant(self);
        }
        &self.entries
    }

    /// The number of entries, which is the number of names in the map.
    pub fn len(&self) -> (r: usize)
        ensures
            r == self.spec_entries().len(),
            r == self@.dom().len(),
            names_unique(self.spec_entries()),
    {
        proof {
            use_type_invariant(self);
            lemma_view_len(self.entries@);
        }
        self.entries.len()
    }

    /// Whether the map has no entries.
    pub fn is_empty(&self) -> (r: bool)
        ensures
            r == (self@ == Map::<Seq<char>, V>::empty()),
            r == (self.spec_entries().len() == 0),
    {
        proof {
            use_type_invariant(self);
            if self.entries@.len() > 0 {
                lemma_entry_in_view(self.entries@, 0);
                assert(!self@.is_empty());
                assert(self@ != Map::<Seq<char>, V>::empty());
            } else {
                assert(self@ =~= Map::<Seq<char>, V>::empty());
            }
        }
        self.entries.len() == 0
    }

    fn position(&self, key: &str) -> (r: Option<usize>)
        ensures
            match r {
                Some(i) => i < self.spec_entries().len() && self.spec_entries()[i as int].0@ == key@,
                None => !has_name(self.spec_entries(), key@),
            },
    {
        let n = self.entries.len();
        let mut i: usize = 0;
        while i < n
            invariant
                n == self.entries@.len(),
                i <= n,
                forall|j: int| 0 <= j < i ==> self.entries@[j].0@ != key@,
            decreases n - i,
        {
            if str_eq(self.entries[i].0.as_str(), key) {
                return Some(i);
            }
            i = i + 1;
        }
        None
    }

    /// Whether some entry carries the name `key`.
    pub fn contains_key(&self, key: &str) -> (r: bool)
        ensures
            r == self@.contains_key(key@),
    {
        self.position(key).is_some()
    }

    /// The value held under `key`, if any.
    pub fn get(&self, key: &str) -> (r: Option<&V>)
        ensures
            match r {
                Some(v) => self@.contains_key(key@) && *v == self@[key@],
                None => !self@.contains_key(key@),
            },
    {
        proof {
            use_type_invariant(self);
        }
        match self.position(key) {
            Some(i) => {
                proof {
                    lemma_entry_in_view(self.entries@, i as int);
                }
                Some(&self.entries[i].1)
            },
            None => None,
        }
    }

    /// Puts `v` under `key`, in place of any value held there before.
    pub fn insert(&mut self, key: String, v: V)
        ensures
            final(self)@ == old(self)@.insert(key@, v),
    {
        proof {
            use_type_invariant(&*self);
        }
        let ghost old_entries = self.entries@;
        let ghost k = key@;
        match self.position(key.as_str()) {
            Some(i) => {
                let mut taken = StrMap::new();
                std::mem::swap(self, &mut taken);
                let StrMap { mut entries } = taken;
                entries.set(i, (key, v));
                proof {
                    let s = entries@;
                    assert(keys_sorted(s)) by {
                        assert forall|a: int, b: int| 0 <= a < b < s.len() implies lex_lt(
                            #[trigger] s[a].0@,
                            #[trigger] s[b].0@,
                        ) by {
                            assert(lex_lt(old_entries[a].0@, old_entries[b].0@));
                        }
                    }
                    assert(names_unique(s)) by {
                        assert forall|a: int, b: int| 0 <= a < b < s.len() implies s[a].0@
                            != s[b].0@ by {
                            assert(old_entries[a].0@ != old_entries[b].0@);
                        }
                    }
                    assert forall|q: Seq<char>| #[trigger] has_name(s, q) == has_name(
                        old_entries,
                        q,
                    ) by {
                        if has_name(s, q) {
                            let j = choose|j: int| 0 <= j < s.len() && s[j].0@ == q;
                            assert(old_entries[j].0@ == q);
                        }
                        if has_name(old_entries, q) {
                            let j = choose|j: int| 0 <= j < old_entries.len() && old_entries[j].0@ == q;
                            assert(s[j].0@ == q);
                        }
                    }
                    assert forall|q: Seq<char>| #[trigger] has_name(s, q) implies (if q == k {
                        entries_view(s)[q] == v
                    } else {
                        entries_view(s)[q] == entries_view(old_entries)[q]
                    }) by {
                        let j = choose|j: int| 0 <= j < s.len() && s[j].0@ == q;
                        lemma_entry_in_view(s, j);
                        lemma_entry_in_view(old_entries, j);
                    }
                    assert(entries_view(s) =~= entries_view(old_entries).insert(k, v));
                }
                *self = StrMap { entries };
            },
            None => {
                let n = self.entries.len();
                let mut p: usize = 0;
                while p < n && !str_lt(key.as_str(), self.entries[p].0.as_str())
                    invariant
                        n == self.entries@.len(),
                        p <= n,
                        forall|q: int| 0 <= q < p ==> !lex_lt(key@, #[trigger] self.entries@[q].0@),
                    decreases n - p,
                {
                    p = p + 1;
                }
                proof {
                    lemma_insert_sorted_entries(old_entries, p as int, (key, v));
                }
                let mut taken = StrMap::new();
                std::mem::swap(self, &mut taken);
                let StrMap { mut entries } = taken;
                entries.insert(p, (key, v));
                proof {
                    lemma_sorted_unique(entries@);
                }
                *self = StrMap { entries };
            },
        }
    }
}

} // verus!
