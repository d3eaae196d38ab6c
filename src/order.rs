//! Lexicographic order on names, and lists of name–text pairs sorted by it:
//! the one order in which a map can be listed.
use vstd::prelude::*;
use vstd::string::*;
use crate::strmap::{entries_view, names_unique, StrMap};

verus! {

/// `a` comes before `b`, comparing character codes from the front; a proper
/// prefix comes first.
pub open spec fn lex_lt(a: Seq<char>, b: Seq<char>) -> bool
    decreases a.len(),
{
    if b.len() == 0 {
        false
    } else if a.len() == 0 {
        true
    } else if a[0] != b[0] {
        (a[0] as int) < (b[0] as int)
    } else {
        lex_lt(a.drop_first(), b.drop_first())
    }
}

/// No name comes before itself.
pub proof fn lemma_lex_irreflexive(a: Seq<char>)
    ensures
        !lex_lt(a, a),
    decreases a.len(),
{
    if a.len() > 0 {
        lemma_lex_irreflexive(a.drop_first());
    }
}

/// Of two names, at most one comes first.
pub proof fn lemma_lex_asymmetric(a: Seq<char>, b: Seq<char>)
    requires
        lex_lt(a, b),
    ensures
        !lex_lt(b, a),
    decreases a.len(),
{
    if a.len() > 0 && b.len() > 0 && a[0] == b[0] {
        lemma_lex_asymmetric(a.drop_first(), b.drop_first());
    }
}

/// The order is transitive.
pub proof fn lemma_lex_transitive(a: Seq<char>, b: Seq<char>, c: Seq<char>)
    requires
        lex_lt(a, b),
        lex_lt(b, c),
    ensures
        lex_lt(a, c),
    decreases a.len(),
{
    if a.len() > 0 && b.len() > 0 && c.len() > 0 && a[0] == b[0] && b[0] == c[0] {
        lemma_lex_transitive(a.drop_first(), b.drop_first(), c.drop_first());
    }
}

/// Of two different names, one comes first.
pub proof fn lemma_lex_total(a: Seq<char>, b: Seq<char>)
    requires
        a != b,
    ensures
        lex_lt(a, b) || lex_lt(b, a),
    decreases a.len(),
{
    if a.len() == 0 {
        assert(b.len() != 0) by {
            if b.len() == 0 {
                assert(a =~= b);
            }
        }
    } else if b.len() > 0 && a[0] != b[0] {
        assert((a[0] as int) != (b[0] as int));
    } else if b.len() > 0 && a[0] == b[0] {
        if a.drop_first() == b.drop_first() {
            assert(a =~= seq![a[0]] + a.drop_first());
            assert(b =~= seq![b[0]] + b.drop_first());
        }
        lemma_lex_total(a.drop_first(), b.drop_first());
    }
}

/// Compares two strings in lexicographic order.
pub fn str_lt(a: &str, b: &str) -> (r: bool)
    ensures
        r == lex_lt(a@, b@),
{
    let n = a.unicode_len();
    let m = b.unicode_len();
    let mut i: usize = 0;
    assert(a@.subrange(0, n as int) =~= a@);
    assert(b@.subrange(0, m as int) =~= b@);
    while i < n && i < m
        invariant
            n == a@.len(),
            m == b@.len(),
            i <= n,
            i <= m,
            lex_lt(a@, b@) == lex_lt(a@.subrange(i as int, n as int), b@.subrange(i as int, m as int)),
        decreases n - i,
    {
        let ca = a.get_char(i);
        let cb = b.get_char(i);
        let ghost sa = a@.subrange(i as int, n as int);
        let ghost sb = b@.subrange(i as int, m as int);
        assert(sa[0] == ca && sb[0] == cb);
        if ca != cb {
            return (ca as u32) < (cb as u32);
        }
        assert(sa.drop_first() =~= a@.subrange(i + 1, n as int));
        assert(sb.drop_first() =~= b@.subrange(i + 1, m as int));
        i = i + 1;
    }
    i < m
}

/// Name–text pairs as plain values.
pub open spec fn pair_view(s: Seq<(String, String)>) -> Seq<(Seq<char>, Seq<char>)> {
    s.map_values(|e: (String, String)| (e.0@, e.1@))
}

/// The names strictly increase along the list.
pub open spec fn sorted_names(s: Seq<(Seq<char>, Seq<char>)>) -> bool {
    forall|i: int, j: int| 0 <= i < j < s.len() ==> lex_lt(#[trigger] s[i].0, #[trigger] s[j].0)
}

/// Some pair carries the name `k`.
pub open spec fn pairs_have(s: Seq<(Seq<char>, Seq<char>)>, k: Seq<char>) -> bool {
    exists|i: int| 0 <= i < s.len() && s[i].0 == k
}

/// The map that a list of pairs with unique names stands for.
pub open spec fn pairs_map(s: Seq<(Seq<char>, Seq<char>)>) -> Map<Seq<char>, Seq<char>> {
    Map::new(
        |k: Seq<char>| pairs_have(s, k),
        |k: Seq<char>| s[choose|i: int| 0 <= i < s.len() && s[i].0 == k].1,
    )
}

/// The one sorted list of pairs that stands for a map.
pub open spec fn canonical_pairs(m: Map<Seq<char>, Seq<char>>) -> Seq<(Seq<char>, Seq<char>)> {
    choose|s: Seq<(Seq<char>, Seq<char>)>| sorted_names(s) && pairs_map(s) == m
}

proof fn lemma_sorted_pair_value(s: Seq<(Seq<char>, Seq<char>)>, i: int)
    requires
        sorted_names(s),
        0 <= i < s.len(),
    ensures
        pairs_map(s).contains_key(s[i].0),
        pairs_map(s)[s[i].0] == s[i].1,
{
    assert(pairs_have(s, s[i].0));
    let j = choose|j: int| 0 <= j < s.len() && s[j].0 == s[i].0;
    if j < i {
        lemma_lex_irreflexive(s[i].0);
        assert(lex_lt(s[j].0, s[i].0));
    } else if j > i {
        lemma_lex_irreflexive(s[i].0);
        assert(lex_lt(s[i].0, s[j].0));
    }
}

proof fn lemma_pairs_map_rest(s: Seq<(Seq<char>, Seq<char>)>)
    requires
        sorted_names(s),
        s.len() > 0,
    ensures
        pairs_map(s.drop_first()) == pairs_map(s).remove(s[0].0),
{
    let t = s.drop_first();
    assert(sorted_names(t)) by {
        assert forall|i: int, j: int| 0 <= i < j < t.len() implies lex_lt(#[trigger] t[i].0, #[trigger] t[j].0) by {
            assert(t[i] == s[i + 1] && t[j] == s[j + 1]);
        }
    }
    assert forall|k: Seq<char>| #[trigger] pairs_have(t, k) == (pairs_have(s, k) && k != s[0].0) by {
        if pairs_have(t, k) {
            let j = choose|j: int| 0 <= j < t.len() && t[j].0 == k;
            assert(s[j + 1].0 == k);
            assert(lex_lt(s[0].0, s[j + 1].0));
            lemma_lex_irreflexive(k);
        }
        if pairs_have(s, k) && k != s[0].0 {
            let j = choose|j: int| 0 <= j < s.len() && s[j].0 == k;
            assert(j != 0);
            assert(t[j - 1].0 == k);
        }
    }
    assert forall|k: Seq<char>| #[trigger] pairs_have(t, k) implies pairs_map(t)[k] == pairs_map(s)[k] by {
        let j = choose|j: int| 0 <= j < t.len() && t[j].0 == k;
        lemma_sorted_pair_value(t, j);
        lemma_sorted_pair_value(s, j + 1);
        assert(t[j] == s[j + 1]);
    }
    assert(pairs_map(t) =~= pairs_map(s).remove(s[0].0));
}

/// Two sorted lists of pairs that stand for the same map are the same list.
pub proof fn lemma_sorted_pairs_unique(s1: Seq<(Seq<char>, Seq<char>)>, s2: Seq<(Seq<char>, Seq<char>)>)
    requires
        sorted_names(s1),
        sorted_names(s2),
        pairs_map(s1) == pairs_map(s2),
    ensures
        s1 == s2,
    decreases s1.len() + s2.len(),
{
    if s1.len() == 0 || s2.len() == 0 {
        if s1.len() > 0 {
            assert(pairs_map(s1).contains_key(s1[0].0)) by {
                assert(pairs_have(s1, s1[0].0));
            }
        }
        if s2.len() > 0 {
            assert(pairs_map(s2).contains_key(s2[0].0)) by {
                assert(pairs_have(s2, s2[0].0));
            }
        }
        assert(s1 =~= s2);
    } else {
        let k1 = s1[0].0;
        let k2 = s2[0].0;
        lemma_sorted_pair_value(s1, 0);
        lemma_sorted_pair_value(s2, 0);
        if k1 != k2 {
            assert(pairs_have(s2, k1));
            let j = choose|j: int| 0 <= j < s2.len() && s2[j].0 == k1;
            assert(j != 0);
            assert(lex_lt(k2, k1));
            assert(pairs_have(s1, k2));
            let i = choose|i: int| 0 <= i < s1.len() && s1[i].0 == k2;
            assert(i != 0);
            assert(lex_lt(k1, k2));
            lemma_lex_asymmetric(k1, k2);
        }
        assert(s1[0] == s2[0]);
        lemma_pairs_map_rest(s1);
        lemma_pairs_map_rest(s2);
        assert(sorted_names(s1.drop_first())) by {
            assert forall|i: int, j: int| 0 <= i < j < s1.drop_first().len() implies lex_lt(
                #[trigger] s1.drop_first()[i].0,
                #[trigger] s1.drop_first()[j].0,
            ) by {
                assert(s1.drop_first()[i] == s1[i + 1] && s1.drop_first()[j] == s1[j + 1]);
            }
        }
        assert(sorted_names(s2.drop_first())) by {
            assert forall|i: int, j: int| 0 <= i < j < s2.drop_first().len() implies lex_lt(
                #[trigger] s2.drop_first()[i].0,
                #[trigger] s2.drop_first()[j].0,
            ) by {
                assert(s2.drop_first()[i] == s2[i + 1] && s2.drop_first()[j] == s2[j + 1]);
            }
        }
        lemma_sorted_pairs_unique(s1.drop_first(), s2.drop_first());
        assert(s1 =~= seq![s1[0]] + s1.drop_first());
        assert(s2 =~= seq![s2[0]] + s2.drop_first());
    }
}


/// A sorted list stands for its map in the one sorted way.
pub proof fn lemma_canonical(s: Seq<(Seq<char>, Seq<char>)>)
    requires
        sorted_names(s),
    ensures
        canonical_pairs(pairs_map(s)) == s,
{
    let m = pairs_map(s);
    assert(sorted_names(s) && pairs_map(s) == m);
    let c = canonical_pairs(m);
    lemma_sorted_pairs_unique(c, s);
}

proof fn lemma_insert_sorted(s: Seq<(Seq<char>, Seq<char>)>, p: int, e: (Seq<char>, Seq<char>))
    requires
        sorted_names(s),
        0 <= p <= s.len(),
        !pairs_have(s, e.0),
        forall|q: int| 0 <= q < p ==> !lex_lt(e.0, #[trigger] s[q].0),
        p < s.len() ==> lex_lt(e.0, s[p].0),
    ensures
        sorted_names(s.insert(p, e)),
        pairs_map(s.insert(p, e)) == pairs_map(s).insert(e.0, e.1),
{
    let t = s.insert(p, e);
    s.insert_ensures(p, e);
    assert forall|q: int| 0 <= q < p implies lex_lt(#[trigger] s[q].0, e.0) by {
        if s[q].0 == e.0 {
            assert(pairs_have(s, e.0));
        }
        lemma_lex_total(s[q].0, e.0);
    }
    assert forall|q: int| p <= q < s.len() implies lex_lt(e.0, #[trigger] s[q].0) by {
        if q > p {
            lemma_lex_transitive(e.0, s[p].0, s[q].0);
        }
    }
    assert forall|i: int, j: int| 0 <= i < j < t.len() implies lex_lt(#[trigger] t[i].0, #[trigger] t[j].0) by {
        if j < p {
            assert(t[i] == s[i] && t[j] == s[j]);
        } else if j == p {
            assert(t[i] == s[i]);
        } else if i < p {
            assert(t[i] == s[i] && t[j] == s[j - 1]);
            lemma_lex_transitive(s[i].0, e.0, s[j - 1].0);
        } else if i == p {
            assert(t[j] == s[j - 1]);
        } else {
            assert(t[i] == s[i - 1] && t[j] == s[j - 1]);
        }
    }
    assert forall|k: Seq<char>| #[trigger] pairs_have(t, k) == (pairs_have(s, k) || k == e.0) by {
        if pairs_have(t, k) {
            let j = choose|j: int| 0 <= j < t.len() && t[j].0 == k;
            if j < p {
                assert(s[j].0 == k);
            } else if j > p {
                assert(s[j - 1].0 == k);
            }
        }
        if pairs_have(s, k) {
            let j = choose|j: int| 0 <= j < s.len() && s[j].0 == k;
            if j < p {
                assert(t[j].0 == k);
            } else {
                assert(t[j + 1].0 == k);
            }
        }
        if k == e.0 {
            assert(t[p].0 == k);
        }
    }
    assert forall|k: Seq<char>| #[trigger] pairs_have(t, k) implies pairs_map(t)[k] == pairs_map(s).insert(e.0, e.1)[k] by {
        let j = choose|j: int| 0 <= j < t.len() && t[j].0 == k;
        lemma_sorted_pair_value(t, j);
        if j < p {
            lemma_sorted_pair_value(s, j);
        } else if j > p {
            lemma_sorted_pair_value(s, j - 1);
        }
    }
    assert(pairs_map(t) =~= pairs_map(s).insert(e.0, e.1));
}

/// The entries of a map of texts, sorted by name.
pub fn sorted_pairs(m: &StrMap<String>) -> (r: Vec<(String, String)>)
    ensures
        pair_view(r@) == canonical_pairs(m@.map_values(|s: String| s@)),
{
    let es = m.entries();
    let n = es.len();
    let mut r: Vec<(String, String)> = Vec::new();
    let mut i: usize = 0;
    assert(es@.take(0) =~= Seq::<(String, String)>::empty());
    assert(pairs_map(pair_view(r@)) =~= entries_view(es@.take(0)).map_values(|s: String| s@));
    while i < n
        invariant
            n == es@.len(),
            i <= n,
            names_unique(es@),
            es@ == m.spec_entries(),
            sorted_names(pair_view(r@)),
            pairs_map(pair_view(r@)) == entries_view(es@.take(i as int)).map_values(|s: String| s@),
        decreases n - i,
    {
        let k = &es[i].0;
        let len = r.len();
        let mut j: usize = 0;
        while j < len && !str_lt(k.as_str(), r[j].0.as_str())
            invariant
                len == r@.len(),
                j <= len,
                forall|q: int| 0 <= q < j ==> !lex_lt(k@, #[trigger] pair_view(r@)[q].0),
            decreases len - j,
        {
            j = j + 1;
        }
        let ghost pv = pair_view(r@);
        let ghost e = (k@, es@[i as int].1@);
        proof {
            crate::strmap::lemma_view_of_prefix(es@, i as int);
            if pairs_have(pv, k@) {
                let q = choose|q: int| 0 <= q < pv.len() && pv[q].0 == k@;
                assert(pairs_map(pv).contains_key(k@));
                assert(entries_view(es@.take(i as int)).contains_key(k@));
                let w = choose|w: int| 0 <= w < es@.take(i as int).len() && es@.take(i as int)[w].0@ == k@;
                assert(es@[w].0@ != es@[i as int].0@);
            }
            lemma_insert_sorted(pv, j as int, e);
        }
        r.insert(j, (k.clone(), es[i].1.clone()));
        proof {
            assert(pair_view(r@) =~= pv.insert(j as int, e));
            assert(pairs_map(pair_view(r@)) =~= entries_view(es@.take(i + 1)).map_values(|s: String| s@));
        }
        i = i + 1;
    }
    assert(es@.take(n as int) =~= es@);
    proof {
        lemma_canonical(pair_view(r@));
    }
    r
}

} // verus!
