//! Sequences of key and value pairs read as maps: a later pair for a key
//! stands over an earlier one.
use vstd::prelude::*;

verus! {

/// The map that the pairs describe.
pub open spec fn pairs_map<V>(ps: Seq<(Seq<char>, V)>) -> Map<Seq<char>, V>
    decreases ps.len(),
{
    if ps.len() == 0 {
        Map::empty()
    } else {
        pairs_map(ps.drop_last()).insert(ps.last().0, ps.last().1)
    }
}

/// The test that keeps the pairs whose key is not `k`.
pub open spec fn key_differs<V>(k: Seq<char>) -> spec_fn((Seq<char>, V)) -> bool {
    |p: (Seq<char>, V)| p.0 != k
}

/// The pairs without those for `k`.
pub open spec fn without_key<V>(ps: Seq<(Seq<char>, V)>, k: Seq<char>) -> Seq<(Seq<char>, V)> {
    ps.filter(key_differs(k))
}

/// The pairs with `(k, v)` standing for `k`: the old pairs for `k` dropped
/// and the new one put at the end.
pub open spec fn with_key<V>(ps: Seq<(Seq<char>, V)>, k: Seq<char>, v: V) -> Seq<(Seq<char>, V)> {
    without_key(ps, k).push((k, v))
}

/// The keys of the pairs, in order.
pub open spec fn keys_of<V>(ps: Seq<(Seq<char>, V)>) -> Seq<Seq<char>> {
    ps.map_values(|p: (Seq<char>, V)| p.0)
}

/// The values of the pairs, in order.
pub open spec fn values_of<V>(ps: Seq<(Seq<char>, V)>) -> Seq<V> {
    ps.map_values(|p: (Seq<char>, V)| p.1)
}

/// Dropping the pairs for a key drops the key from the map.
pub proof fn lemma_without_key<V>(ps: Seq<(Seq<char>, V)>, k: Seq<char>)
    ensures
        pairs_map(without_key(ps, k)) == pairs_map(ps).remove(k),
    decreases ps.len(),
{
    let p = key_differs::<V>(k);
    if ps.len() == 0 {
        assert(ps.filter(p) =~= ps);
        assert(pairs_map(ps).remove(k) =~= pairs_map(ps));
    } else {
        let t = ps.drop_last();
        let a = ps.last();
        lemma_without_key(t, k);
        assert(t.push(a) =~= ps);
        t.lemma_filter_push(a, p);
        if a.0 != k {
            assert(ps.filter(p).drop_last() =~= t.filter(p));
            assert(pairs_map(ps).remove(k) =~= pairs_map(t).remove(k).insert(a.0, a.1));
        } else {
            assert(pairs_map(ps).remove(k) =~= pairs_map(t).remove(k));
        }
    }
}

/// Putting a pair for a key in sets the key in the map.
pub proof fn lemma_with_key<V>(ps: Seq<(Seq<char>, V)>, k: Seq<char>, v: V)
    ensures
        pairs_map(with_key(ps, k, v)) == pairs_map(ps).insert(k, v),
{
    lemma_without_key(ps, k);
    let w = with_key(ps, k, v);
    assert(w.drop_last() =~= without_key(ps, k));
    assert(pairs_map(ps).remove(k).insert(k, v) =~= pairs_map(ps).insert(k, v));
}

/// The pairs without those for `k` keep their keys apart, and hold no `k`.
pub proof fn lemma_without_key_keys<V>(ps: Seq<(Seq<char>, V)>, k: Seq<char>)
    requires
        keys_of(ps).no_duplicates(),
    ensures
        keys_of(without_key(ps, k)).no_duplicates(),
        !keys_of(without_key(ps, k)).contains(k),
    decreases ps.len(),
{
    let p = key_differs::<V>(k);
    if ps.len() > 0 {
        let t = ps.drop_last();
        let a = ps.last();
        assert(keys_of(ps) =~= keys_of(t).push(a.0));
        assert(keys_of(t).no_duplicates()) by {
            assert forall|i: int, j: int|
                0 <= i < keys_of(t).len() && 0 <= j < keys_of(t).len() && i != j implies keys_of(
                t,
            )[i] != keys_of(t)[j] by {
                assert(keys_of(ps)[i] == keys_of(t)[i]);
                assert(keys_of(ps)[j] == keys_of(t)[j]);
            }
        }
        lemma_without_key_keys(t, k);
        assert(t.push(a) =~= ps);
        t.lemma_filter_push(a, p);
        let r = without_key(t, k);
        if a.0 != k {
            assert(keys_of(r.push(a)) =~= keys_of(r).push(a.0));
            assert(!keys_of(r).contains(a.0)) by {
                if keys_of(r).contains(a.0) {
                    let i = choose|i: int| 0 <= i < keys_of(r).len() && keys_of(r)[i] == a.0;
                    let q = r[i];
                    assert(t.filter(p).contains(q));
                    t.lemma_filter_contains_rev(p, q);
                    let j = choose|j: int| 0 <= j < t.len() && t[j] == q;
                    assert(keys_of(ps)[j] == a.0);
                    assert(keys_of(ps)[ps.len() - 1] == a.0);
                }
            }
            assert(keys_of(r.push(a)).no_duplicates()) by {
                let kr = keys_of(r);
                assert forall|i: int, j: int|
                    0 <= i < kr.len() + 1 && 0 <= j < kr.len() + 1 && i != j implies kr.push(a.0)[i]
                    != kr.push(a.0)[j] by {
                    if i == kr.len() {
                        assert(kr.contains(kr[j]));
                    } else if j == kr.len() {
                        assert(kr.contains(kr[i]));
                    }
                }
            }
            assert(!keys_of(r.push(a)).contains(k)) by {
                if keys_of(r.push(a)).contains(k) {
                    let i = choose|i: int|
                        0 <= i < keys_of(r.push(a)).len() && keys_of(r.push(a))[i] == k;
                    if i < r.len() {
                        assert(keys_of(r)[i] == k);
                    }
                }
            }
        }
    } else {
        assert(ps.filter(p) =~= ps);
    }
}

/// Putting a pair for a key in keeps the keys apart.
pub proof fn lemma_with_key_keys<V>(ps: Seq<(Seq<char>, V)>, k: Seq<char>, v: V)
    requires
        keys_of(ps).no_duplicates(),
    ensures
        keys_of(with_key(ps, k, v)).no_duplicates(),
{
    lemma_without_key_keys(ps, k);
    let r = without_key(ps, k);
    let kr = keys_of(r);
    assert(keys_of(with_key(ps, k, v)) =~= kr.push(k));
    assert forall|i: int, j: int|
        0 <= i < kr.len() + 1 && 0 <= j < kr.len() + 1 && i != j implies kr.push(k)[i] != kr.push(
        k,
    )[j] by {
        if i == kr.len() {
            assert(kr.contains(kr[j]));
        } else if j == kr.len() {
            assert(kr.contains(kr[i]));
        }
    }
}

} // verus!
