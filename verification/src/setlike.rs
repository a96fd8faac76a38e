//! Sequences used as sets: nothing occurs twice, an insertion adds at the end
//! what is not there yet, a removal keeps the rest in order.
use vstd::prelude::*;

verus! {

/// `s` with `x` added at the end, unless it is there already.
pub open spec fn seq_insert<A>(s: Seq<A>, x: A) -> Seq<A> {
    if s.contains(x) {
        s
    } else {
        s.push(x)
    }
}

/// The test that keeps what differs from `x`.
pub open spec fn differs_from<A>(x: A) -> spec_fn(A) -> bool {
    |y: A| y != x
}

/// `s` without `x`, the others kept in order.
pub open spec fn seq_remove<A>(s: Seq<A>, x: A) -> Seq<A> {
    s.filter(differs_from(x))
}

/// What an insertion keeps and adds.
pub proof fn lemma_insert<A>(s: Seq<A>, x: A)
    requires
        s.no_duplicates(),
    ensures
        seq_insert(s, x).no_duplicates(),
        seq_insert(s, x).contains(x),
        forall|y: A| #[trigger] seq_insert(s, x).contains(y) <==> (s.contains(y) || y == x),
{
    let r = seq_insert(s, x);
    if !s.contains(x) {
        assert(r[s.len() as int] == x);
        assert forall|y: A| #[trigger] r.contains(y) implies (s.contains(y) || y == x) by {
            let k = choose|k: int| 0 <= k < r.len() && r[k] == y;
            if k < s.len() {
                assert(s[k] == y);
            }
        }
        assert forall|y: A| s.contains(y) implies #[trigger] r.contains(y) by {
            let k = choose|k: int| 0 <= k < s.len() && s[k] == y;
            assert(r[k] == y);
        }
        assert forall|i: int, j: int| 0 <= i < r.len() && 0 <= j < r.len() && i != j implies r[i]
            != r[j] by {
            if i == s.len() {
                assert(s[j] == r[j]);
            } else if j == s.len() {
                assert(s[i] == r[i]);
            }
        }
    }
}

/// What a removal keeps and drops.
pub proof fn lemma_remove<A>(s: Seq<A>, x: A)
    requires
        s.no_duplicates(),
    ensures
        seq_remove(s, x).no_duplicates(),
        forall|y: A| #[trigger] seq_remove(s, x).contains(y) <==> (s.contains(y) && y != x),
        seq_remove(s, x).len() == if s.contains(x) {
            s.len() - 1
        } else {
            s.len() as int
        },
    decreases s.len(),
{
    broadcast use vstd::seq_lib::group_filter_ensures;

    let p = differs_from(x);
    if s.len() == 0 {
        assert(s.filter(p) =~= s);
    } else {
        let t = s.drop_last();
        let a = s.last();
        assert(t.no_duplicates()) by {
            assert forall|i: int, j: int| 0 <= i < t.len() && 0 <= j < t.len() && i != j implies t[i]
                != t[j] by {
                assert(s[i] == t[i] && s[j] == t[j]);
            }
        }
        lemma_remove(t, x);
        assert(t.push(a) =~= s);
        t.lemma_filter_push(a, p);
        assert(!t.contains(a)) by {
            if t.contains(a) {
                let k = choose|k: int| 0 <= k < t.len() && t[k] == a;
                assert(s[k] == s[s.len() - 1]);
            }
        }
        assert forall|y: A| s.contains(y) <==> (t.contains(y) || y == a) by {
            if s.contains(y) {
                let k = choose|k: int| 0 <= k < s.len() && s[k] == y;
                if k < t.len() {
                    assert(t[k] == y);
                }
            }
            if t.contains(y) {
                let k = choose|k: int| 0 <= k < t.len() && t[k] == y;
                assert(s[k] == y);
            }
            if y == a {
                assert(s[s.len() - 1] == y);
            }
        }
        let rt = seq_remove(t, x);
        if a != x {
            assert(seq_remove(s, x) == rt.push(a));
            lemma_insert(rt, a);
            assert(!rt.contains(a));
            assert(seq_insert(rt, a) == rt.push(a));
        } else {
            assert(seq_remove(s, x) == rt);
        }
    }
}

/// Removing what an insertion added gives back the sequence.
pub proof fn lemma_remove_inserted<A>(s: Seq<A>, x: A)
    requires
        !s.contains(x),
    ensures
        seq_remove(seq_insert(s, x), x) == s,
{
    let p = differs_from(x);
    s.lemma_filter_push(x, p);
    lemma_filter_keeps_all(s, x);
}

/// A removal of what is absent changes nothing.
pub proof fn lemma_filter_keeps_all<A>(s: Seq<A>, x: A)
    requires
        !s.contains(x),
    ensures
        seq_remove(s, x) == s,
    decreases s.len(),
{
    let p = differs_from(x);
    if s.len() == 0 {
        assert(s.filter(p) =~= s);
    } else {
        let t = s.drop_last();
        assert(!t.contains(x)) by {
            if t.contains(x) {
                let k = choose|k: int| 0 <= k < t.len() && t[k] == x;
                assert(s[k] == x);
            }
        }
        lemma_filter_keeps_all(t, x);
        assert(t.push(s.last()) =~= s);
        t.lemma_filter_push(s.last(), p);
        assert(s.last() != x) by {
            assert(s[s.len() - 1] == s.last());
        }
    }
}

} // verus!
