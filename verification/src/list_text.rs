//! The text form in which the database stores a list of names: the items
//! joined by `" , "`. Reading a list splits at every comma and trims each
//! piece; a text without a comma is a single item, untouched, and the empty
//! text is the empty list.
use vstd::prelude::*;
use crate::text::{chars_vec, is_trimmed, is_white_space, substring, trim, trim_end, trim_start, trim_str};
use crate::errors::WarpRejections;

verus! {

/// The separator written between two items.
pub open spec fn separator() -> Seq<char> {
    seq![' ', ',', ' ']
}

/// The pieces of `s` between its commas, in order (one more than the number
/// of commas), as `str::split(',')` yields them.
pub open spec fn split_commas(s: Seq<char>) -> Seq<Seq<char>>
    decreases s.len(),
{
    if s.len() == 0 {
        seq![Seq::<char>::empty()]
    } else {
        let init = split_commas(s.drop_last());
        if s.last() == ',' {
            init.push(Seq::<char>::empty())
        } else {
            init.update(init.len() - 1, init.last().push(s.last()))
        }
    }
}

/// The list that the text `s` stands for.
pub open spec fn parse_list(s: Seq<char>) -> Seq<Seq<char>> {
    if s.contains(',') {
        split_commas(s).map_values(|p: Seq<char>| trim(p))
    } else if s.len() == 0 {
        Seq::empty()
    } else {
        seq![s]
    }
}

/// The text that stands for the list `v`: its items joined by `" , "`.
pub open spec fn join_list(v: Seq<Seq<char>>) -> Seq<char>
    decreases v.len(),
{
    if v.len() == 0 {
        Seq::empty()
    } else if v.len() == 1 {
        v[0]
    } else {
        join_list(v.drop_last()) + separator() + v.last()
    }
}

/// `v` without any item equal to `x`, the others kept in order.
pub open spec fn without(v: Seq<Seq<char>>, x: Seq<char>) -> Seq<Seq<char>>
    decreases v.len(),
{
    if v.len() == 0 {
        v
    } else {
        let rest = without(v.drop_last(), x);
        if v.last() == x {
            rest
        } else {
            rest.push(v.last())
        }
    }
}

/// The lists that survive writing and reading back unchanged: no item holds a
/// comma, items of a list of two or more are trimmed, and the list is not the
/// single empty item.
pub open spec fn well_formed_list(v: Seq<Seq<char>>) -> bool {
    &&& forall|i: int| 0 <= i < v.len() ==> !(#[trigger] v[i]).contains(',')
    &&& v.len() >= 2 ==> forall|i: int| 0 <= i < v.len() ==> is_trimmed(#[trigger] v[i])
    &&& !(v.len() == 1 && v[0].len() == 0)
}

/// The views of a vector of strings.
pub open spec fn string_views(v: Seq<String>) -> Seq<Seq<char>> {
    v.map_values(|x: String| x@)
}

/// Reads a stored list.
pub fn string_to_vec(input: String) -> (res: Vec<String>)
    ensures
        string_views(res@) == parse_list(input@),
{
    let s = input.as_str();
    let chars = chars_vec(s);
    let n = chars.len();
    let mut has_comma = false;
    let mut i: usize = 0;
    while i < n
        invariant
            i <= n,
            n == chars@.len(),
            chars@ == s@,
            has_comma <==> chars@.take(i as int).contains(','),
        decreases n - i,
    {
        proof {
            let t = chars@.take(i as int);
            let t1 = chars@.take(i + 1);
            assert(t1 =~= t.push(chars@[i as int]));
            if t.contains(',') {
                let k = choose|k: int| 0 <= k < t.len() && t[k] == ',';
                assert(t1[k] == ',');
            }
            if chars@[i as int] == ',' {
                assert(t1[i as int] == ',');
            }
            if t1.contains(',') && chars@[i as int] != ',' {
                let k = choose|k: int| 0 <= k < t1.len() && t1[k] == ',';
                assert(t[k] == ',');
            }
        }
        if chars[i] == ',' {
            has_comma = true;
        }
        i = i + 1;
    }
    proof {
        assert(chars@.take(n as int) =~= chars@);
    }
    if has_comma {
        let mut res: Vec<String> = Vec::new();
        let mut start: usize = 0;
        let mut j: usize = 0;
        while j < n
            invariant
                start <= j <= n,
                n == chars@.len(),
                chars@ == s@,
                ({
                    let pieces = split_commas(chars@.take(j as int));
                    &&& string_views(res@) == pieces.take(pieces.len() - 1).map_values(
                        |p: Seq<char>| trim(p),
                    )
                    &&& pieces.last() == chars@.subrange(start as int, j as int)
                    &&& pieces.len() >= 1
                }),
            decreases n - j,
        {
            let ghost pieces = split_commas(chars@.take(j as int));
            proof {
                assert(chars@.take(j + 1).drop_last() =~= chars@.take(j as int));
                lemma_split_len(chars@.take(j as int));
            }
            if chars[j] == ',' {
                let piece = substring(s, start, j);
                let trimmed = trim_str(piece.as_str()).to_owned();
                let ghost old_views = string_views(res@);
                res.push(trimmed);
                proof {
                    assert(string_views(res@) =~= old_views.push(trim(pieces.last())));
                    let next = split_commas(chars@.take(j + 1));
                    assert(next == pieces.push(Seq::<char>::empty()));
                    assert(string_views(res@) =~= next.take(next.len() - 1).map_values(
                        |p: Seq<char>| trim(p),
                    ));
                    assert(next.last() =~= chars@.subrange(j + 1, j + 1));
                }
                start = j + 1;
            } else {
                proof {
                    let next = split_commas(chars@.take(j + 1));
                    assert(next == pieces.update(pieces.len() - 1, pieces.last().push(chars@[j as int])));
                    assert(next.take(next.len() - 1) =~= pieces.take(pieces.len() - 1));
                    assert(next.last() =~= chars@.subrange(start as int, j + 1));
                }
            }
            j = j + 1;
        }
        let last = substring(s, start, n);
        let trimmed = trim_str(last.as_str()).to_owned();
        let ghost old_views = string_views(res@);
        res.push(trimmed);
        proof {
            let pieces = split_commas(chars@.take(n as int));
            assert(string_views(res@) =~= old_views.push(trim(pieces.last())));
            assert(chars@.take(n as int) =~= s@);
            assert(string_views(res@) =~= pieces.map_values(|p: Seq<char>| trim(p)));
        }
        res
    } else if s.is_empty() {
        Vec::new()
    } else {
        let mut res: Vec<String> = Vec::new();
        res.push(input);
        proof {
            assert(string_views(res@) =~= seq![input@]);
        }
        res
    }
}

/// Writes a list.
pub fn vec_to_string(input: Vec<String>) -> (res: String)
    ensures
        res@ == join_list(string_views(input@)),
{
    let n = input.len();
    if n == 0 {
        return String::new();
    }
    let mut res = input[0].clone();
    let mut i: usize = 1;
    proof {
        assert(string_views(input@).take(1) =~= seq![input@[0]@]);
    }
    while i < n
        invariant
            1 <= i <= n,
            n == input@.len(),
            res@ == join_list(string_views(input@).take(i as int)),
        decreases n - i,
    {
        res.append(" , ");
        res.append(input[i].as_str());
        proof {
            reveal_strlit(" , ");
            let v = string_views(input@).take(i + 1);
            assert(v.drop_last() =~= string_views(input@).take(i as int));
            assert(v.last() == input@[i as int]@);
            assert(res@ =~= join_list(v));
        }
        i = i + 1;
    }
    proof {
        assert(string_views(input@).take(n as int) =~= string_views(input@));
    }
    res
}

/// Removes every occurrence of `remove` from a stored list.
pub fn remove_one_from_list(list: String, remove: String) -> (res: Result<String, WarpRejections>)
    ensures
        res matches Ok(r) && r@ == join_list(without(parse_list(list@), remove@)),
{
    let list_vec = string_to_vec(list);
    let mut filtered: Vec<String> = Vec::new();
    let n = list_vec.len();
    let mut i: usize = 0;
    while i < n
        invariant
            i <= n,
            n == list_vec@.len(),
            string_views(filtered@) == without(string_views(list_vec@).take(i as int), remove@),
        decreases n - i,
    {
        let item = list_vec[i].clone();
        proof {
            let v = string_views(list_vec@).take(i + 1);
            assert(v.drop_last() =~= string_views(list_vec@).take(i as int));
        }
        if item != remove {
            filtered.push(item);
            proof {
                assert(string_views(filtered@) =~= without(
                    string_views(list_vec@).take(i as int),
                    remove@,
                ).push(item@));
            }
        }
        i = i + 1;
    }
    proof {
        assert(string_views(list_vec@).take(n as int) =~= string_views(list_vec@));
    }
    Ok(vec_to_string(filtered))
}

/// Adds `add` at the end of a stored list.
pub fn add_one_to_list(list: String, add: String) -> (res: Result<String, WarpRejections>)
    ensures
        res matches Ok(r) && r@ == join_list(parse_list(list@).push(add@)),
{
    let mut list_vec = string_to_vec(list);
    list_vec.push(add);
    proof {
        assert(string_views(list_vec@) =~= parse_list(list@).push(add@));
    }
    Ok(vec_to_string(list_vec))
}

/// Writing a well-formed list and reading it back gives the same list.
pub proof fn law_round_trip(v: Seq<Seq<char>>)
    requires
        well_formed_list(v),
    ensures
        parse_list(join_list(v)) == v,
{
    lemma_round_trip(v);
}

/// Every list read from a text is well formed, so writing it and reading it
/// again gives it back.
pub proof fn law_parsed_lists_are_well_formed(s: Seq<char>)
    ensures
        well_formed_list(parse_list(s)),
        parse_list(join_list(parse_list(s))) == parse_list(s),
{
    lemma_parse_well_formed(s);
    lemma_round_trip(parse_list(s));
}

/// After removing `x` from a stored list, reading the result finds no `x`;
/// and unless the items left are one empty item, it finds exactly the items
/// left, in order.
pub proof fn law_removed_item_is_gone(list: Seq<char>, x: Seq<char>)
    ensures
        !parse_list(join_list(without(parse_list(list), x))).contains(x),
        without(parse_list(list), x) != seq![Seq::<char>::empty()] ==> parse_list(
            join_list(without(parse_list(list), x)),
        ) == without(parse_list(list), x),
{
    let v = parse_list(list);
    let w = without(v, x);
    lemma_parse_well_formed(list);
    lemma_without_subseq(v, x);
    lemma_without_excludes(v, x);
    if w.len() == 1 && w[0].len() == 0 {
        assert(w[0] =~= Seq::<char>::empty());
        assert(w =~= seq![Seq::<char>::empty()]);
        assert(join_list(w) == w[0]);
        assert(parse_list(join_list(w)) =~= Seq::<Seq<char>>::empty());
    } else {
        assert forall|i: int| 0 <= i < w.len() implies !(#[trigger] w[i]).contains(',') by {
            let j = choose|j: int| 0 <= j < v.len() && v[j] == w[i];
        }
        if w.len() >= 2 {
            assert(v.len() >= 2) by {
                lemma_without_len(v, x);
            }
            assert forall|i: int| 0 <= i < w.len() implies is_trimmed(#[trigger] w[i]) by {
                let j = choose|j: int| 0 <= j < v.len() && v[j] == w[i];
            }
        }
        lemma_round_trip(w);
    }
}

/// Adding an item that the list format can hold (no comma; trimmed once the
/// list has other items; not the empty item alone) makes it the last item of
/// the list read back, after the items that were there.
pub proof fn law_added_item_is_last(list: Seq<char>, a: Seq<char>)
    requires
        !a.contains(','),
        parse_list(list).len() >= 1 ==> is_trimmed(a),
        parse_list(list).len() == 1 ==> is_trimmed(parse_list(list)[0]),
        !(parse_list(list).len() == 0 && a.len() == 0),
    ensures
        parse_list(join_list(parse_list(list).push(a))) == parse_list(list).push(a),
{
    let v = parse_list(list);
    lemma_parse_well_formed(list);
    let w = v.push(a);
    assert forall|i: int| 0 <= i < w.len() implies !(#[trigger] w[i]).contains(',') by {
        if i < v.len() {
            assert(w[i] == v[i]);
        }
    }
    if w.len() >= 2 {
        assert forall|i: int| 0 <= i < w.len() implies is_trimmed(#[trigger] w[i]) by {
            if i < v.len() {
                assert(w[i] == v[i]);
            }
        }
    }
    lemma_round_trip(w);
}

/// Removing an item that was just added to a list that did not hold it gives
/// back the list as it was.
pub proof fn law_remove_undoes_add(list: Seq<char>, a: Seq<char>)
    requires
        !a.contains(','),
        parse_list(list).len() >= 1 ==> is_trimmed(a),
        parse_list(list).len() == 1 ==> is_trimmed(parse_list(list)[0]),
        !(parse_list(list).len() == 0 && a.len() == 0),
        !parse_list(list).contains(a),
    ensures
        parse_list(join_list(without(parse_list(join_list(parse_list(list).push(a))), a)))
            == parse_list(list),
{
    let v = parse_list(list);
    law_added_item_is_last(list, a);
    lemma_without_absent(v, a);
    assert(v.push(a).drop_last() =~= v);
    assert(without(v.push(a), a) == without(v, a));
    lemma_parse_well_formed(list);
    lemma_round_trip(v);
}

proof fn lemma_without_absent(v: Seq<Seq<char>>, x: Seq<char>)
    requires
        !v.contains(x),
    ensures
        without(v, x) == v,
    decreases v.len(),
{
    if v.len() > 0 {
        assert(!v.drop_last().contains(x)) by {
            if v.drop_last().contains(x) {
                let k = choose|k: int| 0 <= k < v.drop_last().len() && v.drop_last()[k] == x;
                assert(v[k] == x);
            }
        }
        lemma_without_absent(v.drop_last(), x);
        assert(v.last() != x) by {
            assert(v[v.len() - 1] == v.last());
        }
        assert(v.drop_last().push(v.last()) =~= v);
    }
}

proof fn lemma_without_subseq(v: Seq<Seq<char>>, x: Seq<char>)
    ensures
        forall|i: int|
            0 <= i < without(v, x).len() ==> exists|j: int|
                0 <= j < v.len() && v[j] == #[trigger] without(v, x)[i],
    decreases v.len(),
{
    if v.len() > 0 {
        lemma_without_subseq(v.drop_last(), x);
        let r = without(v.drop_last(), x);
        assert forall|i: int| 0 <= i < without(v, x).len() implies exists|j: int|
            0 <= j < v.len() && v[j] == #[trigger] without(v, x)[i] by {
            if i < r.len() {
                let j = choose|j: int|
                    0 <= j < v.drop_last().len() && v.drop_last()[j] == #[trigger] r[i];
                assert(v[j] == without(v, x)[i]);
            } else {
                assert(v[v.len() - 1] == without(v, x)[i]);
            }
        }
    }
}

proof fn lemma_without_excludes(v: Seq<Seq<char>>, x: Seq<char>)
    ensures
        !without(v, x).contains(x),
    decreases v.len(),
{
    if v.len() > 0 {
        lemma_without_excludes(v.drop_last(), x);
        let r = without(v.drop_last(), x);
        if without(v, x).contains(x) {
            let k = choose|k: int| 0 <= k < without(v, x).len() && without(v, x)[k] == x;
            if v.last() != x {
                if k < r.len() {
                    assert(r[k] == x);
                }
            } else {
                assert(r[k] == x);
            }
        }
    }
}

proof fn lemma_without_len(v: Seq<Seq<char>>, x: Seq<char>)
    ensures
        without(v, x).len() <= v.len(),
    decreases v.len(),
{
    if v.len() > 0 {
        lemma_without_len(v.drop_last(), x);
    }
}

proof fn lemma_round_trip(v: Seq<Seq<char>>)
    requires
        well_formed_list(v),
    ensures
        parse_list(join_list(v)) == v,
{
    if v.len() == 0 {
        assert(!join_list(v).contains(','));
    } else if v.len() == 1 {
        assert(join_list(v) == v[0]);
        assert(parse_list(join_list(v)) =~= v);
    } else {
        lemma_split_join(v);
        lemma_join_has_comma(v);
        let pieces = split_commas(join_list(v));
        assert forall|i: int| 0 <= i < v.len() implies #[trigger] trim(pieces[i]) == v[i] by {
            lemma_trim_padded(v[i]);
            if i == 0 {
                assert(pad_piece(v, i) =~= v[i] + seq![' ']);
            } else if i == v.len() - 1 {
                assert(pad_piece(v, i) =~= seq![' '] + v[i]);
            } else {
                assert(pad_piece(v, i) =~= seq![' '] + v[i] + seq![' ']);
            }
        }
        assert(parse_list(join_list(v)) =~= v);
    }
}

/// A piece of the text of a list of two or more items, with the spaces
/// around it that the separator leaves.
pub open spec fn pad_piece(v: Seq<Seq<char>>, i: int) -> Seq<char> {
    let left = if i == 0 {
        Seq::<char>::empty()
    } else {
        seq![' ']
    };
    let right = if i == v.len() - 1 {
        Seq::<char>::empty()
    } else {
        seq![' ']
    };
    left + v[i] + right
}

proof fn lemma_split_join(v: Seq<Seq<char>>)
    requires
        v.len() >= 1,
        forall|i: int| 0 <= i < v.len() ==> !(#[trigger] v[i]).contains(','),
    ensures
        split_commas(join_list(v)) == Seq::new(v.len(), |i: int| pad_piece(v, i)),
    decreases v.len(),
{
    if v.len() == 1 {
        lemma_split_no_comma(Seq::<char>::empty(), v[0]);
        assert(Seq::<char>::empty() + v[0] =~= v[0]);
        assert(pad_piece(v, 0) =~= v[0]);
        assert(split_commas(join_list(v)) =~= Seq::new(v.len(), |i: int| pad_piece(v, i)));
    } else {
        let init = v.drop_last();
        assert forall|i: int| 0 <= i < init.len() implies !(#[trigger] init[i]).contains(',') by {
            assert(init[i] == v[i]);
        }
        lemma_split_join(init);
        let a = join_list(init) + seq![' '];
        let b = seq![' '] + v.last();
        assert(!b.contains(',')) by {
            assert(!v[v.len() - 1].contains(','));
            if b.contains(',') {
                let k = choose|k: int| 0 <= k < b.len() && b[k] == ',';
                assert(v.last()[k - 1] == ',');
            }
        }
        assert(!seq![' '].contains(',')) by {
            if seq![' '].contains(',') {
                let k = choose|k: int| 0 <= k < 1 && seq![' '][k] == ',';
            }
        }
        assert(join_list(v) =~= (a + seq![',']) + b);
        lemma_split_no_comma(a + seq![','], b);
        assert((a + seq![',']).drop_last() =~= a);
        assert(split_commas(a + seq![',']) == split_commas(a).push(Seq::<char>::empty()));
        lemma_split_no_comma(join_list(init), seq![' ']);
        assert(Seq::<char>::empty() + b =~= b);
        let lhs = split_commas(join_list(v));
        let rhs = Seq::new(v.len(), |i: int| pad_piece(v, i));
        assert forall|i: int| 0 <= i < v.len() implies lhs[i] == rhs[i] by {
            if i < v.len() - 2 {
                assert(pad_piece(init, i) =~= pad_piece(v, i));
            } else if i == v.len() - 2 {
                assert(pad_piece(init, i) + seq![' '] =~= pad_piece(v, i));
            } else {
                assert(pad_piece(v, i) =~= b);
            }
        }
        assert(lhs =~= rhs);
    }
}

proof fn lemma_split_no_comma(x: Seq<char>, y: Seq<char>)
    requires
        !y.contains(','),
    ensures
        split_commas(x + y) == split_commas(x).update(
            split_commas(x).len() - 1,
            split_commas(x).last() + y,
        ),
    decreases y.len(),
{
    lemma_split_len(x);
    if y.len() == 0 {
        assert(x + y =~= x);
        assert(split_commas(x).last() + y =~= split_commas(x).last());
        assert(split_commas(x).update(split_commas(x).len() - 1, split_commas(x).last())
            =~= split_commas(x));
    } else {
        let y0 = y.drop_last();
        assert(!y0.contains(',')) by {
            if y0.contains(',') {
                let k = choose|k: int| 0 <= k < y0.len() && y0[k] == ',';
                assert(y[k] == ',');
            }
        }
        assert(y.last() != ',') by {
            assert(y[y.len() - 1] == y.last());
        }
        lemma_split_no_comma(x, y0);
        assert((x + y).drop_last() =~= x + y0);
        assert((x + y).last() == y.last());
        let sx = split_commas(x);
        let mid = split_commas(x + y0);
        assert(mid.len() == sx.len());
        assert(mid.last() == sx.last() + y0);
        assert(split_commas(x + y) == mid.update(mid.len() - 1, mid.last().push(y.last())));
        assert((sx.last() + y0).push(y.last()) =~= sx.last() + y);
        assert(split_commas(x + y) =~= split_commas(x).update(
            split_commas(x).len() - 1,
            split_commas(x).last() + y,
        ));
    }
}

proof fn lemma_join_has_comma(v: Seq<Seq<char>>)
    requires
        v.len() >= 2,
    ensures
        join_list(v).contains(','),
{
    let j = join_list(v);
    let k: int = join_list(v.drop_last()).len() as int + 1;
    assert(j[k] == ',');
}

proof fn lemma_trim_padded(x: Seq<char>)
    requires
        is_trimmed(x),
    ensures
        trim(x) == x,
        trim(seq![' '] + x) == x,
        trim(x + seq![' ']) == x,
        trim(seq![' '] + x + seq![' ']) == x,
{
    assert(is_white_space(' '));
    lemma_trim_start_trimmed(x);
    lemma_trim_end_trimmed(x);
    assert((seq![' '] + x).drop_first() =~= x);
    assert((seq![' '] + x + seq![' ']).drop_first() =~= x + seq![' ']);
    assert((x + seq![' ']).drop_last() =~= x);
    if x.len() == 0 {
        assert(x + seq![' '] =~= seq![' ']);
        assert(seq![' '].drop_first() =~= x);
        assert(trim_start(x + seq![' ']) == x);
    } else {
        assert((x + seq![' '])[0] == x[0]);
        assert(trim_start(x + seq![' ']) == x + seq![' ']);
    }
}

proof fn lemma_trim_start_trimmed(x: Seq<char>)
    requires
        is_trimmed(x),
    ensures
        trim_start(x) == x,
{
}

proof fn lemma_trim_end_trimmed(x: Seq<char>)
    requires
        is_trimmed(x),
    ensures
        trim_end(x) == x,
{
}

proof fn lemma_parse_well_formed(s: Seq<char>)
    ensures
        well_formed_list(parse_list(s)),
{
    let v = parse_list(s);
    if s.contains(',') {
        lemma_split_has_two(s);
        lemma_split_pieces_no_comma(s);
        let pieces = split_commas(s);
        assert forall|i: int| 0 <= i < v.len() implies !(#[trigger] v[i]).contains(',') && is_trimmed(
            v[i],
        ) by {
            lemma_trim_sub(pieces[i]);
            lemma_trim_is_trimmed(pieces[i]);
        }
    } else if s.len() == 0 {
    } else {
        assert(v[0] == s);
    }
}

proof fn lemma_split_has_two(s: Seq<char>)
    requires
        s.contains(','),
    ensures
        split_commas(s).len() >= 2,
    decreases s.len(),
{
    if s.last() == ',' {
        lemma_split_len(s.drop_last());
    } else {
        let k = choose|k: int| 0 <= k < s.len() && s[k] == ',';
        assert(k < s.len() - 1);
        assert(s.drop_last()[k] == ',');
        lemma_split_has_two(s.drop_last());
    }
}

proof fn lemma_split_pieces_no_comma(s: Seq<char>)
    ensures
        forall|i: int|
            0 <= i < split_commas(s).len() ==> !(#[trigger] split_commas(s)[i]).contains(','),
    decreases s.len(),
{
    if s.len() == 0 {
        assert forall|i: int| 0 <= i < split_commas(s).len() implies !(
        #[trigger] split_commas(s)[i]).contains(',') by {
            assert(split_commas(s)[i].len() == 0);
        }
    } else {
        let init = split_commas(s.drop_last());
        lemma_split_pieces_no_comma(s.drop_last());
        lemma_split_len(s.drop_last());
        if s.last() != ',' {
            let p = init.last().push(s.last());
            assert(!p.contains(',')) by {
                assert(!init[init.len() - 1].contains(','));
                if p.contains(',') {
                    let k = choose|k: int| 0 <= k < p.len() && p[k] == ',';
                    if k < p.len() - 1 {
                        assert(init.last()[k] == ',');
                    }
                }
            }
        } else {
            assert forall|i: int| 0 <= i < split_commas(s).len() implies !(
            #[trigger] split_commas(s)[i]).contains(',') by {
                if i < init.len() {
                    assert(split_commas(s)[i] == init[i]);
                } else {
                    assert(split_commas(s)[i].len() == 0);
                }
            }
        }
    }
}

proof fn lemma_trim_start_sub(s: Seq<char>)
    ensures
        exists|k: int| 0 <= k <= s.len() && trim_start(s) == s.subrange(k, s.len() as int),
        trim_start(s).len() > 0 ==> !is_white_space(trim_start(s)[0]),
    decreases s.len(),
{
    if s.len() > 0 && is_white_space(s[0]) {
        lemma_trim_start_sub(s.drop_first());
        let k = choose|k: int|
            0 <= k <= s.drop_first().len() && trim_start(s.drop_first()) == s.drop_first().subrange(
                k,
                s.drop_first().len() as int,
            );
        assert(s.drop_first().subrange(k, s.drop_first().len() as int) =~= s.subrange(
            k + 1,
            s.len() as int,
        ));
    } else {
        assert(s.subrange(0, s.len() as int) =~= s);
    }
}

proof fn lemma_trim_end_sub(s: Seq<char>)
    ensures
        exists|k: int| 0 <= k <= s.len() && trim_end(s) == s.subrange(0, k),
        trim_end(s).len() > 0 ==> !is_white_space(trim_end(s).last()),
    decreases s.len(),
{
    if s.len() > 0 && is_white_space(s.last()) {
        lemma_trim_end_sub(s.drop_last());
        let k = choose|k: int|
            0 <= k <= s.drop_last().len() && trim_end(s.drop_last()) == s.drop_last().subrange(
                0,
                k,
            );
        assert(s.drop_last().subrange(0, k) =~= s.subrange(0, k));
    } else {
        assert(s.subrange(0, s.len() as int) =~= s);
    }
}

proof fn lemma_trim_sub(s: Seq<char>)
    ensures
        !s.contains(',') ==> !trim(s).contains(','),
{
    lemma_trim_start_sub(s);
    lemma_trim_end_sub(trim_start(s));
    let a = choose|k: int| 0 <= k <= s.len() && trim_start(s) == s.subrange(k, s.len() as int);
    let t = trim_start(s);
    let b = choose|k: int| 0 <= k <= t.len() && trim_end(t) == t.subrange(0, k);
    if !s.contains(',') && trim(s).contains(',') {
        let i = choose|i: int| 0 <= i < trim(s).len() && trim(s)[i] == ',';
        assert(s[a + i] == ',');
    }
}

proof fn lemma_trim_is_trimmed(s: Seq<char>)
    ensures
        is_trimmed(trim(s)),
{
    lemma_trim_start_sub(s);
    let t = trim_start(s);
    lemma_trim_end_sub(t);
    let b = choose|k: int| 0 <= k <= t.len() && trim_end(t) == t.subrange(0, k);
    if trim(s).len() > 0 {
        assert(trim(s)[0] == t[0]);
    }
}

proof fn lemma_split_len(s: Seq<char>)
    ensures
        split_commas(s).len() >= 1,
    decreases s.len(),
{
    if s.len() > 0 {
        lemma_split_len(s.drop_last());
    }
}

} // verus!
