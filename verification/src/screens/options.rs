//! Lists of (id, name) options kept in name order.

use vstd::prelude::*;
use crate::text::{
    lex_less, lemma_lex_asymmetric, lemma_lex_not_after_transitive, text_less,
};

verus! {

/// `r` with `x` inserted after every entry whose name does not come after
/// `x`'s: where `r` is in name order it stays so, and `x` follows entries of
/// the same name.
pub open spec fn insert_by_name(r: Seq<(i64, String)>, x: (i64, String)) -> Seq<(i64, String)>
    decreases r.len(),
{
    if r.len() == 0 {
        seq![x]
    } else if lex_less(x.1@, r.last().1@) {
        insert_by_name(r.drop_last(), x).push(r.last())
    } else {
        r.push(x)
    }
}

/// The stable sort of `s` by name: entries in name order, entries of the
/// same name in their order in `s`.
pub open spec fn sorted_by_name(s: Seq<(i64, String)>) -> Seq<(i64, String)>
    decreases s.len(),
{
    if s.len() == 0 {
        Seq::empty()
    } else {
        insert_by_name(sorted_by_name(s.drop_last()), s.last())
    }
}

/// Inserts `x` into `r` (see `insert_by_name`).
pub fn insert_option(r: &mut Vec<(i64, String)>, x: (i64, String))
    ensures
        final(r)@ == insert_by_name(old(r)@, x),
{
    let ghost s = r@;
    let mut j = r.len();
    proof {
        assert(s.take(j as int) =~= s);
        assert(s.skip(j as int) =~= Seq::<(i64, String)>::empty());
        assert(insert_by_name(s, x) =~= insert_by_name(s.take(j as int), x) + s.skip(j as int));
    }
    while j > 0 && text_less(x.1.as_str(), r[j - 1].1.as_str())
        invariant
            j <= s.len(),
            r@ == s,
            insert_by_name(s, x) == insert_by_name(s.take(j as int), x) + s.skip(j as int),
        decreases j,
    {
        proof {
            let t = s.take(j as int);
            assert(t.drop_last() =~= s.take(j - 1));
            assert(t.last() == s[j - 1]);
            assert(insert_by_name(t, x) == insert_by_name(s.take(j - 1), x).push(s[j - 1]));
            assert(insert_by_name(s.take(j - 1), x).push(s[j - 1]) + s.skip(j as int)
                =~= insert_by_name(s.take(j - 1), x) + s.skip(j - 1));
        }
        j = j - 1;
    }
    proof {
        let t = s.take(j as int);
        if j > 0 {
            assert(t.last() == s[j - 1]);
        }
        assert(insert_by_name(t, x) == t.push(x));
    }
    r.insert(j, x);
    proof {
        assert(r@ =~= s.take(j as int).push(x) + s.skip(j as int));
    }
}

/// A copy of `v`.
pub fn copy_options(v: &Vec<(i64, String)>) -> (r: Vec<(i64, String)>)
    ensures
        r@ == v@,
{
    let mut r: Vec<(i64, String)> = Vec::new();
    let mut i: usize = 0;
    while i < v.len()
        invariant
            i <= v@.len(),
            r@ == v@.take(i as int),
        decreases v@.len() - i,
    {
        r.push((v[i].0, v[i].1.clone()));
        proof {
            assert(v@.take(i + 1) =~= v@.take(i as int).push(v@[i as int]));
        }
        i = i + 1;
    }
    proof {
        assert(v@.take(v@.len() as int) =~= v@);
    }
    r
}

/// The options of `v` in name order (see `sorted_by_name`).
pub fn sort_options_by_name(v: Vec<(i64, String)>) -> (r: Vec<(i64, String)>)
    ensures
        r@ == sorted_by_name(v@),
{
    let mut r: Vec<(i64, String)> = Vec::new();
    let mut i: usize = 0;
    proof {
        assert(v@.take(0) =~= Seq::<(i64, String)>::empty());
    }
    while i < v.len()
        invariant
            i <= v@.len(),
            r@ == sorted_by_name(v@.take(i as int)),
        decreases v@.len() - i,
    {
        proof {
            assert(v@.take(i + 1).drop_last() =~= v@.take(i as int));
            assert(v@.take(i + 1).last() == v@[i as int]);
        }
        let item = (v[i].0, v[i].1.clone());
        insert_option(&mut r, item);
        i = i + 1;
    }
    proof {
        assert(v@.take(v@.len() as int) =~= v@);
    }
    r
}


/// Whether no entry of `s` comes, by name, before an entry ahead of it.
pub open spec fn in_name_order(s: Seq<(i64, String)>) -> bool {
    forall|i: int, j: int|
        #![trigger s[i], s[j]]
        0 <= i < j < s.len() ==> !lex_less(s[j].1@, s[i].1@)
}

/// Inserting entries none of which comes after `b` keeps that so.
proof fn lemma_insert_bounded(r: Seq<(i64, String)>, x: (i64, String), b: Seq<char>)
    requires
        forall|k: int| 0 <= k < r.len() ==> !lex_less(b, #[trigger] r[k].1@),
        !lex_less(b, x.1@),
    ensures
        forall|k: int|
            0 <= k < insert_by_name(r, x).len() ==> !lex_less(b, #[trigger] insert_by_name(r, x)[k].1@),
        insert_by_name(r, x).len() == r.len() + 1,
    decreases r.len(),
{
    if r.len() > 0 && lex_less(x.1@, r.last().1@) {
        lemma_insert_bounded(r.drop_last(), x, b);
    }
}

/// Inserting into a list in name order keeps it in name order, and adds
/// just the entry inserted.
proof fn lemma_insert_keeps_order(r: Seq<(i64, String)>, x: (i64, String))
    requires
        in_name_order(r),
    ensures
        in_name_order(insert_by_name(r, x)),
        insert_by_name(r, x).to_multiset() == r.to_multiset().insert(x),
    decreases r.len(),
{
    broadcast use vstd::seq_lib::to_multiset_build;

    if r.len() == 0 {
        assert(r.push(x) =~= seq![x]);
    } else {
        let l = r.last();
        let q = r.drop_last();
        assert(r =~= q.push(l));
        if lex_less(x.1@, l.1@) {
            lemma_insert_keeps_order(q, x);
            lemma_lex_asymmetric(x.1@, l.1@);
            assert forall|k: int| 0 <= k < q.len() implies !lex_less(l.1@, #[trigger] q[k].1@) by {
                assert(r[k] == q[k]);
                assert(r[q.len() as int] == l);
            }
            lemma_insert_bounded(q, x, l.1@);
            let p = insert_by_name(q, x);
            assert forall|i: int, j: int|
                #![trigger p.push(l)[i], p.push(l)[j]]
                0 <= i < j < p.push(l).len() implies !lex_less(
                p.push(l)[j].1@,
                p.push(l)[i].1@,
            ) by {
                if j == p.len() {
                    assert(!lex_less(l.1@, p[i].1@));
                } else {
                    assert(p.push(l)[i] == p[i] && p.push(l)[j] == p[j]);
                }
            }
        } else {
            assert forall|i: int, j: int|
                #![trigger r.push(x)[i], r.push(x)[j]]
                0 <= i < j < r.push(x).len() implies !lex_less(
                r.push(x)[j].1@,
                r.push(x)[i].1@,
            ) by {
                if j == r.len() {
                    if i < r.len() - 1 {
                        assert(!lex_less(r[r.len() - 1].1@, r[i].1@));
                        lemma_lex_not_after_transitive(r[i].1@, l.1@, x.1@);
                    }
                } else {
                    assert(r.push(x)[i] == r[i] && r.push(x)[j] == r[j]);
                }
            }
        }
    }
}

/// Sorting by name keeps every entry, as often as it occurs, and puts the
/// entries in name order.
pub proof fn lemma_sorted_by_name_is_ordered(s: Seq<(i64, String)>)
    ensures
        in_name_order(sorted_by_name(s)),
        sorted_by_name(s).to_multiset() == s.to_multiset(),
    decreases s.len(),
{
    broadcast use vstd::seq_lib::to_multiset_build;

    if s.len() == 0 {
        assert(sorted_by_name(s) =~= s);
    } else {
        lemma_sorted_by_name_is_ordered(s.drop_last());
        lemma_insert_keeps_order(sorted_by_name(s.drop_last()), s.last());
        assert(s =~= s.drop_last().push(s.last()));
    }
}
} // verus!
