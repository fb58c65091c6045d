//! Ranking by score: a stable sort, best score first, built by insertion.

use vstd::prelude::*;
use crate::commands::{ScoredCommand, ScoredModel};
use vstd::multiset::Multiset;

verus! {

/// The first position at or after `i` whose score is below `score`, or the
/// length if there is none.
pub open spec fn insert_pos_from(s: Seq<ScoredModel>, score: i64, i: nat) -> nat
    decreases s.len() - i,
{
    if i < s.len() && s[i as int].score >= score {
        insert_pos_from(s, score, i + 1)
    } else {
        i
    }
}

/// Where an item with `score` goes in `s`: after every leading item whose
/// score is at least as high.
pub open spec fn insert_pos(s: Seq<ScoredModel>, score: i64) -> nat {
    insert_pos_from(s, score, 0)
}

/// `s` with `x` placed after every leading item that scores at least as high.
pub open spec fn insert_by_score(s: Seq<ScoredModel>, x: ScoredModel) -> Seq<ScoredModel> {
    s.insert(insert_pos(s, x.score) as int, x)
}

/// `s` sorted by score, highest first; items of equal score keep their order.
pub open spec fn sort_by_score(s: Seq<ScoredModel>) -> Seq<ScoredModel>
    decreases s.len(),
{
    if s.len() == 0 {
        s
    } else {
        insert_by_score(sort_by_score(s.drop_last()), s.last())
    }
}

/// Scores never increase along `s`.
pub open spec fn sorted_by_score(s: Seq<ScoredModel>) -> bool {
    forall|i: int, j: int| 0 <= i < j < s.len() ==> s[i].score >= s[j].score
}

pub proof fn lemma_insert_pos_from(s: Seq<ScoredModel>, score: i64, i: nat)
    requires
        i <= s.len(),
    ensures
        i <= insert_pos_from(s, score, i) <= s.len(),
        forall|k: int| i <= k < insert_pos_from(s, score, i) ==> s[k].score >= score,
        insert_pos_from(s, score, i) < s.len() ==> s[insert_pos_from(s, score, i) as int].score
            < score,
    decreases s.len() - i,
{
    if i < s.len() && s[i as int].score >= score {
        lemma_insert_pos_from(s, score, i + 1);
    }
}

/// Inserting at `insert_pos` keeps a sorted sequence sorted.
pub proof fn lemma_insert_keeps_sorted(s: Seq<ScoredModel>, x: ScoredModel)
    requires
        sorted_by_score(s),
    ensures
        sorted_by_score(insert_by_score(s, x)),
        insert_by_score(s, x).len() == s.len() + 1,
{
    lemma_insert_pos_from(s, x.score, 0);
    let p = insert_pos(s, x.score) as int;
    let r = insert_by_score(s, x);
    assert forall|i: int, j: int| 0 <= i < j < r.len() implies r[i].score >= r[j].score by {
        if j < p {
        } else if j == p {
        } else if i < p {
            if p < s.len() {
                assert(s[p].score < x.score);
            }
        } else if i == p {
            assert(s[p].score < x.score);
            assert(s[p].score >= s[j - 1].score || p == j - 1);
        } else {
        }
    }
}

/// The ranking is sorted, highest score first.
pub proof fn lemma_sort_by_score_sorted(s: Seq<ScoredModel>)
    ensures
        sorted_by_score(sort_by_score(s)),
        sort_by_score(s).len() == s.len(),
    decreases s.len(),
{
    if s.len() > 0 {
        lemma_sort_by_score_sorted(s.drop_last());
        lemma_insert_keeps_sorted(sort_by_score(s.drop_last()), s.last());
    }
}

/// The ranking holds exactly the items it was given, each as often.
pub proof fn lemma_sort_by_score_permutes(s: Seq<ScoredModel>)
    ensures
        sort_by_score(s).to_multiset() == s.to_multiset(),
    decreases s.len(),
{
    broadcast use vstd::seq_lib::group_seq_properties, vstd::multiset::group_multiset_axioms;

    if s.len() > 0 {
        let t = sort_by_score(s.drop_last());
        lemma_sort_by_score_permutes(s.drop_last());
        lemma_sort_by_score_sorted(s.drop_last());
        lemma_insert_pos_from(t, s.last().score, 0);
        let p = insert_pos(t, s.last().score) as int;
        assert(t.insert(p, s.last()) =~= t.take(p) + (seq![s.last()] + t.skip(p)));
        assert(t =~= t.take(p) + t.skip(p));
        vstd::seq_lib::lemma_multiset_commutative(t.take(p), seq![s.last()] + t.skip(p));
        vstd::seq_lib::lemma_multiset_commutative(seq![s.last()], t.skip(p));
        vstd::seq_lib::lemma_multiset_commutative(t.take(p), t.skip(p));
        assert(s =~= s.drop_last().push(s.last()));
        s.drop_last().to_multiset_ensures();
        assert(seq![s.last()].to_multiset() =~= Multiset::empty().insert(s.last())) by {
            assert(seq![s.last()] =~= Seq::<ScoredModel>::empty().push(s.last()));
            Seq::<ScoredModel>::empty().to_multiset_ensures();
        }
    }
}

pub open spec fn has_score(v: i64) -> spec_fn(ScoredModel) -> bool {
    |x: ScoredModel| x.score == v
}

/// Ranking is stable: the items of any one score come out in the order they
/// went in.
pub proof fn lemma_sort_by_score_stable(s: Seq<ScoredModel>, v: i64)
    ensures
        sort_by_score(s).filter(has_score(v)) == s.filter(has_score(v)),
    decreases s.len(),
{
    broadcast use vstd::seq_lib::group_seq_properties;
    reveal(Seq::filter);

    if s.len() > 0 {
        let t = sort_by_score(s.drop_last());
        let x = s.last();
        let f = has_score(v);
        lemma_sort_by_score_stable(s.drop_last(), v);
        lemma_sort_by_score_sorted(s.drop_last());
        lemma_insert_pos_from(t, x.score, 0);
        let p = insert_pos(t, x.score) as int;
        assert(t.insert(p, x) =~= t.take(p) + (seq![x] + t.skip(p)));
        assert(t =~= t.take(p) + t.skip(p));
        Seq::filter_distributes_over_add(t.take(p), seq![x] + t.skip(p), f);
        Seq::filter_distributes_over_add(seq![x], t.skip(p), f);
        Seq::filter_distributes_over_add(t.take(p), t.skip(p), f);
        assert(seq![x].drop_last() =~= Seq::<ScoredModel>::empty());
        assert(Seq::<ScoredModel>::empty().filter(f) =~= Seq::<ScoredModel>::empty());
        if x.score == v {
            // Everything after position p scores below v.
            assert forall|k: int| 0 <= k < t.skip(p).len() implies !f(t.skip(p)[k]) by {
                assert(t.skip(p)[k] == t[p + k]);
                assert(t[p].score < x.score);
            }
            lemma_filter_none(t.skip(p), f);
            assert(seq![x].filter(f) =~= seq![x]);
        } else {
            assert(seq![x].filter(f) =~= Seq::<ScoredModel>::empty());
        }
        assert(s.drop_last().push(x) =~= s);
    }
}

proof fn lemma_filter_none(s: Seq<ScoredModel>, f: spec_fn(ScoredModel) -> bool)
    requires
        forall|k: int| 0 <= k < s.len() ==> !f(#[trigger] s[k]),
    ensures
        s.filter(f) =~= Seq::<ScoredModel>::empty(),
    decreases s.len(),
{
    reveal(Seq::filter);
    if s.len() > 0 {
        assert forall|k: int| 0 <= k < s.drop_last().len() implies !f(
            #[trigger] s.drop_last()[k],
        ) by {
            assert(s.drop_last()[k] == s[k]);
        }
        lemma_filter_none(s.drop_last(), f);
    }
}

/// Places `item` into the ranking `out` after every entry that scores at
/// least as high.
pub fn insert_ranked(out: &mut Vec<ScoredCommand>, item: ScoredCommand)
    ensures
        final(out).deep_view() == insert_by_score(old(out).deep_view(), item@),
{
    let ghost s = out.deep_view();
    let mut p: usize = 0;
    while p < out.len() && out[p].score >= item.score
        invariant
            p <= out.len(),
            s == out.deep_view(),
            insert_pos_from(s, item.score, p as nat) == insert_pos(s, item.score),
        decreases out.len() - p,
    {
        p = p + 1;
    }
    out.insert(p, item);
    assert(out.deep_view() =~= s.insert(p as int, item@));
}

} // verus!
