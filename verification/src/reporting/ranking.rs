//! The canonical order of `detect` candidates.
//!
//! Descending priority: measured sizes before unmeasured ones; larger
//! reclaimable size first; at equal bytes a lower bound ("at least this
//! much") before an exact figure; then the resource id ascending, purely
//! for determinism. The policy label is deliberately not an input: the
//! list answers "what is big", the label answers "what may be done".

use std::cmp::Ordering;

use vstd::prelude::*;
use vstd::multiset::Multiset;

use super::dto::DetectCandidateReport;
use crate::text::chars_of;

verus! {

broadcast use {
    vstd::seq_lib::group_to_multiset_ensures,
    vstd::multiset::group_multiset_axioms,
};

/// Just the fields the ordering reads.
#[derive(Debug, Clone, Copy, PartialEq, Eq)]
pub struct RankInputs<'a> {
    pub reclaimable_bytes: Option<u64>,
    pub reclaimable_bytes_is_lower_bound: bool,
    pub resource_id: &'a str,
}

/// The plain content of [`RankInputs`].
pub struct RankView {
    pub bytes: Option<u64>,
    pub lower_bound: bool,
    pub id: Seq<char>,
}

impl<'a> View for RankInputs<'a> {
    type V = RankView;

    open spec fn view(&self) -> RankView {
        RankView {
            bytes: self.reclaimable_bytes,
            lower_bound: self.reclaimable_bytes_is_lower_bound,
            id: self.resource_id@,
        }
    }
}

/// A lower bound only ever accompanies a measured size.
pub open spec fn rank_wf(v: RankView) -> bool {
    v.bytes is None ==> !v.lower_bound
}

/// `-1`, `0` or `1` as `a` sorts before, with or after `b` by code point.
pub open spec fn char_order(a: char, b: char) -> int {
    if a < b {
        -1
    } else if a > b {
        1
    } else {
        0
    }
}

/// Lexicographic order of two strings by code point (the byte order of
/// their UTF-8 encodings), as `-1`, `0` or `1`.
pub open spec fn lex_order(a: Seq<char>, b: Seq<char>) -> int
    decreases a.len(),
{
    if a.len() == 0 {
        if b.len() == 0 {
            0
        } else {
            -1
        }
    } else if b.len() == 0 {
        1
    } else if char_order(a[0], b[0]) != 0 {
        char_order(a[0], b[0])
    } else {
        lex_order(a.drop_first(), b.drop_first())
    }
}

/// `false` before `true`.
pub open spec fn flag_order(a: bool, b: bool) -> int {
    if a == b {
        0
    } else if !a {
        -1
    } else {
        1
    }
}

/// The size part of the order: measured before unmeasured, bigger first,
/// and at equal bytes a lower bound first.
pub open spec fn size_order(a: RankView, b: RankView) -> int {
    match (a.bytes, b.bytes) {
        (Some(x), Some(y)) => if x > y {
            -1
        } else if x < y {
            1
        } else {
            flag_order(b.lower_bound, a.lower_bound)
        },
        (Some(_), None) => -1,
        (None, Some(_)) => 1,
        (None, None) => 0,
    }
}

/// The canonical order: the size part, then the resource id ascending;
/// `-1` when `a` comes first, `1` when `b` does, `0` when tied.
pub open spec fn rank_order(a: RankView, b: RankView) -> int {
    let s = size_order(a, b);
    if s != 0 {
        s
    } else {
        lex_order(a.id, b.id)
    }
}

fn lex_sign(a: &str, b: &str) -> (r: i8)
    ensures
        r as int == lex_order(a@, b@),
{
    let ca = chars_of(a);
    let cb = chars_of(b);
    let mut i: usize = 0;
    assert(a@.skip(0) =~= a@);
    assert(b@.skip(0) =~= b@);
    while i < ca.len() && i < cb.len()
        invariant
            ca@ == a@,
            cb@ == b@,
            0 <= i <= ca@.len(),
            i <= cb@.len(),
            lex_order(a@, b@) == lex_order(a@.skip(i as int), b@.skip(i as int)),
        decreases ca@.len() - i,
    {
        let x = ca[i];
        let y = cb[i];
        if x < y {
            return -1;
        }
        if x > y {
            return 1;
        }
        assert(a@.skip(i as int).drop_first() =~= a@.skip(i + 1));
        assert(b@.skip(i as int).drop_first() =~= b@.skip(i + 1));
        i = i + 1;
    }
    if i < ca.len() {
        1
    } else if i < cb.len() {
        -1
    } else {
        0
    }
}

fn rank_sign(a: &RankInputs<'_>, b: &RankInputs<'_>) -> (r: i8)
    ensures
        r as int == rank_order(a@, b@),
{
    let s: i8 = match (a.reclaimable_bytes, b.reclaimable_bytes) {
        (Some(x), Some(y)) => if x > y {
            -1
        } else if x < y {
            1
        } else if b.reclaimable_bytes_is_lower_bound == a.reclaimable_bytes_is_lower_bound {
            0
        } else if !b.reclaimable_bytes_is_lower_bound {
            -1
        } else {
            1
        },
        (Some(_), None) => -1,
        (None, Some(_)) => 1,
        (None, None) => 0,
    };
    if s != 0 {
        s
    } else {
        lex_sign(a.resource_id, b.resource_id)
    }
}

/// Compare two candidates by the canonical order.
pub fn compare(a: RankInputs<'_>, b: RankInputs<'_>) -> (o: Ordering)
    ensures
        (o == Ordering::Less) == (rank_order(a@, b@) < 0),
        (o == Ordering::Equal) == (rank_order(a@, b@) == 0),
        (o == Ordering::Greater) == (rank_order(a@, b@) > 0),
{
    let s = rank_sign(&a, &b);
    if s < 0 {
        Ordering::Less
    } else if s == 0 {
        Ordering::Equal
    } else {
        Ordering::Greater
    }
}

proof fn lemma_lex_antisymmetric(a: Seq<char>, b: Seq<char>)
    ensures
        lex_order(a, b) == -lex_order(b, a),
        -1 <= lex_order(a, b) <= 1,
    decreases a.len(),
{
    if a.len() > 0 && b.len() > 0 && char_order(a[0], b[0]) == 0 {
        lemma_lex_antisymmetric(a.drop_first(), b.drop_first());
    }
}

proof fn lemma_lex_zero(a: Seq<char>, b: Seq<char>)
    requires
        lex_order(a, b) == 0,
    ensures
        a == b,
    decreases a.len(),
{
    if a.len() > 0 {
        lemma_lex_zero(a.drop_first(), b.drop_first());
        assert(a =~= seq![a[0]] + a.drop_first());
        assert(b =~= seq![b[0]] + b.drop_first());
    } else {
        assert(b =~= a);
    }
}

proof fn lemma_lex_reflexive(a: Seq<char>)
    ensures
        lex_order(a, a) == 0,
{
    lemma_lex_antisymmetric(a, a);
}

proof fn lemma_lex_transitive(a: Seq<char>, b: Seq<char>, c: Seq<char>)
    requires
        lex_order(a, b) <= 0,
        lex_order(b, c) <= 0,
    ensures
        lex_order(a, c) <= 0,
    decreases a.len(),
{
    if a.len() > 0 && b.len() > 0 && c.len() > 0 && char_order(a[0], b[0]) == 0 && char_order(
        b[0],
        c[0],
    ) == 0 {
        lemma_lex_transitive(a.drop_first(), b.drop_first(), c.drop_first());
    }
}

/// A single number that orders the size part: larger means earlier.
spec fn size_key(v: RankView) -> int {
    match v.bytes {
        Some(x) => 2 * x + (if v.lower_bound {
            2int
        } else {
            1int
        }),
        None => 0,
    }
}

proof fn lemma_size_order_by_key(a: RankView, b: RankView)
    ensures
        size_order(a, b) < 0 <==> size_key(a) > size_key(b),
        size_order(a, b) > 0 <==> size_key(a) < size_key(b),
        size_order(a, b) == 0 <==> size_key(a) == size_key(b),
{
}

/// The order is antisymmetric: swapping the operands flips the result.
pub proof fn lemma_rank_antisymmetric(a: RankView, b: RankView)
    ensures
        rank_order(a, b) == -rank_order(b, a),
        -1 <= rank_order(a, b) <= 1,
{
    lemma_lex_antisymmetric(a.id, b.id);
    lemma_size_order_by_key(a, b);
    lemma_size_order_by_key(b, a);
}

/// Two candidates only tie when they carry the same size, flag and id; so
/// candidates with distinct ids never compare equal.
pub proof fn lemma_rank_ties_only_on_equal_inputs(a: RankView, b: RankView)
    requires
        rank_wf(a),
        rank_wf(b),
    ensures
        rank_order(a, b) == 0 <==> a == b,
{
    lemma_size_order_by_key(a, b);
    if rank_order(a, b) == 0 {
        lemma_lex_zero(a.id, b.id);
    }
    if a == b {
        lemma_lex_reflexive(a.id);
    }
}

/// The order is transitive.
pub proof fn lemma_rank_transitive(a: RankView, b: RankView, c: RankView)
    requires
        rank_order(a, b) <= 0,
        rank_order(b, c) <= 0,
    ensures
        rank_order(a, c) <= 0,
{
    lemma_size_order_by_key(a, b);
    lemma_size_order_by_key(b, c);
    lemma_size_order_by_key(a, c);
    lemma_lex_antisymmetric(a.id, b.id);
    lemma_lex_antisymmetric(b.id, c.id);
    if size_order(a, b) == 0 && size_order(b, c) == 0 {
        lemma_lex_transitive(a.id, b.id, c.id);
    }
}

/// A measured size, even zero, always comes before an unmeasured one.
pub proof fn lemma_measured_before_unmeasured(a: RankView, b: RankView)
    requires
        a.bytes is Some,
        b.bytes is None,
    ensures
        rank_order(a, b) < 0,
{
}

/// Sorted by the canonical order.
pub open spec fn rank_sorted(v: Seq<RankView>) -> bool {
    forall|i: int, j: int| 0 <= i < j < v.len() ==> rank_order(#[trigger] v[i], #[trigger] v[j]) <= 0
}

/// The ranking inputs of one report line.
pub open spec fn report_view(r: DetectCandidateReport) -> RankView {
    RankView {
        bytes: r.reclaimable_bytes,
        lower_bound: r.reclaimable_bytes_is_lower_bound,
        id: r.resource_id@,
    }
}

/// The ranking inputs of a list of report lines.
pub open spec fn report_views(s: Seq<DetectCandidateReport>) -> Seq<RankView> {
    s.map_values(|r: DetectCandidateReport| report_view(r))
}

proof fn lemma_first_is_least(v: Seq<RankView>, x: RankView)
    requires
        rank_sorted(v),
        v.len() > 0,
        v.to_multiset().count(x) > 0,
    ensures
        rank_order(v[0], x) <= 0,
{
    assert(v.contains(x));
    let k = choose|k: int| 0 <= k < v.len() && v[k] == x;
    if k > 0 {
        assert(rank_order(v[0], v[k]) <= 0);
    } else {
        lemma_lex_reflexive(x.id);
    }
}

/// Two sorted lists holding the same candidates (as multisets of well
/// formed ranking inputs) are identical: the sorted order does not depend
/// on the order the candidates arrived in.
pub proof fn lemma_sorted_order_is_unique(v1: Seq<RankView>, v2: Seq<RankView>)
    requires
        rank_sorted(v1),
        rank_sorted(v2),
        v1.to_multiset() == v2.to_multiset(),
        forall|i: int| 0 <= i < v1.len() ==> rank_wf(#[trigger] v1[i]),
    ensures
        v1 == v2,
    decreases v1.len(),
{
    vstd::seq_lib::to_multiset_len(v1);
    vstd::seq_lib::to_multiset_len(v2);
    assert(v1.len() == v2.len());
    if v1.len() == 0 {
        assert(v1 =~= v2);
    } else {
        let x = v1[0];
        let y = v2[0];
        assert(v1.contains(x));
        assert(v2.to_multiset().count(x) > 0);
        assert(v2.contains(y));
        assert(v1.to_multiset().count(y) > 0);
        lemma_first_is_least(v2, x);
        lemma_first_is_least(v1, y);
        let k = choose|k: int| 0 <= k < v1.len() && v1[k] == y;
        assert(rank_wf(v1[k]));
        lemma_rank_antisymmetric(x, y);
        lemma_rank_ties_only_on_equal_inputs(x, y);
        assert(x == y);
        assert(v1.remove(0) =~= v1.drop_first());
        assert(v2.remove(0) =~= v2.drop_first());
        assert(v1.drop_first().to_multiset() == v1.to_multiset().remove(x));
        assert(v2.drop_first().to_multiset() == v2.to_multiset().remove(x));
        assert forall|i: int, j: int| 0 <= i < j < v1.drop_first().len() implies rank_order(
            #[trigger] v1.drop_first()[i],
            #[trigger] v1.drop_first()[j],
        ) <= 0 by {
            assert(rank_order(v1[i + 1], v1[j + 1]) <= 0);
        }
        assert forall|i: int, j: int| 0 <= i < j < v2.drop_first().len() implies rank_order(
            #[trigger] v2.drop_first()[i],
            #[trigger] v2.drop_first()[j],
        ) <= 0 by {
            assert(rank_order(v2[i + 1], v2[j + 1]) <= 0);
        }
        assert forall|i: int| 0 <= i < v1.drop_first().len() implies rank_wf(
            #[trigger] v1.drop_first()[i],
        ) by {
            assert(rank_wf(v1[i + 1]));
        }
        lemma_sorted_order_is_unique(v1.drop_first(), v2.drop_first());
        assert(v1 =~= seq![x] + v1.drop_first());
        assert(v2 =~= seq![y] + v2.drop_first());
    }
}

proof fn lemma_insert_keeps_sorted(v: Seq<RankView>, p: int, x: RankView)
    requires
        rank_sorted(v),
        0 <= p <= v.len(),
        forall|k: int| 0 <= k < p ==> rank_order(#[trigger] v[k], x) <= 0,
        forall|k: int| p <= k < v.len() ==> rank_order(x, #[trigger] v[k]) <= 0,
    ensures
        rank_sorted(v.insert(p, x)),
{
    let w = v.insert(p, x);
    assert forall|i: int, j: int| 0 <= i < j < w.len() implies rank_order(
        #[trigger] w[i],
        #[trigger] w[j],
    ) <= 0 by {
        if i < p && j < p {
            assert(rank_order(v[i], v[j]) <= 0);
        } else if i < p && j == p {
        } else if i < p {
            assert(rank_order(v[i], v[j - 1]) <= 0);
        } else if i == p {
            assert(rank_order(x, v[j - 1]) <= 0);
        } else {
            assert(rank_order(v[i - 1], v[j - 1]) <= 0);
        }
    }
}

fn report_inputs(r: &DetectCandidateReport) -> (i: RankInputs<'_>)
    ensures
        i@ == report_view(*r),
{
    RankInputs {
        reclaimable_bytes: r.reclaimable_bytes,
        reclaimable_bytes_is_lower_bound: r.reclaimable_bytes_is_lower_bound,
        resource_id: r.resource_id.as_str(),
    }
}

proof fn lemma_rank_strict_transitive(a: RankView, b: RankView, c: RankView)
    requires
        rank_order(a, b) < 0,
        rank_order(b, c) <= 0,
    ensures
        rank_order(a, c) < 0,
{
    lemma_rank_transitive(a, b, c);
    lemma_rank_antisymmetric(a, c);
    lemma_rank_antisymmetric(a, b);
    if rank_order(a, c) == 0 {
        lemma_rank_transitive(b, c, a);
    }
}

/// `new` arranges the lines of `old` by `perm` (line `i` of `new` is line
/// `perm[i]` of `old`, each used once), and lines that rank equal keep
/// their relative order.
pub open spec fn stable_arrangement(
    old: Seq<DetectCandidateReport>,
    new: Seq<DetectCandidateReport>,
    perm: Seq<int>,
) -> bool {
    &&& perm.len() == new.len()
    &&& new.len() == old.len()
    &&& forall|i: int| 0 <= i < new.len() ==> 0 <= #[trigger] perm[i] < old.len() && new[i] == old[perm[i]]
    &&& forall|i: int, j: int| 0 <= i < j < new.len() ==> #[trigger] perm[i] != #[trigger] perm[j]
    &&& forall|i: int, j: int|
        0 <= i < j < new.len() && rank_order(report_view(#[trigger] new[i]), report_view(#[trigger] new[j]))
            == 0 ==> perm[i] < perm[j]
}

/// Where `x` goes in the sorted `out`: after every line that does not
/// come after it, before the first line it strictly precedes.
fn insertion_point(out: &Vec<DetectCandidateReport>, x: &DetectCandidateReport) -> (p: usize)
    requires
        rank_sorted(report_views(out@)),
    ensures
        p <= out@.len(),
        forall|k: int| 0 <= k < p ==> rank_order(#[trigger] report_views(out@)[k], report_view(*x)) <= 0,
        forall|k: int|
            p <= k < out@.len() ==> rank_order(report_view(*x), #[trigger] report_views(out@)[k]) < 0,
{
    let ghost v = report_views(out@);
    let xi = report_inputs(x);
    let mut p: usize = 0;
    while p < out.len()
        invariant
            v == report_views(out@),
            rank_sorted(v),
            xi@ == report_view(*x),
            p <= out@.len(),
            forall|k: int| 0 <= k < p ==> rank_order(#[trigger] v[k], report_view(*x)) <= 0,
        decreases out@.len() - p,
    {
        let s = rank_sign(&xi, &report_inputs(&out[p]));
        if s < 0 {
            assert forall|k: int| p <= k < out@.len() implies rank_order(
                report_view(*x),
                #[trigger] v[k],
            ) < 0 by {
                if k > p {
                    assert(rank_order(v[p as int], v[k]) <= 0);
                    lemma_rank_strict_transitive(report_view(*x), v[p as int], v[k]);
                }
            }
            return p;
        }
        proof {
            lemma_rank_antisymmetric(report_view(*x), v[p as int]);
        }
        p = p + 1;
    }
    p
}

/// Sort the candidate lines of a `detect` report into the canonical
/// order. The result holds exactly the same lines.
pub fn sort_detect_candidates(candidates: &mut Vec<DetectCandidateReport>)
    ensures
        final(candidates)@.to_multiset() == old(candidates)@.to_multiset(),
        rank_sorted(report_views(final(candidates)@)),
        exists|perm: Seq<int>| stable_arrangement(old(candidates)@, final(candidates)@, perm),
{
    let ghost start = candidates@;
    let mut out: Vec<DetectCandidateReport> = Vec::new();
    let ghost mut perm: Seq<int> = Seq::empty();
    assert(out@.to_multiset().add(candidates@.to_multiset()) =~= old(candidates)@.to_multiset());
    assert(report_views(out@) =~= Seq::<RankView>::empty());
    assert(candidates@ =~= start.subrange(0, start.len() as int));
    while candidates.len() > 0
        invariant
            rank_sorted(report_views(out@)),
            out@.to_multiset().add(candidates@.to_multiset()) == old(candidates)@.to_multiset(),
            start == old(candidates)@,
            out@.len() + candidates@.len() == start.len(),
            candidates@ == start.subrange(out@.len() as int, start.len() as int),
            perm.len() == out@.len(),
            forall|i: int|
                0 <= i < out@.len() ==> 0 <= #[trigger] perm[i] < out@.len() && out@[i] == start[perm[i]],
            forall|i: int, j: int| 0 <= i < j < out@.len() ==> #[trigger] perm[i] != #[trigger] perm[j],
            forall|i: int, j: int|
                0 <= i < j < out@.len() && rank_order(
                    report_view(#[trigger] out@[i]),
                    report_view(#[trigger] out@[j]),
                ) == 0 ==> perm[i] < perm[j],
        decreases candidates@.len(),
    {
        let ghost before_out = out@;
        let ghost before_c = candidates@;
        let ghost before_perm = perm;
        let ghost c: int = out@.len() as int;
        let x = candidates.remove(0);
        let p = insertion_point(&out, &x);
        out.insert(p, x);
        proof {
            perm = before_perm.insert(p as int, c);
            assert(x == start[c]);
            assert(candidates@ =~= start.subrange(out@.len() as int, start.len() as int));
            assert forall|i: int| 0 <= i < out@.len() implies 0 <= #[trigger] perm[i] < out@.len()
                && out@[i] == start[perm[i]] by {
                if i < p {
                    assert(perm[i] == before_perm[i]);
                    assert(out@[i] == before_out[i]);
                } else if i > p {
                    assert(perm[i] == before_perm[i - 1]);
                    assert(out@[i] == before_out[i - 1]);
                }
            }
            assert forall|i: int, j: int| 0 <= i < j < out@.len() implies #[trigger] perm[i]
                != #[trigger] perm[j] by {
                if i != p && j != p {
                    let i0 = if i < p { i } else { i - 1 };
                    let j0 = if j < p { j } else { j - 1 };
                    assert(perm[i] == before_perm[i0]);
                    assert(perm[j] == before_perm[j0]);
                } else if i == p {
                    assert(perm[j] == before_perm[j - 1]);
                } else {
                    assert(perm[i] == before_perm[i]);
                }
            }
            assert forall|i: int, j: int|
                0 <= i < j < out@.len() && rank_order(
                    report_view(#[trigger] out@[i]),
                    report_view(#[trigger] out@[j]),
                ) == 0 implies perm[i] < perm[j] by {
                if i != p && j != p {
                    let i0 = if i < p { i } else { i - 1 };
                    let j0 = if j < p { j } else { j - 1 };
                    assert(perm[i] == before_perm[i0]);
                    assert(perm[j] == before_perm[j0]);
                    assert(out@[i] == before_out[i0]);
                    assert(out@[j] == before_out[j0]);
                } else if i == p {
                    assert(out@[j] == before_out[j - 1]);
                    assert(report_views(before_out)[j - 1] == report_view(before_out[j - 1]));
                } else {
                    assert(perm[i] == before_perm[i]);
                }
            }
            assert(before_c.remove(0) =~= candidates@);
            assert(before_c.contains(x));
            assert(before_c.to_multiset().count(x) > 0);
            assert(candidates@.to_multiset() == before_c.to_multiset().remove(x));
            assert(out@.to_multiset() == before_out.to_multiset().insert(x));
            assert(out@.to_multiset().add(candidates@.to_multiset()) =~= before_out.to_multiset().add(
                before_c.to_multiset(),
            ));
            assert(report_views(out@) =~= report_views(before_out).insert(p as int, report_view(x)));
            lemma_insert_keeps_sorted(report_views(before_out), p as int, report_view(x));
        }
    }
    proof {
        assert(candidates@ =~= Seq::<DetectCandidateReport>::empty());
        assert(candidates@.to_multiset() =~= Multiset::<DetectCandidateReport>::empty());
        assert(out@.to_multiset().add(candidates@.to_multiset()) =~= out@.to_multiset());
        assert(stable_arrangement(start, out@, perm));
    }
    *candidates = out;
}

proof fn lemma_views_preserve_multiset(s1: Seq<DetectCandidateReport>, s2: Seq<DetectCandidateReport>)
    requires
        s1.to_multiset() == s2.to_multiset(),
    ensures
        report_views(s1).to_multiset() == report_views(s2).to_multiset(),
    decreases s1.len(),
{
    vstd::seq_lib::to_multiset_len(s1);
    vstd::seq_lib::to_multiset_len(s2);
    if s1.len() == 0 {
        assert(report_views(s1) =~= report_views(s2));
    } else {
        let x = s1.last();
        let a = s1.drop_last();
        assert(s1 =~= a.push(x));
        assert(s1.contains(x));
        assert(s2.to_multiset().count(x) > 0);
        let k = choose|k: int| 0 <= k < s2.len() && s2[k] == x;
        let b = s2.remove(k);
        assert(b.to_multiset() =~= a.to_multiset());
        lemma_views_preserve_multiset(a, b);
        let vx = report_view(x);
        assert(report_views(s1) =~= report_views(a).push(vx));
        assert(report_views(b) =~= report_views(s2).remove(k));
        assert(report_views(s2)[k] == vx);
        assert(report_views(s2).contains(vx));
        assert(report_views(s2).to_multiset().count(vx) > 0);
        assert(report_views(s1).to_multiset() =~= report_views(s2).to_multiset());
    }
}

/// Sorting is deterministic: whatever order the same report lines arrive
/// in, the sorted lists agree line by line on everything the order reads.
pub proof fn lemma_sorted_reports_agree(s1: Seq<DetectCandidateReport>, s2: Seq<DetectCandidateReport>)
    requires
        rank_sorted(report_views(s1)),
        rank_sorted(report_views(s2)),
        s1.to_multiset() == s2.to_multiset(),
        forall|i: int| 0 <= i < s1.len() ==> rank_wf(report_view(#[trigger] s1[i])),
    ensures
        report_views(s1) == report_views(s2),
{
    lemma_views_preserve_multiset(s1, s2);
    assert forall|i: int| 0 <= i < report_views(s1).len() implies rank_wf(
        #[trigger] report_views(s1)[i],
    ) by {
        assert(rank_wf(report_view(s1[i])));
    }
    lemma_sorted_order_is_unique(report_views(s1), report_views(s2));
}

} // verus!
