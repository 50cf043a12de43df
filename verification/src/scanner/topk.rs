//! A bounded set of the largest candidates seen so far. The memory it
//! holds is at most `k` candidates, however long the walk.

use vstd::prelude::*;
use vstd::multiset::Multiset;

use super::candidate::ScanCandidate;

verus! {

broadcast use {
    vstd::seq_lib::group_to_multiset_ensures,
    vstd::multiset::group_multiset_axioms,
};

/// Retains the `k` largest candidates (by logical size) offered to it.
pub struct TopKCandidates {
    k: usize,
    items: Vec<ScanCandidate>,
    offered: Ghost<Seq<ScanCandidate>>,
}

/// Offered at least once more often than it is held: at least one copy of
/// `x` was discarded.
pub open spec fn discarded(all: Multiset<ScanCandidate>, held: Multiset<ScanCandidate>, x: ScanCandidate) -> bool {
    all.count(x) > held.count(x)
}

/// The smaller of two naturals.
pub open spec fn min_nat(a: nat, b: nat) -> nat {
    if a <= b {
        a
    } else {
        b
    }
}

/// A full buffer offered `c`: position `i` holds a smallest candidate,
/// and `c` replaces it exactly when strictly larger; otherwise nothing
/// changes.
pub open spec fn offer_when_full(
    before: Seq<ScanCandidate>,
    after: Seq<ScanCandidate>,
    c: ScanCandidate,
    i: int,
) -> bool {
    &&& 0 <= i < before.len()
    &&& forall|j: int|
        0 <= j < before.len() ==> before[i].logical_size_bytes <= #[trigger] before[j].logical_size_bytes
    &&& if c.logical_size_bytes > before[i].logical_size_bytes {
        after == before.remove(i).push(c)
    } else {
        after == before
    }
}

/// Largest first.
pub open spec fn size_sorted(v: Seq<ScanCandidate>) -> bool {
    forall|i: int, j: int|
        0 <= i < j < v.len() ==> (#[trigger] v[i]).logical_size_bytes >= (
        #[trigger] v[j]).logical_size_bytes
}

impl TopKCandidates {
    #[verifier::type_invariant]
    closed spec fn inv(self) -> bool {
        let held = self.items@.to_multiset();
        let all = self.offered@.to_multiset();
        &&& self.items@.len() == min_nat(self.k as nat, self.offered@.len())
        &&& self.offered@.len() <= self.k ==> held == all
        &&& forall|x: ScanCandidate| #[trigger] held.count(x) <= all.count(x)
        &&& forall|x: ScanCandidate, y: ScanCandidate|
            discarded(all, held, x) && #[trigger] held.count(y) > 0 ==> (#[trigger] all.count(
                x,
            ) > 0 && x.logical_size_bytes <= y.logical_size_bytes)
    }

    /// How many candidates to retain.
    pub closed spec fn spec_k(self) -> nat {
        self.k as nat
    }

    /// Every candidate offered so far, in order.
    pub closed spec fn spec_offered(self) -> Seq<ScanCandidate> {
        self.offered@
    }

    /// The candidates held now, in no particular order.
    pub closed spec fn spec_held(self) -> Seq<ScanCandidate> {
        self.items@
    }

    pub fn new(k: usize) -> (t: TopKCandidates)
        ensures
            t.spec_k() == k,
            t.spec_offered().len() == 0,
            t.spec_held().len() == 0,
    {
        let t = TopKCandidates { k, items: Vec::new(), offered: Ghost(Seq::empty()) };
        assert(t.items@.to_multiset() =~= t.offered@.to_multiset());
        t
    }

    fn index_of_smallest(&self) -> (i: usize)
        requires
            self.items@.len() > 0,
        ensures
            i < self.items@.len(),
            forall|j: int|
                0 <= j < self.items@.len() ==> self.items@[i as int].logical_size_bytes
                    <= #[trigger] self.items@[j].logical_size_bytes,
    {
        let mut best: usize = 0;
        let mut j: usize = 1;
        while j < self.items.len()
            invariant
                self.items@.len() > 0,
                best < self.items@.len(),
                1 <= j <= self.items@.len(),
                forall|l: int|
                    0 <= l < j ==> self.items@[best as int].logical_size_bytes
                        <= #[trigger] self.items@[l].logical_size_bytes,
            decreases self.items@.len() - j,
        {
            if self.items[j].logical_size_bytes < self.items[best].logical_size_bytes {
                best = j;
            }
            j = j + 1;
        }
        best
    }

    /// Offer one candidate: kept while fewer than `k` are held; otherwise
    /// it replaces a smallest held candidate when strictly larger than it,
    /// and is dropped when not.
    pub fn offer(&mut self, candidate: ScanCandidate)
        ensures
            final(self).spec_k() == old(self).spec_k(),
            final(self).spec_offered() == old(self).spec_offered().push(candidate),
            old(self).spec_k() == 0 ==> final(self).spec_held() == old(self).spec_held(),
            old(self).spec_held().len() < old(self).spec_k() ==> final(self).spec_held() == old(
                self,
            ).spec_held().push(candidate),
            0 < old(self).spec_k() <= old(self).spec_held().len() ==> (exists|i: int|
                #[trigger] offer_when_full(old(self).spec_held(), final(self).spec_held(), candidate, i)),
    {
        proof {
            use_type_invariant(&*self);
        }
        let ghost all = self.offered@.to_multiset();
        let ghost held = self.items@.to_multiset();
        let ghost new_offered = self.offered@.push(candidate);
        if self.k == 0 {
            proof {
                assert(self.items@.len() == 0);
                assert forall|y: ScanCandidate| #[trigger] held.count(y) == 0 by {
                    if held.count(y) > 0 {
                        assert(self.items@.contains(y));
                    }
                }
            }
            let items = self.take_items();
            *self = TopKCandidates { k: self.k, items, offered: Ghost(new_offered) };
            return;
        }
        if self.items.len() < self.k {
            let mut items = self.take_items();
            items.push(candidate);
            proof {
                assert(items@.to_multiset() =~= new_offered.to_multiset());
            }
            *self = TopKCandidates { k: self.k, items, offered: Ghost(new_offered) };
            return;
        }
        let i = self.index_of_smallest();
        let ghost m = self.items@[i as int];
        proof {
            assert forall|y: ScanCandidate| #[trigger] held.count(y) > 0 implies m.logical_size_bytes
                <= y.logical_size_bytes by {
                assert(self.items@.contains(y));
                let l = choose|l: int| 0 <= l < self.items@.len() && self.items@[l] == y;
                assert(m.logical_size_bytes <= self.items@[l].logical_size_bytes);
            }
            assert(self.items@.contains(m));
            assert(held.count(m) > 0);
        }
        if candidate.logical_size_bytes > self.items[i].logical_size_bytes {
            let mut items = self.take_items();
            let ghost before = items@;
            items.remove(i);
            items.push(candidate);
            proof {
                assert(before.remove(i as int).to_multiset() == held.remove(m));
                assert(items@ == before.remove(i as int).push(candidate));
                let held2 = items@.to_multiset();
                let all2 = new_offered.to_multiset();
                assert(held2 == held.remove(m).insert(candidate));
                assert(all2 == all.insert(candidate));
                assert forall|x: ScanCandidate| #[trigger] held2.count(x) <= all2.count(x) by {
                    assert(held.count(x) <= all.count(x));
                }
                assert forall|x: ScanCandidate, y: ScanCandidate|
                    discarded(all2, held2, x) && #[trigger] held2.count(y) > 0 implies (
                    #[trigger] all2.count(x) > 0 && x.logical_size_bytes <= y.logical_size_bytes) by {
                    assert(held.count(x) <= all.count(x));
                    if x != m {
                        assert(discarded(all, held, x));
                        assert(all.count(x) > 0 && x.logical_size_bytes <= m.logical_size_bytes) by {
                            assert(held.count(m) > 0);
                        }
                    }
                    if y != candidate {
                        assert(held.count(y) > 0);
                    }
                }
            }
            *self = TopKCandidates { k: self.k, items, offered: Ghost(new_offered) };
            assert(offer_when_full(old(self).spec_held(), self.spec_held(), candidate, i as int));
        } else {
            let items = self.take_items();
            proof {
                let all2 = new_offered.to_multiset();
                assert(all2 == all.insert(candidate));
                assert forall|x: ScanCandidate| #[trigger] held.count(x) <= all2.count(x) by {
                    assert(held.count(x) <= all.count(x));
                }
                assert forall|x: ScanCandidate, y: ScanCandidate|
                    discarded(all2, held, x) && #[trigger] held.count(y) > 0 implies (
                    #[trigger] all2.count(x) > 0 && x.logical_size_bytes <= y.logical_size_bytes) by {
                    assert(held.count(x) <= all.count(x));
                    if x != candidate {
                        assert(discarded(all, held, x));
                    }
                }
            }
            *self = TopKCandidates { k: self.k, items, offered: Ghost(new_offered) };
            assert(offer_when_full(old(self).spec_held(), self.spec_held(), candidate, i as int));
        }
    }

    /// A copy of the held candidates.
    fn take_items(&self) -> (v: Vec<ScanCandidate>)
        ensures
            v@ == self.items@,
    {
        let mut v: Vec<ScanCandidate> = Vec::new();
        let mut i: usize = 0;
        while i < self.items.len()
            invariant
                0 <= i <= self.items@.len(),
                v@ == self.items@.subrange(0, i as int),
            decreases self.items@.len() - i,
        {
            v.push(self.items[i].duplicate());
            assert(v@ =~= self.items@.subrange(0, i + 1));
            i = i + 1;
        }
        assert(self.items@.subrange(0, self.items@.len() as int) =~= self.items@);
        v
    }

    /// How many candidates are held: `k`, or every offered one when fewer
    /// were offered.
    pub fn len(&self) -> (n: usize)
        ensures
            n == self.spec_held().len(),
            n == min_nat(self.spec_k(), self.spec_offered().len()),
    {
        proof {
            use_type_invariant(self);
        }
        self.items.len()
    }

    pub fn is_empty(&self) -> (b: bool)
        ensures
            b == (self.spec_held().len() == 0),
            b == (self.spec_k() == 0 || self.spec_offered().len() == 0),
    {
        proof {
            use_type_invariant(self);
        }
        self.items.len() == 0
    }

    /// The held candidates, largest first. They are exactly `k` of the
    /// offered candidates (all of them when fewer were offered), and no
    /// offered candidate that was dropped is larger than any returned.
    pub fn into_sorted_vec(self) -> (v: Vec<ScanCandidate>)
        ensures
            v@.to_multiset() == self.spec_held().to_multiset(),
            size_sorted(v@),
            v@.len() == min_nat(self.spec_k(), self.spec_offered().len()),
            forall|x: ScanCandidate| #[trigger] v@.to_multiset().count(x) <= self.spec_offered().to_multiset().count(x),
            forall|x: ScanCandidate, y: ScanCandidate|
                discarded(self.spec_offered().to_multiset(), v@.to_multiset(), x) && v@.contains(y)
                    ==> #[trigger] x.logical_size_bytes <= #[trigger] y.logical_size_bytes,
    {
        proof {
            use_type_invariant(&self);
        }
        let items = self.take_items();
        let v = sort_by_size_desc(items);
        proof {
            vstd::seq_lib::to_multiset_len(v@);
            vstd::seq_lib::to_multiset_len(self.items@);
            let held = self.items@.to_multiset();
            let all = self.offered@.to_multiset();
            assert forall|x: ScanCandidate, y: ScanCandidate|
                discarded(all, v@.to_multiset(), x) && v@.contains(y) implies #[trigger] x.logical_size_bytes
                <= #[trigger] y.logical_size_bytes by {
                assert(v@.to_multiset().count(y) > 0);
                assert(held.count(y) > 0);
                assert(discarded(all, held, x));
            }
        }
        v
    }
}

/// The candidates of `v`, largest first.
fn sort_by_size_desc(v: Vec<ScanCandidate>) -> (r: Vec<ScanCandidate>)
    ensures
        r@.to_multiset() == v@.to_multiset(),
        size_sorted(r@),
{
    let mut input = v;
    let mut out: Vec<ScanCandidate> = Vec::new();
    let ghost initial = input@;
    assert(out@.to_multiset().add(input@.to_multiset()) =~= initial.to_multiset());
    while input.len() > 0
        invariant
            size_sorted(out@),
            out@.to_multiset().add(input@.to_multiset()) == initial.to_multiset(),
        decreases input@.len(),
    {
        let ghost before_out = out@;
        let ghost before_in = input@;
        let x = input.remove(0);
        let mut p: usize = 0;
        while p < out.len() && out[p].logical_size_bytes >= x.logical_size_bytes
            invariant
                p <= out@.len(),
                out@ == before_out,
                forall|l: int| 0 <= l < p ==> (#[trigger] out@[l]).logical_size_bytes >= x.logical_size_bytes,
            decreases out@.len() - p,
        {
            p = p + 1;
        }
        out.insert(p, x);
        proof {
            assert(before_in.remove(0) =~= input@);
            assert(before_in.contains(x));
            assert(input@.to_multiset() == before_in.to_multiset().remove(x));
            assert(out@.to_multiset() == before_out.to_multiset().insert(x));
            assert(out@.to_multiset().add(input@.to_multiset()) =~= before_out.to_multiset().add(
                before_in.to_multiset(),
            ));
            assert forall|i: int, j: int| 0 <= i < j < out@.len() implies (
            #[trigger] out@[i]).logical_size_bytes >= (#[trigger] out@[j]).logical_size_bytes by {
                if i < p && j < p {
                    assert(before_out[i].logical_size_bytes >= before_out[j].logical_size_bytes);
                } else if i < p && j == p {
                } else if i < p {
                    assert(before_out[i].logical_size_bytes >= before_out[j - 1].logical_size_bytes);
                } else if i == p {
                    if p < before_out.len() {
                        assert(before_out[p as int].logical_size_bytes < x.logical_size_bytes);
                        assert(before_out[p as int].logical_size_bytes >= before_out[j - 1].logical_size_bytes);
                    }
                } else {
                    assert(before_out[i - 1].logical_size_bytes >= before_out[j - 1].logical_size_bytes);
                }
            }
        }
    }
    proof {
        assert(input@ =~= Seq::<ScanCandidate>::empty());
        assert(input@.to_multiset() =~= Multiset::<ScanCandidate>::empty());
        assert(out@.to_multiset().add(input@.to_multiset()) =~= out@.to_multiset());
    }
    out
}

} // verus!
