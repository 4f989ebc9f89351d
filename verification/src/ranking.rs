//! Ranking of matches: a stable descending sort.
//!
//! Matches are ranked best-first; ties keep the items' original input
//! order.  The sort works on pairs of (original index, rank), so stability
//! is the same thing as strict ordering by rank descending, then index
//! ascending — indices are distinct, which makes the order total and the
//! sorted sequence unique.

use vstd::prelude::*;
use vstd::seq_lib::group_to_multiset_ensures;

verus! {

/// The ranking order: `a` comes before `b` when `a` ranks higher, or ranks
/// equal and stood earlier in the input.
pub open spec fn pair_before(a: (usize, i64), b: (usize, i64)) -> bool {
    a.1 > b.1 || (a.1 == b.1 && a.0 < b.0)
}

/// Strictly sorted by the ranking order.
pub open spec fn sorted_pairs(s: Seq<(usize, i64)>) -> bool {
    forall|i: int, j: int| 0 <= i < j < s.len() ==> pair_before(s[i], s[j])
}

/// All first components distinct.
pub open spec fn distinct_idx(s: Seq<(usize, i64)>) -> bool {
    forall|i: int, j: int| 0 <= i < j < s.len() ==> s[i].0 != s[j].0
}

fn before(a: (usize, i64), b: (usize, i64)) -> (r: bool)
    ensures
        r == pair_before(a, b),
{
    a.1 > b.1 || (a.1 == b.1 && a.0 < b.0)
}

/// Sort (index, rank) pairs best rank first, ties by index: a stable
/// descending sort.  Distinct indices make the order total, so the result
/// is the unique strictly sorted permutation of the input.
pub fn sort_pairs(v: Vec<(usize, i64)>) -> (r: Vec<(usize, i64)>)
    requires
        distinct_idx(v@),
    ensures
        r@.to_multiset() == v@.to_multiset(),
        r@.len() == v@.len(),
        sorted_pairs(r@),
{
    broadcast use group_to_multiset_ensures;

    let mut rest = v;
    let mut out: Vec<(usize, i64)> = Vec::new();
    while rest.len() > 0
        invariant
            out@.to_multiset().add(rest@.to_multiset()) =~= v@.to_multiset(),
            out@.len() + rest@.len() == v@.len(),
            sorted_pairs(out@),
            distinct_idx(rest@),
            forall|i: int, j: int|
                0 <= i < out@.len() && 0 <= j < rest@.len() ==> pair_before(
                    #[trigger] out@[i],
                    #[trigger] rest@[j],
                ),
        decreases rest@.len(),
    {
        let ghost rest0 = rest@;
        let mut m: usize = 0;
        let mut q: usize = 1;
        while q < rest.len()
            invariant
                rest@.len() > 0,
                m < q <= rest@.len(),
                rest@ == rest0,
                distinct_idx(rest@),
                forall|k: int| 0 <= k < q && k != m ==> pair_before(rest@[m as int], #[trigger] rest@[k]),
            decreases rest@.len() - q,
        {
            if before(rest[q], rest[m]) {
                m = q;
            } else {
                proof {
                    assert(rest@[m as int].0 != rest@[q as int].0);
                }
            }
            q = q + 1;
        }
        let x = rest.remove(m);
        proof {
            assert(rest@ =~= rest0.remove(m as int));
            assert(forall|j: int|
                0 <= j < rest@.len() ==> #[trigger] rest@[j] == if j < m as int {
                    rest0[j]
                } else {
                    rest0[j + 1]
                });
            assert(forall|j: int| 0 <= j < rest@.len() ==> pair_before(x, #[trigger] rest@[j]));
            out@.to_multiset_ensures();
            rest0.to_multiset_ensures();
            assert(rest0[m as int] == x);
            assert(rest0.contains(x));
            assert(out@.push(x).to_multiset() =~= out@.to_multiset().insert(x));
            assert(rest0.to_multiset().count(x) > 0);
            assert(out@.push(x).to_multiset().add(rest@.to_multiset()) =~= v@.to_multiset());
        }
        out.push(x);
    }
    proof {
        assert(rest@.to_multiset().len() == 0);
        assert(out@.to_multiset() =~= v@.to_multiset());
        assert(out@.len() == v@.to_multiset().len());
        assert(v@.len() == v@.to_multiset().len());
    }
    out
}

} // verus!
