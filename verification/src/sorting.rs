//! Sorting of duration samples.
//!
//! Timing analysis repeatedly needs its samples in ascending order; the
//! sorted sequence is specified abstractly through `Seq::sort_by`, and
//! the executable sort is proved to produce exactly that sequence.

use vstd::prelude::*;
use vstd::relations::sorted_by;
use vstd::relations::total_ordering;
use vstd::seq_lib::lemma_multiset_commutative;
use vstd::seq_lib::lemma_sorted_unique;

verus! {

/// The ordering under which duration samples are sorted.
pub open spec fn leq_u64() -> spec_fn(u64, u64) -> bool {
    |a: u64, b: u64| a <= b
}

/// The sample sequence in ascending order.
pub open spec fn ascending(s: Seq<u64>) -> Seq<u64> {
    s.sort_by(leq_u64())
}

/// What `ascending` yields: a sorted permutation of the input.
pub proof fn lemma_ascending_ensures(s: Seq<u64>)
    ensures
        ascending(s).len() == s.len(),
        sorted_by(ascending(s), leq_u64()),
        ascending(s).to_multiset() == s.to_multiset(),
        forall|i: int, j: int|
            0 <= i <= j < s.len() ==> #[trigger] ascending(s)[i] <= #[trigger] ascending(s)[j],
{
    s.lemma_sort_by_ensures(leq_u64());
    s.to_multiset_ensures();
    ascending(s).to_multiset_ensures();
    assert(ascending(s).len() == s.len());
    assert forall|i: int, j: int| 0 <= i <= j < s.len() implies #[trigger] ascending(s)[i]
        <= #[trigger] ascending(s)[j] by {
        if i < j {
            assert(leq_u64()(ascending(s)[i], ascending(s)[j]));
        }
    }
}

/// Sort duration samples into ascending order.
pub fn sort_durations(v: &Vec<u64>) -> (r: Vec<u64>)
    ensures
        r@ == ascending(v@),
{
    proof {
        broadcast use vstd::seq_lib::group_to_multiset_ensures;

    }
    let mut out: Vec<u64> = Vec::new();
    let mut k: usize = 0;
    while k < v.len()
        invariant
            k <= v@.len(),
            sorted_by(out@, leq_u64()),
            out@.to_multiset() == v@.take(k as int).to_multiset(),
            out@.len() == k,
        decreases v@.len() - k,
    {
        let x = v[k];
        let mut pos: usize = 0;
        while pos < out.len() && out[pos] <= x
            invariant
                pos <= out@.len(),
                forall|i: int| 0 <= i < pos ==> #[trigger] out@[i] <= x,
            decreases out@.len() - pos,
        {
            pos = pos + 1;
        }
        let ghost prev = out@;
        out.insert(pos, x);
        proof {
            broadcast use vstd::seq_lib::group_to_multiset_ensures;

            prev.insert_ensures(pos as int, x);
            assert(sorted_by(out@, leq_u64())) by {
                assert forall|i: int, j: int| 0 <= i < j < out@.len() implies leq_u64()(
                    out@[i],
                    out@[j],
                ) by {
                    if j < pos {
                        assert(leq_u64()(prev[i], prev[j]));
                    } else if i < pos && j == pos {
                        assert(out@[i] == prev[i] && out@[j] == x);
                    } else if i < pos && j > pos {
                        assert(out@[j] == prev[j - 1]);
                        if pos < prev.len() {
                            if i < j - 1 {
                                assert(leq_u64()(prev[i], prev[j - 1]));
                            }
                        }
                    } else if i == pos {
                        // out[i] == x; every element from pos on exceeds x
                        assert(out@[j] == prev[j - 1]);
                        if pos < prev.len() {
                            assert(!(prev[pos as int] <= x));
                            if pos < j - 1 {
                                assert(leq_u64()(prev[pos as int], prev[j - 1]));
                            }
                        }
                    } else {
                        assert(out@[i] == prev[i - 1] && out@[j] == prev[j - 1]);
                        assert(leq_u64()(prev[i - 1], prev[j - 1]));
                    }
                }
            }
            assert(out@.to_multiset() == v@.take(k as int + 1).to_multiset()) by {
                assert(out@ =~= prev.take(pos as int).push(x) + prev.skip(pos as int));
                lemma_multiset_commutative(prev.take(pos as int).push(x), prev.skip(pos as int));
                assert(prev.take(pos as int).push(x).to_multiset() =~= prev.take(
                    pos as int,
                ).to_multiset().insert(x));
                lemma_multiset_commutative(prev.take(pos as int), prev.skip(pos as int));
                assert(prev.take(pos as int) + prev.skip(pos as int) =~= prev);
                assert(out@.to_multiset() =~= prev.to_multiset().insert(x));
                assert(v@.take(k as int + 1) =~= v@.take(k as int).push(x));
                assert(v@.take(k as int + 1).to_multiset() =~= v@.take(k as int).to_multiset()
                    .insert(x));
            }
        }
        k = k + 1;
    }
    proof {
        assert(v@.take(v@.len() as int) =~= v@);
        v@.lemma_sort_by_ensures(leq_u64());
        lemma_sorted_unique(out@, ascending(v@), leq_u64());
        assert(out@ =~= ascending(v@));
    }
    out
}

} // verus!
