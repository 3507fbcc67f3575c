//! Ordering for the leaderboard queries: (row index, count) pairs sorted by
//! count, largest first. The sort promises a permutation, so every shown
//! entry is a real row and nothing with a higher count can be left out.

use vstd::prelude::*;
use vstd::multiset::group_multiset_axioms;
use vstd::seq_lib::group_to_multiset_ensures;

verus! {

/// Counts never increase along the sequence.
pub open spec fn sorted_desc(s: Seq<(usize, u64)>) -> bool {
    forall|i: int, j: int| 0 <= i < j < s.len() ==> (#[trigger] s[i]).1 >= (#[trigger] s[j]).1
}

/// Sorts (index, count) pairs by count, largest first: the result is a
/// permutation of the input. Which of two equal counts comes first is left
/// open.
pub fn sort_pairs_desc(input: Vec<(usize, u64)>) -> (r: Vec<(usize, u64)>)
    ensures
        sorted_desc(r@),
        r@.to_multiset() == input@.to_multiset(),
        r@.len() == input@.len(),
{
    broadcast use group_to_multiset_ensures, group_multiset_axioms;

    let mut rest = input;
    let ghost orig = rest@;
    let mut out: Vec<(usize, u64)> = Vec::new();
    proof {
        assert(out@.to_multiset().add(rest@.to_multiset()) =~= orig.to_multiset());
    }
    while rest.len() > 0
        invariant
            out@.to_multiset().add(rest@.to_multiset()) =~= orig.to_multiset(),
            out@.len() + rest@.len() == orig.len(),
            sorted_desc(out@),
            forall|i: int, j: int|
                0 <= i < out@.len() && 0 <= j < rest@.len() ==> (#[trigger] out@[i]).1 >= (
                #[trigger] rest@[j]).1,
        decreases rest@.len(),
    {
        let mut m: usize = 0;
        let mut k: usize = 1;
        while k < rest.len()
            invariant
                0 < rest@.len(),
                m < k <= rest@.len(),
                forall|j: int| 0 <= j < k ==> (#[trigger] rest@[j]).1 <= rest@[m as int].1,
            decreases rest@.len() - k,
        {
            if rest[k].1 > rest[m].1 {
                m = k;
            }
            k = k + 1;
        }
        let ghost rest_before = rest@;
        let ghost out_before = out@;
        let x = rest.remove(m);
        out.push(x);
        proof {
            assert(x == rest_before[m as int]);
            assert(rest_before.contains(x));
            vstd::seq_lib::to_multiset_contains(rest_before, x);
            vstd::seq_lib::to_multiset_build(out_before, x);
            vstd::seq_lib::to_multiset_remove(rest_before, m as int);
            assert(out@ == out_before.push(x));
            assert(rest@ == rest_before.remove(m as int));
            assert(out@.to_multiset() =~= out_before.to_multiset().insert(x));
            assert(rest@.to_multiset() =~= rest_before.to_multiset().remove(x));
            assert(out@.to_multiset().add(rest@.to_multiset()) =~= orig.to_multiset());
            assert forall|i: int, j: int|
                0 <= i < out@.len() && 0 <= j < rest@.len() implies (#[trigger] out@[i]).1 >= (
            #[trigger] rest@[j]).1 by {
                if j < m {
                    assert(rest@[j] == rest_before[j]);
                } else {
                    assert(rest@[j] == rest_before[j + 1]);
                }
            }
        }
    }
    out
}

/// Every element of a permutation of `b` occurs somewhere in `b`.
pub proof fn lemma_permutation_index<T>(a: Seq<T>, b: Seq<T>, i: int)
    requires
        a.to_multiset() == b.to_multiset(),
        0 <= i < a.len(),
    ensures
        exists|j: int| 0 <= j < b.len() && b[j] == a[i],
{
    broadcast use group_to_multiset_ensures, group_multiset_axioms;

    assert(a.contains(a[i]));
    assert(b.to_multiset().count(a[i]) > 0);
    assert(b.contains(a[i]));
}

} // verus!
