//! Small specification vocabulary shared by every table of the store:
//! "the first row satisfying a predicate", written so that exec search
//! loops can be proved against it.

use vstd::prelude::*;

verus! {

/// Index of the first element of `s` satisfying `p`, or `-1` if none does.
/// This is the row every lookup, update, and toggle operates on.
pub open spec fn first_match<T>(s: Seq<T>, p: spec_fn(T) -> bool) -> int
    decreases s.len(),
{
    if s.len() == 0 {
        -1
    } else if p(s[0]) {
        0
    } else {
        let r = first_match(s.drop_first(), p);
        if r < 0 {
            -1
        } else {
            r + 1
        }
    }
}

/// True if some element of `s` satisfies `p`.
pub open spec fn some_match<T>(s: Seq<T>, p: spec_fn(T) -> bool) -> bool {
    exists|j: int| 0 <= j < s.len() && p(#[trigger] s[j])
}

/// A witness at `i` with no earlier witness pins `first_match` to `i`.
pub proof fn lemma_first_match_at<T>(s: Seq<T>, p: spec_fn(T) -> bool, i: int)
    requires
        0 <= i < s.len(),
        p(s[i]),
        forall|j: int| 0 <= j < i ==> !p(#[trigger] s[j]),
    ensures
        first_match(s, p) == i,
    decreases s.len(),
{
    if i > 0 {
        assert(forall|j: int| 0 <= j < i - 1 ==> s.drop_first()[j] == #[trigger] s[j + 1]);
        lemma_first_match_at(s.drop_first(), p, i - 1);
    }
}

/// If no element satisfies `p`, `first_match` is `-1`.
pub proof fn lemma_first_match_none<T>(s: Seq<T>, p: spec_fn(T) -> bool)
    requires
        forall|j: int| 0 <= j < s.len() ==> !p(#[trigger] s[j]),
    ensures
        first_match(s, p) == -1,
    decreases s.len(),
{
    if s.len() > 0 {
        assert(forall|j: int| 0 <= j < s.len() - 1 ==> s.drop_first()[j] == #[trigger] s[j + 1]);
        lemma_first_match_none(s.drop_first(), p);
    }
}

/// What a `first_match` result means: a hit is a witness with no earlier
/// witness; a miss means no witness at all.
pub proof fn lemma_first_match_props<T>(s: Seq<T>, p: spec_fn(T) -> bool)
    ensures
        first_match(s, p) >= 0 ==> {
            &&& first_match(s, p) < s.len()
            &&& p(s[first_match(s, p)])
            &&& forall|j: int| 0 <= j < first_match(s, p) ==> !p(#[trigger] s[j])
        },
        first_match(s, p) < 0 ==> forall|j: int| 0 <= j < s.len() ==> !p(#[trigger] s[j]),
        first_match(s, p) >= 0 <==> some_match(s, p),
    decreases s.len(),
{
    if s.len() > 0 {
        lemma_first_match_props(s.drop_first(), p);
        if !p(s[0]) {
            if first_match(s.drop_first(), p) < 0 {
                assert forall|j: int| 0 <= j < s.len() implies !p(#[trigger] s[j]) by {
                    if j > 0 {
                        assert(s.drop_first()[j - 1] == s[j]);
                    }
                }
            } else {
                let r = first_match(s.drop_first(), p);
                assert(s.drop_first()[r] == s[r + 1]);
                assert forall|j: int| 0 <= j < r + 1 implies !p(#[trigger] s[j]) by {
                    if j > 0 {
                        assert(s.drop_first()[j - 1] == s[j]);
                    }
                }
            }
        }
    }
}

/// Replacing a matching element by a non-matching one shrinks the filtered
/// sequence by exactly one.
pub proof fn lemma_filter_update_unmatch<T>(s: Seq<T>, i: int, x: T, p: spec_fn(T) -> bool)
    requires
        0 <= i < s.len(),
        p(s[i]),
        !p(x),
    ensures
        s.update(i, x).filter(p).len() == s.filter(p).len() - 1,
    decreases s.len(),
{
    reveal(Seq::filter);
    if i == s.len() - 1 {
        assert(s.update(i, x).drop_last() =~= s.drop_last());
        assert(s.update(i, x).last() == x);
        assert(s.last() == s[i]);
    } else {
        assert(s.update(i, x).drop_last() =~= s.drop_last().update(i, x));
        assert(s.update(i, x).last() == s.last());
        assert(s.drop_last()[i] == s[i]);
        lemma_filter_update_unmatch(s.drop_last(), i, x, p);
    }
}

} // verus!
