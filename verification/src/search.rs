//! Finding the first of several candidates.

use vstd::prelude::*;

verus! {

/// The index of the first `true` in `hits`, or the length of `hits` when all
/// are `false`.
pub open spec fn first_true(hits: Seq<bool>) -> int
    decreases hits.len(),
{
    if hits.len() == 0 {
        0
    } else if hits.first() {
        0
    } else {
        1 + first_true(hits.drop_first())
    }
}

/// The number of `true`s in `hits`.
pub open spec fn count_true(hits: Seq<bool>) -> nat
    decreases hits.len(),
{
    if hits.len() == 0 {
        0
    } else {
        count_true(hits.drop_last()) + if hits.last() {
            1nat
        } else {
            0nat
        }
    }
}

/// `first_true` is the one index with no `true` before it and, if it is an
/// index at all, a `true` at it.
pub proof fn lemma_first_true(hits: Seq<bool>, i: int)
    requires
        0 <= i <= hits.len(),
        forall|j: int| 0 <= j < i ==> !hits[j],
        i < hits.len() ==> hits[i],
    ensures
        first_true(hits) == i,
    decreases hits.len(),
{
    if hits.len() > 0 && i > 0 {
        let rest = hits.drop_first();
        assert(!hits[0]);
        assert forall|j: int| 0 <= j < i - 1 implies !rest[j] by {
            assert(rest[j] == hits[j + 1]);
        }
        lemma_first_true(rest, i - 1);
    }
}

/// What `first_true` returns: an index up to the length, with no `true`
/// before it and a `true` at it.
pub proof fn lemma_first_true_found(hits: Seq<bool>)
    ensures
        0 <= first_true(hits) <= hits.len(),
        forall|j: int| 0 <= j < first_true(hits) ==> !hits[j],
        first_true(hits) < hits.len() ==> hits[first_true(hits)],
    decreases hits.len(),
{
    if hits.len() > 0 && !hits.first() {
        let rest = hits.drop_first();
        lemma_first_true_found(rest);
        let f = first_true(rest);
        assert forall|j: int| 0 <= j < f + 1 implies !hits[j] by {
            if j > 0 {
                assert(hits[j] == rest[j - 1]);
            }
        }
        if f < rest.len() {
            assert(hits[f + 1] == rest[f]);
        }
    }
}

/// Where nothing is `true`, the count is zero; and conversely.
pub proof fn lemma_count_zero(hits: Seq<bool>)
    ensures
        count_true(hits) == 0 <==> first_true(hits) == hits.len(),
    decreases hits.len(),
{
    lemma_first_true_found(hits);
    if hits.len() > 0 {
        let front = hits.drop_last();
        lemma_count_zero(front);
        lemma_first_true_found(front);
        if first_true(hits) == hits.len() {
            assert forall|j: int| 0 <= j < front.len() implies !front[j] by {
                assert(front[j] == hits[j]);
            }
            lemma_first_true(front, front.len() as int);
            assert(!hits[hits.len() - 1]);
        }
        if count_true(hits) == 0 {
            assert forall|j: int| 0 <= j < hits.len() implies !hits[j] by {
                if j < front.len() {
                    assert(front[j] == hits[j]);
                }
            }
            lemma_first_true(hits, hits.len() as int);
        }
    }
}

} // verus!
