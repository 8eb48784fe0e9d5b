//! Least index of a bounded range at which a predicate holds.

use vstd::prelude::*;

verus! {

/// The least index in `from..n` at which `pred` holds, if there is one.
pub open spec fn least_index_from(from: int, n: int, pred: spec_fn(int) -> bool) -> Option<int>
    decreases n - from,
{
    if from >= n {
        None
    } else if pred(from) {
        Some(from)
    } else {
        least_index_from(from + 1, n, pred)
    }
}

/// The least index in `0..n` at which `pred` holds, if there is one.
pub open spec fn least_index(n: int, pred: spec_fn(int) -> bool) -> Option<int> {
    least_index_from(0, n, pred)
}

/// `least_index_from` returns an index at which the predicate holds and before
/// which, from `from` on, it does not; it returns `None` exactly when the
/// predicate holds nowhere in the range.
pub proof fn lemma_least_index_from(from: int, n: int, pred: spec_fn(int) -> bool)
    requires
        0 <= from,
    ensures
        match least_index_from(from, n, pred) {
            Some(i) => from <= i < n && pred(i) && forall|j: int| from <= j < i ==> !#[trigger] pred(j),
            None => forall|j: int| from <= j < n ==> !#[trigger] pred(j),
        },
    decreases n - from,
{
    if from < n && !pred(from) {
        lemma_least_index_from(from + 1, n, pred);
    }
}

/// An index at which the predicate holds, and before which it holds
/// nowhere, is the least one.
pub proof fn lemma_least_index_is(n: int, pred: spec_fn(int) -> bool, i: int)
    requires
        0 <= i < n,
        pred(i),
        forall|j: int| 0 <= j < i ==> !#[trigger] pred(j),
    ensures
        least_index(n, pred) == Some(i),
{
    lemma_least_index_from(0, n, pred);
}

/// Where the predicate holds nowhere, there is no least index.
pub proof fn lemma_least_index_none(n: int, pred: spec_fn(int) -> bool)
    requires
        forall|j: int| 0 <= j < n ==> !#[trigger] pred(j),
    ensures
        least_index(n, pred) is None,
{
    lemma_least_index_from(0, n, pred);
}

} // verus!
