//! First-match scans over boolean flag sequences.
//!
//! Both the window registry (which window is key) and each pane container
//! (which pane is visible) answer "focused index" questions by scanning an
//! ordered collection and returning the first position whose flag is set,
//! falling back to 0 when no flag is set at all. This module gives that scan
//! a single specification shared by both.

use vstd::prelude::*;

verus! {

/// First index `i >= k` with `flags[i]` set, or 0 when no such index exists.
/// The fallback to 0 (rather than an error value) is the deliberate policy of
/// this layer: a caller holding a stale index gets a default, not a failure.
pub open spec fn first_true_from(flags: Seq<bool>, k: int) -> int
    decreases flags.len() - k
        when 0 <= k <= flags.len()
{
    if k >= flags.len() {
        0
    } else if flags[k] {
        k
    } else {
        first_true_from(flags, k + 1)
    }
}

/// First index whose flag is set, scanning the whole sequence; 0 if none is.
pub open spec fn first_true(flags: Seq<bool>) -> int {
    first_true_from(flags, 0)
}

/// A scan may skip any prefix of unset flags without changing its answer.
pub proof fn lemma_first_true_skip(flags: Seq<bool>, j: int)
    requires
        0 <= j <= flags.len(),
        forall|i: int| 0 <= i < j ==> !flags[i],
    ensures
        first_true(flags) == first_true_from(flags, j),
    decreases j,
{
    if j > 0 {
        lemma_first_true_skip(flags, j - 1);
        assert(first_true_from(flags, j - 1) == first_true_from(flags, j));
    }
}

/// When no flag at all is set, the scan returns the documented fallback 0.
pub proof fn lemma_first_true_none_set(flags: Seq<bool>)
    requires
        forall|i: int| 0 <= i < flags.len() ==> !flags[i],
    ensures
        first_true(flags) == 0,
{
    lemma_first_true_skip(flags, flags.len() as int);
}

/// When exactly the flag at `i` is set, the scan returns `i`.
pub proof fn lemma_first_true_single(flags: Seq<bool>, i: int)
    requires
        0 <= i < flags.len(),
        forall|j: int| 0 <= j < flags.len() ==> (flags[j] <==> j == i),
    ensures
        first_true(flags) == i,
{
    lemma_first_true_skip(flags, i);
}

} // verus!
