//! The orchestrator's ordered report: every task yields exactly one outcome,
//! and the combined report pairs each descriptor with the outcome of its own
//! task, in input order, independent of the order in which tasks finished.

use vstd::prelude::*;

use crate::reconcile::Outcome;
use crate::task::DownloadTask;

verus! {

/// The ordered pairing of descriptors with outcomes: element `i` pairs
/// descriptor `i` with outcome `i`.
pub open spec fn paired(
    descriptors: Seq<DownloadTask>,
    outcomes: Seq<Outcome>,
) -> Seq<(DownloadTask, Outcome)> {
    Seq::new(descriptors.len(), |i: int| (descriptors[i], outcomes[i]))
}

/// Pairs each descriptor with the outcome of its own task, in input order:
/// the report has the input's length, and row `i` holds descriptor `i` beside
/// outcome `i`, regardless of which tasks finished first.
pub fn pair_outcomes(descriptors: Vec<DownloadTask>, outcomes: Vec<Outcome>) -> (r: Vec<
    (DownloadTask, Outcome),
>)
    requires
        descriptors@.len() == outcomes@.len(),
    ensures
        r@ == paired(descriptors@, outcomes@),
        r@.len() == descriptors@.len(),
{
    let ghost gds = descriptors@;
    let ghost gos = outcomes@;
    let mut ds = descriptors;
    let mut r: Vec<(DownloadTask, Outcome)> = Vec::new();
    let mut i: usize = 0;
    let n = outcomes.len();
    while i < n
        invariant
            n == gos.len(),
            gds.len() == gos.len(),
            i <= n,
            outcomes@ == gos,
            ds@ == gds.skip(i as int),
            r@.len() == i,
            forall|j: int| 0 <= j < i ==> r@[j] == (gds[j], gos[j]),
        decreases n - i,
    {
        let d = ds.remove(0);
        let o = outcomes[i];
        r.push((d, o));
        i += 1;
        proof {
            assert(ds@ =~= gds.skip(i as int));
        }
    }
    proof {
        assert(r@ =~= paired(gds, gos));
    }
    r
}

/// Isolation: in the paired report of one failing task among otherwise
/// successful ones, the failure appears at exactly that task's own row; every
/// other row carries its own task's successful classification.
pub proof fn lemma_failure_isolated(
    descriptors: Seq<DownloadTask>,
    outcomes: Seq<Outcome>,
    k: int,
)
    requires
        descriptors.len() == outcomes.len(),
        0 <= k < outcomes.len(),
        outcomes[k] is Failed,
        forall|i: int| 0 <= i < outcomes.len() && i != k ==> !(outcomes[i] is Failed),
    ensures
        paired(descriptors, outcomes).len() == descriptors.len(),
        forall|i: int|
            0 <= i < descriptors.len() ==> (paired(descriptors, outcomes)[i].1 is Failed <==> i
                == k),
        forall|i: int|
            0 <= i < descriptors.len() ==> paired(descriptors, outcomes)[i].0 == descriptors[i]
                && paired(descriptors, outcomes)[i].1 == outcomes[i],
{
}

} // verus!
