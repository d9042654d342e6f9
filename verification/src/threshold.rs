//! Reachability of a plain M-of-N threshold policy, where every signer counts
//! as one.

use vstd::prelude::*;

use crate::smart_account::{ProbeAnswer, WardenSmartAccountError, removal_verdict};

verus! {

/// A threshold of `threshold` signers stays reachable with
/// `remaining_signer_count` signers exactly when that many signers still meet
/// it.
pub open spec fn threshold_reachable(threshold: u32, remaining_signer_count: u32) -> bool {
    remaining_signer_count >= threshold
}

/// The M-of-N threshold policy.
pub struct ThresholdPolicy;

impl ThresholdPolicy {
    /// Whether a policy requiring `threshold` signers stays satisfiable when
    /// the rule is left with `remaining_signer_count` signers: every signer
    /// counts as one, so it is a bare count comparison.
    pub fn would_remain_reachable(threshold: u32, remaining_signer_count: u32) -> (r: bool)
        ensures
            r == threshold_reachable(threshold, remaining_signer_count),
            r == (remaining_signer_count >= threshold),
    {
        remaining_signer_count >= threshold
    }
}

/// A threshold of `threshold` signers is reachable with `n` signers left
/// exactly when `n` is at least the threshold.
pub proof fn lemma_threshold_reachable_exactly(threshold: u32, n: u32)
    ensures
        threshold_reachable(threshold, n) <==> n >= threshold,
{
}

/// A threshold that stays reachable with some count of signers stays
/// reachable with any larger count.
pub proof fn lemma_threshold_reachable_monotonic(threshold: u32, fewer: u32, more: u32)
    requires
        fewer <= more,
        threshold_reachable(threshold, fewer),
    ensures
        threshold_reachable(threshold, more),
{
}

/// A valid threshold (at least one signer) never reports itself reachable
/// with zero signers left. So a removal that would zero out a rule guarded by
/// such a policy is rejected as breaking that policy, whatever the other
/// policies answer: it never falls through to the zero-signer check.
pub proof fn lemma_valid_threshold_blocks_zeroing_removal(
    threshold: u32,
    answers: Seq<ProbeAnswer>,
    i: int,
)
    requires
        threshold >= 1,
        0 <= i < answers.len(),
        answers[i] == ProbeAnswer::Reachable(threshold_reachable(threshold, 0)),
    ensures
        !threshold_reachable(threshold, 0),
        removal_verdict(0, answers) == Err::<(), WardenSmartAccountError>(
            WardenSmartAccountError::SignerRemovedWouldBreakPolicy,
        ),
{
}

} // verus!
