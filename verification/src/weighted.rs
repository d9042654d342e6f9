//! Reachability of a weighted M-of-N threshold policy after one signer
//! leaves.
//!
//! Signers carry individual weights, so whether the threshold survives a
//! removal depends on the removed signer's own weight. Since enforcement
//! accepts whichever of the rule's signers authenticate, the best case after a
//! removal is every other configured signer authenticating at once: the
//! threshold stays reachable when their combined weight still meets it. A
//! rule left with no signer at all has no one to authenticate, so no weight is
//! available then, and a valid threshold (at least one) is out of reach.
//!
//! Signers are identified by their canonical encoding: two entries name the
//! same signer exactly when their encodings are equal.

use vstd::prelude::*;

use crate::session::same_name;

verus! {

/// One entry of the installed weights: a signer, by its canonical encoding,
/// and its weight.
pub struct SignerWeight {
    pub signer: Vec<u8>,
    pub weight: u32,
}

/// The installed weights as (signer encoding, weight) pairs.
pub open spec fn weights_view(entries: Seq<SignerWeight>) -> Seq<(Seq<u8>, u32)> {
    entries.map_values(|e: SignerWeight| (e.signer@, e.weight))
}

/// The combined weight of the configured signers other than `removed`.
pub open spec fn weight_without(entries: Seq<(Seq<u8>, u32)>, removed: Seq<u8>) -> int
    decreases entries.len(),
{
    if entries.len() == 0 {
        0
    } else {
        let last = entries.len() - 1;
        weight_without(entries.take(last), removed) + if entries[last].0 == removed {
            0
        } else {
            entries[last].1 as int
        }
    }
}

/// The combined weight of all configured signers.
pub open spec fn total_weight(entries: Seq<(Seq<u8>, u32)>) -> int
    decreases entries.len(),
{
    if entries.len() == 0 {
        0
    } else {
        let last = entries.len() - 1;
        total_weight(entries.take(last)) + entries[last].1 as int
    }
}

/// The weight that can still authenticate once `removed` leaves a rule that
/// is then left with `remaining_signer_count` signers: the other configured
/// signers' weight, or none when no signer is left on the rule.
pub open spec fn available_weight(entries: Seq<(Seq<u8>, u32)>, removed: Seq<u8>, remaining_signer_count: u32) -> int {
    if remaining_signer_count == 0 {
        0
    } else {
        weight_without(entries, removed)
    }
}

/// Whether a weighted threshold stays reachable after the removal.
pub open spec fn weighted_reachable(
    threshold: u32,
    entries: Seq<(Seq<u8>, u32)>,
    removed: Seq<u8>,
    remaining_signer_count: u32,
) -> bool {
    available_weight(entries, removed, remaining_signer_count) >= threshold
}

/// A sum of 32-bit weights that saturates at the largest 32-bit value.
pub open spec fn saturate(sum: int) -> u32 {
    if sum > u32::MAX { u32::MAX } else { sum as u32 }
}

proof fn lemma_weight_without_nonneg(entries: Seq<(Seq<u8>, u32)>, removed: Seq<u8>)
    ensures
        weight_without(entries, removed) >= 0,
    decreases entries.len(),
{
    if entries.len() > 0 {
        lemma_weight_without_nonneg(entries.take(entries.len() - 1), removed);
    }
}

/// The weighted threshold policy.
pub struct WeightedThresholdPolicy;

impl WeightedThresholdPolicy {
    /// What `remaining_weight` returns.
    pub open spec fn remaining_weight_spec(entries: Seq<SignerWeight>, removed: Seq<u8>) -> u32 {
        saturate(weight_without(weights_view(entries), removed))
    }

    /// The combined weight of every configured signer but `removed`, summed
    /// with saturation at the largest 32-bit value, in the order the entries
    /// are given.
    pub fn remaining_weight(entries: &Vec<SignerWeight>, removed: &Vec<u8>) -> (w: u32)
        ensures
            w == saturate(weight_without(weights_view(entries@), removed@)),
            w == Self::remaining_weight_spec(entries@, removed@),
    {
        let ghost view = weights_view(entries@);
        let mut acc: u32 = 0;
        let mut i: usize = 0;
        while i < entries.len()
            invariant
                i <= entries@.len(),
                view == weights_view(entries@),
                acc == saturate(weight_without(view.take(i as int), removed@)),
            decreases entries@.len() - i,
        {
            proof {
                lemma_weight_without_nonneg(view.take(i as int), removed@);
                assert(view.take(i + 1).take(i as int) =~= view.take(i as int));
                assert(view.take(i + 1)[i as int] == view[i as int]);
                assert(view[i as int] == (entries@[i as int].signer@, entries@[i as int].weight));
            }
            let entry = &entries[i];
            if !same_name(&entry.signer, removed) {
                acc = acc.saturating_add(entry.weight);
            }
            i = i + 1;
        }
        proof {
            assert(view.take(entries@.len() as int) =~= view);
        }
        acc
    }

    /// Whether the threshold stays satisfiable after removing the signer
    /// `signer_to_remove` from a rule then left with `remaining_signer_count`
    /// signers: the maximum weight every other configured signer could
    /// contribute still meets the threshold, and some signer is left to
    /// contribute it. Saturating the sum never changes this answer.
    pub fn would_remain_reachable(
        threshold: u32,
        entries: &Vec<SignerWeight>,
        signer_to_remove: &Vec<u8>,
        remaining_signer_count: u32,
    ) -> (r: bool)
        ensures
            r == weighted_reachable(threshold, weights_view(entries@), signer_to_remove@, remaining_signer_count),
            remaining_signer_count >= 1 ==> r == (weight_without(weights_view(entries@), signer_to_remove@)
                >= threshold),
            remaining_signer_count >= 1 ==> r == (Self::remaining_weight_spec(entries@, signer_to_remove@)
                >= threshold),
            remaining_signer_count == 0 ==> r == (threshold == 0),
    {
        if remaining_signer_count == 0 {
            return threshold == 0;
        }
        let remaining = Self::remaining_weight(entries, signer_to_remove);
        proof {
            lemma_weight_without_nonneg(weights_view(entries@), signer_to_remove@);
        }
        remaining >= threshold
    }
}

/// With at least one signer left on the rule, the weighted threshold stays
/// reachable exactly when the weight of every configured signer other than
/// the removed one meets it.
pub proof fn lemma_weighted_reachable_with_signers_left(
    threshold: u32,
    entries: Seq<(Seq<u8>, u32)>,
    removed: Seq<u8>,
    remaining_signer_count: u32,
)
    requires
        remaining_signer_count >= 1,
    ensures
        weighted_reachable(threshold, entries, removed, remaining_signer_count) <==> weight_without(
            entries,
            removed,
        ) >= threshold,
{
}

/// The weight without `removed` of no entries is zero, and one more entry
/// adds its weight unless it is the removed signer.
pub proof fn lemma_weight_without_push(entries: Seq<(Seq<u8>, u32)>, entry: (Seq<u8>, u32), removed: Seq<u8>)
    ensures
        weight_without(Seq::empty(), removed) == 0,
        weight_without(entries.push(entry), removed) == weight_without(entries, removed) + if entry.0
            == removed {
            0int
        } else {
            entry.1 as int
        },
        total_weight(Seq::empty()) == 0,
        total_weight(entries.push(entry)) == total_weight(entries) + entry.1,
{
    assert(entries.push(entry).take(entries.len() as int) =~= entries);
}

/// The saturated sum is the true sum whenever that fits in 32 bits, and the
/// largest 32-bit value otherwise; so it meets a threshold exactly when the
/// true sum does.
pub proof fn lemma_saturated_weight_meets_threshold(entries: Seq<SignerWeight>, removed: Seq<u8>, threshold: u32)
    ensures
        weight_without(weights_view(entries), removed) <= u32::MAX ==> WeightedThresholdPolicy::remaining_weight_spec(
            entries,
            removed,
        ) == weight_without(weights_view(entries), removed),
        weight_without(weights_view(entries), removed) > u32::MAX ==> WeightedThresholdPolicy::remaining_weight_spec(
            entries,
            removed,
        ) == u32::MAX,
        (WeightedThresholdPolicy::remaining_weight_spec(entries, removed) >= threshold) <==> (weight_without(
            weights_view(entries),
            removed,
        ) >= threshold),
{
    lemma_weight_without_nonneg(weights_view(entries), removed);
}

/// Removing a signer that carries no configured weight leaves the total.
pub proof fn lemma_unconfigured_removal_keeps_total(entries: Seq<(Seq<u8>, u32)>, removed: Seq<u8>)
    requires
        forall|i: int| 0 <= i < entries.len() ==> entries[i].0 != removed,
    ensures
        weight_without(entries, removed) == total_weight(entries),
    decreases entries.len(),
{
    if entries.len() > 0 {
        let last = entries.len() - 1;
        let prefix = entries.take(last);
        assert forall|i: int| 0 <= i < prefix.len() implies prefix[i].0 != removed by {
            assert(prefix[i] == entries[i]);
        }
        lemma_unconfigured_removal_keeps_total(prefix, removed);
    }
}

/// Removing a configured signer, which the installed weights name once,
/// takes exactly its own weight away from the total.
pub proof fn lemma_removal_takes_its_weight(entries: Seq<(Seq<u8>, u32)>, k: int)
    requires
        0 <= k < entries.len(),
        forall|i: int| 0 <= i < entries.len() && i != k ==> entries[i].0 != entries[k].0,
    ensures
        weight_without(entries, entries[k].0) == total_weight(entries) - entries[k].1,
    decreases entries.len(),
{
    let last = entries.len() - 1;
    let prefix = entries.take(last);
    if k < last {
        assert(prefix[k] == entries[k]);
        assert forall|i: int| 0 <= i < prefix.len() && i != k implies prefix[i].0 != prefix[k].0 by {
            assert(prefix[i] == entries[i]);
        }
        lemma_removal_takes_its_weight(prefix, k);
    } else {
        assert forall|i: int| 0 <= i < prefix.len() implies prefix[i].0 != entries[k].0 by {
            assert(prefix[i] == entries[i]);
        }
        lemma_unconfigured_removal_keeps_total(prefix, entries[k].0);
    }
}

/// A removal can only lower the weight that remains: if the threshold stays
/// reachable after removing a signer, all configured signers together meet it.
pub proof fn lemma_removal_never_raises_reachability(
    threshold: u32,
    entries: Seq<(Seq<u8>, u32)>,
    removed: Seq<u8>,
    remaining_signer_count: u32,
)
    requires
        weighted_reachable(threshold, entries, removed, remaining_signer_count),
    ensures
        total_weight(entries) >= threshold,
{
    lemma_weight_without_le_total(entries, removed);
    lemma_weight_without_nonneg(entries, removed);
}

proof fn lemma_weight_without_le_total(entries: Seq<(Seq<u8>, u32)>, removed: Seq<u8>)
    ensures
        weight_without(entries, removed) <= total_weight(entries),
    decreases entries.len(),
{
    if entries.len() > 0 {
        lemma_weight_without_le_total(entries.take(entries.len() - 1), removed);
    }
}

/// A valid weighted threshold (at least one) never reports itself reachable
/// once no signer is left on the rule, whatever weights are configured.
pub proof fn lemma_weighted_unreachable_without_signers(
    threshold: u32,
    entries: Seq<(Seq<u8>, u32)>,
    removed: Seq<u8>,
)
    requires
        threshold >= 1,
    ensures
        !weighted_reachable(threshold, entries, removed, 0),
{
}

} // verus!
