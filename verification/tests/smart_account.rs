use warden_contracts::smart_account::{
    resolve_signer, ProbeAnswer, RemovalStep, SignerRemovalCheck, WardenSmartAccount,
    WardenSmartAccountError,
};
use warden_contracts::threshold::ThresholdPolicy;
use warden_contracts::weighted::{SignerWeight, WeightedThresholdPolicy};

/// Runs the removal check to its end, answering each probe with the answer
/// at the probed position; returns the final step and the positions asked.
fn run_check(mut check: SignerRemovalCheck, answers: &[ProbeAnswer]) -> (RemovalStep, Vec<usize>) {
    let mut asked = Vec::new();
    loop {
        match check.next_step() {
            RemovalStep::ProbePolicy(i) => {
                asked.push(i);
                check.record_answer(answers[i]);
            }
            step => return (step, asked),
        }
    }
}

fn threshold_answer(threshold: u32, remaining: u32) -> ProbeAnswer {
    ProbeAnswer::Reachable(ThresholdPolicy::would_remain_reachable(threshold, remaining))
}

#[test]
fn remove_signer_succeeds_when_threshold_still_reachable() {
    // 3 signers, threshold=2. Remove one -> 2 remaining >= 2 -> ok.
    let ids = vec![0u32, 1, 2];
    let (pos, check) = WardenSmartAccount::remove_signer(&ids, 3, 0, 1).unwrap();
    assert_eq!(pos, 0);
    assert_eq!(check.remaining_count(), 2);
    let answer = threshold_answer(2, check.remaining_count());
    let (step, asked) = run_check(check, &[answer]);
    assert_eq!(step, RemovalStep::Proceed);
    assert_eq!(asked, vec![0]);
}

#[test]
fn remove_signer_blocked_when_threshold_would_become_unreachable() {
    // 3 signers, threshold=3. Remove one -> 2 remaining < 3 -> blocked (#1).
    let ids = vec![0u32, 1, 2];
    let (_, check) = WardenSmartAccount::remove_signer(&ids, 3, 0, 1).unwrap();
    let answer = threshold_answer(3, check.remaining_count());
    let (step, _) = run_check(check, &[answer]);
    assert_eq!(
        step,
        RemovalStep::Reject(WardenSmartAccountError::SignerRemovedWouldBreakPolicy)
    );
    match step {
        RemovalStep::Reject(e) => assert_eq!(e.code(), 1),
        _ => unreachable!(),
    }
}

#[test]
fn remove_signer_blocked_when_it_would_zero_out_an_opaque_policy_gated_rule() {
    // Only 1 signer and one policy with no reachability opinion: blocked (#4).
    let ids = vec![0u32];
    let (_, check) = WardenSmartAccount::remove_signer(&ids, 1, 0, 1).unwrap();
    assert_eq!(check.remaining_count(), 0);
    let (step, _) = run_check(check, &[ProbeAnswer::Opaque]);
    match step {
        RemovalStep::Reject(e) => {
            assert_eq!(e, WardenSmartAccountError::SignerRemovalWouldZeroOutPolicyGatedRule);
            assert_eq!(e.code(), 4);
        }
        _ => panic!("removal should be rejected"),
    }
}

#[test]
fn remove_signer_with_no_policies_still_blocked_by_oz_own_floor() {
    // No policies: the account's own check never fires, the removal goes on
    // to the underlying removal (whose own floor then rejects it).
    let ids = vec![0u32];
    let (_, check) = WardenSmartAccount::remove_signer(&ids, 1, 0, 0).unwrap();
    let (step, asked) = run_check(check, &[]);
    assert_eq!(step, RemovalStep::Proceed);
    assert!(asked.is_empty());
}

#[test]
fn remove_signer_succeeds_zeroing_out_when_other_signers_remain_on_rule() {
    // 2 signers + an opaque policy: 1 remaining, not 0 -> goes through.
    let ids = vec![0u32, 1];
    let (_, check) = WardenSmartAccount::remove_signer(&ids, 2, 0, 1).unwrap();
    assert_eq!(check.remaining_count(), 1);
    let (step, _) = run_check(check, &[ProbeAnswer::Opaque]);
    assert_eq!(step, RemovalStep::Proceed);
}

#[test]
fn removal_stops_at_first_unreachable_policy() {
    let ids = vec![7u32, 8, 9];
    let (_, check) = WardenSmartAccount::remove_signer(&ids, 3, 8, 4).unwrap();
    let answers = [
        ProbeAnswer::Reachable(true),
        ProbeAnswer::Opaque,
        ProbeAnswer::Reachable(false),
        ProbeAnswer::Reachable(true),
    ];
    let (step, asked) = run_check(check, &answers);
    assert_eq!(asked, vec![0, 1, 2]);
    assert_eq!(
        step,
        RemovalStep::Reject(WardenSmartAccountError::SignerRemovedWouldBreakPolicy)
    );
}

#[test]
fn unreachable_answer_wins_over_zero_out() {
    // Zero signers left, an opaque policy first and then one that says no:
    // the "would break" error wins.
    let ids = vec![5u32];
    let (_, check) = WardenSmartAccount::remove_signer(&ids, 1, 5, 2).unwrap();
    let answers = [ProbeAnswer::Opaque, threshold_answer(1, 0)];
    let (step, asked) = run_check(check, &answers);
    assert_eq!(asked, vec![0, 1]);
    assert_eq!(
        step,
        RemovalStep::Reject(WardenSmartAccountError::SignerRemovedWouldBreakPolicy)
    );
}

#[test]
fn remove_signer_unknown_id() {
    let ids = vec![3u32, 4];
    assert!(WardenSmartAccount::remove_signer(&ids, 2, 9, 1).is_none());
}

#[test]
fn resolve_signer_finds_first_position() {
    let ids = vec![10u32, 11, 12, 11];
    assert_eq!(resolve_signer(&ids, 11), Some(1));
    assert_eq!(resolve_signer(&ids, 12), Some(2));
    assert_eq!(resolve_signer(&ids, 13), None);
    assert_eq!(resolve_signer(&Vec::new(), 0), None);
}

#[test]
fn remaining_count_saturates_at_zero() {
    let check = SignerRemovalCheck::new(0, 1);
    assert_eq!(check.remaining_count(), 0);
    let check = SignerRemovalCheck::new(u32::MAX, 1);
    assert_eq!(check.remaining_count(), u32::MAX - 1);
}

#[test]
fn batch_add_signer_requires_acknowledgment() {
    assert_eq!(WardenSmartAccount::batch_add_signer(true), Ok(()));
    let err = WardenSmartAccount::batch_add_signer(false).unwrap_err();
    assert_eq!(err, WardenSmartAccountError::SignerAddedWouldWeakenPolicy);
    assert_eq!(err.code(), 2);
}

#[test]
fn add_signer_is_disabled() {
    let err = WardenSmartAccount::add_signer().unwrap_err();
    assert_eq!(err, WardenSmartAccountError::SingleSignerAdditionDisabled);
    assert_eq!(err.code(), 3);
}

#[test]
fn remove_last_signer_blocked_by_weighted_policy() {
    // One signer on the rule; the weighted policy also names a signer that is
    // not on the rule, with enough weight on its own. Removing the last
    // signer is still rejected as breaking the policy (#1).
    let ids = vec![0u32];
    let (_, check) = WardenSmartAccount::remove_signer(&ids, 1, 0, 1).unwrap();
    let entries = vec![
        SignerWeight { signer: b"on_rule".to_vec(), weight: 1 },
        SignerWeight { signer: b"elsewhere".to_vec(), weight: 1 },
    ];
    let answer = ProbeAnswer::Reachable(WeightedThresholdPolicy::would_remain_reachable(
        1,
        &entries,
        &b"on_rule".to_vec(),
        check.remaining_count(),
    ));
    let (step, _) = run_check(check, &[answer]);
    assert_eq!(
        step,
        RemovalStep::Reject(WardenSmartAccountError::SignerRemovedWouldBreakPolicy)
    );
}
