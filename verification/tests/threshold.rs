use warden_contracts::threshold::ThresholdPolicy;

#[test]
fn would_remain_reachable_true_when_remaining_meets_threshold() {
    // 3 signers, threshold 2, one removed: 2 remain.
    assert!(ThresholdPolicy::would_remain_reachable(2, 2));
}

#[test]
fn would_remain_reachable_false_when_remaining_below_threshold() {
    // 3 signers, threshold 3, one removed: 2 remain.
    assert!(!ThresholdPolicy::would_remain_reachable(3, 2));
}

#[test]
fn valid_threshold_never_reachable_with_zero_signers() {
    for threshold in [1u32, 2, 10, u32::MAX] {
        assert!(!ThresholdPolicy::would_remain_reachable(threshold, 0));
    }
    assert!(ThresholdPolicy::would_remain_reachable(0, 0));
}
