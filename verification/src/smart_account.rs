//! The smart account's own checks around signer changes.

use vstd::prelude::*;

use crate::threshold::threshold_reachable;
use crate::weighted::weighted_reachable;

verus! {

/// Errors raised by the smart account itself.
#[derive(Clone, Copy, Debug, PartialEq, Eq, Structural)]
pub enum WardenSmartAccountError {
    /// Removing the signer would make a reachability-aware policy's
    /// requirement unreachable (e.g. threshold above the remaining count).
    SignerRemovedWouldBreakPolicy,
    /// Adding signers would change the policy-to-signer ratio and the
    /// caller did not explicitly acknowledge it.
    SignerAddedWouldWeakenPolicy,
    /// The single-signer `add_signer` entry point is disabled; use
    /// `batch_add_signer` instead, even for a single signer.
    SingleSignerAdditionDisabled,
    /// Removing the signer would leave a context rule with zero signers while
    /// a policy with no reachability opinion is still attached to it.
    SignerRemovalWouldZeroOutPolicyGatedRule,
}

impl WardenSmartAccountError {
    /// The contract error number under which the ledger reports this error.
    pub open spec fn error_code(self) -> u32 {
        match self {
            WardenSmartAccountError::SignerRemovedWouldBreakPolicy => 1,
            WardenSmartAccountError::SignerAddedWouldWeakenPolicy => 2,
            WardenSmartAccountError::SingleSignerAdditionDisabled => 3,
            WardenSmartAccountError::SignerRemovalWouldZeroOutPolicyGatedRule => 4,
        }
    }

    /// The contract error number of this error.
    pub fn code(&self) -> (c: u32)
        ensures
            c == self.error_code(),
    {
        match self {
            WardenSmartAccountError::SignerRemovedWouldBreakPolicy => 1,
            WardenSmartAccountError::SignerAddedWouldWeakenPolicy => 2,
            WardenSmartAccountError::SingleSignerAdditionDisabled => 3,
            WardenSmartAccountError::SignerRemovalWouldZeroOutPolicyGatedRule => 4,
        }
    }
}

/// Resolves a global signer id to its position within a context rule, by
/// scanning the rule's signer ids, which are positionally aligned with its
/// signers. `None` when the rule holds no signer with that id.
pub fn resolve_signer(signer_ids: &Vec<u32>, signer_id: u32) -> (pos: Option<usize>)
    ensures
        match pos {
            Some(i) => i < signer_ids@.len() && signer_ids@[i as int] == signer_id
                && forall|j: int| 0 <= j < i ==> signer_ids@[j] != signer_id,
            None => forall|j: int| 0 <= j < signer_ids@.len() ==> signer_ids@[j] != signer_id,
        },
{
    let mut i: usize = 0;
    while i < signer_ids.len()
        invariant
            i <= signer_ids@.len(),
            forall|j: int| 0 <= j < i ==> signer_ids@[j] != signer_id,
        decreases signer_ids@.len() - i,
    {
        if signer_ids[i] == signer_id {
            return Some(i);
        }
        i = i + 1;
    }
    None
}

/// What one attached policy answered when asked whether its requirement stays
/// reachable after the proposed removal.
#[derive(Clone, Copy, Debug, PartialEq, Eq, Structural)]
pub enum ProbeAnswer {
    /// The policy answers the query: `true` when its requirement stays
    /// reachable, `false` when the removal would make it unreachable.
    Reachable(bool),
    /// The policy does not answer the query (it does not implement it, or the
    /// call failed): it has no opinion on numeric reachability.
    Opaque,
}

/// What the account does next while checking a signer removal.
#[derive(Clone, Copy, Debug, PartialEq, Eq, Structural)]
pub enum RemovalStep {
    /// Ask the policy at this position of the rule's policy list.
    ProbePolicy(usize),
    /// Revert the removal with this error.
    Reject(WardenSmartAccountError),
    /// Let the removal through to the underlying signer removal.
    Proceed,
}

/// Some policy answered that the removal would make it unreachable.
pub open spec fn some_policy_unreachable(answers: Seq<ProbeAnswer>) -> bool {
    exists|i: int| 0 <= i < answers.len() && answers[i] == ProbeAnswer::Reachable(false)
}

/// Some policy had no opinion on reachability.
pub open spec fn some_policy_opaque(answers: Seq<ProbeAnswer>) -> bool {
    exists|i: int| 0 <= i < answers.len() && answers[i] == ProbeAnswer::Opaque
}

/// The signer count a rule is left with once one of `signer_count` signers
/// is removed (never below zero).
pub open spec fn remaining_after_removal(signer_count: u32) -> u32 {
    if signer_count == 0 { 0 } else { (signer_count - 1) as u32 }
}

/// The verdict on a signer removal, given the signers left afterwards and the
/// answers of the attached policies: a policy that reports the removal would
/// make it unreachable blocks it; otherwise a rule left with zero signers
/// while some policy has no reachability opinion blocks it; otherwise it goes
/// through.
pub open spec fn removal_verdict(remaining: u32, answers: Seq<ProbeAnswer>) -> Result<(), WardenSmartAccountError> {
    if some_policy_unreachable(answers) {
        Err(WardenSmartAccountError::SignerRemovedWouldBreakPolicy)
    } else if remaining == 0 && some_policy_opaque(answers) {
        Err(WardenSmartAccountError::SignerRemovalWouldZeroOutPolicyGatedRule)
    } else {
        Ok(())
    }
}

/// The step that carries out a final verdict.
pub open spec fn verdict_step(v: Result<(), WardenSmartAccountError>) -> RemovalStep {
    match v {
        Ok(()) => RemovalStep::Proceed,
        Err(e) => RemovalStep::Reject(e),
    }
}

/// The step of the removal check once `answers` came back from the first
/// policies of a rule with `policy_count` policies.
pub open spec fn check_step(remaining: u32, policy_count: nat, answers: Seq<ProbeAnswer>) -> RemovalStep {
    if some_policy_unreachable(answers) {
        RemovalStep::Reject(WardenSmartAccountError::SignerRemovedWouldBreakPolicy)
    } else if answers.len() < policy_count {
        RemovalStep::ProbePolicy(answers.len() as usize)
    } else {
        verdict_step(removal_verdict(remaining, answers))
    }
}

/// The account's check of one signer removal, run as the policies of the rule
/// are asked one after the other. The policies are asked in the order of the
/// rule's policy list; the first one that reports the removal would make it
/// unreachable ends the check.
pub struct SignerRemovalCheck {
    remaining_count: u32,
    policy_count: usize,
    asked: usize,
    has_opaque_policy: bool,
    blocked: bool,
    answers: Ghost<Seq<ProbeAnswer>>,
}

impl SignerRemovalCheck {
    /// Signers left on the rule once the signer is removed.
    pub closed spec fn remaining(&self) -> u32 {
        self.remaining_count
    }

    /// Number of policies attached to the rule.
    pub closed spec fn policies(&self) -> nat {
        self.policy_count as nat
    }

    /// The answers received so far, in the order the policies were asked.
    pub closed spec fn answers(&self) -> Seq<ProbeAnswer> {
        self.answers@
    }

    /// The check's internal state agrees with the answers it received.
    pub closed spec fn wf(&self) -> bool {
        &&& self.asked == self.answers@.len()
        &&& self.asked <= self.policy_count
        &&& self.has_opaque_policy == some_policy_opaque(self.answers@)
        &&& self.blocked == some_policy_unreachable(self.answers@)
        &&& forall|i: int| 0 <= i < self.answers@.len() - 1 ==> self.answers@[i] != ProbeAnswer::Reachable(false)
    }

    /// The step that follows the answers received so far.
    pub open spec fn step_spec(&self) -> RemovalStep {
        check_step(self.remaining(), self.policies(), self.answers())
    }

    /// Starts the check of removing one signer from a rule with
    /// `signer_count` signers and `policy_count` attached policies.
    pub fn new(signer_count: u32, policy_count: usize) -> (c: SignerRemovalCheck)
        ensures
            c.wf(),
            c.remaining() == remaining_after_removal(signer_count),
            signer_count >= 1 ==> c.remaining() + 1 == signer_count,
            signer_count == 0 ==> c.remaining() == 0,
            c.policies() == policy_count,
            c.answers() == Seq::<ProbeAnswer>::empty(),
    {
        SignerRemovalCheck {
            remaining_count: signer_count.saturating_sub(1),
            policy_count,
            asked: 0,
            has_opaque_policy: false,
            blocked: false,
            answers: Ghost(Seq::empty()),
        }
    }

    /// Signers left on the rule once the signer is removed; this is the count
    /// handed to each policy that is asked.
    pub fn remaining_count(&self) -> (n: u32)
        ensures
            n == self.remaining(),
    {
        self.remaining_count
    }

    /// What the account does next.
    pub fn next_step(&self) -> (s: RemovalStep)
        requires
            self.wf(),
        ensures
            s == self.step_spec(),
            (exists|i: int| 0 <= i < self.answers().len() && self.answers()[i] == ProbeAnswer::Reachable(false))
                ==> s == RemovalStep::Reject(WardenSmartAccountError::SignerRemovedWouldBreakPolicy),
            (forall|i: int| 0 <= i < self.answers().len() ==> self.answers()[i] != ProbeAnswer::Reachable(false)) ==> {
                &&& self.answers().len() < self.policies() ==> s == RemovalStep::ProbePolicy(self.answers().len() as usize)
                &&& self.answers().len() >= self.policies() && self.remaining() >= 1 ==> s == RemovalStep::Proceed
                &&& self.answers().len() >= self.policies() && self.remaining() == 0 ==> (s == RemovalStep::Reject(
                    WardenSmartAccountError::SignerRemovalWouldZeroOutPolicyGatedRule,
                ) <==> exists|i: int| 0 <= i < self.answers().len() && self.answers()[i] == ProbeAnswer::Opaque)
                &&& self.answers().len() >= self.policies() && self.remaining() == 0 && (forall|i: int|
                    0 <= i < self.answers().len() ==> self.answers()[i] != ProbeAnswer::Opaque) ==> s
                    == RemovalStep::Proceed
            },
    {
        proof {
            lemma_check_step_cases(self.remaining(), self.policies(), self.answers());
        }
        if self.blocked {
            RemovalStep::Reject(WardenSmartAccountError::SignerRemovedWouldBreakPolicy)
        } else if self.asked < self.policy_count {
            RemovalStep::ProbePolicy(self.asked)
        } else if self.remaining_count == 0 && self.has_opaque_policy {
            RemovalStep::Reject(WardenSmartAccountError::SignerRemovalWouldZeroOutPolicyGatedRule)
        } else {
            RemovalStep::Proceed
        }
    }

    /// Records the answer of the policy that the last step asked.
    pub fn record_answer(&mut self, answer: ProbeAnswer)
        requires
            old(self).wf(),
            old(self).step_spec() is ProbePolicy,
        ensures
            final(self).wf(),
            final(self).answers() == old(self).answers().push(answer),
            final(self).remaining() == old(self).remaining(),
            final(self).policies() == old(self).policies(),
    {
        let ghost prev = self.answers@;
        match answer {
            ProbeAnswer::Reachable(reachable) => {
                if !reachable {
                    self.blocked = true;
                }
            },
            ProbeAnswer::Opaque => {
                self.has_opaque_policy = true;
            },
        }
        self.asked = self.asked + 1;
        self.answers = Ghost(prev.push(answer));
        proof {
            let s = prev.push(answer);
            assert(s[prev.len() as int] == answer);
            if some_policy_unreachable(prev) {
                let i = choose|i: int| 0 <= i < prev.len() && prev[i] == ProbeAnswer::Reachable(false);
                assert(s[i] == prev[i]);
            }
            if some_policy_opaque(prev) {
                let i = choose|i: int| 0 <= i < prev.len() && prev[i] == ProbeAnswer::Opaque;
                assert(s[i] == prev[i]);
            }
            if some_policy_unreachable(s) {
                let i = choose|i: int| 0 <= i < s.len() && s[i] == ProbeAnswer::Reachable(false);
                if i < prev.len() {
                    assert(prev[i] == s[i]);
                }
            }
            if some_policy_opaque(s) {
                let i = choose|i: int| 0 <= i < s.len() && s[i] == ProbeAnswer::Opaque;
                if i < prev.len() {
                    assert(prev[i] == s[i]);
                }
            }
            assert forall|i: int| 0 <= i < s.len() - 1 implies s[i] != ProbeAnswer::Reachable(false) by {
                assert(s[i] == prev[i]);
            }
        }
    }
}


/// The position of the first policy that reports unreachability.
pub open spec fn first_unreachable(answers: Seq<ProbeAnswer>) -> int {
    choose|k: int|
        0 <= k < answers.len() && answers[k] == ProbeAnswer::Reachable(false) && !some_policy_unreachable(
            answers.take(k),
        )
}

/// How many policies the check asks when they would answer `answers`: all of
/// them up to and including the first that reports unreachability, or all of
/// them when none does.
pub open spec fn asked_count(answers: Seq<ProbeAnswer>) -> int {
    if some_policy_unreachable(answers) {
        first_unreachable(answers) + 1
    } else {
        answers.len() as int
    }
}

proof fn lemma_first_unreachable_exists(answers: Seq<ProbeAnswer>)
    requires
        some_policy_unreachable(answers),
    ensures
        0 <= first_unreachable(answers) < answers.len(),
        answers[first_unreachable(answers)] == ProbeAnswer::Reachable(false),
        !some_policy_unreachable(answers.take(first_unreachable(answers))),
    decreases answers.len(),
{
    let last = answers.len() - 1;
    let prefix = answers.take(last);
    if some_policy_unreachable(prefix) {
        lemma_first_unreachable_exists(prefix);
        let k = first_unreachable(prefix);
        assert(prefix.take(k) =~= answers.take(k));
        assert(answers[k] == prefix[k]);
    } else {
        let i = choose|i: int| 0 <= i < answers.len() && answers[i] == ProbeAnswer::Reachable(false);
        if i < last {
            assert(prefix[i] == answers[i]);
        }
        assert(answers.take(last) =~= prefix);
    }
}

/// A removal is decided by the answers of all the rule's policies, whether or
/// not the check needed to ask them all: asked one after the other, the
/// policies are asked exactly up to the first one that reports the removal
/// would make it unreachable (all of them when none does), and the check then
/// ends in the verdict over every answer.
pub proof fn lemma_check_reaches_verdict(remaining: u32, all: Seq<ProbeAnswer>)
    ensures
        0 <= asked_count(all) <= all.len(),
        forall|j: int|
            0 <= j < asked_count(all) ==> check_step(remaining, all.len(), #[trigger] all.take(j))
                == RemovalStep::ProbePolicy(j as usize),
        check_step(remaining, all.len(), all.take(asked_count(all))) == verdict_step(
            removal_verdict(remaining, all),
        ),
{
    if some_policy_unreachable(all) {
        lemma_first_unreachable_exists(all);
        let k = first_unreachable(all);
        assert forall|j: int| 0 <= j < asked_count(all) implies check_step(remaining, all.len(), #[trigger] all.take(j))
            == RemovalStep::ProbePolicy(j as usize) by {
            if some_policy_unreachable(all.take(j)) {
                let i = choose|i: int| 0 <= i < all.take(j).len() && all.take(j)[i] == ProbeAnswer::Reachable(false);
                assert(all.take(k)[i] == all[i]);
            }
        }
        assert(all.take(k + 1)[k] == all[k]);
    } else {
        assert forall|j: int| 0 <= j < asked_count(all) implies check_step(remaining, all.len(), #[trigger] all.take(j))
            == RemovalStep::ProbePolicy(j as usize) by {
            if some_policy_unreachable(all.take(j)) {
                let i = choose|i: int| 0 <= i < all.take(j).len() && all.take(j)[i] == ProbeAnswer::Reachable(false);
                assert(all.take(j)[i] == all[i]);
            }
        }
        assert(all.take(all.len() as int) =~= all);
    }
}

/// A rule with no policies attached is never blocked by the account's own
/// check: the removal goes straight through to the underlying signer removal.
pub proof fn lemma_no_policies_proceeds(remaining: u32)
    ensures
        check_step(remaining, 0, Seq::empty()) == RemovalStep::Proceed,
{
}

/// A removal that leaves at least one signer on the rule is never rejected
/// for zeroing out the rule, whatever the policies answer.
pub proof fn lemma_signers_left_never_zero_out(remaining: u32, answers: Seq<ProbeAnswer>)
    requires
        remaining >= 1,
    ensures
        removal_verdict(remaining, answers) != Err::<(), WardenSmartAccountError>(
            WardenSmartAccountError::SignerRemovalWouldZeroOutPolicyGatedRule,
        ),
{
}

/// The verdict depends only on which answers came back, not on the order of
/// the policies on the rule nor on how often an answer repeats.
pub proof fn lemma_verdict_ignores_policy_order(remaining: u32, a: Seq<ProbeAnswer>, b: Seq<ProbeAnswer>)
    requires
        forall|x: ProbeAnswer| a.contains(x) <==> b.contains(x),
    ensures
        removal_verdict(remaining, a) == removal_verdict(remaining, b),
{
    assert(some_policy_unreachable(a) <==> a.contains(ProbeAnswer::Reachable(false)));
    assert(some_policy_unreachable(b) <==> b.contains(ProbeAnswer::Reachable(false)));
    assert(some_policy_opaque(a) <==> a.contains(ProbeAnswer::Opaque));
    assert(some_policy_opaque(b) <==> b.contains(ProbeAnswer::Opaque));
}

/// An answer that one of the account's own policies can give about a removal
/// that leaves `remaining` signers on the rule: the session allowlist and the
/// spending limit have no opinion; a plain threshold or a weighted threshold,
/// installed with a valid threshold (at least one), answers whether it stays
/// reachable.
pub open spec fn lineup_answer(answer: ProbeAnswer, remaining: u32) -> bool {
    ||| answer == ProbeAnswer::Opaque
    ||| exists|threshold: u32|
        threshold >= 1 && answer == ProbeAnswer::Reachable(#[trigger] threshold_reachable(threshold, remaining))
    ||| exists|threshold: u32, entries: Seq<(Seq<u8>, u32)>, removed: Seq<u8>|
        threshold >= 1 && answer == ProbeAnswer::Reachable(
            #[trigger] weighted_reachable(threshold, entries, removed, remaining),
        )
}

/// No lockout: with any of the account's own policies attached, a signer
/// removal that the account lets through always leaves at least one signer on
/// the rule. A rule guarded by policies never ends up with zero signers, where
/// every policy's enforcement would reject it for good.
pub proof fn lemma_no_lockout(remaining: u32, answers: Seq<ProbeAnswer>)
    requires
        answers.len() > 0,
        forall|i: int| 0 <= i < answers.len() ==> lineup_answer(#[trigger] answers[i], remaining),
    ensures
        removal_verdict(remaining, answers) is Ok ==> remaining >= 1,
{
    if remaining == 0 {
        let a = answers[0];
        assert(lineup_answer(a, 0));
        if a == ProbeAnswer::Opaque {
            assert(some_policy_opaque(answers));
        } else {
            assert(a == ProbeAnswer::Reachable(false));
            assert(some_policy_unreachable(answers));
        }
    }
}

/// Removing one signer leaves one fewer on the rule; a rule with no signer
/// stays at zero.
pub proof fn lemma_remaining_after_removal(signer_count: u32)
    ensures
        signer_count >= 1 ==> remaining_after_removal(signer_count) + 1 == signer_count,
        signer_count == 0 ==> remaining_after_removal(signer_count) == 0,
{
}

/// Any policy that reports the removal would make it unreachable blocks the
/// removal with `SignerRemovedWouldBreakPolicy`, whatever the count of signers
/// left and whatever the other policies answer; the check stops there.
pub proof fn lemma_unreachable_answer_rejects(remaining: u32, policy_count: nat, answers: Seq<ProbeAnswer>, i: int)
    requires
        0 <= i < answers.len(),
        answers[i] == ProbeAnswer::Reachable(false),
    ensures
        removal_verdict(remaining, answers) == Err::<(), WardenSmartAccountError>(
            WardenSmartAccountError::SignerRemovedWouldBreakPolicy,
        ),
        check_step(remaining, policy_count, answers) == RemovalStep::Reject(
            WardenSmartAccountError::SignerRemovedWouldBreakPolicy,
        ),
{
}

/// When no policy reports unreachability, the removal goes through as soon
/// as at least one signer is left, whatever policies had no opinion; with no
/// signer left it is rejected with `SignerRemovalWouldZeroOutPolicyGatedRule`
/// exactly when some policy had no opinion.
pub proof fn lemma_verdict_without_unreachable(remaining: u32, answers: Seq<ProbeAnswer>)
    requires
        forall|i: int| 0 <= i < answers.len() ==> answers[i] != ProbeAnswer::Reachable(false),
    ensures
        remaining >= 1 ==> removal_verdict(remaining, answers) == Ok::<(), WardenSmartAccountError>(()),
        remaining >= 1 ==> check_step(remaining, answers.len(), answers) == RemovalStep::Proceed,
        remaining == 0 ==> (removal_verdict(remaining, answers) == Err::<(), WardenSmartAccountError>(
            WardenSmartAccountError::SignerRemovalWouldZeroOutPolicyGatedRule,
        ) <==> exists|i: int| 0 <= i < answers.len() && answers[i] == ProbeAnswer::Opaque),
        remaining == 0 && (forall|i: int| 0 <= i < answers.len() ==> answers[i] != ProbeAnswer::Opaque)
            ==> removal_verdict(remaining, answers) == Ok::<(), WardenSmartAccountError>(()),
{
}

/// Until some policy reports unreachability, the check asks the policies one
/// after the other, in the order of the rule's policy list.
pub proof fn lemma_policies_asked_in_order(remaining: u32, policy_count: nat, answers: Seq<ProbeAnswer>)
    requires
        answers.len() < policy_count,
        forall|i: int| 0 <= i < answers.len() ==> answers[i] != ProbeAnswer::Reachable(false),
    ensures
        check_step(remaining, policy_count, answers) == RemovalStep::ProbePolicy(answers.len() as usize),
{
}

proof fn lemma_check_step_cases(remaining: u32, policy_count: nat, answers: Seq<ProbeAnswer>)
    requires
        answers.len() <= policy_count,
    ensures
        (exists|i: int| 0 <= i < answers.len() && answers[i] == ProbeAnswer::Reachable(false)) ==> check_step(
            remaining,
            policy_count,
            answers,
        ) == RemovalStep::Reject(WardenSmartAccountError::SignerRemovedWouldBreakPolicy),
        (forall|i: int| 0 <= i < answers.len() ==> answers[i] != ProbeAnswer::Reachable(false)) ==> {
            &&& answers.len() < policy_count ==> check_step(remaining, policy_count, answers)
                == RemovalStep::ProbePolicy(answers.len() as usize)
            &&& answers.len() >= policy_count && remaining >= 1 ==> check_step(remaining, policy_count, answers)
                == RemovalStep::Proceed
            &&& answers.len() >= policy_count && remaining == 0 ==> (check_step(remaining, policy_count, answers)
                == RemovalStep::Reject(WardenSmartAccountError::SignerRemovalWouldZeroOutPolicyGatedRule)
                <==> exists|i: int| 0 <= i < answers.len() && answers[i] == ProbeAnswer::Opaque)
            &&& answers.len() >= policy_count && remaining == 0 && (forall|i: int|
                0 <= i < answers.len() ==> answers[i] != ProbeAnswer::Opaque) ==> check_step(
                remaining,
                policy_count,
                answers,
            ) == RemovalStep::Proceed
        },
{
}

/// The smart account.
pub struct WardenSmartAccount;

impl WardenSmartAccount {
    /// Guard of adding signers to a context rule: the caller must explicitly
    /// acknowledge that the policy-to-signer ratio may weaken; without that
    /// acknowledgment the addition is always rejected.
    pub fn batch_add_signer(confirm_threshold_unchanged: bool) -> (r: Result<(), WardenSmartAccountError>)
        ensures
            confirm_threshold_unchanged ==> r == Ok::<(), WardenSmartAccountError>(()),
            !confirm_threshold_unchanged ==> r == Err::<(), WardenSmartAccountError>(
                WardenSmartAccountError::SignerAddedWouldWeakenPolicy,
            ),
    {
        if !confirm_threshold_unchanged {
            return Err(WardenSmartAccountError::SignerAddedWouldWeakenPolicy);
        }
        Ok(())
    }

    /// The single-signer addition entry point: disabled, because it has no
    /// room for the acknowledgment that `batch_add_signer` demands. Every call
    /// is rejected.
    pub fn add_signer() -> (r: Result<u32, WardenSmartAccountError>)
        ensures
            r == Err::<u32, WardenSmartAccountError>(WardenSmartAccountError::SingleSignerAdditionDisabled),
    {
        Err(WardenSmartAccountError::SingleSignerAdditionDisabled)
    }

    /// Starts the account's check of removing the signer with global id
    /// `signer_id` from a rule with `signer_count` signers, whose signer ids
    /// are `signer_ids` (positionally aligned with its signers) and which has
    /// `policy_count` policies attached. `None`
    /// when the rule holds no signer with that id; otherwise the position of
    /// the signer within the rule and the check, which hands each policy the
    /// count of signers left.
    pub fn remove_signer(
        signer_ids: &Vec<u32>,
        signer_count: u32,
        signer_id: u32,
        policy_count: usize,
    ) -> (r: Option<(usize, SignerRemovalCheck)>)
        ensures
            match r {
                Some((pos, check)) => {
                    &&& pos < signer_ids@.len()
                    &&& signer_ids@[pos as int] == signer_id
                    &&& forall|j: int| 0 <= j < pos ==> signer_ids@[j] != signer_id
                    &&& check.wf()
                    &&& check.remaining() == remaining_after_removal(signer_count)
                    &&& signer_count >= 1 ==> check.remaining() + 1 == signer_count
                    &&& signer_count == 0 ==> check.remaining() == 0
                    &&& check.policies() == policy_count
                    &&& check.answers() == Seq::<ProbeAnswer>::empty()
                },
                None => forall|j: int| 0 <= j < signer_ids@.len() ==> signer_ids@[j] != signer_id,
            },
    {
        match resolve_signer(signer_ids, signer_id) {
            Some(pos) => {
                Some((pos, SignerRemovalCheck::new(signer_count, policy_count)))
            },
            None => None,
        }
    }
}
} // verus!
