//! The method allowlist behind Warden session keys.
//!
//! Restricts a context rule's signers to a fixed set of contract function
//! names: a rule scoped to one target contract combines an ephemeral signer
//! with this allowlist, so the session key may only invoke the allowlisted
//! functions on that one contract. Session expiry and revocation come from the
//! rule itself (its expiry and its removal); the allowlist only narrows a
//! contract-call rule down to specific function names.
//!
//! The allowlist has no numeric notion of signer-count reachability and
//! unconditionally rejects an empty set of authenticated signers.
//!
//! Each (account, rule) pair owns one storage slot, which holds the installed
//! allowlist or nothing. The functions here take that slot as it was read and
//! leave it as it must be written back. Function names are the ASCII bytes of
//! the ledger's symbols.

use vstd::prelude::*;

verus! {

/// Errors raised by the session allowlist.
#[derive(Clone, Copy, Debug, PartialEq, Eq, Structural)]
pub enum SessionError {
    /// No allowlist is installed for this account and rule.
    SmartAccountNotInstalled,
    /// The allowlist can only guard a rule scoped to calls of one contract.
    OnlyCallContractAllowed,
    /// The allowlist must name between one and [`MAX_ALLOWED_FNS`] functions.
    InvalidAllowedFns,
    /// The authorized call is not one the allowlist permits.
    MethodNotAllowed,
    /// An allowlist is already installed for this account and rule.
    AlreadyInstalled,
}

impl SessionError {
    /// The contract error number under which the ledger reports this error.
    pub open spec fn error_code(self) -> u32 {
        match self {
            SessionError::SmartAccountNotInstalled => 1,
            SessionError::OnlyCallContractAllowed => 2,
            SessionError::InvalidAllowedFns => 3,
            SessionError::MethodNotAllowed => 4,
            SessionError::AlreadyInstalled => 5,
        }
    }

    /// The contract error number of this error.
    pub fn code(&self) -> (c: u32)
        ensures
            c == self.error_code(),
    {
        match self {
            SessionError::SmartAccountNotInstalled => 1,
            SessionError::OnlyCallContractAllowed => 2,
            SessionError::InvalidAllowedFns => 3,
            SessionError::MethodNotAllowed => 4,
            SessionError::AlreadyInstalled => 5,
        }
    }
}

/// One ledger day, in ledgers.
pub const DAY_IN_LEDGERS: u32 = 17280;

/// How far an installed allowlist's storage lifetime is extended when read.
pub const SESSION_EXTEND_AMOUNT: u32 = 30 * DAY_IN_LEDGERS;

/// Remaining lifetime below which a read extends the storage lifetime.
pub const SESSION_TTL_THRESHOLD: u32 = SESSION_EXTEND_AMOUNT - DAY_IN_LEDGERS;

/// Bounds the linear scan performed in `enforce` and the storage size.
pub const MAX_ALLOWED_FNS: u32 = 10;

/// What a context rule applies to.
#[derive(Clone, Copy, Debug, PartialEq, Eq, Structural)]
pub enum ContextRuleKind {
    /// Any context.
    Default,
    /// Calls of one given contract.
    CallContract,
    /// Creation of contracts from one given code hash.
    CreateContract,
    /// Creation of contracts from the executable that one given owner stores
    /// under one given tag.
    CreateContractExternalRef,
}

/// The authorization context being enforced.
pub enum AuthContext {
    /// A call of a contract function with this name.
    ContractCall { fn_name: Vec<u8> },
    /// The creation of a contract.
    ContractCreation,
}

/// Parameters of installing the allowlist on a rule.
pub struct SessionAccountParams {
    /// The function names on the rule's target contract that the session key
    /// is permitted to invoke.
    pub allowed_fns: Vec<Vec<u8>>,
}

/// The allowlist as stored for one account and rule.
pub struct SessionData {
    /// The permitted function names.
    pub allowed_fns: Vec<Vec<u8>>,
}

/// The function names held in a vector, as byte sequences.
pub open spec fn names(fns: Seq<Vec<u8>>) -> Seq<Seq<u8>> {
    fns.map_values(|f: Vec<u8>| f@)
}

/// The contents of a storage slot: the installed function names, if any.
pub open spec fn slot_view(slot: Option<SessionData>) -> Option<Seq<Seq<u8>>> {
    match slot {
        Some(d) => Some(names(d.allowed_fns@)),
        None => None,
    }
}

/// The name of the called function, for a contract call.
pub open spec fn called_fn(ctx: AuthContext) -> Option<Seq<u8>> {
    match ctx {
        AuthContext::ContractCall { fn_name } => Some(fn_name@),
        AuthContext::ContractCreation => None,
    }
}

/// What reading the slot gives: the installed names, or an error when none
/// are installed.
pub open spec fn read_result(slot: Option<Seq<Seq<u8>>>) -> Result<Seq<Seq<u8>>, SessionError> {
    match slot {
        Some(fns) => Ok(fns),
        None => Err(SessionError::SmartAccountNotInstalled),
    }
}

/// The outcome of installing `fns` on a rule of kind `kind` whose slot holds
/// `slot`: the rule must be scoped to contract calls, the list must name
/// between one and [`MAX_ALLOWED_FNS`] functions, and the slot must be empty,
/// checked in that order.
pub open spec fn install_result(slot: Option<Seq<Seq<u8>>>, fns: Seq<Seq<u8>>, kind: ContextRuleKind) -> Result<(), SessionError> {
    if kind != ContextRuleKind::CallContract {
        Err(SessionError::OnlyCallContractAllowed)
    } else if fns.len() == 0 || fns.len() > MAX_ALLOWED_FNS {
        Err(SessionError::InvalidAllowedFns)
    } else if slot is Some {
        Err(SessionError::AlreadyInstalled)
    } else {
        Ok(())
    }
}

/// The slot's contents after installing `fns` on a rule of kind `kind`: the
/// given names when the installation succeeds, the old contents otherwise.
pub open spec fn slot_after_install(slot: Option<Seq<Seq<u8>>>, fns: Seq<Seq<u8>>, kind: ContextRuleKind) -> Option<Seq<Seq<u8>>> {
    if install_result(slot, fns, kind) is Ok {
        Some(fns)
    } else {
        slot
    }
}

/// The outcome of enforcing the allowlist in slot `slot` on `ctx` with
/// `signer_count` authenticated signers: at least one signer must have
/// authenticated, an allowlist must be installed, and the context must be a
/// call of an allowlisted function, checked in that order.
pub open spec fn enforce_result(slot: Option<Seq<Seq<u8>>>, signer_count: nat, ctx: Option<Seq<u8>>) -> Result<(), SessionError> {
    if signer_count == 0 {
        Err(SessionError::MethodNotAllowed)
    } else {
        match slot {
            None => Err(SessionError::SmartAccountNotInstalled),
            Some(fns) => match ctx {
                Some(name) => if fns.contains(name) {
                    Ok(())
                } else {
                    Err(SessionError::MethodNotAllowed)
                },
                None => Err(SessionError::MethodNotAllowed),
            },
        }
    }
}

/// Whether two byte strings are the same.
pub(crate) fn same_name(a: &Vec<u8>, b: &Vec<u8>) -> (r: bool)
    ensures
        r == (a@ == b@),
{
    if a.len() != b.len() {
        return false;
    }
    let mut i: usize = 0;
    while i < a.len()
        invariant
            a@.len() == b@.len(),
            i <= a@.len(),
            forall|j: int| 0 <= j < i ==> a@[j] == b@[j],
        decreases a@.len() - i,
    {
        if a[i] != b[i] {
            return false;
        }
        i = i + 1;
    }
    proof {
        assert(a@ =~= b@);
    }
    true
}

/// Whether `fn_name` is among the allowed function names.
pub fn is_allowed(allowed_fns: &Vec<Vec<u8>>, fn_name: &Vec<u8>) -> (r: bool)
    ensures
        r == names(allowed_fns@).contains(fn_name@),
        r == exists|i: int| 0 <= i < allowed_fns@.len() && allowed_fns@[i]@ == fn_name@,
{
    let mut i: usize = 0;
    while i < allowed_fns.len()
        invariant
            i <= allowed_fns@.len(),
            forall|j: int| 0 <= j < i ==> allowed_fns@[j]@ != fn_name@,
        decreases allowed_fns@.len() - i,
    {
        if same_name(&allowed_fns[i], fn_name) {
            proof {
                assert(names(allowed_fns@)[i as int] == fn_name@);
            }
            return true;
        }
        i = i + 1;
    }
    proof {
        if names(allowed_fns@).contains(fn_name@) {
            let j = choose|j: int| 0 <= j < names(allowed_fns@).len() && names(allowed_fns@)[j] == fn_name@;
            assert(allowed_fns@[j]@ == fn_name@);
        }
    }
    false
}

/// The function names installed in the slot; `SmartAccountNotInstalled` when
/// none are installed.
pub fn get_allowed_fns(slot: &Option<SessionData>) -> (r: Result<&Vec<Vec<u8>>, SessionError>)
    ensures
        match r {
            Ok(fns) => read_result(slot_view(*slot)) == Ok::<Seq<Seq<u8>>, SessionError>(names(fns@)),
            Err(e) => read_result(slot_view(*slot)) == Err::<Seq<Seq<u8>>, SessionError>(e),
        },
        slot.is_none() ==> r == Err::<&Vec<Vec<u8>>, SessionError>(SessionError::SmartAccountNotInstalled),
        match *slot {
            Some(d) => r is Ok && names(r->Ok_0@) == names(d.allowed_fns@),
            None => true,
        },
{
    match slot {
        Some(data) => Ok(&data.allowed_fns),
        None => Err(SessionError::SmartAccountNotInstalled),
    }
}

/// Enforces the allowlist in the slot on an authorization context, with
/// `authenticated_signer_count` signers authenticated: rejects an empty set
/// of signers, a missing allowlist, anything but a contract call, and a call
/// of a function not on the list.
pub fn enforce(slot: &Option<SessionData>, authenticated_signer_count: usize, context: &AuthContext) -> (r: Result<(), SessionError>)
    ensures
        r == enforce_result(slot_view(*slot), authenticated_signer_count as nat, called_fn(*context)),
{
    if authenticated_signer_count == 0 {
        return Err(SessionError::MethodNotAllowed);
    }
    let allowed_fns = match get_allowed_fns(slot) {
        Ok(fns) => fns,
        Err(e) => return Err(e),
    };
    match context {
        AuthContext::ContractCall { fn_name } => {
            if !is_allowed(allowed_fns, fn_name) {
                return Err(SessionError::MethodNotAllowed);
            }
            Ok(())
        },
        AuthContext::ContractCreation => Err(SessionError::MethodNotAllowed),
    }
}

/// Installs the allowlist `params` on a rule of kind `rule_kind` whose slot is
/// `slot`. On success the slot holds exactly the given names; on failure it
/// is left as it was.
pub fn install(slot: &mut Option<SessionData>, params: SessionAccountParams, rule_kind: ContextRuleKind) -> (r: Result<(), SessionError>)
    ensures
        r == install_result(slot_view(*old(slot)), names(params.allowed_fns@), rule_kind),
        slot_view(*final(slot)) == slot_after_install(slot_view(*old(slot)), names(params.allowed_fns@), rule_kind),
        r is Err ==> *final(slot) == *old(slot),
{
    if rule_kind != ContextRuleKind::CallContract {
        return Err(SessionError::OnlyCallContractAllowed);
    }
    if params.allowed_fns.len() == 0 || params.allowed_fns.len() > MAX_ALLOWED_FNS as usize {
        return Err(SessionError::InvalidAllowedFns);
    }
    if slot.is_some() {
        return Err(SessionError::AlreadyInstalled);
    }
    *slot = Some(SessionData { allowed_fns: params.allowed_fns });
    Ok(())
}

/// Uninstalls the allowlist of the slot. On success the slot is empty; when
/// nothing was installed, `SmartAccountNotInstalled` and the slot stays empty.
pub fn uninstall(slot: &mut Option<SessionData>) -> (r: Result<(), SessionError>)
    ensures
        (*old(slot)) is Some ==> r is Ok,
        (*old(slot)) is None ==> r == Err::<(), SessionError>(SessionError::SmartAccountNotInstalled),
        (*final(slot)) is None,
{
    if slot.is_none() {
        return Err(SessionError::SmartAccountNotInstalled);
    }
    *slot = None;
    Ok(())
}

/// Reading back an allowlist gives exactly what was installed: on an empty
/// slot of a contract-call rule, installing between one and
/// [`MAX_ALLOWED_FNS`] names succeeds and a read then returns those names.
pub proof fn lemma_read_after_install(fns: Seq<Seq<u8>>)
    requires
        1 <= fns.len() <= MAX_ALLOWED_FNS,
    ensures
        install_result(None, fns, ContextRuleKind::CallContract) == Ok::<(), SessionError>(()),
        read_result(slot_after_install(None, fns, ContextRuleKind::CallContract)) == Ok::<
            Seq<Seq<u8>>,
            SessionError,
        >(fns),
{
}

/// Installing on a rule that is not scoped to contract calls, or with an
/// empty or too long list, fails and leaves the slot as it was.
pub proof fn lemma_install_rejects_bad_input(slot: Option<Seq<Seq<u8>>>, fns: Seq<Seq<u8>>, kind: ContextRuleKind)
    requires
        kind != ContextRuleKind::CallContract || fns.len() == 0 || fns.len() > MAX_ALLOWED_FNS,
    ensures
        install_result(slot, fns, kind) is Err,
        slot_after_install(slot, fns, kind) == slot,
{
}

/// A second installation on the same account and rule fails with
/// `AlreadyInstalled` and keeps the first allowlist.
pub proof fn lemma_install_twice(first: Seq<Seq<u8>>, second: Seq<Seq<u8>>)
    requires
        1 <= first.len() <= MAX_ALLOWED_FNS,
        1 <= second.len() <= MAX_ALLOWED_FNS,
    ensures
        ({
            let slot = slot_after_install(None, first, ContextRuleKind::CallContract);
            &&& install_result(slot, second, ContextRuleKind::CallContract) == Err::<(), SessionError>(
                SessionError::AlreadyInstalled,
            )
            &&& slot_after_install(slot, second, ContextRuleKind::CallContract) == Some(first)
        }),
{
}

/// Once installed, the allowlist lets through exactly the calls of the listed
/// functions made with at least one authenticated signer, and rejects every
/// other call with `MethodNotAllowed`.
pub proof fn lemma_enforce_after_install(fns: Seq<Seq<u8>>, signer_count: nat, name: Seq<u8>)
    requires
        1 <= fns.len() <= MAX_ALLOWED_FNS,
        signer_count >= 1,
    ensures
        ({
            let slot = slot_after_install(None, fns, ContextRuleKind::CallContract);
            &&& fns.contains(name) ==> enforce_result(slot, signer_count, Some(name)) == Ok::<(), SessionError>(())
            &&& !fns.contains(name) ==> enforce_result(slot, signer_count, Some(name)) == Err::<(), SessionError>(
                SessionError::MethodNotAllowed,
            )
            &&& enforce_result(slot, signer_count, None) == Err::<(), SessionError>(SessionError::MethodNotAllowed)
        }),
{
}

/// An empty set of authenticated signers is rejected whatever is installed
/// and whatever is called.
pub proof fn lemma_no_signers_rejected(slot: Option<Seq<Seq<u8>>>, ctx: Option<Seq<u8>>)
    ensures
        enforce_result(slot, 0, ctx) == Err::<(), SessionError>(SessionError::MethodNotAllowed),
{
}

/// After an uninstallation nothing is installed: a read fails with
/// `SmartAccountNotInstalled`, enforcement with at least one signer fails the
/// same way, and a new installation succeeds again.
pub proof fn lemma_uninstalled_slot(signer_count: nat, ctx: Option<Seq<u8>>, fns: Seq<Seq<u8>>)
    requires
        signer_count >= 1,
        1 <= fns.len() <= MAX_ALLOWED_FNS,
    ensures
        read_result(None) == Err::<Seq<Seq<u8>>, SessionError>(SessionError::SmartAccountNotInstalled),
        enforce_result(None, signer_count, ctx) == Err::<(), SessionError>(SessionError::SmartAccountNotInstalled),
        install_result(None, fns, ContextRuleKind::CallContract) == Ok::<(), SessionError>(()),
{
}

/// Which error an installation raises, whatever the slot holds: a rule not
/// scoped to contract calls is refused first, then a list that is empty or
/// longer than [`MAX_ALLOWED_FNS`], then an occupied slot; a valid list on an
/// empty slot of a contract-call rule is installed.
pub proof fn lemma_install_outcomes(slot: Option<Seq<Seq<u8>>>, fns: Seq<Seq<u8>>, kind: ContextRuleKind)
    ensures
        kind != ContextRuleKind::CallContract ==> install_result(slot, fns, kind) == Err::<(), SessionError>(
            SessionError::OnlyCallContractAllowed,
        ),
        kind == ContextRuleKind::CallContract && (fns.len() == 0 || fns.len() > 10) ==> install_result(
            slot,
            fns,
            kind,
        ) == Err::<(), SessionError>(SessionError::InvalidAllowedFns),
        kind == ContextRuleKind::CallContract && 1 <= fns.len() <= 10 && slot is Some ==> install_result(
            slot,
            fns,
            kind,
        ) == Err::<(), SessionError>(SessionError::AlreadyInstalled),
        kind == ContextRuleKind::CallContract && 1 <= fns.len() <= 10 && slot is None ==> install_result(
            slot,
            fns,
            kind,
        ) == Ok::<(), SessionError>(()) && slot_after_install(slot, fns, kind) == Some(fns),
        install_result(slot, fns, kind) is Err ==> slot_after_install(slot, fns, kind) == slot,
{
}

/// Which outcome enforcement has, for any installed list: with at least one
/// authenticated signer, a contract call passes exactly when its function is
/// on the list, and anything that is not a contract call is refused.
pub proof fn lemma_enforce_outcomes(fns: Seq<Seq<u8>>, signer_count: nat, name: Seq<u8>)
    requires
        signer_count >= 1,
    ensures
        (enforce_result(Some(fns), signer_count, Some(name)) == Ok::<(), SessionError>(())) <==> (exists|i: int|
            0 <= i < fns.len() && fns[i] == name),
        !(exists|i: int| 0 <= i < fns.len() && fns[i] == name) ==> enforce_result(Some(fns), signer_count, Some(name))
            == Err::<(), SessionError>(SessionError::MethodNotAllowed),
        enforce_result(Some(fns), signer_count, None) == Err::<(), SessionError>(SessionError::MethodNotAllowed),
        enforce_result(None, signer_count, Some(name)) == Err::<(), SessionError>(
            SessionError::SmartAccountNotInstalled,
        ),
{
}

/// A read returns what the slot holds, and fails with
/// `SmartAccountNotInstalled` when it holds nothing.
pub proof fn lemma_read_outcomes(fns: Seq<Seq<u8>>)
    ensures
        read_result(Some(fns)) == Ok::<Seq<Seq<u8>>, SessionError>(fns),
        read_result(None) == Err::<Seq<Seq<u8>>, SessionError>(SessionError::SmartAccountNotInstalled),
{
}

} // verus!
