use warden_contracts::session::{
    enforce, get_allowed_fns, install, is_allowed, uninstall, AuthContext, ContextRuleKind,
    SessionAccountParams, SessionData, SessionError, MAX_ALLOWED_FNS, SESSION_EXTEND_AMOUNT,
    SESSION_TTL_THRESHOLD,
};

fn name(s: &str) -> Vec<u8> {
    s.as_bytes().to_vec()
}

fn params(names: &[&str]) -> SessionAccountParams {
    SessionAccountParams { allowed_fns: names.iter().map(|s| name(s)).collect() }
}

fn call(s: &str) -> AuthContext {
    AuthContext::ContractCall { fn_name: name(s) }
}

fn installed(names: &[&str]) -> Option<SessionData> {
    let mut slot = None;
    install(&mut slot, params(names), ContextRuleKind::CallContract).unwrap();
    slot
}

#[test]
fn test_install_success() {
    let mut slot = None;
    assert_eq!(install(&mut slot, params(&["set", "get"]), ContextRuleKind::CallContract), Ok(()));
    let allowed_fns = get_allowed_fns(&slot).unwrap();
    assert_eq!(allowed_fns.len(), 2);
    assert!(is_allowed(allowed_fns, &name("set")));
}

#[test]
fn install_rejects_default_rule() {
    let mut slot = None;
    let err = install(&mut slot, params(&["set"]), ContextRuleKind::Default).unwrap_err();
    assert_eq!(err, SessionError::OnlyCallContractAllowed);
    assert_eq!(err.code(), 2);
    assert!(slot.is_none());
}

#[test]
fn install_rejects_create_contract_rule() {
    let mut slot = None;
    let err = install(&mut slot, params(&["set"]), ContextRuleKind::CreateContract).unwrap_err();
    assert_eq!(err.code(), 2);
    assert!(slot.is_none());
}

#[test]
fn install_rejects_empty_allowed_fns() {
    let mut slot = None;
    let err = install(&mut slot, params(&[]), ContextRuleKind::CallContract).unwrap_err();
    assert_eq!(err, SessionError::InvalidAllowedFns);
    assert_eq!(err.code(), 3);
}

#[test]
fn install_rejects_too_many_allowed_fns() {
    let mut slot = None;
    let names: Vec<String> = (0..(MAX_ALLOWED_FNS + 1)).map(|i| format!("fn{}", i)).collect();
    let refs: Vec<&str> = names.iter().map(|s| s.as_str()).collect();
    let err = install(&mut slot, params(&refs), ContextRuleKind::CallContract).unwrap_err();
    assert_eq!(err.code(), 3);
    assert!(slot.is_none());
}

#[test]
fn install_accepts_exactly_max_allowed_fns() {
    let mut slot = None;
    let names: Vec<String> = (0..MAX_ALLOWED_FNS).map(|i| format!("fn{}", i)).collect();
    let refs: Vec<&str> = names.iter().map(|s| s.as_str()).collect();
    assert_eq!(install(&mut slot, params(&refs), ContextRuleKind::CallContract), Ok(()));
}

#[test]
fn test_install_rejects_already_installed() {
    let mut slot = installed(&["set"]);
    let err = install(&mut slot, params(&["other"]), ContextRuleKind::CallContract).unwrap_err();
    assert_eq!(err, SessionError::AlreadyInstalled);
    assert_eq!(err.code(), 5);
    // The first allowlist stays.
    assert_eq!(get_allowed_fns(&slot).unwrap(), &vec![name("set")]);
}

#[test]
fn enforce_allows_whitelisted_fn() {
    let slot = installed(&["set"]);
    assert_eq!(enforce(&slot, 1, &call("set")), Ok(()));
}

#[test]
fn enforce_rejects_non_whitelisted_fn() {
    let slot = installed(&["set"]);
    let err = enforce(&slot, 1, &call("delete")).unwrap_err();
    assert_eq!(err, SessionError::MethodNotAllowed);
    assert_eq!(err.code(), 4);
}

#[test]
fn enforce_rejects_create_contract_context() {
    let slot = installed(&["set"]);
    let err = enforce(&slot, 1, &AuthContext::ContractCreation).unwrap_err();
    assert_eq!(err.code(), 4);
}

#[test]
fn test_enforce_rejects_when_not_installed() {
    let err = enforce(&None, 1, &call("set")).unwrap_err();
    assert_eq!(err, SessionError::SmartAccountNotInstalled);
    assert_eq!(err.code(), 1);
}

#[test]
fn test_enforce_rejects_empty_authenticated_signers() {
    let slot = installed(&["set"]);
    let err = enforce(&slot, 0, &call("set")).unwrap_err();
    assert_eq!(err.code(), 4);
    // Checked before the allowlist is even read.
    assert_eq!(enforce(&None, 0, &call("set")).unwrap_err().code(), 4);
}

#[test]
fn enforce_distinguishes_prefixes() {
    let slot = installed(&["set", "get"]);
    assert_eq!(enforce(&slot, 2, &call("se")).unwrap_err().code(), 4);
    assert_eq!(enforce(&slot, 2, &call("sets")).unwrap_err().code(), 4);
    assert_eq!(enforce(&slot, 2, &call("get")), Ok(()));
}

#[test]
fn test_uninstall_success() {
    let mut slot = installed(&["set"]);
    assert_eq!(uninstall(&mut slot), Ok(()));
    assert!(slot.is_none());
    assert_eq!(get_allowed_fns(&slot).unwrap_err().code(), 1);
}

#[test]
fn test_uninstall_rejects_when_not_installed() {
    let mut slot = None;
    let err = uninstall(&mut slot).unwrap_err();
    assert_eq!(err, SessionError::SmartAccountNotInstalled);
    assert_eq!(err.code(), 1);
}

#[test]
fn get_allowed_fns_returns_installed_value() {
    let slot = installed(&["set", "get"]);
    assert_eq!(get_allowed_fns(&slot).unwrap(), &vec![name("set"), name("get")]);
}

#[test]
fn reinstall_after_uninstall() {
    let mut slot = installed(&["set"]);
    uninstall(&mut slot).unwrap();
    assert_eq!(install(&mut slot, params(&["get"]), ContextRuleKind::CallContract), Ok(()));
    assert_eq!(enforce(&slot, 1, &call("set")).unwrap_err().code(), 4);
    assert_eq!(enforce(&slot, 1, &call("get")), Ok(()));
}

#[test]
fn session_ttl_constants() {
    assert_eq!(SESSION_EXTEND_AMOUNT, 518_400);
    assert_eq!(SESSION_TTL_THRESHOLD, 501_120);
}
