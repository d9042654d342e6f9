//! Authorization rules of the Warden smart account and of its policies.
//!
//! The account and its policies run as contracts on a ledger; everything that
//! reads or writes ledger storage, checks authorization, publishes events or
//! calls another contract stays with the contract shells. What the contracts
//! decide is here, stated over plain values and proved:
//!
//! - [`smart_account`]: which signer a removal targets, and whether a signer
//!   removal may go through given what every attached policy answers about its
//!   own reachability; the guards on adding signers.
//! - [`threshold`]: reachability of a plain M-of-N threshold.
//! - [`weighted`]: reachability of a weighted threshold after one signer leaves.
//! - [`session`]: the method allowlist behind session keys: installing,
//!   reading, enforcing and uninstalling it on one account's rule.

pub mod session;
pub mod smart_account;
pub mod threshold;
pub mod weighted;
