//! Everything a vault operation can reject.

use vstd::prelude::*;

verus! {

/// A local precondition failure: the call is aborted and no state changes.
#[derive(Clone, Copy, Debug, PartialEq, Eq, Structural)]
pub enum VaultError {
    /// The caller is not the owner of an owner-gated operation.
    NotAuthorized,
    /// The operation names an account with no vesting record.
    AccountNotFound,
    /// Funding was attempted while the account still has locked value or an
    /// unfinished schedule.
    AlreadyFunded,
    /// The funding amount differs from the schedule's exact total entitlement.
    AmountMismatch,
    /// Reconfiguration was attempted before the previous schedule's full
    /// duration elapsed.
    AccountInSession,
    /// Reconfiguration was attempted while unlocked value is still unclaimed.
    AccountNeedsClaim,
    /// The unclaimed amount exceeds the account's remaining locked balance;
    /// a guard for a bookkeeping invariant, unreachable when it holds.
    InsufficientLiquidity,
    /// A deposit arrived from a token contract other than the configured one.
    WrongToken,
    /// A deposit arrived without a target beneficiary in its message.
    MissingTargetAccount,
    /// A deposit's target is ill-formed or names the vault itself.
    InvalidTargetAccount,
    /// An owner-supplied identifier does not satisfy the host's grammar.
    InvalidAccountId,
    /// The attached deposit does not cover the storage the call consumed.
    StorageShortfall,
}

} // verus!
