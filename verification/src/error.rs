use vstd::prelude::*;

verus! {

/// The error kinds the refund path can surface. Each corresponds to a
/// precise checkpoint of the handler: a failed relationship check, a failed
/// re-derivation, or a failure of one of the two ledger steps.
#[derive(Clone, Copy, PartialEq, Eq, Structural, Debug)]
pub enum ErrorCode {
    /// The record's stored id and bump do not re-derive the record's own
    /// address: the record was forged or substituted. Fatal, no retry.
    InvalidAuthorityDerivation,
    /// A mint, owner or authority relationship among the supplied accounts
    /// does not hold. Fatal: the caller must supply the correct accounts.
    AccountBindingMismatch,
    /// The ledger rejected the withdrawal: no funds moved, the whole call
    /// may be retried.
    FailedVaultWithdrawal,
    /// The vault close step failed after a successful withdrawal: the funds
    /// are already safe, only the storage reclamation did not complete.
    FailedVaultClosure,
}

} // verus!
