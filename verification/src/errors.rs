//! Error taxonomy. Every failure is terminal for the current call: the
//! operation aborts, no partial transfer occurs, and the error is surfaced
//! verbatim to the caller.

use vstd::prelude::*;

verus! {

/// A failure reported by the external checked-transfer ledger primitive.
#[derive(Clone, Copy, PartialEq, Eq, Structural, Debug)]
pub enum LedgerError {
    /// The token-type reference does not match an endpoint's declared type.
    MintMismatch,
    /// The caller-supplied decimal precision differs from the token's.
    DecimalsMismatch,
    /// The source account holds fewer units than the requested amount.
    InsufficientFunds,
    /// Crediting the destination would exceed the representable balance.
    Overflow,
}

/// A failure of the staking core itself, or a ledger failure it propagates.
#[derive(Clone, Copy, PartialEq, Eq, Structural, Debug)]
pub enum StakingError {
    /// A second initialization was attempted on a live record.
    AlreadyInitialized,
    /// An endpoint's token type does not match the record's.
    MintMismatch,
    /// A stake names a destination other than the record's vault.
    DestinationMismatch,
    /// An unstake names a source other than the record's vault.
    SourceMismatch,
    /// The supplied owner identity is not the record's registered owner.
    OwnerMismatch,
    /// The ledger refused the transfer; the cause is passed on unchanged.
    Ledger(LedgerError),
}

} // verus!
