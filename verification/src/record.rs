//! The staking record: the one persistent struct binding an owner, a token
//! type and a vault account, guarded against re-initialization.

use vstd::prelude::*;

use crate::errors::StakingError;
use crate::keys::Pubkey;

verus! {

/// The persistent record. Immutable after creation except for the
/// `is_initialized` transition false to true, which happens exactly once;
/// `token_mint` and `token_account` are fixed for the record's lifetime.
#[derive(Clone, Copy, Debug)]
pub struct StakingAccount {
    /// Identity entitled to withdraw from the vault.
    pub owner: Pubkey,
    /// Identity of the fungible token this record governs.
    pub token_mint: Pubkey,
    /// Identity of the token-holding account acting as custodial vault.
    pub token_account: Pubkey,
    /// Single-initialization guard.
    pub is_initialized: bool,
}

/// What initialization does: on a fresh record, bind all three identities and
/// set the guard; on a live record, fail and change nothing. This is the sole
/// guard against re-initialization attempts that would rebind `owner` or the
/// vault on a live record.
pub open spec fn spec_initialize(
    rec: StakingAccount,
    owner: Pubkey,
    token_mint: Pubkey,
    token_account: Pubkey,
) -> Result<StakingAccount, StakingError> {
    if rec.is_initialized {
        Err(StakingError::AlreadyInitialized)
    } else {
        Ok(StakingAccount { owner, token_mint, token_account, is_initialized: true })
    }
}

impl StakingAccount {
    /// A record as the persistent store hands it out before any
    /// initialization call has touched it.
    pub fn fresh() -> (r: StakingAccount)
        ensures
            !r.is_initialized,
    {
        StakingAccount {
            owner: Pubkey { bytes: [0u8; 32] },
            token_mint: Pubkey { bytes: [0u8; 32] },
            token_account: Pubkey { bytes: [0u8; 32] },
            is_initialized: false,
        }
    }
}

} // verus!
