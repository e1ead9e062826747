//! The guarantees the staking core gives, stated over the spec-level
//! transitions that the executable operations are proved to follow.

use vstd::prelude::*;

use crate::errors::StakingError;
use crate::keys::Pubkey;
use crate::ledger::{spec_transfer_checked, transfer_allowed, Mint, TokenAccount};
use crate::orchestrator::{spec_stake, spec_unstake};
use crate::record::{spec_initialize, StakingAccount};

verus! {

/// A record is initialized at most once: whatever a first initialization
/// bound, a second attempt on the resulting record fails with
/// `AlreadyInitialized` (and, by `initialize`'s contract, leaves every field
/// of the record unchanged).
pub proof fn lemma_initialize_at_most_once(
    rec: StakingAccount,
    owner1: Pubkey,
    mint1: Pubkey,
    vault1: Pubkey,
    owner2: Pubkey,
    mint2: Pubkey,
    vault2: Pubkey,
)
    requires
        spec_initialize(rec, owner1, mint1, vault1) matches Ok(_),
    ensures
        spec_initialize(rec, owner1, mint1, vault1) matches Ok(live) ==> spec_initialize(
            live,
            owner2,
            mint2,
            vault2,
        ) == Err::<StakingAccount, StakingError>(StakingError::AlreadyInitialized),
{
}

/// For an initialized record and a stake whose source holds the record's
/// token type and whose destination is the record's vault: the call succeeds
/// exactly when the ledger would allow the transfer (the token-type reference
/// names both endpoints' type, the source balance covers the amount, and the
/// vault balance stays representable), and on success the vault's balance
/// grows by exactly the amount while the source's shrinks by it.
pub proof fn lemma_stake_succeeds_iff_ledger_allows(
    rec: StakingAccount,
    from: TokenAccount,
    to: TokenAccount,
    mint: Mint,
    amount: u64,
)
    requires
        rec.is_initialized,
        from.mint == rec.token_mint,
        to.key == rec.token_account,
    ensures
        spec_stake(rec, from, to, mint, amount) is Ok <==> transfer_allowed(
            from,
            to,
            mint,
            amount,
            mint.decimals,
        ),
        transfer_allowed(from, to, mint, amount, mint.decimals) <==> {
            &&& from.mint == mint.key
            &&& to.mint == mint.key
            &&& from.amount >= amount
            &&& to.amount + amount <= u64::MAX
        },
        spec_stake(rec, from, to, mint, amount) matches Ok(moved) ==> {
            &&& moved.1.amount == to.amount + amount
            &&& moved.0.amount == from.amount - amount
        },
{
}

/// An unstake whose source is not the record's vault fails with
/// `SourceMismatch`, regardless of the amount or of who signed.
pub proof fn lemma_unstake_wrong_source(
    rec: StakingAccount,
    from: TokenAccount,
    to: TokenAccount,
    owner: Pubkey,
    mint: Mint,
    amount: u64,
)
    requires
        rec.is_initialized,
        from.key != rec.token_account,
    ensures
        spec_unstake(rec, from, to, owner, mint, amount) == Err::<
            (TokenAccount, TokenAccount),
            StakingError,
        >(StakingError::SourceMismatch),
{
}

/// An unstake on any authority other than the record's registered owner never
/// succeeds, even if that identity is a validly-signed account; and when the
/// source and destination checks pass, the failure is `OwnerMismatch`.
pub proof fn lemma_unstake_wrong_owner(
    rec: StakingAccount,
    from: TokenAccount,
    to: TokenAccount,
    owner: Pubkey,
    mint: Mint,
    amount: u64,
)
    requires
        rec.is_initialized,
        owner != rec.owner,
    ensures
        spec_unstake(rec, from, to, owner, mint, amount) is Err,
        from.key == rec.token_account && to.mint == rec.token_mint ==> spec_unstake(
            rec,
            from,
            to,
            owner,
            mint,
            amount,
        ) == Err::<(TokenAccount, TokenAccount), StakingError>(StakingError::OwnerMismatch),
{
}

/// Round trip: a successful stake followed by an unstake of the same amount,
/// authorized by the record's registered owner, is owed success and returns
/// both the vault and the user's account to their prior balances exactly.
pub proof fn lemma_stake_unstake_roundtrip(
    rec: StakingAccount,
    from: TokenAccount,
    to: TokenAccount,
    mint: Mint,
    amount: u64,
)
    requires
        rec.is_initialized,
        spec_stake(rec, from, to, mint, amount) matches Ok(_),
    ensures
        spec_stake(rec, from, to, mint, amount) matches Ok(moved) ==> spec_unstake(
            rec,
            moved.1,
            moved.0,
            rec.owner,
            mint,
            amount,
        ) == Ok::<(TokenAccount, TokenAccount), StakingError>((to, from)),
{
    if let Ok(moved) = spec_stake(rec, from, to, mint, amount) {
        let back = spec_transfer_checked(moved.1, moved.0, mint, amount, mint.decimals);
        assert(back matches Ok(b) ==> b.0 == to && b.1 == from);
    }
}

} // verus!
