//! The transfer orchestrator: validates a requested stake or unstake against
//! the staking record, then applies the external ledger's checked transfer,
//! authorized by the depositing user (stake) or by the record's registered
//! owner (unstake). The record only gates which accounts are legal endpoints;
//! no stake or unstake ever mutates it.

use vstd::prelude::*;

use crate::errors::StakingError;
use crate::keys::Pubkey;
use crate::ledger;
use crate::ledger::{Mint, TokenAccount};
use crate::record::{spec_initialize, StakingAccount};

verus! {

/// The accounts an initialization call brings: the record slot, the token
/// type the record will govern, the paying signer, and the vault account.
#[derive(Clone, Copy, Debug)]
pub struct Initialize {
    pub staking_account: StakingAccount,
    pub token_mint: Mint,
    pub user: Pubkey,
    pub token_account: TokenAccount,
}

/// The accounts a stake call brings: the depositing user's account, the
/// vault, the authorizing user, the record, and the token-type descriptor.
#[derive(Clone, Copy, Debug)]
pub struct Stake {
    pub from: TokenAccount,
    pub to: TokenAccount,
    pub user: Pubkey,
    pub staking_account: StakingAccount,
    pub mint: Mint,
}

/// The accounts an unstake call brings: the vault, the receiving account,
/// the record, the identity claiming to be the owner, and the token-type
/// descriptor.
#[derive(Clone, Copy, Debug)]
pub struct Unstake {
    pub from: TokenAccount,
    pub to: TokenAccount,
    pub staking_account: StakingAccount,
    pub owner: Pubkey,
    pub mint: Mint,
}

/// The one balance movement a successful operation delegates to the external
/// ledger: which accounts, which token type, which authority, how much.
#[derive(Clone, Copy, Debug)]
pub struct TransferAction {
    pub from: Pubkey,
    pub to: Pubkey,
    pub mint: Pubkey,
    pub authority: Pubkey,
    pub amount: u64,
    pub decimals: u8,
}

impl PartialEq for TransferAction {
    fn eq(&self, other: &TransferAction) -> (r: bool) {
        self.from == other.from && self.to == other.to && self.mint == other.mint
            && self.authority == other.authority && self.amount == other.amount
            && self.decimals == other.decimals
    }
}

impl vstd::std_specs::cmp::PartialEqSpecImpl for TransferAction {
    open spec fn obeys_eq_spec() -> bool {
        true
    }

    open spec fn eq_spec(&self, other: &TransferAction) -> bool {
        &&& self.from == other.from
        &&& self.to == other.to
        &&& self.mint == other.mint
        &&& self.authority == other.authority
        &&& self.amount == other.amount
        &&& self.decimals == other.decimals
    }
}

/// What a stake decides: reject a source of the wrong token type, reject a
/// destination other than the record's vault, else move the amount through
/// the checked transfer and propagate any ledger failure unchanged.
pub open spec fn spec_stake(
    rec: StakingAccount,
    from: TokenAccount,
    to: TokenAccount,
    mint: Mint,
    amount: u64,
) -> Result<(TokenAccount, TokenAccount), StakingError> {
    if from.mint != rec.token_mint {
        Err(StakingError::MintMismatch)
    } else if to.key != rec.token_account {
        Err(StakingError::DestinationMismatch)
    } else {
        match ledger::spec_transfer_checked(from, to, mint, amount, mint.decimals) {
            Ok(moved) => Ok(moved),
            Err(e) => Err(StakingError::Ledger(e)),
        }
    }
}

/// What an unstake decides: only the registered vault may be drained, only
/// into an account of the record's token type, and only on the registered
/// owner's authority; then the same checked transfer moves the amount.
pub open spec fn spec_unstake(
    rec: StakingAccount,
    from: TokenAccount,
    to: TokenAccount,
    owner: Pubkey,
    mint: Mint,
    amount: u64,
) -> Result<(TokenAccount, TokenAccount), StakingError> {
    if from.key != rec.token_account {
        Err(StakingError::SourceMismatch)
    } else if to.mint != rec.token_mint {
        Err(StakingError::MintMismatch)
    } else if owner != rec.owner {
        Err(StakingError::OwnerMismatch)
    } else {
        match ledger::spec_transfer_checked(from, to, mint, amount, mint.decimals) {
            Ok(moved) => Ok(moved),
            Err(e) => Err(StakingError::Ledger(e)),
        }
    }
}

/// The transfer a successful stake performs: source to vault, authorized by
/// the depositing user, at the token's own precision.
pub open spec fn stake_action(pre: Stake, amount: u64) -> TransferAction {
    TransferAction {
        from: pre.from.key,
        to: pre.to.key,
        mint: pre.mint.key,
        authority: pre.user,
        amount,
        decimals: pre.mint.decimals,
    }
}

/// The transfer a successful unstake performs: vault to destination,
/// authorized by the record's registered owner.
pub open spec fn unstake_action(pre: Unstake, amount: u64) -> TransferAction {
    TransferAction {
        from: pre.from.key,
        to: pre.to.key,
        mint: pre.mint.key,
        authority: pre.owner,
        amount,
        decimals: pre.mint.decimals,
    }
}

/// Full behaviour of a stake call: the record, user and token descriptor are
/// untouched; on success the two balances move as `spec_stake` says and the
/// returned action is exactly the delegated transfer; on failure the error is
/// the one `spec_stake` names and nothing moves.
pub open spec fn stake_post(
    pre: Stake,
    post: Stake,
    amount: u64,
    r: Result<TransferAction, StakingError>,
) -> bool {
    &&& post.staking_account == pre.staking_account
    &&& post.user == pre.user
    &&& post.mint == pre.mint
    &&& match r {
        Ok(action) => {
            &&& spec_stake(pre.staking_account, pre.from, pre.to, pre.mint, amount)
                == Ok::<(TokenAccount, TokenAccount), StakingError>((post.from, post.to))
            &&& action == stake_action(pre, amount)
        },
        Err(e) => {
            &&& spec_stake(pre.staking_account, pre.from, pre.to, pre.mint, amount)
                == Err::<(TokenAccount, TokenAccount), StakingError>(e)
            &&& post.from == pre.from
            &&& post.to == pre.to
        },
    }
}

/// Full behaviour of an unstake call, in the same shape as `stake_post`.
pub open spec fn unstake_post(
    pre: Unstake,
    post: Unstake,
    amount: u64,
    r: Result<TransferAction, StakingError>,
) -> bool {
    &&& post.staking_account == pre.staking_account
    &&& post.owner == pre.owner
    &&& post.mint == pre.mint
    &&& match r {
        Ok(action) => {
            &&& spec_unstake(pre.staking_account, pre.from, pre.to, pre.owner, pre.mint, amount)
                == Ok::<(TokenAccount, TokenAccount), StakingError>((post.from, post.to))
            &&& action == unstake_action(pre, amount)
        },
        Err(e) => {
            &&& spec_unstake(pre.staking_account, pre.from, pre.to, pre.owner, pre.mint, amount)
                == Err::<(TokenAccount, TokenAccount), StakingError>(e)
            &&& post.from == pre.from
            &&& post.to == pre.to
        },
    }
}

/// Initializes the staking record: binds the owner, the token type and the
/// vault account, and sets the guard. Fails with `AlreadyInitialized`, and
/// changes nothing, if the record is already live.
pub fn initialize(ctx: &mut Initialize, owner: Pubkey) -> (r: Result<(), StakingError>)
    ensures
        final(ctx).token_mint == old(ctx).token_mint,
        final(ctx).user == old(ctx).user,
        final(ctx).token_account == old(ctx).token_account,
        match r {
            Ok(()) => spec_initialize(
                old(ctx).staking_account,
                owner,
                old(ctx).token_mint.key,
                old(ctx).token_account.key,
            ) == Ok::<StakingAccount, StakingError>(final(ctx).staking_account),
            Err(e) => {
                &&& spec_initialize(
                    old(ctx).staking_account,
                    owner,
                    old(ctx).token_mint.key,
                    old(ctx).token_account.key,
                ) == Err::<StakingAccount, StakingError>(e)
                &&& *final(ctx) == *old(ctx)
            },
        },
{
    if ctx.staking_account.is_initialized {
        return Err(StakingError::AlreadyInitialized);
    }
    ctx.staking_account.owner = owner;
    ctx.staking_account.token_mint = ctx.token_mint.key;
    ctx.staking_account.token_account = ctx.token_account.key;
    ctx.staking_account.is_initialized = true;
    Ok(())
}

/// Deposits `amount` units from the user's account into the record's vault.
pub fn stake(ctx: &mut Stake, amount: u64) -> (r: Result<TransferAction, StakingError>)
    requires
        old(ctx).staking_account.is_initialized,
    ensures
        stake_post(*old(ctx), *final(ctx), amount, r),
{
    if ctx.from.mint != ctx.staking_account.token_mint {
        return Err(StakingError::MintMismatch);
    }
    if ctx.to.key != ctx.staking_account.token_account {
        return Err(StakingError::DestinationMismatch);
    }
    let action = TransferAction {
        from: ctx.from.key,
        to: ctx.to.key,
        mint: ctx.mint.key,
        authority: ctx.user,
        amount,
        decimals: ctx.mint.decimals,
    };
    let decimals = ctx.mint.decimals;
    match ledger::transfer_checked(&mut ctx.from, &mut ctx.to, &ctx.mint, amount, decimals) {
        Ok(()) => Ok(action),
        Err(e) => Err(StakingError::Ledger(e)),
    }
}

/// Withdraws `amount` units from the record's vault on the registered
/// owner's authority.
pub fn unstake(ctx: &mut Unstake, amount: u64) -> (r: Result<TransferAction, StakingError>)
    requires
        old(ctx).staking_account.is_initialized,
    ensures
        unstake_post(*old(ctx), *final(ctx), amount, r),
{
    if ctx.from.key != ctx.staking_account.token_account {
        return Err(StakingError::SourceMismatch);
    }
    if ctx.to.mint != ctx.staking_account.token_mint {
        return Err(StakingError::MintMismatch);
    }
    if ctx.owner != ctx.staking_account.owner {
        return Err(StakingError::OwnerMismatch);
    }
    let action = TransferAction {
        from: ctx.from.key,
        to: ctx.to.key,
        mint: ctx.mint.key,
        authority: ctx.owner,
        amount,
        decimals: ctx.mint.decimals,
    };
    let decimals = ctx.mint.decimals;
    match ledger::transfer_checked(&mut ctx.from, &mut ctx.to, &ctx.mint, amount, decimals) {
        Ok(()) => Ok(action),
        Err(e) => Err(StakingError::Ledger(e)),
    }
}

/// Stake under the 24-month tier label. The tier is a label only: it selects
/// the entry point and has no effect on validation or transfer.
pub fn stake24_m(ctx: &mut Stake, amount: u64) -> (r: Result<TransferAction, StakingError>)
    requires
        old(ctx).staking_account.is_initialized,
    ensures
        stake_post(*old(ctx), *final(ctx), amount, r),
{
    stake(ctx, amount)
}

/// Stake under the 36-month tier label; semantics identical to every tier.
pub fn stake36_m(ctx: &mut Stake, amount: u64) -> (r: Result<TransferAction, StakingError>)
    requires
        old(ctx).staking_account.is_initialized,
    ensures
        stake_post(*old(ctx), *final(ctx), amount, r),
{
    stake(ctx, amount)
}

/// Stake under the 60-month tier label; semantics identical to every tier.
pub fn stake60_m(ctx: &mut Stake, amount: u64) -> (r: Result<TransferAction, StakingError>)
    requires
        old(ctx).staking_account.is_initialized,
    ensures
        stake_post(*old(ctx), *final(ctx), amount, r),
{
    stake(ctx, amount)
}

/// Unstake under the 30-day tier label; semantics identical to every tier.
pub fn unstake30(ctx: &mut Unstake, amount: u64) -> (r: Result<TransferAction, StakingError>)
    requires
        old(ctx).staking_account.is_initialized,
    ensures
        unstake_post(*old(ctx), *final(ctx), amount, r),
{
    unstake(ctx, amount)
}

/// Unstake under the 40-day tier label; semantics identical to every tier.
pub fn unstake40(ctx: &mut Unstake, amount: u64) -> (r: Result<TransferAction, StakingError>)
    requires
        old(ctx).staking_account.is_initialized,
    ensures
        unstake_post(*old(ctx), *final(ctx), amount, r),
{
    unstake(ctx, amount)
}

} // verus!
