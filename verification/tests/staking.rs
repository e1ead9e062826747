use token_staking::errors::{LedgerError, StakingError};
use token_staking::keys::Pubkey;
use token_staking::ledger::{transfer_checked, Mint, TokenAccount};
use token_staking::orchestrator::{
    initialize, stake, stake24_m, stake36_m, stake60_m, unstake, unstake30, unstake40, Initialize,
    Stake, Unstake,
};
use token_staking::record::StakingAccount;

fn key(tag: u8) -> Pubkey {
    Pubkey::new([tag; 32])
}

fn init_ctx(owner_tag: u8, mint_tag: u8, vault_tag: u8) -> (Initialize, Pubkey) {
    let ctx = Initialize {
        staking_account: StakingAccount::fresh(),
        token_mint: Mint { key: key(mint_tag), decimals: 6 },
        user: key(owner_tag),
        token_account: TokenAccount { key: key(vault_tag), mint: key(mint_tag), amount: 0 },
    };
    (ctx, key(owner_tag))
}

/// A record initialized with owner A (tag 1), token type M (tag 2),
/// vault V (tag 3).
fn live_record() -> StakingAccount {
    let (mut ctx, owner) = init_ctx(1, 2, 3);
    assert_eq!(initialize(&mut ctx, owner), Ok(()));
    ctx.staking_account
}

fn stake_ctx(rec: StakingAccount, from_amount: u64, vault_amount: u64) -> Stake {
    Stake {
        from: TokenAccount { key: key(5), mint: key(2), amount: from_amount },
        to: TokenAccount { key: key(3), mint: key(2), amount: vault_amount },
        user: key(4),
        staking_account: rec,
        mint: Mint { key: key(2), decimals: 6 },
    }
}

fn unstake_ctx(rec: StakingAccount, vault_amount: u64, dest_amount: u64) -> Unstake {
    Unstake {
        from: TokenAccount { key: key(3), mint: key(2), amount: vault_amount },
        to: TokenAccount { key: key(5), mint: key(2), amount: dest_amount },
        staking_account: rec,
        owner: key(1),
        mint: Mint { key: key(2), decimals: 6 },
    }
}

#[test]
fn initialize_binds_all_fields() {
    let (mut ctx, owner) = init_ctx(1, 2, 3);
    assert_eq!(initialize(&mut ctx, owner), Ok(()));
    let rec = ctx.staking_account;
    assert!(rec.is_initialized);
    assert_eq!(rec.owner, key(1));
    assert_eq!(rec.token_mint, key(2));
    assert_eq!(rec.token_account, key(3));
}

#[test]
fn initialize_twice_fails_and_changes_nothing() {
    let (mut ctx, owner) = init_ctx(1, 2, 3);
    assert_eq!(initialize(&mut ctx, owner), Ok(()));
    let before = ctx.staking_account;
    // a second call under a different owner must not rebind anything
    let second = initialize(&mut ctx, key(9));
    assert_eq!(second, Err(StakingError::AlreadyInitialized));
    assert_eq!(ctx.staking_account.owner, before.owner);
    assert_eq!(ctx.staking_account.token_mint, before.token_mint);
    assert_eq!(ctx.staking_account.token_account, before.token_account);
    assert!(ctx.staking_account.is_initialized);
}

#[test]
fn stake_moves_amount_into_vault() {
    let rec = live_record();
    let mut ctx = stake_ctx(rec, 500, 40);
    let r = stake(&mut ctx, 100);
    let action = r.expect("valid stake must succeed");
    assert_eq!(ctx.to.amount, 140);
    assert_eq!(ctx.from.amount, 400);
    assert_eq!(action.from, key(5));
    assert_eq!(action.to, key(3));
    assert_eq!(action.mint, key(2));
    assert_eq!(action.authority, key(4));
    assert_eq!(action.amount, 100);
    assert_eq!(action.decimals, 6);
}

#[test]
fn stake_fails_when_balance_insufficient() {
    let rec = live_record();
    let mut ctx = stake_ctx(rec, 99, 40);
    let r = stake(&mut ctx, 100);
    assert_eq!(r, Err(StakingError::Ledger(LedgerError::InsufficientFunds)));
    assert_eq!(ctx.from.amount, 99);
    assert_eq!(ctx.to.amount, 40);
}

#[test]
fn stake_wrong_source_mint_fails() {
    let rec = live_record();
    let mut ctx = stake_ctx(rec, 500, 40);
    ctx.from.mint = key(7);
    let r = stake(&mut ctx, 100);
    assert_eq!(r, Err(StakingError::MintMismatch));
    assert_eq!(ctx.to.amount, 40);
}

#[test]
fn stake_wrong_destination_fails_without_transfer() {
    let rec = live_record();
    let mut ctx = stake_ctx(rec, 500, 40);
    ctx.to.key = key(8);
    let r = stake(&mut ctx, 100);
    assert_eq!(r, Err(StakingError::DestinationMismatch));
    assert_eq!(ctx.from.amount, 500);
    assert_eq!(ctx.to.amount, 40);
}

#[test]
fn stake_mint_reference_mismatch_is_a_ledger_failure() {
    let rec = live_record();
    let mut ctx = stake_ctx(rec, 500, 40);
    ctx.mint.key = key(9);
    let r = stake(&mut ctx, 100);
    assert_eq!(r, Err(StakingError::Ledger(LedgerError::MintMismatch)));
    assert_eq!(ctx.to.amount, 40);
}

#[test]
fn stake_overflowing_vault_fails() {
    let rec = live_record();
    let mut ctx = stake_ctx(rec, 500, u64::MAX - 10);
    let r = stake(&mut ctx, 11);
    assert_eq!(r, Err(StakingError::Ledger(LedgerError::Overflow)));
    assert_eq!(ctx.to.amount, u64::MAX - 10);
}

#[test]
fn stake_of_zero_and_of_whole_balance_succeed() {
    let rec = live_record();
    let mut ctx = stake_ctx(rec, 500, 40);
    assert!(stake(&mut ctx, 0).is_ok());
    assert_eq!(ctx.to.amount, 40);
    assert!(stake(&mut ctx, 500).is_ok());
    assert_eq!(ctx.from.amount, 0);
    assert_eq!(ctx.to.amount, 540);
}

#[test]
fn unstake_wrong_source_fails_regardless_of_amount_or_signer() {
    let rec = live_record();
    for (amount, owner_tag) in [(0u64, 1u8), (100, 1), (u64::MAX, 9)] {
        let mut ctx = unstake_ctx(rec, 1000, 0);
        ctx.from.key = key(6);
        ctx.owner = key(owner_tag);
        let r = unstake(&mut ctx, amount);
        assert_eq!(r, Err(StakingError::SourceMismatch));
        assert_eq!(ctx.from.amount, 1000);
        assert_eq!(ctx.to.amount, 0);
    }
}

#[test]
fn unstake_wrong_destination_mint_fails() {
    let rec = live_record();
    let mut ctx = unstake_ctx(rec, 1000, 0);
    ctx.to.mint = key(7);
    let r = unstake(&mut ctx, 100);
    assert_eq!(r, Err(StakingError::MintMismatch));
    assert_eq!(ctx.from.amount, 1000);
}

#[test]
fn unstake_by_other_signer_fails_with_owner_mismatch() {
    let rec = live_record();
    // tag 9 stands for a different, validly-signed identity
    let mut ctx = unstake_ctx(rec, 1000, 0);
    ctx.owner = key(9);
    let r = unstake(&mut ctx, 100);
    assert_eq!(r, Err(StakingError::OwnerMismatch));
    assert_eq!(ctx.from.amount, 1000);
    assert_eq!(ctx.to.amount, 0);
}

#[test]
fn stake_then_unstake_restores_prior_balances() {
    let rec = live_record();
    let mut sctx = stake_ctx(rec, 500, 40);
    assert!(stake(&mut sctx, 123).is_ok());
    let mut uctx = Unstake {
        from: sctx.to,
        to: sctx.from,
        staking_account: rec,
        owner: key(1),
        mint: sctx.mint,
    };
    let r = unstake(&mut uctx, 123);
    assert!(r.is_ok());
    assert_eq!(uctx.from.amount, 40);
    assert_eq!(uctx.to.amount, 500);
}

#[test]
fn full_scenario_owner_gates_withdrawal() {
    // record with owner A (tag 1), token type M (tag 2), vault V (tag 3)
    let rec = live_record();
    // stake 100 units from user B's account (type M) to V
    let mut sctx = stake_ctx(rec, 500, 40);
    sctx.user = key(11);
    sctx.from.key = key(12);
    let staked = stake(&mut sctx, 100);
    assert!(staked.is_ok());
    assert_eq!(sctx.to.amount, 140);
    // unstake 100 units from V to B's account, authorized by A
    let mut uctx = Unstake {
        from: sctx.to,
        to: sctx.from,
        staking_account: rec,
        owner: key(1),
        mint: sctx.mint,
    };
    let r = unstake(&mut uctx, 100);
    assert!(r.is_ok());
    assert_eq!(uctx.from.amount, 40);
    // unstake authorized by C (tag 13, not A) fails; balance unchanged
    let mut bad = Unstake {
        from: uctx.from,
        to: uctx.to,
        staking_account: rec,
        owner: key(13),
        mint: uctx.mint,
    };
    let r2 = unstake(&mut bad, 10);
    assert_eq!(r2, Err(StakingError::OwnerMismatch));
    assert_eq!(bad.from.amount, 40);
}

#[test]
fn unstake_action_is_authorized_by_registered_owner() {
    let rec = live_record();
    let mut ctx = unstake_ctx(rec, 1000, 0);
    let action = unstake(&mut ctx, 250).expect("valid unstake must succeed");
    assert_eq!(action.from, key(3));
    assert_eq!(action.to, key(5));
    assert_eq!(action.authority, key(1));
    assert_eq!(action.amount, 250);
}

#[test]
fn tier_labels_do_not_change_semantics() {
    let rec = live_record();
    let mut a = stake_ctx(rec, 500, 40);
    let mut b = stake_ctx(rec, 500, 40);
    let mut c = stake_ctx(rec, 500, 40);
    assert!(stake24_m(&mut a, 100).is_ok());
    assert!(stake36_m(&mut b, 100).is_ok());
    assert!(stake60_m(&mut c, 100).is_ok());
    assert_eq!(a.to.amount, 140);
    assert_eq!(b.to.amount, 140);
    assert_eq!(c.to.amount, 140);
    let mut u1 = unstake_ctx(rec, 140, 400);
    let mut u2 = unstake_ctx(rec, 140, 400);
    assert!(unstake30(&mut u1, 100).is_ok());
    assert!(unstake40(&mut u2, 100).is_ok());
    assert_eq!(u1.from.amount, 40);
    assert_eq!(u2.from.amount, 40);
}

#[test]
fn ledger_rejects_wrong_decimal_precision() {
    let mut from = TokenAccount { key: key(5), mint: key(2), amount: 500 };
    let mut to = TokenAccount { key: key(3), mint: key(2), amount: 40 };
    let mint = Mint { key: key(2), decimals: 6 };
    let r = transfer_checked(&mut from, &mut to, &mint, 100, 9);
    assert_eq!(r, Err(LedgerError::DecimalsMismatch));
    assert_eq!(from.amount, 500);
    assert_eq!(to.amount, 40);
}

#[test]
fn pubkeys_compare_by_bytes() {
    let mut raw = [7u8; 32];
    assert_eq!(Pubkey::new(raw), Pubkey::new([7u8; 32]));
    raw[31] = 8;
    assert_ne!(Pubkey::new(raw), Pubkey::new([7u8; 32]));
}
