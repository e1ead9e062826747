//! Model of the external ledger primitive: token-holding accounts with
//! balances, token-type descriptors, and the checked transfer that atomically
//! moves units between two accounts of the same declared type.
//!
//! Balances live entirely in the ledger; the staking core never caches one.
//! The authorizing identity itself is vouched for by the external signature
//! layer before the core runs, so the model carries it but does not re-check
//! signatures.

use vstd::prelude::*;

use crate::errors::LedgerError;
use crate::keys::Pubkey;

verus! {

/// A token-holding endpoint: its identity, the token type it holds, and its
/// balance in base units.
#[derive(Clone, Copy, Debug)]
pub struct TokenAccount {
    pub key: Pubkey,
    pub mint: Pubkey,
    pub amount: u64,
}

/// A token-type descriptor: its identity and its declared decimal precision.
#[derive(Clone, Copy, Debug)]
pub struct Mint {
    pub key: Pubkey,
    pub decimals: u8,
}

/// What the checked transfer does: verify that the token-type reference
/// matches both endpoints' declared type and the expected decimal precision,
/// then move `amount` units from `from` to `to`. Returns the two accounts
/// after the move, or the first failure; on failure nothing moves.
pub open spec fn spec_transfer_checked(
    from: TokenAccount,
    to: TokenAccount,
    mint: Mint,
    amount: u64,
    decimals: u8,
) -> Result<(TokenAccount, TokenAccount), LedgerError> {
    if from.mint != mint.key || to.mint != mint.key {
        Err(LedgerError::MintMismatch)
    } else if decimals != mint.decimals {
        Err(LedgerError::DecimalsMismatch)
    } else if from.amount < amount {
        Err(LedgerError::InsufficientFunds)
    } else if to.amount + amount > u64::MAX {
        Err(LedgerError::Overflow)
    } else {
        Ok((
            TokenAccount { amount: (from.amount - amount) as u64, ..from },
            TokenAccount { amount: (to.amount + amount) as u64, ..to },
        ))
    }
}

/// The transfer succeeds exactly when the token-type reference matches both
/// endpoints, the precision matches, the source covers the amount, and the
/// destination balance stays representable.
pub open spec fn transfer_allowed(
    from: TokenAccount,
    to: TokenAccount,
    mint: Mint,
    amount: u64,
    decimals: u8,
) -> bool {
    &&& from.mint == mint.key
    &&& to.mint == mint.key
    &&& decimals == mint.decimals
    &&& from.amount >= amount
    &&& to.amount + amount <= u64::MAX
}

/// The checked transfer, on the modelled accounts. Either every effect of the
/// call commits or none does.
pub fn transfer_checked(
    from: &mut TokenAccount,
    to: &mut TokenAccount,
    mint: &Mint,
    amount: u64,
    decimals: u8,
) -> (r: Result<(), LedgerError>)
    ensures
        match r {
            Ok(()) => spec_transfer_checked(*old(from), *old(to), *mint, amount, decimals)
                == Ok::<_, LedgerError>((*final(from), *final(to))),
            Err(e) => {
                &&& spec_transfer_checked(*old(from), *old(to), *mint, amount, decimals)
                    == Err::<(TokenAccount, TokenAccount), _>(e)
                &&& *final(from) == *old(from)
                &&& *final(to) == *old(to)
            },
        },
        r is Ok <==> transfer_allowed(*old(from), *old(to), *mint, amount, decimals),
{
    if from.mint != mint.key || to.mint != mint.key {
        return Err(LedgerError::MintMismatch);
    }
    if decimals != mint.decimals {
        return Err(LedgerError::DecimalsMismatch);
    }
    if from.amount < amount {
        return Err(LedgerError::InsufficientFunds);
    }
    if amount > u64::MAX - to.amount {
        return Err(LedgerError::Overflow);
    }
    from.amount = from.amount - amount;
    to.amount = to.amount + amount;
    Ok(())
}

} // verus!
