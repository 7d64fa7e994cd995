//! Fungible-asset accounts and the exact, type-checked transfer between them.
use vstd::prelude::*;
use crate::error::ErrorCode;
use crate::custody::same_address;

verus! {

/// An account that holds `amount` units of the asset type `mint`, which only
/// `owner` may move, and `lamports` of storage reserve, which go to whoever
/// closes it.
#[derive(Clone, Copy, Debug)]
pub struct TokenAccount {
    pub address: [u8; 32],
    pub mint: [u8; 32],
    pub owner: [u8; 32],
    pub amount: u64,
    pub lamports: u64,
}

impl TokenAccount {
    /// An empty account of asset type `mint` owned by `owner`, with a storage
    /// reserve of `lamports`.
    pub fn new(address: [u8; 32], mint: [u8; 32], owner: [u8; 32], lamports: u64) -> (r: TokenAccount)
        ensures
            r == (TokenAccount { address, mint, owner, amount: 0, lamports }),
    {
        TokenAccount { address, mint, owner, amount: 0, lamports }
    }
}

/// Why moving `amount` of `mint` from `from` to `to` on the authority of
/// `authority` is refused, checked in this order; `None` where it succeeds.
pub open spec fn transfer_error(from: TokenAccount, to: TokenAccount, mint: Seq<u8>, amount: u64, authority: Seq<u8>) -> Option<ErrorCode> {
    if from.mint@ != mint || to.mint@ != mint {
        Some(ErrorCode::TypeMismatch)
    } else if from.owner@ != authority {
        Some(ErrorCode::OwnerMismatch)
    } else if from.amount < amount {
        Some(ErrorCode::InsufficientBalance)
    } else if to.amount + amount > u64::MAX {
        Some(ErrorCode::Overflow)
    } else {
        None
    }
}

/// The account `a` with its balance set to `amount`.
pub open spec fn with_amount(a: TokenAccount, amount: int) -> TokenAccount {
    TokenAccount { amount: amount as u64, ..a }
}

/// Moves exactly `amount` of asset `mint` from `from` to `to` on the authority
/// of `authority`. On success the source loses and the destination gains
/// `amount`; on failure neither changes.
pub fn transfer_checked(from: &mut TokenAccount, to: &mut TokenAccount, mint: &[u8; 32], amount: u64, authority: &[u8; 32]) -> (r: Result<(), ErrorCode>)
    ensures
        match transfer_error(*old(from), *old(to), mint@, amount, authority@) {
            Some(e) => r == Err::<(), ErrorCode>(e) && *final(from) == *old(from) && *final(to) == *old(to),
            None => r is Ok
                && *final(from) == with_amount(*old(from), old(from).amount - amount)
                && *final(to) == with_amount(*old(to), old(to).amount + amount),
        },
{
    if !same_address(&from.mint, mint) || !same_address(&to.mint, mint) {
        return Err(ErrorCode::TypeMismatch);
    }
    if !same_address(&from.owner, authority) {
        return Err(ErrorCode::OwnerMismatch);
    }
    if from.amount < amount {
        return Err(ErrorCode::InsufficientBalance);
    }
    if to.amount > u64::MAX - amount {
        return Err(ErrorCode::Overflow);
    }
    from.amount = from.amount - amount;
    to.amount = to.amount + amount;
    Ok(())
}

} // verus!
