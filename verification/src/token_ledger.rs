use vstd::prelude::*;

use crate::state::AccountId;

verus! {

/// One asset class on the external token ledger: its identity, how many
/// units exist, and its smallest-unit precision.
#[derive(Clone, Copy, Debug, PartialEq, Eq, Structural)]
pub struct TokenMint {
    pub key: AccountId,
    pub supply: u64,
    pub decimals: u8,
}

/// One balance on the external token ledger: `amount` units of the asset
/// `mint`, held for `owner` at address `key`.
#[derive(Clone, Copy, Debug, PartialEq, Eq, Structural)]
pub struct TokenAccount {
    pub key: AccountId,
    pub mint: AccountId,
    pub owner: AccountId,
    pub amount: u64,
}

/// Moves `amount` units between two accounts of the same asset. The ledger
/// executes it atomically: the model's callers first rule out the failures
/// (insufficient balance, destination overflow) that would abort it.
pub fn transfer(from: &mut TokenAccount, to: &mut TokenAccount, amount: u64)
    requires
        old(from).mint == old(to).mint,
        old(from).amount >= amount,
        old(to).amount + amount <= u64::MAX,
    ensures
        *final(from) == (TokenAccount { amount: (old(from).amount - amount) as u64, ..*old(from) }),
        *final(to) == (TokenAccount { amount: (old(to).amount + amount) as u64, ..*old(to) }),
{
    from.amount = from.amount - amount;
    to.amount = to.amount + amount;
}

/// Creates `amount` new units of an asset in `to`, growing the supply by the
/// same amount.
pub fn mint_to(mint: &mut TokenMint, to: &mut TokenAccount, amount: u64)
    requires
        old(to).mint == old(mint).key,
        old(mint).supply + amount <= u64::MAX,
        old(to).amount + amount <= u64::MAX,
    ensures
        *final(mint) == (TokenMint { supply: (old(mint).supply + amount) as u64, ..*old(mint) }),
        *final(to) == (TokenAccount { amount: (old(to).amount + amount) as u64, ..*old(to) }),
{
    mint.supply = mint.supply + amount;
    to.amount = to.amount + amount;
}

/// Destroys `amount` units held in `from`, shrinking the supply by the same
/// amount.
pub fn burn(mint: &mut TokenMint, from: &mut TokenAccount, amount: u64)
    requires
        old(from).mint == old(mint).key,
        old(from).amount >= amount,
        old(mint).supply >= amount,
    ensures
        *final(mint) == (TokenMint { supply: (old(mint).supply - amount) as u64, ..*old(mint) }),
        *final(from) == (TokenAccount { amount: (old(from).amount - amount) as u64, ..*old(from) }),
{
    mint.supply = mint.supply - amount;
    from.amount = from.amount - amount;
}

} // verus!
