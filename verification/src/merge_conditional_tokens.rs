use vstd::prelude::*;

use crate::error::VaultError;
use crate::interact_with_vault::InteractWithVault;
use crate::state::VaultStatus;
use crate::token_ledger;
use crate::token_ledger::TokenAccount;
use crate::token_ledger::TokenMint;

verus! {

/// What merging does to one call's accounts, as one total function: with
/// either derivative balance below `amount` it fails and changes nothing;
/// otherwise `amount` is burned from both of the depositor's derivative
/// balances and `amount` of underlying moves from the vault's holding back
/// to the depositor. The cumulative minted counters track minting only, so
/// a merge leaves them unchanged.
pub open spec fn merge_step(s: InteractWithVault, amount: u64) -> (Result<
    (),
    VaultError,
>, InteractWithVault) {
    if s.user_conditional_on_finalize_token_account.amount < amount
        || s.user_conditional_on_revert_token_account.amount < amount {
        (Err(VaultError::InsufficientUnderlyingTokens), s)
    } else {
        (
            Ok(()),
            InteractWithVault {
                conditional_on_finalize_token_mint: TokenMint {
                    supply: (s.conditional_on_finalize_token_mint.supply - amount) as u64,
                    ..s.conditional_on_finalize_token_mint
                },
                conditional_on_revert_token_mint: TokenMint {
                    supply: (s.conditional_on_revert_token_mint.supply - amount) as u64,
                    ..s.conditional_on_revert_token_mint
                },
                user_conditional_on_finalize_token_account: TokenAccount {
                    amount: (s.user_conditional_on_finalize_token_account.amount - amount) as u64,
                    ..s.user_conditional_on_finalize_token_account
                },
                user_conditional_on_revert_token_account: TokenAccount {
                    amount: (s.user_conditional_on_revert_token_account.amount - amount) as u64,
                    ..s.user_conditional_on_revert_token_account
                },
                vault_underlying_token_account: TokenAccount {
                    amount: (s.vault_underlying_token_account.amount - amount) as u64,
                    ..s.vault_underlying_token_account
                },
                user_underlying_token_account: TokenAccount {
                    amount: (s.user_underlying_token_account.amount + amount) as u64,
                    ..s.user_underlying_token_account
                },
                ..s
            },
        )
    }
}

impl InteractWithVault {
    /// A merge is only available before the vault reaches a terminal state:
    /// afterwards one side is worthless and the other exactly redeemable, so
    /// matched pairs no longer exist to reclaim. Reports `VaultAlreadySettled`
    /// on a resolved or cancelled vault, and nothing otherwise.
    pub fn validate_merge_conditional_tokens(&self) -> (r: Result<(), VaultError>)
        ensures
            r is Ok <==> !self.vault.status.is_terminal(),
            r is Err ==> r == Err::<(), VaultError>(VaultError::VaultAlreadySettled),
    {
        if self.vault.status == VaultStatus::Resolved || self.vault.status
            == VaultStatus::Cancelled {
            return Err(VaultError::VaultAlreadySettled);
        }
        Ok(())
    }

    /// Returns matched pairs of both derivative assets and reclaims the same
    /// amount of underlying. The balance failure reports
    /// `InsufficientUnderlyingTokens`: the burned pair stands for exactly
    /// that much underlying. The status gate lives in
    /// `validate_merge_conditional_tokens`, which the public entry applies
    /// first. The bound in `requires` only keeps the depositor's underlying
    /// balance inside the machine word, where the ledger transaction would
    /// abort the call as a whole.
    pub fn handle_merge_conditional_tokens(&mut self, amount: u64) -> (r: Result<(), VaultError>)
        requires
            old(self).wf(),
            old(self).user_underlying_token_account.amount + amount <= u64::MAX,
        ensures
            final(self).wf(),
            (r, *final(self)) == merge_step(*old(self), amount),
            r is Ok <==> old(self).user_conditional_on_finalize_token_account.amount >= amount
                && old(self).user_conditional_on_revert_token_account.amount >= amount,
            r is Err ==> r == Err::<(), VaultError>(VaultError::InsufficientUnderlyingTokens)
                && *final(self) == *old(self),
            r is Ok ==> final(self).vault_underlying_token_account.amount == old(
                self,
            ).vault_underlying_token_account.amount - amount,
            r is Ok ==> final(self).user_underlying_token_account.amount == old(
                self,
            ).user_underlying_token_account.amount + amount,
            final(self).vault == old(self).vault,
    {
        if self.user_conditional_on_finalize_token_account.amount < amount
            || self.user_conditional_on_revert_token_account.amount < amount {
            return Err(VaultError::InsufficientUnderlyingTokens);
        }

        let pre_vault_underlying_balance = self.vault_underlying_token_account.amount;
        let pre_user_underlying_balance = self.user_underlying_token_account.amount;

        token_ledger::burn(
            &mut self.conditional_on_finalize_token_mint,
            &mut self.user_conditional_on_finalize_token_account,
            amount,
        );
        token_ledger::burn(
            &mut self.conditional_on_revert_token_mint,
            &mut self.user_conditional_on_revert_token_account,
            amount,
        );
        token_ledger::transfer(
            &mut self.vault_underlying_token_account,
            &mut self.user_underlying_token_account,
            amount,
        );

        assert(self.vault_underlying_token_account.amount == pre_vault_underlying_balance
            - amount);
        assert(self.user_underlying_token_account.amount == pre_user_underlying_balance + amount);

        Ok(())
    }
}

} // verus!
