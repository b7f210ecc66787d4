use vstd::prelude::*;

use crate::error::VaultError;
use crate::interact_with_vault::InteractWithVault;
use crate::state::ConditionalVault;
use crate::state::Side;
use crate::token_ledger;
use crate::token_ledger::TokenAccount;
use crate::token_ledger::TokenMint;

verus! {

/// What minting does to one call's accounts, as one total function: with an
/// underlying balance below `amount` it fails and changes nothing; otherwise
/// `amount` of underlying moves from the depositor to the vault's holding,
/// `amount` units of the chosen side's derivative asset are created for the
/// depositor, and that side's cumulative counter grows by `amount`.
pub open spec fn mint_step(s: InteractWithVault, amount: u64, side: Side) -> (Result<
    (),
    VaultError,
>, InteractWithVault) {
    if s.user_underlying_token_account.amount < amount {
        (Err(VaultError::InsufficientUnderlyingTokens), s)
    } else {
        let deposited = InteractWithVault {
            user_underlying_token_account: TokenAccount {
                amount: (s.user_underlying_token_account.amount - amount) as u64,
                ..s.user_underlying_token_account
            },
            vault_underlying_token_account: TokenAccount {
                amount: (s.vault_underlying_token_account.amount + amount) as u64,
                ..s.vault_underlying_token_account
            },
            ..s
        };
        match side {
            Side::Positive => (
                Ok(()),
                InteractWithVault {
                    conditional_on_finalize_token_mint: TokenMint {
                        supply: (s.conditional_on_finalize_token_mint.supply + amount) as u64,
                        ..s.conditional_on_finalize_token_mint
                    },
                    user_conditional_on_finalize_token_account: TokenAccount {
                        amount: (s.user_conditional_on_finalize_token_account.amount
                            + amount) as u64,
                        ..s.user_conditional_on_finalize_token_account
                    },
                    vault: ConditionalVault {
                        total_positive_tokens_minted: (s.vault.total_positive_tokens_minted
                            + amount) as u64,
                        ..s.vault
                    },
                    ..deposited
                },
            ),
            Side::Negative => (
                Ok(()),
                InteractWithVault {
                    conditional_on_revert_token_mint: TokenMint {
                        supply: (s.conditional_on_revert_token_mint.supply + amount) as u64,
                        ..s.conditional_on_revert_token_mint
                    },
                    user_conditional_on_revert_token_account: TokenAccount {
                        amount: (s.user_conditional_on_revert_token_account.amount
                            + amount) as u64,
                        ..s.user_conditional_on_revert_token_account
                    },
                    vault: ConditionalVault {
                        total_negative_tokens_minted: (s.vault.total_negative_tokens_minted
                            + amount) as u64,
                        ..s.vault
                    },
                    ..deposited
                },
            ),
        }
    }
}

impl InteractWithVault {
    /// Deposits `amount` of underlying and mints `amount` of the chosen
    /// side's derivative asset to the depositor. Minting is deliberately not
    /// gated on the vault's status: it is available in every state. The only
    /// reported failure is an underlying balance below `amount`; the bounds
    /// in `requires` only keep the holding balance and the cumulative
    /// counter inside the machine word, where the ledger transaction would
    /// abort the call as a whole.
    pub fn handle_mint_conditional_tokens(&mut self, amount: u64, side: Side) -> (r: Result<
        (),
        VaultError,
    >)
        requires
            old(self).wf(),
            old(self).vault_underlying_token_account.amount + amount <= u64::MAX,
            old(self).vault.total_minted(side) + amount <= u64::MAX,
        ensures
            final(self).wf(),
            (r, *final(self)) == mint_step(*old(self), amount, side),
            r is Ok <==> old(self).user_underlying_token_account.amount >= amount,
            r is Err ==> r == Err::<(), VaultError>(VaultError::InsufficientUnderlyingTokens)
                && *final(self) == *old(self),
            r is Ok ==> final(self).vault_underlying_token_account.amount == old(
                self,
            ).vault_underlying_token_account.amount + amount,
            r is Ok ==> final(self).user_conditional_balance(side) == old(
                self,
            ).user_conditional_balance(side) + amount,
            r is Ok ==> final(self).conditional_mint(side).supply == old(self).conditional_mint(
                side,
            ).supply + amount,
            r is Ok ==> final(self).vault.total_minted(side) == old(self).vault.total_minted(side)
                + amount,
    {
        let pre_vault_underlying_balance = self.vault_underlying_token_account.amount;
        let pre_user_conditional_balance = match side {
            Side::Positive => self.user_conditional_on_finalize_token_account.amount,
            Side::Negative => self.user_conditional_on_revert_token_account.amount,
        };
        let pre_mint_supply = match side {
            Side::Positive => self.conditional_on_finalize_token_mint.supply,
            Side::Negative => self.conditional_on_revert_token_mint.supply,
        };

        if self.user_underlying_token_account.amount < amount {
            return Err(VaultError::InsufficientUnderlyingTokens);
        }

        token_ledger::transfer(
            &mut self.user_underlying_token_account,
            &mut self.vault_underlying_token_account,
            amount,
        );

        match side {
            Side::Positive => {
                token_ledger::mint_to(
                    &mut self.conditional_on_finalize_token_mint,
                    &mut self.user_conditional_on_finalize_token_account,
                    amount,
                );
                self.vault.total_positive_tokens_minted = self.vault.total_positive_tokens_minted
                    + amount;
            },
            Side::Negative => {
                token_ledger::mint_to(
                    &mut self.conditional_on_revert_token_mint,
                    &mut self.user_conditional_on_revert_token_account,
                    amount,
                );
                self.vault.total_negative_tokens_minted = self.vault.total_negative_tokens_minted
                    + amount;
            },
        }

        let post_user_conditional_balance = match side {
            Side::Positive => self.user_conditional_on_finalize_token_account.amount,
            Side::Negative => self.user_conditional_on_revert_token_account.amount,
        };
        let post_vault_underlying_balance = self.vault_underlying_token_account.amount;
        let post_mint_supply = match side {
            Side::Positive => self.conditional_on_finalize_token_mint.supply,
            Side::Negative => self.conditional_on_revert_token_mint.supply,
        };

        assert(post_vault_underlying_balance == pre_vault_underlying_balance + amount);
        assert(post_user_conditional_balance == pre_user_conditional_balance + amount);
        assert(post_mint_supply == pre_mint_supply + amount);

        Ok(())
    }
}

} // verus!
