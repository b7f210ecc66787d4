use vstd::prelude::*;

use crate::error::VaultError;
use crate::state::AccountId;
use crate::state::ConditionalVault;
use crate::state::Side;
use crate::token_ledger::TokenAccount;
use crate::token_ledger::TokenMint;

verus! {

/// The accounts of one position or redemption call: the vault record, the
/// depositor (`authority`), the depositor's three balances, the vault's
/// holding balance, and the two derivative asset classes.
pub struct InteractWithVault {
    pub vault: ConditionalVault,
    /// The depositor the call acts for.
    pub authority: AccountId,
    pub vault_underlying_token_account: TokenAccount,
    pub user_underlying_token_account: TokenAccount,
    pub conditional_on_finalize_token_mint: TokenMint,
    pub conditional_on_revert_token_mint: TokenMint,
    pub user_conditional_on_finalize_token_account: TokenAccount,
    pub user_conditional_on_revert_token_account: TokenAccount,
}

impl InteractWithVault {
    /// The accounts belong together: each account is the one the vault
    /// record names, each balance is denominated in the right asset, and the
    /// depositor owns the user-side balances.
    pub open spec fn accounts_bound(self) -> bool {
        &&& self.vault_underlying_token_account.key == self.vault.underlying_token_account
        &&& self.vault_underlying_token_account.mint == self.vault.underlying_token_mint
        &&& self.user_underlying_token_account.mint == self.vault.underlying_token_mint
        &&& self.user_underlying_token_account.owner == self.authority
        &&& self.user_underlying_token_account.key != self.vault_underlying_token_account.key
        &&& self.conditional_on_finalize_token_mint.key
            == self.vault.conditional_on_finalize_token_mint
        &&& self.conditional_on_revert_token_mint.key == self.vault.conditional_on_revert_token_mint
        &&& self.conditional_on_finalize_token_mint.decimals == self.vault.decimals
        &&& self.conditional_on_revert_token_mint.decimals == self.vault.decimals
        &&& self.user_conditional_on_finalize_token_account.mint
            == self.vault.conditional_on_finalize_token_mint
        &&& self.user_conditional_on_revert_token_account.mint
            == self.vault.conditional_on_revert_token_mint
        &&& self.user_conditional_on_finalize_token_account.owner == self.authority
        &&& self.user_conditional_on_revert_token_account.owner == self.authority
    }

    /// The ledger facts every operation preserves: a depositor's balance
    /// never exceeds its asset's supply, each side's outstanding supply is
    /// bounded by what minting ever produced on that side, and the vault's
    /// holding covers the whole outstanding derivative supply of both sides.
    /// The last bound is what makes every redemption payable.
    pub open spec fn balances_covered(self) -> bool {
        &&& self.user_conditional_on_finalize_token_account.amount
            <= self.conditional_on_finalize_token_mint.supply
        &&& self.user_conditional_on_revert_token_account.amount
            <= self.conditional_on_revert_token_mint.supply
        &&& self.conditional_on_finalize_token_mint.supply
            <= self.vault.total_positive_tokens_minted
        &&& self.conditional_on_revert_token_mint.supply
            <= self.vault.total_negative_tokens_minted
        &&& self.conditional_on_finalize_token_mint.supply
            + self.conditional_on_revert_token_mint.supply
            <= self.vault_underlying_token_account.amount
    }

    /// Well-formedness of one call's accounts: a consistent vault record,
    /// accounts that belong together, and covered balances.
    pub open spec fn wf(self) -> bool {
        &&& self.vault.wf()
        &&& self.accounts_bound()
        &&& self.balances_covered()
    }

    /// The account checks made before any position or redemption call runs:
    /// the holding account and the two derivative asset classes handed in
    /// must be the very ones the vault record names. A mismatched holding
    /// account reports `InvalidVaultUnderlyingTokenAccount`; a mismatched
    /// derivative asset class reports `InvalidConditionalTokenMint`.
    pub fn validate_accounts(&self) -> (r: Result<(), VaultError>)
        ensures
            r is Ok <==> {
                &&& self.vault_underlying_token_account.key == self.vault.underlying_token_account
                &&& self.conditional_on_finalize_token_mint.key
                    == self.vault.conditional_on_finalize_token_mint
                &&& self.conditional_on_revert_token_mint.key
                    == self.vault.conditional_on_revert_token_mint
            },
            self.vault_underlying_token_account.key != self.vault.underlying_token_account ==> r
                == Err::<(), VaultError>(VaultError::InvalidVaultUnderlyingTokenAccount),
            (self.vault_underlying_token_account.key == self.vault.underlying_token_account && (
            self.conditional_on_finalize_token_mint.key
                != self.vault.conditional_on_finalize_token_mint
                || self.conditional_on_revert_token_mint.key
                != self.vault.conditional_on_revert_token_mint)) ==> r == Err::<(), VaultError>(
                VaultError::InvalidConditionalTokenMint,
            ),
    {
        if self.vault_underlying_token_account.key != self.vault.underlying_token_account {
            return Err(VaultError::InvalidVaultUnderlyingTokenAccount);
        }
        if self.conditional_on_finalize_token_mint.key
            != self.vault.conditional_on_finalize_token_mint {
            return Err(VaultError::InvalidConditionalTokenMint);
        }
        if self.conditional_on_revert_token_mint.key
            != self.vault.conditional_on_revert_token_mint {
            return Err(VaultError::InvalidConditionalTokenMint);
        }
        Ok(())
    }

    /// The derivative asset class of the given side.
    pub open spec fn conditional_mint(self, side: Side) -> TokenMint {
        match side {
            Side::Positive => self.conditional_on_finalize_token_mint,
            Side::Negative => self.conditional_on_revert_token_mint,
        }
    }

    /// The depositor's balance of the given side's derivative asset.
    pub open spec fn user_conditional_balance(self, side: Side) -> u64 {
        match side {
            Side::Positive => self.user_conditional_on_finalize_token_account.amount,
            Side::Negative => self.user_conditional_on_revert_token_account.amount,
        }
    }
}

} // verus!
