use vstd::prelude::*;

use crate::error::VaultError;
use crate::interact_with_vault::InteractWithVault;
use crate::state::VaultStatus;
use crate::token_ledger;
use crate::token_ledger::TokenAccount;
use crate::token_ledger::TokenMint;

verus! {

/// The underlying amount a post-resolution redemption pays out: the
/// depositor's balance of the winning side's derivative asset, and nothing
/// while the outcome is unset.
pub open spec fn redeemable_after_resolution(s: InteractWithVault) -> u64 {
    match s.vault.outcome {
        Some(true) => s.user_conditional_on_finalize_token_account.amount,
        Some(false) => s.user_conditional_on_revert_token_account.amount,
        None => 0,
    }
}

/// What a post-resolution redemption does to one call's accounts: with the
/// outcome unset it fails and changes nothing; otherwise the depositor's
/// entire balances of both derivative assets are burned -- the losing side
/// with zero payout -- and the winning-side balance moves from the vault's
/// holding to the depositor in underlying.
pub open spec fn redeem_step(s: InteractWithVault) -> (Result<(), VaultError>, InteractWithVault) {
    if s.vault.outcome is None {
        (Err(VaultError::MarketNotResolved), s)
    } else {
        (
            Ok(()),
            InteractWithVault {
                conditional_on_finalize_token_mint: TokenMint {
                    supply: (s.conditional_on_finalize_token_mint.supply
                        - s.user_conditional_on_finalize_token_account.amount) as u64,
                    ..s.conditional_on_finalize_token_mint
                },
                conditional_on_revert_token_mint: TokenMint {
                    supply: (s.conditional_on_revert_token_mint.supply
                        - s.user_conditional_on_revert_token_account.amount) as u64,
                    ..s.conditional_on_revert_token_mint
                },
                user_conditional_on_finalize_token_account: TokenAccount {
                    amount: 0,
                    ..s.user_conditional_on_finalize_token_account
                },
                user_conditional_on_revert_token_account: TokenAccount {
                    amount: 0,
                    ..s.user_conditional_on_revert_token_account
                },
                vault_underlying_token_account: TokenAccount {
                    amount: (s.vault_underlying_token_account.amount - redeemable_after_resolution(
                        s,
                    )) as u64,
                    ..s.vault_underlying_token_account
                },
                user_underlying_token_account: TokenAccount {
                    amount: (s.user_underlying_token_account.amount + redeemable_after_resolution(
                        s,
                    )) as u64,
                    ..s.user_underlying_token_account
                },
                ..s
            },
        )
    }
}

/// What a post-cancellation redemption does to one call's accounts: the
/// depositor's entire balances of both derivative assets are burned, and
/// their sum moves from the vault's holding to the depositor in underlying
/// -- the full symmetric refund. It never fails; the status gate lives in
/// `validate_redeem_on_cancel`.
pub open spec fn redeem_on_cancel_step(s: InteractWithVault) -> InteractWithVault {
    InteractWithVault {
        conditional_on_finalize_token_mint: TokenMint {
            supply: (s.conditional_on_finalize_token_mint.supply
                - s.user_conditional_on_finalize_token_account.amount) as u64,
            ..s.conditional_on_finalize_token_mint
        },
        conditional_on_revert_token_mint: TokenMint {
            supply: (s.conditional_on_revert_token_mint.supply
                - s.user_conditional_on_revert_token_account.amount) as u64,
            ..s.conditional_on_revert_token_mint
        },
        user_conditional_on_finalize_token_account: TokenAccount {
            amount: 0,
            ..s.user_conditional_on_finalize_token_account
        },
        user_conditional_on_revert_token_account: TokenAccount {
            amount: 0,
            ..s.user_conditional_on_revert_token_account
        },
        vault_underlying_token_account: TokenAccount {
            amount: (s.vault_underlying_token_account.amount
                - s.user_conditional_on_finalize_token_account.amount
                - s.user_conditional_on_revert_token_account.amount) as u64,
            ..s.vault_underlying_token_account
        },
        user_underlying_token_account: TokenAccount {
            amount: (s.user_underlying_token_account.amount
                + s.user_conditional_on_finalize_token_account.amount
                + s.user_conditional_on_revert_token_account.amount) as u64,
            ..s.user_underlying_token_account
        },
        ..s
    }
}

impl InteractWithVault {
    /// A post-resolution redemption needs the vault to have left the active
    /// state and not be cancelled. Both refusals report
    /// `CantRedeemConditionalTokens`.
    pub fn validate_redeem_conditional_tokens(&self) -> (r: Result<(), VaultError>)
        ensures
            r is Ok <==> self.vault.status != VaultStatus::Active && self.vault.status
                != VaultStatus::Cancelled,
            r is Err ==> r == Err::<(), VaultError>(VaultError::CantRedeemConditionalTokens),
    {
        if self.vault.status == VaultStatus::Active {
            return Err(VaultError::CantRedeemConditionalTokens);
        }
        if self.vault.status == VaultStatus::Cancelled {
            return Err(VaultError::CantRedeemConditionalTokens);
        }
        Ok(())
    }

    /// A post-cancellation redemption needs the vault to be cancelled;
    /// otherwise it reports `MarketNotCancelled`.
    pub fn validate_redeem_on_cancel(&self) -> (r: Result<(), VaultError>)
        ensures
            r is Ok <==> self.vault.status == VaultStatus::Cancelled,
            r is Err ==> r == Err::<(), VaultError>(VaultError::MarketNotCancelled),
    {
        if self.vault.status != VaultStatus::Cancelled {
            return Err(VaultError::MarketNotCancelled);
        }
        Ok(())
    }

    /// Redeems after resolution: burns the depositor's entire balances of
    /// both derivative assets and pays the winning side's balance 1:1 in
    /// underlying. Fails, and changes nothing, exactly when the outcome is
    /// unset. Afterwards both derivative balances are exactly zero. The
    /// bound in `requires` only keeps the depositor's underlying balance
    /// inside the machine word, where the ledger transaction would abort the
    /// call as a whole.
    pub fn handle_redeem_conditional_tokens(&mut self) -> (r: Result<(), VaultError>)
        requires
            old(self).wf(),
            old(self).user_underlying_token_account.amount + redeemable_after_resolution(
                *old(self),
            ) <= u64::MAX,
        ensures
            final(self).wf(),
            (r, *final(self)) == redeem_step(*old(self)),
            r is Ok <==> old(self).vault.outcome is Some,
            r is Err ==> r == Err::<(), VaultError>(VaultError::MarketNotResolved) && *final(self)
                == *old(self),
            r is Ok ==> final(self).user_conditional_on_finalize_token_account.amount == 0,
            r is Ok ==> final(self).user_conditional_on_revert_token_account.amount == 0,
            r is Ok ==> final(self).user_underlying_token_account.amount == old(
                self,
            ).user_underlying_token_account.amount + redeemable_after_resolution(*old(self)),
            r is Ok ==> final(self).vault_underlying_token_account.amount == old(
                self,
            ).vault_underlying_token_account.amount - redeemable_after_resolution(*old(self)),
            final(self).vault == old(self).vault,
    {
        let pre_vault_underlying_balance = self.vault_underlying_token_account.amount;
        let pre_finalize_mint_supply = self.conditional_on_finalize_token_mint.supply;
        let pre_revert_mint_supply = self.conditional_on_revert_token_mint.supply;
        let pre_conditional_on_finalize_balance =
            self.user_conditional_on_finalize_token_account.amount;
        let pre_conditional_on_revert_balance =
            self.user_conditional_on_revert_token_account.amount;

        let redeemable = match self.vault.outcome {
            Some(true) => pre_conditional_on_finalize_balance,
            Some(false) => pre_conditional_on_revert_balance,
            None => {
                return Err(VaultError::MarketNotResolved);
            },
        };

        // Burn from both accounts even though only the winning side pays out:
        // the losing side's balance is destroyed with zero payout.
        token_ledger::burn(
            &mut self.conditional_on_finalize_token_mint,
            &mut self.user_conditional_on_finalize_token_account,
            pre_conditional_on_finalize_balance,
        );
        token_ledger::burn(
            &mut self.conditional_on_revert_token_mint,
            &mut self.user_conditional_on_revert_token_account,
            pre_conditional_on_revert_balance,
        );
        token_ledger::transfer(
            &mut self.vault_underlying_token_account,
            &mut self.user_underlying_token_account,
            redeemable,
        );

        assert(self.user_conditional_on_finalize_token_account.amount == 0);
        assert(self.user_conditional_on_revert_token_account.amount == 0);
        assert(self.conditional_on_finalize_token_mint.supply == pre_finalize_mint_supply
            - pre_conditional_on_finalize_balance);
        assert(self.conditional_on_revert_token_mint.supply == pre_revert_mint_supply
            - pre_conditional_on_revert_balance);
        assert(self.vault_underlying_token_account.amount == pre_vault_underlying_balance
            - redeemable);

        Ok(())
    }

    /// Redeems after cancellation: burns the depositor's entire balances of
    /// both derivative assets and refunds their sum 1:1 in underlying, so a
    /// cancelled vault repays every deposit in full. Afterwards both
    /// derivative balances are exactly zero. The bound in `requires` only
    /// keeps the depositor's underlying balance inside the machine word,
    /// where the ledger transaction would abort the call as a whole.
    pub fn handle_redeem_on_cancel(&mut self) -> (r: Result<(), VaultError>)
        requires
            old(self).wf(),
            old(self).user_underlying_token_account.amount + old(
                self,
            ).user_conditional_on_finalize_token_account.amount + old(
                self,
            ).user_conditional_on_revert_token_account.amount <= u64::MAX,
        ensures
            final(self).wf(),
            r == Ok::<(), VaultError>(()),
            *final(self) == redeem_on_cancel_step(*old(self)),
            final(self).user_conditional_on_finalize_token_account.amount == 0,
            final(self).user_conditional_on_revert_token_account.amount == 0,
            final(self).user_underlying_token_account.amount == old(
                self,
            ).user_underlying_token_account.amount + old(
                self,
            ).user_conditional_on_finalize_token_account.amount + old(
                self,
            ).user_conditional_on_revert_token_account.amount,
            final(self).vault == old(self).vault,
    {
        let pre_conditional_on_finalize_balance =
            self.user_conditional_on_finalize_token_account.amount;
        let pre_conditional_on_revert_balance =
            self.user_conditional_on_revert_token_account.amount;

        // The holding covers the outstanding supply of both sides, so the
        // summed refund neither overflows nor exceeds the holding.
        let total_redeemable = pre_conditional_on_finalize_balance
            + pre_conditional_on_revert_balance;

        token_ledger::burn(
            &mut self.conditional_on_finalize_token_mint,
            &mut self.user_conditional_on_finalize_token_account,
            pre_conditional_on_finalize_balance,
        );
        token_ledger::burn(
            &mut self.conditional_on_revert_token_mint,
            &mut self.user_conditional_on_revert_token_account,
            pre_conditional_on_revert_balance,
        );
        token_ledger::transfer(
            &mut self.vault_underlying_token_account,
            &mut self.user_underlying_token_account,
            total_redeemable,
        );

        assert(self.user_conditional_on_finalize_token_account.amount == 0);
        assert(self.user_conditional_on_revert_token_account.amount == 0);

        Ok(())
    }
}

} // verus!
