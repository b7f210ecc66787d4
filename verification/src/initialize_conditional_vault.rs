use vstd::prelude::*;

use crate::state::AccountId;
use crate::state::ConditionalVault;
use crate::state::VaultStatus;
use crate::token_ledger::TokenAccount;
use crate::token_ledger::TokenMint;

verus! {

/// The caller-supplied description of a new vault: what event it is about,
/// the document backing it, and who may settle it.
pub struct InitializeConditionalVaultArgs {
    pub claim: String,
    pub arweave_id: String,
    pub settlement_authority: AccountId,
}

/// The accounts a new vault is built from: the underlying asset, the two
/// freshly created derivative asset classes, and the vault's fresh holding
/// account. The identity-derivation service guarantees the freshness (it
/// refuses a duplicate vault for the same authority, asset and document);
/// well-formedness records what that guarantee leaves behind.
pub struct InitializeConditionalVault {
    pub underlying_token_mint: TokenMint,
    pub conditional_on_finalize_token_mint: TokenMint,
    pub conditional_on_revert_token_mint: TokenMint,
    pub vault_underlying_token_account: TokenAccount,
}

/// The record a new vault starts from: active, no outcome, both cumulative
/// counters at zero, no settlement timestamps, and the precision copied from
/// the underlying asset.
pub open spec fn initialized_vault(
    accounts: InitializeConditionalVault,
    args: InitializeConditionalVaultArgs,
    created_at: i64,
    pda_bump: u8,
) -> ConditionalVault {
    ConditionalVault {
        status: VaultStatus::Active,
        claim: args.claim,
        arweave_id: args.arweave_id,
        outcome: None,
        settlement_authority: args.settlement_authority,
        underlying_token_mint: accounts.underlying_token_mint.key,
        underlying_token_account: accounts.vault_underlying_token_account.key,
        conditional_on_finalize_token_mint: accounts.conditional_on_finalize_token_mint.key,
        conditional_on_revert_token_mint: accounts.conditional_on_revert_token_mint.key,
        total_positive_tokens_minted: 0,
        total_negative_tokens_minted: 0,
        created_at,
        disputed_at: None,
        resolved_at: None,
        cancelled_at: None,
        decimals: accounts.underlying_token_mint.decimals,
        pda_bump,
    }
}

impl InitializeConditionalVault {
    /// The derivative asset classes are brand new (supply zero, precision
    /// copied from the underlying asset, distinct identities) and the holding
    /// account is the vault's own fresh account for the underlying asset.
    pub open spec fn wf(self) -> bool {
        &&& self.conditional_on_finalize_token_mint.supply == 0
        &&& self.conditional_on_revert_token_mint.supply == 0
        &&& self.conditional_on_finalize_token_mint.decimals == self.underlying_token_mint.decimals
        &&& self.conditional_on_revert_token_mint.decimals == self.underlying_token_mint.decimals
        &&& self.conditional_on_finalize_token_mint.key != self.conditional_on_revert_token_mint.key
        &&& self.vault_underlying_token_account.mint == self.underlying_token_mint.key
        &&& self.vault_underlying_token_account.amount == 0
    }

    /// Builds the record of a new vault, bound to these accounts, created at
    /// `created_at` with the signing-derivation seed `pda_bump`.
    pub fn handle(
        &self,
        args: InitializeConditionalVaultArgs,
        created_at: i64,
        pda_bump: u8,
    ) -> (vault: ConditionalVault)
        requires
            self.wf(),
        ensures
            vault == initialized_vault(*self, args, created_at, pda_bump),
            vault.wf(),
    {
        ConditionalVault {
            status: VaultStatus::Active,
            claim: args.claim,
            arweave_id: args.arweave_id,
            outcome: None,
            settlement_authority: args.settlement_authority,
            underlying_token_mint: self.underlying_token_mint.key,
            underlying_token_account: self.vault_underlying_token_account.key,
            conditional_on_finalize_token_mint: self.conditional_on_finalize_token_mint.key,
            conditional_on_revert_token_mint: self.conditional_on_revert_token_mint.key,
            total_positive_tokens_minted: 0,
            total_negative_tokens_minted: 0,
            created_at,
            disputed_at: None,
            resolved_at: None,
            cancelled_at: None,
            decimals: self.underlying_token_mint.decimals,
            pda_bump,
        }
    }
}

} // verus!
