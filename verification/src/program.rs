use vstd::prelude::*;

use crate::error::VaultError;
use crate::initialize_conditional_vault::initialized_vault;
use crate::initialize_conditional_vault::InitializeConditionalVault;
use crate::initialize_conditional_vault::InitializeConditionalVaultArgs;
use crate::interact_with_vault::InteractWithVault;
use crate::merge_conditional_tokens::merge_step;
use crate::mint_conditional_tokens::mint_step;
use crate::redeem_conditional_tokens_for_underlying_tokens::redeem_on_cancel_step;
use crate::redeem_conditional_tokens_for_underlying_tokens::redeem_step;
use crate::redeem_conditional_tokens_for_underlying_tokens::redeemable_after_resolution;
use crate::settle_conditional_vault::cancel_step;
use crate::settle_conditional_vault::dispute_step;
use crate::settle_conditional_vault::resolve_step;
use crate::settle_conditional_vault::SettleConditionalVault;
use crate::state::ConditionalVault;
use crate::state::Side;
use crate::state::VaultStatus;

verus! {

/// Creates a new vault over the given accounts: the record starts active,
/// with no outcome and both cumulative counters at zero.
pub fn initialize_conditional_vault(
    accounts: &InitializeConditionalVault,
    args: InitializeConditionalVaultArgs,
    created_at: i64,
    pda_bump: u8,
) -> (vault: ConditionalVault)
    requires
        accounts.wf(),
    ensures
        vault == initialized_vault(*accounts, args, created_at, pda_bump),
        vault.wf(),
{
    accounts.handle(args, created_at, pda_bump)
}

/// Settles the vault with the given outcome; only reachable for the vault's
/// settlement authority (the well-formedness of `ctx` carries that check).
pub fn resolve_conditional_vault(
    ctx: &mut SettleConditionalVault,
    outcome: bool,
    now: i64,
) -> (r: Result<(), VaultError>)
    requires
        old(ctx).wf(),
    ensures
        final(ctx).wf(),
        final(ctx).settlement_authority == old(ctx).settlement_authority,
        (match resolve_step(old(ctx).vault, outcome, now) {
            Ok(v) => r == Ok::<(), VaultError>(()) && final(ctx).vault == v,
            Err(e) => r == Err::<(), VaultError>(e) && final(ctx).vault == old(ctx).vault,
        }),
{
    ctx.resolve(outcome, now)
}

/// Marks the vault disputed; only reachable for the settlement authority.
pub fn dispute_conditional_vault(ctx: &mut SettleConditionalVault, now: i64) -> (r: Result<
    (),
    VaultError,
>)
    requires
        old(ctx).wf(),
    ensures
        final(ctx).wf(),
        final(ctx).settlement_authority == old(ctx).settlement_authority,
        (match dispute_step(old(ctx).vault, now) {
            Ok(v) => r == Ok::<(), VaultError>(()) && final(ctx).vault == v,
            Err(e) => r == Err::<(), VaultError>(e) && final(ctx).vault == old(ctx).vault,
        }),
{
    ctx.dispute(now)
}

/// Cancels the vault; only reachable for the settlement authority.
pub fn cancel_conditional_vault(ctx: &mut SettleConditionalVault, now: i64) -> (r: Result<
    (),
    VaultError,
>)
    requires
        old(ctx).wf(),
    ensures
        final(ctx).wf(),
        final(ctx).settlement_authority == old(ctx).settlement_authority,
        (match cancel_step(old(ctx).vault, now) {
            Ok(v) => r == Ok::<(), VaultError>(()) && final(ctx).vault == v,
            Err(e) => r == Err::<(), VaultError>(e) && final(ctx).vault == old(ctx).vault,
        }),
{
    ctx.cancel(now)
}

/// Deposits `amount` of underlying and mints `amount` of the chosen side's
/// derivative asset to the depositor. Available in every vault state.
pub fn mint_conditional_tokens(
    accounts: &mut InteractWithVault,
    amount: u64,
    side: Side,
) -> (r: Result<(), VaultError>)
    requires
        old(accounts).wf(),
        old(accounts).vault_underlying_token_account.amount + amount <= u64::MAX,
        old(accounts).vault.total_minted(side) + amount <= u64::MAX,
    ensures
        final(accounts).wf(),
        (r, *final(accounts)) == mint_step(*old(accounts), amount, side),
        r is Ok <==> old(accounts).user_underlying_token_account.amount >= amount,
{
    accounts.handle_mint_conditional_tokens(amount, side)
}

/// Returns matched pairs of both derivative assets for the same amount of
/// underlying. Refused with `VaultAlreadySettled` once the vault is resolved
/// or cancelled, before any balance is touched.
pub fn merge_conditional_tokens_for_underlying_tokens(
    accounts: &mut InteractWithVault,
    amount: u64,
) -> (r: Result<(), VaultError>)
    requires
        old(accounts).wf(),
        old(accounts).user_underlying_token_account.amount + amount <= u64::MAX,
    ensures
        final(accounts).wf(),
        old(accounts).vault.status.is_terminal() ==> r == Err::<(), VaultError>(
            VaultError::VaultAlreadySettled,
        ) && *final(accounts) == *old(accounts),
        !old(accounts).vault.status.is_terminal() ==> (r, *final(accounts)) == merge_step(
            *old(accounts),
            amount,
        ),
        r is Ok <==> !old(accounts).vault.status.is_terminal() && old(
            accounts,
        ).user_conditional_on_finalize_token_account.amount >= amount && old(
            accounts,
        ).user_conditional_on_revert_token_account.amount >= amount,
{
    let validated = accounts.validate_merge_conditional_tokens();
    match validated {
        Ok(_) => accounts.handle_merge_conditional_tokens(amount),
        Err(e) => Err(e),
    }
}

/// Redeems after resolution: burns the depositor's entire balances of both
/// derivative assets and pays the winning side 1:1 in underlying. Refused
/// with `CantRedeemConditionalTokens` while the vault is active or once it
/// is cancelled, and with `MarketNotResolved` while no outcome is set; it
/// succeeds exactly on a resolved vault.
pub fn redeem_conditional_tokens_for_underlying_tokens(accounts: &mut InteractWithVault) -> (r:
    Result<(), VaultError>)
    requires
        old(accounts).wf(),
        old(accounts).user_underlying_token_account.amount + redeemable_after_resolution(
            *old(accounts),
        ) <= u64::MAX,
    ensures
        final(accounts).wf(),
        r is Ok <==> old(accounts).vault.status == VaultStatus::Resolved,
        (old(accounts).vault.status == VaultStatus::Active || old(accounts).vault.status
            == VaultStatus::Cancelled) ==> r == Err::<(), VaultError>(
            VaultError::CantRedeemConditionalTokens,
        ) && *final(accounts) == *old(accounts),
        (old(accounts).vault.status != VaultStatus::Active && old(accounts).vault.status
            != VaultStatus::Cancelled && old(accounts).vault.outcome is None) ==> r == Err::<
            (),
            VaultError,
        >(VaultError::MarketNotResolved) && *final(accounts) == *old(accounts),
        r is Ok ==> (r, *final(accounts)) == redeem_step(*old(accounts)),
        r is Ok ==> final(accounts).user_conditional_on_finalize_token_account.amount == 0
            && final(accounts).user_conditional_on_revert_token_account.amount == 0,
        r is Err ==> *final(accounts) == *old(accounts),
{
    let validated = accounts.validate_redeem_conditional_tokens();
    match validated {
        Ok(_) => accounts.handle_redeem_conditional_tokens(),
        Err(e) => Err(e),
    }
}

/// Redeems after cancellation: burns the depositor's entire balances of both
/// derivative assets and refunds their sum 1:1 in underlying. Refused with
/// `MarketNotCancelled` unless the vault is cancelled.
pub fn redeem_on_cancel(accounts: &mut InteractWithVault) -> (r: Result<(), VaultError>)
    requires
        old(accounts).wf(),
        old(accounts).vault.status == VaultStatus::Cancelled ==> old(
            accounts,
        ).user_underlying_token_account.amount + old(
            accounts,
        ).user_conditional_on_finalize_token_account.amount + old(
            accounts,
        ).user_conditional_on_revert_token_account.amount <= u64::MAX,
    ensures
        final(accounts).wf(),
        r is Ok <==> old(accounts).vault.status == VaultStatus::Cancelled,
        r is Err ==> r == Err::<(), VaultError>(VaultError::MarketNotCancelled) && *final(accounts)
            == *old(accounts),
        r is Ok ==> *final(accounts) == redeem_on_cancel_step(*old(accounts)),
        r is Ok ==> final(accounts).user_conditional_on_finalize_token_account.amount == 0
            && final(accounts).user_conditional_on_revert_token_account.amount == 0,
        r is Ok ==> final(accounts).user_underlying_token_account.amount == old(
            accounts,
        ).user_underlying_token_account.amount + old(
            accounts,
        ).user_conditional_on_finalize_token_account.amount + old(
            accounts,
        ).user_conditional_on_revert_token_account.amount,
{
    let validated = accounts.validate_redeem_on_cancel();
    match validated {
        Ok(_) => accounts.handle_redeem_on_cancel(),
        Err(e) => Err(e),
    }
}

} // verus!
