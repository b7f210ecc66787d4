use conditional_vault::error::VaultError;
use conditional_vault::initialize_conditional_vault::InitializeConditionalVault;
use conditional_vault::initialize_conditional_vault::InitializeConditionalVaultArgs;
use conditional_vault::interact_with_vault::InteractWithVault;
use conditional_vault::program;
use conditional_vault::settle_conditional_vault::SettleConditionalVault;
use conditional_vault::state::AccountId;
use conditional_vault::state::ConditionalVault;
use conditional_vault::state::Side;
use conditional_vault::state::VaultStatus;
use conditional_vault::token_ledger::TokenAccount;
use conditional_vault::token_ledger::TokenMint;

const UNDERLYING_MINT: AccountId = AccountId(1);
const FINALIZE_MINT: AccountId = AccountId(2);
const REVERT_MINT: AccountId = AccountId(3);
const HOLDING: AccountId = AccountId(4);
const AUTHORITY: AccountId = AccountId(9);
const DEPOSITOR: AccountId = AccountId(20);

fn init_accounts() -> InitializeConditionalVault {
    InitializeConditionalVault {
        underlying_token_mint: TokenMint { key: UNDERLYING_MINT, supply: 10_000_000, decimals: 6 },
        conditional_on_finalize_token_mint: TokenMint { key: FINALIZE_MINT, supply: 0, decimals: 6 },
        conditional_on_revert_token_mint: TokenMint { key: REVERT_MINT, supply: 0, decimals: 6 },
        vault_underlying_token_account: TokenAccount {
            key: HOLDING,
            mint: UNDERLYING_MINT,
            owner: AccountId(10),
            amount: 0,
        },
    }
}

fn init_args() -> InitializeConditionalVaultArgs {
    InitializeConditionalVaultArgs {
        claim: String::from("the proposal passes"),
        arweave_id: String::from("doc-ref"),
        settlement_authority: AUTHORITY,
    }
}

fn new_vault() -> ConditionalVault {
    program::initialize_conditional_vault(&init_accounts(), init_args(), 77, 255)
}

/// A depositor's view of a fresh vault, with `funds` of underlying to spend.
fn interact(vault: ConditionalVault, funds: u64) -> InteractWithVault {
    let init = init_accounts();
    InteractWithVault {
        vault,
        authority: DEPOSITOR,
        vault_underlying_token_account: init.vault_underlying_token_account,
        user_underlying_token_account: TokenAccount {
            key: AccountId(5),
            mint: UNDERLYING_MINT,
            owner: DEPOSITOR,
            amount: funds,
        },
        conditional_on_finalize_token_mint: init.conditional_on_finalize_token_mint,
        conditional_on_revert_token_mint: init.conditional_on_revert_token_mint,
        user_conditional_on_finalize_token_account: TokenAccount {
            key: AccountId(6),
            mint: FINALIZE_MINT,
            owner: DEPOSITOR,
            amount: 0,
        },
        user_conditional_on_revert_token_account: TokenAccount {
            key: AccountId(7),
            mint: REVERT_MINT,
            owner: DEPOSITOR,
            amount: 0,
        },
    }
}

/// Runs one settlement call on the vault held in `accounts`.
fn settle<F>(accounts: &mut InteractWithVault, f: F) -> Result<(), VaultError>
where
    F: FnOnce(&mut SettleConditionalVault) -> Result<(), VaultError>,
{
    let mut ctx = SettleConditionalVault {
        settlement_authority: AUTHORITY,
        vault: std::mem::replace(&mut accounts.vault, new_vault()),
    };
    let r = f(&mut ctx);
    accounts.vault = ctx.vault;
    r
}

#[test]
fn initialize_sets_fresh_record() {
    let vault = new_vault();
    assert_eq!(vault.status, VaultStatus::Active);
    assert_eq!(vault.claim, "the proposal passes");
    assert_eq!(vault.arweave_id, "doc-ref");
    assert_eq!(vault.outcome, None);
    assert_eq!(vault.settlement_authority, AUTHORITY);
    assert_eq!(vault.underlying_token_mint, UNDERLYING_MINT);
    assert_eq!(vault.underlying_token_account, HOLDING);
    assert_eq!(vault.conditional_on_finalize_token_mint, FINALIZE_MINT);
    assert_eq!(vault.conditional_on_revert_token_mint, REVERT_MINT);
    assert_eq!(vault.total_positive_tokens_minted, 0);
    assert_eq!(vault.total_negative_tokens_minted, 0);
    assert_eq!(vault.created_at, 77);
    assert_eq!(vault.disputed_at, None);
    assert_eq!(vault.resolved_at, None);
    assert_eq!(vault.cancelled_at, None);
    assert_eq!(vault.decimals, 6);
    assert_eq!(vault.pda_bump, 255);
}

#[test]
fn mint_moves_underlying_and_mints_side() {
    let mut accounts = interact(new_vault(), 1_000_000);
    let r = program::mint_conditional_tokens(&mut accounts, 1_000_000, Side::Positive);
    assert_eq!(r, Ok(()));
    assert_eq!(accounts.vault_underlying_token_account.amount, 1_000_000);
    assert_eq!(accounts.user_underlying_token_account.amount, 0);
    assert_eq!(accounts.conditional_on_finalize_token_mint.supply, 1_000_000);
    assert_eq!(accounts.user_conditional_on_finalize_token_account.amount, 1_000_000);
    assert_eq!(accounts.vault.total_positive_tokens_minted, 1_000_000);
    assert_eq!(accounts.conditional_on_revert_token_mint.supply, 0);
    assert_eq!(accounts.user_conditional_on_revert_token_account.amount, 0);
    assert_eq!(accounts.vault.total_negative_tokens_minted, 0);
}

#[test]
fn mint_with_insufficient_underlying_fails() {
    let mut accounts = interact(new_vault(), 99);
    let r = program::mint_conditional_tokens(&mut accounts, 100, Side::Negative);
    assert_eq!(r, Err(VaultError::InsufficientUnderlyingTokens));
    assert_eq!(accounts.user_underlying_token_account.amount, 99);
    assert_eq!(accounts.vault_underlying_token_account.amount, 0);
    assert_eq!(accounts.conditional_on_revert_token_mint.supply, 0);
}

#[test]
fn mint_is_not_gated_on_status() {
    let mut accounts = interact(new_vault(), 1_000);
    let r = settle(&mut accounts, |ctx| program::resolve_conditional_vault(ctx, false, 88));
    assert_eq!(r, Ok(()));
    let r = program::mint_conditional_tokens(&mut accounts, 400, Side::Positive);
    assert_eq!(r, Ok(()));
    assert_eq!(accounts.vault_underlying_token_account.amount, 400);
    assert_eq!(accounts.user_conditional_on_finalize_token_account.amount, 400);
}

#[test]
fn resolve_sets_outcome_once() {
    let mut ctx = SettleConditionalVault { settlement_authority: AUTHORITY, vault: new_vault() };
    let r = ctx.resolve(true, 88);
    assert_eq!(r, Ok(()));
    assert_eq!(ctx.vault.status, VaultStatus::Resolved);
    assert_eq!(ctx.vault.outcome, Some(true));
    assert_eq!(ctx.vault.resolved_at, Some(88));

    // Once settled, every further settlement call fails and changes nothing.
    assert_eq!(ctx.resolve(false, 99), Err(VaultError::MarketAlreadyResolved));
    assert_eq!(ctx.dispute(99), Err(VaultError::MarketAlreadyResolved));
    assert_eq!(ctx.cancel(99), Err(VaultError::MarketAlreadyResolved));
    assert_eq!(ctx.vault.outcome, Some(true));
    assert_eq!(ctx.vault.resolved_at, Some(88));
    assert_eq!(ctx.vault.status, VaultStatus::Resolved);
}

#[test]
fn cancel_is_terminal() {
    let mut ctx = SettleConditionalVault { settlement_authority: AUTHORITY, vault: new_vault() };
    assert_eq!(ctx.cancel(88), Ok(()));
    assert_eq!(ctx.vault.status, VaultStatus::Cancelled);
    assert_eq!(ctx.vault.cancelled_at, Some(88));
    assert_eq!(ctx.vault.outcome, None);

    assert_eq!(ctx.resolve(true, 99), Err(VaultError::MarketAlreadyCancelled));
    assert_eq!(ctx.dispute(99), Err(VaultError::MarketAlreadyCancelled));
    assert_eq!(ctx.cancel(99), Err(VaultError::MarketAlreadyCancelled));
    assert_eq!(ctx.vault.status, VaultStatus::Cancelled);
}

#[test]
fn dispute_marks_but_does_not_block() {
    let mut ctx = SettleConditionalVault { settlement_authority: AUTHORITY, vault: new_vault() };
    assert_eq!(ctx.dispute(88), Ok(()));
    assert_eq!(ctx.vault.status, VaultStatus::Disputed);
    assert_eq!(ctx.vault.disputed_at, Some(88));
    assert_eq!(ctx.dispute(89), Err(VaultError::MarketAlreadyDisputed));

    // A dispute does not block the final settlement.
    assert_eq!(ctx.resolve(false, 90), Ok(()));
    assert_eq!(ctx.vault.status, VaultStatus::Resolved);
    assert_eq!(ctx.vault.outcome, Some(false));
    assert_eq!(ctx.vault.disputed_at, Some(88));
}

#[test]
fn redeem_before_settlement_fails() {
    let mut accounts = interact(new_vault(), 1_000);
    assert_eq!(program::mint_conditional_tokens(&mut accounts, 1_000, Side::Positive), Ok(()));

    // While the vault is active neither redemption path opens.
    let r = program::redeem_conditional_tokens_for_underlying_tokens(&mut accounts);
    assert_eq!(r, Err(VaultError::CantRedeemConditionalTokens));
    let r = program::redeem_on_cancel(&mut accounts);
    assert_eq!(r, Err(VaultError::MarketNotCancelled));
    assert_eq!(accounts.user_conditional_on_finalize_token_account.amount, 1_000);
    assert_eq!(accounts.vault_underlying_token_account.amount, 1_000);
}

#[test]
fn redeem_while_disputed_reports_market_not_resolved() {
    let mut accounts = interact(new_vault(), 1_000);
    assert_eq!(program::mint_conditional_tokens(&mut accounts, 1_000, Side::Positive), Ok(()));
    assert_eq!(settle(&mut accounts, |ctx| program::dispute_conditional_vault(ctx, 88)), Ok(()));

    // Out of the active state, but the outcome is still unset.
    let r = program::redeem_conditional_tokens_for_underlying_tokens(&mut accounts);
    assert_eq!(r, Err(VaultError::MarketNotResolved));
    assert_eq!(accounts.user_conditional_on_finalize_token_account.amount, 1_000);
}

#[test]
fn redeem_on_cancel_needs_cancellation() {
    let mut accounts = interact(new_vault(), 1_000);
    assert_eq!(settle(&mut accounts, |ctx| program::resolve_conditional_vault(ctx, true, 88)), Ok(()));
    let r = program::redeem_on_cancel(&mut accounts);
    assert_eq!(r, Err(VaultError::MarketNotCancelled));
}

#[test]
fn resolution_scenario_pays_winning_side_in_full() {
    let mut accounts = interact(new_vault(), 1_000_000);
    assert_eq!(program::mint_conditional_tokens(&mut accounts, 1_000_000, Side::Positive), Ok(()));
    assert_eq!(accounts.vault_underlying_token_account.amount, 1_000_000);
    assert_eq!(accounts.conditional_on_finalize_token_mint.supply, 1_000_000);

    assert_eq!(settle(&mut accounts, |ctx| program::resolve_conditional_vault(ctx, true, 88)), Ok(()));
    assert_eq!(accounts.vault.status, VaultStatus::Resolved);
    assert_eq!(accounts.vault.outcome, Some(true));

    let r = program::redeem_conditional_tokens_for_underlying_tokens(&mut accounts);
    assert_eq!(r, Ok(()));
    assert_eq!(accounts.user_underlying_token_account.amount, 1_000_000);
    assert_eq!(accounts.user_conditional_on_finalize_token_account.amount, 0);
    assert_eq!(accounts.user_conditional_on_revert_token_account.amount, 0);
    assert_eq!(accounts.conditional_on_finalize_token_mint.supply, 0);
    assert_eq!(accounts.vault_underlying_token_account.amount, 0);
}

#[test]
fn losing_side_is_burned_without_payout() {
    let mut accounts = interact(new_vault(), 300);
    assert_eq!(program::mint_conditional_tokens(&mut accounts, 300, Side::Negative), Ok(()));
    assert_eq!(settle(&mut accounts, |ctx| program::resolve_conditional_vault(ctx, true, 88)), Ok(()));

    let r = program::redeem_conditional_tokens_for_underlying_tokens(&mut accounts);
    assert_eq!(r, Ok(()));
    // The depositor held only the losing side: it is destroyed, nothing is paid.
    assert_eq!(accounts.user_underlying_token_account.amount, 0);
    assert_eq!(accounts.user_conditional_on_revert_token_account.amount, 0);
    assert_eq!(accounts.conditional_on_revert_token_mint.supply, 0);
    assert_eq!(accounts.vault_underlying_token_account.amount, 300);
}

#[test]
fn cancellation_scenario_refunds_both_sides() {
    let mut accounts = interact(new_vault(), 1_000);
    assert_eq!(program::mint_conditional_tokens(&mut accounts, 500, Side::Positive), Ok(()));
    assert_eq!(program::mint_conditional_tokens(&mut accounts, 500, Side::Negative), Ok(()));
    assert_eq!(accounts.vault_underlying_token_account.amount, 1_000);

    assert_eq!(settle(&mut accounts, |ctx| program::cancel_conditional_vault(ctx, 88)), Ok(()));

    let r = program::redeem_on_cancel(&mut accounts);
    assert_eq!(r, Ok(()));
    assert_eq!(accounts.user_underlying_token_account.amount, 1_000);
    assert_eq!(accounts.user_conditional_on_finalize_token_account.amount, 0);
    assert_eq!(accounts.user_conditional_on_revert_token_account.amount, 0);
    assert_eq!(accounts.conditional_on_finalize_token_mint.supply, 0);
    assert_eq!(accounts.conditional_on_revert_token_mint.supply, 0);
    assert_eq!(accounts.vault_underlying_token_account.amount, 0);
}

#[test]
fn merge_reclaims_underlying_for_pairs() {
    let mut accounts = interact(new_vault(), 1_000);
    assert_eq!(program::mint_conditional_tokens(&mut accounts, 500, Side::Positive), Ok(()));
    assert_eq!(program::mint_conditional_tokens(&mut accounts, 500, Side::Negative), Ok(()));

    let r = program::merge_conditional_tokens_for_underlying_tokens(&mut accounts, 200);
    assert_eq!(r, Ok(()));
    assert_eq!(accounts.user_conditional_on_finalize_token_account.amount, 300);
    assert_eq!(accounts.user_conditional_on_revert_token_account.amount, 300);
    assert_eq!(accounts.conditional_on_finalize_token_mint.supply, 300);
    assert_eq!(accounts.conditional_on_revert_token_mint.supply, 300);
    assert_eq!(accounts.user_underlying_token_account.amount, 200);
    assert_eq!(accounts.vault_underlying_token_account.amount, 800);
    // The cumulative counters track minting only.
    assert_eq!(accounts.vault.total_positive_tokens_minted, 500);
    assert_eq!(accounts.vault.total_negative_tokens_minted, 500);
    // Conservation: holding == total minted on both sides minus total merged.
    assert_eq!(accounts.vault_underlying_token_account.amount, 500 + 500 - 200);
}

#[test]
fn merge_after_settlement_fails() {
    let mut accounts = interact(new_vault(), 1_000);
    assert_eq!(program::mint_conditional_tokens(&mut accounts, 500, Side::Positive), Ok(()));
    assert_eq!(program::mint_conditional_tokens(&mut accounts, 500, Side::Negative), Ok(()));
    assert_eq!(settle(&mut accounts, |ctx| program::cancel_conditional_vault(ctx, 88)), Ok(()));

    let r = program::merge_conditional_tokens_for_underlying_tokens(&mut accounts, 200);
    assert_eq!(r, Err(VaultError::VaultAlreadySettled));
    assert_eq!(accounts.user_conditional_on_finalize_token_account.amount, 500);
    assert_eq!(accounts.vault_underlying_token_account.amount, 1_000);
}

#[test]
fn merge_with_one_sided_balance_fails() {
    let mut accounts = interact(new_vault(), 1_000);
    assert_eq!(program::mint_conditional_tokens(&mut accounts, 500, Side::Positive), Ok(()));

    let r = program::merge_conditional_tokens_for_underlying_tokens(&mut accounts, 200);
    assert_eq!(r, Err(VaultError::InsufficientUnderlyingTokens));
    assert_eq!(accounts.user_conditional_on_finalize_token_account.amount, 500);
    assert_eq!(accounts.user_underlying_token_account.amount, 500);
}

#[test]
fn merge_while_disputed_is_allowed() {
    let mut accounts = interact(new_vault(), 400);
    assert_eq!(program::mint_conditional_tokens(&mut accounts, 200, Side::Positive), Ok(()));
    assert_eq!(program::mint_conditional_tokens(&mut accounts, 200, Side::Negative), Ok(()));
    assert_eq!(settle(&mut accounts, |ctx| program::dispute_conditional_vault(ctx, 88)), Ok(()));

    let r = program::merge_conditional_tokens_for_underlying_tokens(&mut accounts, 200);
    assert_eq!(r, Ok(()));
    assert_eq!(accounts.user_underlying_token_account.amount, 200);
}

#[test]
fn validate_functions_follow_status() {
    let accounts = interact(new_vault(), 0);
    assert_eq!(
        accounts.validate_redeem_conditional_tokens(),
        Err(VaultError::CantRedeemConditionalTokens)
    );
    assert_eq!(accounts.validate_redeem_on_cancel(), Err(VaultError::MarketNotCancelled));
    assert_eq!(accounts.validate_merge_conditional_tokens(), Ok(()));
}

#[test]
fn redeeming_nothing_and_redeeming_twice_pay_nothing() {
    let mut accounts = interact(new_vault(), 1_000);
    assert_eq!(program::mint_conditional_tokens(&mut accounts, 1_000, Side::Positive), Ok(()));
    assert_eq!(settle(&mut accounts, |ctx| program::resolve_conditional_vault(ctx, true, 88)), Ok(()));

    assert_eq!(program::redeem_conditional_tokens_for_underlying_tokens(&mut accounts), Ok(()));
    assert_eq!(accounts.user_underlying_token_account.amount, 1_000);

    // A second redemption finds empty balances: it succeeds and pays nothing.
    assert_eq!(program::redeem_conditional_tokens_for_underlying_tokens(&mut accounts), Ok(()));
    assert_eq!(accounts.user_underlying_token_account.amount, 1_000);
    assert_eq!(accounts.user_conditional_on_finalize_token_account.amount, 0);
    assert_eq!(accounts.user_conditional_on_revert_token_account.amount, 0);
}

#[test]
fn validate_accounts_rejects_foreign_accounts() {
    let mut accounts = interact(new_vault(), 0);
    assert_eq!(accounts.validate_accounts(), Ok(()));

    let good_holding = accounts.vault_underlying_token_account;
    accounts.vault_underlying_token_account.key = AccountId(99);
    assert_eq!(
        accounts.validate_accounts(),
        Err(VaultError::InvalidVaultUnderlyingTokenAccount)
    );
    accounts.vault_underlying_token_account = good_holding;

    accounts.conditional_on_revert_token_mint.key = AccountId(98);
    assert_eq!(accounts.validate_accounts(), Err(VaultError::InvalidConditionalTokenMint));
}

#[test]
fn ledger_operations_move_exact_amounts() {
    let mut mint = TokenMint { key: FINALIZE_MINT, supply: 0, decimals: 6 };
    let mut a = TokenAccount { key: AccountId(6), mint: FINALIZE_MINT, owner: DEPOSITOR, amount: 0 };
    let mut b = TokenAccount { key: AccountId(8), mint: FINALIZE_MINT, owner: DEPOSITOR, amount: 5 };
    conditional_vault::token_ledger::mint_to(&mut mint, &mut a, 40);
    assert_eq!(mint.supply, 40);
    assert_eq!(a.amount, 40);
    conditional_vault::token_ledger::transfer(&mut a, &mut b, 15);
    assert_eq!(a.amount, 25);
    assert_eq!(b.amount, 20);
    conditional_vault::token_ledger::burn(&mut mint, &mut b, 20);
    assert_eq!(mint.supply, 20);
    assert_eq!(b.amount, 0);
}
