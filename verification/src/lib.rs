//! A verified model of a conditional-claim vault.
//!
//! Depositors lock an underlying asset and receive one of two mutually
//! exclusive derivative assets ("on finalize" and "on revert"). A settlement
//! authority later resolves or cancels the vault, exactly once. After a
//! resolution the winning side redeems 1:1 for the underlying asset and the
//! losing side is destroyed without payout; after a cancellation both sides
//! refund in full. Every operation is specified by an exact contract, and the
//! conservation between the vault's underlying holding and the outstanding
//! derivative supply is proved, not merely asserted.
//!
//! The external token ledger (balances and supplies) is modelled in
//! [`token_ledger`] as an in-memory capability interface, so that the vault's
//! state machine and its arithmetic are verified end to end.

pub mod conservation;
pub mod error;
pub mod initialize_conditional_vault;
pub mod interact_with_vault;
pub mod merge_conditional_tokens;
pub mod mint_conditional_tokens;
pub mod program;
pub mod redeem_conditional_tokens_for_underlying_tokens;
pub mod settle_conditional_vault;
pub mod state;
pub mod token_ledger;
