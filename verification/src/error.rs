use vstd::prelude::*;

verus! {

/// Every way a vault operation can fail. Each failure aborts the attempted
/// operation as a whole: no operation ever applies part of its effect and
/// then reports one of these.
#[derive(Clone, Copy, Debug, PartialEq, Eq, Structural)]
pub enum VaultError {
    /// The depositor's underlying balance is smaller than the amount to mint.
    InsufficientUnderlyingTokens,
    /// The underlying token account handed in is not the vault's holding account.
    InvalidVaultUnderlyingTokenAccount,
    /// A conditional token mint handed in is not one of the vault's two mints.
    InvalidConditionalTokenMint,
    /// Redemption of conditional tokens needs the vault to have left the
    /// active state and not be cancelled.
    CantRedeemConditionalTokens,
    /// A settled vault (resolved or cancelled) cannot be settled again.
    VaultAlreadySettled,
    /// The market's outcome has not been set yet.
    MarketNotResolved,
    /// The market is already resolved.
    MarketAlreadyResolved,
    /// The market is already disputed.
    MarketAlreadyDisputed,
    /// The market is already cancelled.
    MarketAlreadyCancelled,
    /// The market is not cancelled.
    MarketNotCancelled,
    /// The market is already locked.
    MarketAlreadyLocked,
    /// The market is already paused.
    MarketAlreadyPaused,
    /// The market is not open for betting.
    MarketNotActive,
}

} // verus!
