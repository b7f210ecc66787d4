use vstd::prelude::*;

verus! {

/// The identity of an account on the external ledger (a mint, a token
/// account, or a signing authority). The ledger's real identities are opaque
/// byte strings; the model only ever compares them for equality, so a plain
/// integer handle carries everything the logic reads.
#[derive(Clone, Copy, Debug, PartialEq, Eq, Structural)]
pub struct AccountId(pub u64);

/// The phase of a vault's life. `Active` is the initial state; `Resolved`
/// and `Cancelled` are terminal. `Locked` and `Paused` are reserved: no
/// operation of this crate ever enters them.
#[derive(Clone, Copy, Debug, PartialEq, Eq, Structural)]
pub enum VaultStatus {
    Active,
    Locked,
    Paused,
    Disputed,
    Cancelled,
    Resolved,
}

/// Which of the two derivative assets a deposit backs.
#[derive(Clone, Copy, Debug, PartialEq, Eq, Structural)]
pub enum Side {
    Positive,
    Negative,
}

/// The persistent record of one conditional claim.
#[derive(Debug)]
pub struct ConditionalVault {
    pub status: VaultStatus,
    /// Human-readable description of the conditional event.
    pub claim: String,
    /// Content-addressed reference to the supporting document.
    pub arweave_id: String,
    /// The result of the event; set exactly once, on resolution.
    pub outcome: Option<bool>,
    /// The only identity permitted to resolve, dispute or cancel.
    pub settlement_authority: AccountId,
    /// The asset that is deposited into the vault.
    pub underlying_token_mint: AccountId,
    /// The vault's holding account for deposited funds.
    pub underlying_token_account: AccountId,
    pub conditional_on_finalize_token_mint: AccountId,
    pub conditional_on_revert_token_mint: AccountId,
    /// Cumulative amounts ever minted on each side; they never decrease.
    pub total_positive_tokens_minted: u64,
    pub total_negative_tokens_minted: u64,
    pub created_at: i64,
    pub disputed_at: Option<i64>,
    pub resolved_at: Option<i64>,
    pub cancelled_at: Option<i64>,
    /// Copied from the underlying asset at creation.
    pub decimals: u8,
    /// Seed parameter with which the vault derives its own signing identity.
    pub pda_bump: u8,
}

impl VaultStatus {
    /// A terminal status: once reached, no settlement operation leaves it.
    pub open spec fn is_terminal(self) -> bool {
        self == VaultStatus::Resolved || self == VaultStatus::Cancelled
    }
}

impl ConditionalVault {
    /// Internal consistency of one vault record. Initialization establishes
    /// it and every operation preserves it: the outcome and the settlement
    /// timestamps exist exactly for the states that set them, so an outcome
    /// and a cancellation are mutually exclusive, and the reserved states
    /// stay unreachable.
    pub open spec fn wf(self) -> bool {
        &&& self.outcome is Some <==> self.status == VaultStatus::Resolved
        &&& self.resolved_at is Some <==> self.status == VaultStatus::Resolved
        &&& self.cancelled_at is Some <==> self.status == VaultStatus::Cancelled
        &&& self.status == VaultStatus::Disputed ==> self.disputed_at is Some
        &&& self.disputed_at is Some ==> {
            ||| self.status == VaultStatus::Disputed
            ||| self.status == VaultStatus::Resolved
            ||| self.status == VaultStatus::Cancelled
        }
        &&& self.status != VaultStatus::Locked
        &&& self.status != VaultStatus::Paused
        &&& self.conditional_on_finalize_token_mint != self.conditional_on_revert_token_mint
    }

    /// The cumulative minted total of one side.
    pub open spec fn total_minted(self, side: Side) -> u64 {
        match side {
            Side::Positive => self.total_positive_tokens_minted,
            Side::Negative => self.total_negative_tokens_minted,
        }
    }
}

} // verus!
