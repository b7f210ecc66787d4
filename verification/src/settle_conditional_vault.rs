use vstd::prelude::*;

use crate::error::VaultError;
use crate::state::AccountId;
use crate::state::ConditionalVault;
use crate::state::VaultStatus;

verus! {

/// The accounts of one settlement call: the vault together with the identity
/// that signed the call. Well-formedness carries the authorization check --
/// a settlement call only ever reaches the vault when the signer is the
/// vault's stored settlement authority.
pub struct SettleConditionalVault {
    pub settlement_authority: AccountId,
    pub vault: ConditionalVault,
}

/// What `resolve` does to a vault record, as one total function: the error
/// on a vault that is already settled (the resolved case is reported first),
/// and otherwise the record moved to `Resolved` with the outcome and the
/// resolution time set.
pub open spec fn resolve_step(v: ConditionalVault, outcome: bool, now: i64) -> Result<
    ConditionalVault,
    VaultError,
> {
    if v.status == VaultStatus::Resolved {
        Err(VaultError::MarketAlreadyResolved)
    } else if v.status == VaultStatus::Cancelled {
        Err(VaultError::MarketAlreadyCancelled)
    } else {
        Ok(
            ConditionalVault {
                status: VaultStatus::Resolved,
                outcome: Some(outcome),
                resolved_at: Some(now),
                ..v
            },
        )
    }
}

/// What `dispute` does to a vault record: an error when the vault is already
/// disputed or settled (reported in that order), and otherwise the record
/// moved to `Disputed` with the dispute time set.
pub open spec fn dispute_step(v: ConditionalVault, now: i64) -> Result<
    ConditionalVault,
    VaultError,
> {
    if v.status == VaultStatus::Disputed {
        Err(VaultError::MarketAlreadyDisputed)
    } else if v.status == VaultStatus::Resolved {
        Err(VaultError::MarketAlreadyResolved)
    } else if v.status == VaultStatus::Cancelled {
        Err(VaultError::MarketAlreadyCancelled)
    } else {
        Ok(ConditionalVault { status: VaultStatus::Disputed, disputed_at: Some(now), ..v })
    }
}

/// What `cancel` does to a vault record: an error when the vault is already
/// settled (the cancelled case is reported first), and otherwise the record
/// moved to `Cancelled` with the cancellation time set.
pub open spec fn cancel_step(v: ConditionalVault, now: i64) -> Result<
    ConditionalVault,
    VaultError,
> {
    if v.status == VaultStatus::Cancelled {
        Err(VaultError::MarketAlreadyCancelled)
    } else if v.status == VaultStatus::Resolved {
        Err(VaultError::MarketAlreadyResolved)
    } else {
        Ok(ConditionalVault { status: VaultStatus::Cancelled, cancelled_at: Some(now), ..v })
    }
}

impl SettleConditionalVault {
    /// The signer is the vault's settlement authority and the record itself
    /// is consistent.
    pub open spec fn wf(self) -> bool {
        &&& self.vault.settlement_authority == self.settlement_authority
        &&& self.vault.wf()
    }

    /// Settles the vault with the given outcome, at time `now`. Fails, and
    /// changes nothing, exactly when the vault is already resolved or
    /// already cancelled.
    pub fn resolve(&mut self, outcome: bool, now: i64) -> (r: Result<(), VaultError>)
        requires
            old(self).wf(),
        ensures
            final(self).wf(),
            final(self).settlement_authority == old(self).settlement_authority,
            (match resolve_step(old(self).vault, outcome, now) {
                Ok(v) => r == Ok::<(), VaultError>(()) && final(self).vault == v,
                Err(e) => r == Err::<(), VaultError>(e) && final(self).vault == old(self).vault,
            }),
            r is Ok ==> final(self).vault.outcome == Some(outcome),
            r is Ok ==> final(self).vault.status == VaultStatus::Resolved,
    {
        if self.vault.status == VaultStatus::Resolved {
            return Err(VaultError::MarketAlreadyResolved);
        }
        if self.vault.status == VaultStatus::Cancelled {
            return Err(VaultError::MarketAlreadyCancelled);
        }
        self.vault.status = VaultStatus::Resolved;
        self.vault.outcome = Some(outcome);
        self.vault.resolved_at = Some(now);
        Ok(())
    }

    /// Marks the vault disputed, at time `now`. Fails, and changes nothing,
    /// exactly when the vault is already disputed, resolved or cancelled.
    pub fn dispute(&mut self, now: i64) -> (r: Result<(), VaultError>)
        requires
            old(self).wf(),
        ensures
            final(self).wf(),
            final(self).settlement_authority == old(self).settlement_authority,
            (match dispute_step(old(self).vault, now) {
                Ok(v) => r == Ok::<(), VaultError>(()) && final(self).vault == v,
                Err(e) => r == Err::<(), VaultError>(e) && final(self).vault == old(self).vault,
            }),
            r is Ok ==> final(self).vault.status == VaultStatus::Disputed,
    {
        if self.vault.status == VaultStatus::Disputed {
            return Err(VaultError::MarketAlreadyDisputed);
        }
        if self.vault.status == VaultStatus::Resolved {
            return Err(VaultError::MarketAlreadyResolved);
        }
        if self.vault.status == VaultStatus::Cancelled {
            return Err(VaultError::MarketAlreadyCancelled);
        }
        self.vault.status = VaultStatus::Disputed;
        self.vault.disputed_at = Some(now);
        Ok(())
    }

    /// Cancels the vault, at time `now`. Fails, and changes nothing, exactly
    /// when the vault is already cancelled or already resolved.
    pub fn cancel(&mut self, now: i64) -> (r: Result<(), VaultError>)
        requires
            old(self).wf(),
        ensures
            final(self).wf(),
            final(self).settlement_authority == old(self).settlement_authority,
            (match cancel_step(old(self).vault, now) {
                Ok(v) => r == Ok::<(), VaultError>(()) && final(self).vault == v,
                Err(e) => r == Err::<(), VaultError>(e) && final(self).vault == old(self).vault,
            }),
            r is Ok ==> final(self).vault.status == VaultStatus::Cancelled,
    {
        if self.vault.status == VaultStatus::Cancelled {
            return Err(VaultError::MarketAlreadyCancelled);
        }
        if self.vault.status == VaultStatus::Resolved {
            return Err(VaultError::MarketAlreadyResolved);
        }
        self.vault.status = VaultStatus::Cancelled;
        self.vault.cancelled_at = Some(now);
        Ok(())
    }
}

/// Settlement is one-shot. Once `resolve` succeeds, every later resolve,
/// dispute or cancel fails with `MarketAlreadyResolved`, and the outcome it
/// set is permanent; once `cancel` succeeds, every later such call fails
/// with `MarketAlreadyCancelled`. A failing call leaves the record unchanged
/// (that is part of each operation's contract), so no sequence of settlement
/// calls ever leaves a terminal state or alters a set outcome.
pub proof fn lemma_settlement_is_one_shot(
    v: ConditionalVault,
    outcome: bool,
    now: i64,
    outcome2: bool,
    later: i64,
)
    ensures
        (resolve_step(v, outcome, now) matches Ok(v1) ==> {
            &&& v1.outcome == Some(outcome)
            &&& v1.status.is_terminal()
            &&& resolve_step(v1, outcome2, later) == Err::<ConditionalVault, VaultError>(
                VaultError::MarketAlreadyResolved,
            )
            &&& dispute_step(v1, later) == Err::<ConditionalVault, VaultError>(
                VaultError::MarketAlreadyResolved,
            )
            &&& cancel_step(v1, later) == Err::<ConditionalVault, VaultError>(
                VaultError::MarketAlreadyResolved,
            )
        }),
        (cancel_step(v, now) matches Ok(v1) ==> {
            &&& v1.outcome == v.outcome
            &&& v1.status.is_terminal()
            &&& resolve_step(v1, outcome2, later) == Err::<ConditionalVault, VaultError>(
                VaultError::MarketAlreadyCancelled,
            )
            &&& dispute_step(v1, later) == Err::<ConditionalVault, VaultError>(
                VaultError::MarketAlreadyCancelled,
            )
            &&& cancel_step(v1, later) == Err::<ConditionalVault, VaultError>(
                VaultError::MarketAlreadyCancelled,
            )
        }),
{
}

/// A dispute is a soft intermediate state: it never blocks the final
/// settlement. After a successful `dispute`, both `resolve` and `cancel`
/// still succeed.
pub proof fn lemma_dispute_does_not_block_settlement(
    v: ConditionalVault,
    now: i64,
    outcome: bool,
    later: i64,
)
    ensures
        (dispute_step(v, now) matches Ok(v1) ==> {
            &&& resolve_step(v1, outcome, later) is Ok
            &&& cancel_step(v1, later) is Ok
        }),
{
}

} // verus!
