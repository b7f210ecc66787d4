use vstd::prelude::*;

use crate::error::VaultError;
use crate::interact_with_vault::InteractWithVault;
use crate::merge_conditional_tokens::merge_step;
use crate::mint_conditional_tokens::mint_step;
use crate::state::Side;

verus! {

/// One position operation: a mint of an amount on one side, or a merge of an
/// amount of matched pairs.
pub enum PositionOp {
    Mint(u64, Side),
    Merge(u64),
}

/// What one position operation does to one call's accounts.
pub open spec fn position_step(s: InteractWithVault, op: PositionOp) -> (Result<
    (),
    VaultError,
>, InteractWithVault) {
    match op {
        PositionOp::Mint(amount, side) => mint_step(s, amount, side),
        PositionOp::Merge(amount) => merge_step(s, amount),
    }
}

/// The machine-word bounds under which one position operation runs: the same
/// bounds the executable operations carry in `requires`.
pub open spec fn op_in_limits(s: InteractWithVault, op: PositionOp) -> bool {
    match op {
        PositionOp::Mint(amount, side) => {
            &&& s.vault_underlying_token_account.amount + amount <= u64::MAX
            &&& s.vault.total_minted(side) + amount <= u64::MAX
        },
        PositionOp::Merge(amount) => s.user_underlying_token_account.amount + amount <= u64::MAX,
    }
}

/// The bounds of `op_in_limits`, along a whole sequence of operations.
pub open spec fn ops_in_limits(s: InteractWithVault, ops: Seq<PositionOp>) -> bool
    decreases ops.len(),
{
    ops.len() > 0 ==> {
        &&& op_in_limits(s, ops[0])
        &&& ops_in_limits(position_step(s, ops[0]).1, ops.skip(1))
    }
}

/// The accounts after a whole sequence of position operations. A failing
/// operation changes nothing, so the run carries every attempt, successful
/// or not.
pub open spec fn run_position_ops(s: InteractWithVault, ops: Seq<PositionOp>) -> InteractWithVault
    decreases ops.len(),
{
    if ops.len() == 0 {
        s
    } else {
        run_position_ops(position_step(s, ops[0]).1, ops.skip(1))
    }
}

/// The total amount the successful merges of a run hand back to the
/// depositor in underlying.
pub open spec fn merged_in_run(s: InteractWithVault, ops: Seq<PositionOp>) -> int
    decreases ops.len(),
{
    if ops.len() == 0 {
        0
    } else {
        let first = match ops[0] {
            PositionOp::Merge(amount) => if position_step(s, ops[0]).0 is Ok {
                amount as int
            } else {
                0
            },
            PositionOp::Mint(..) => 0,
        };
        first + merged_in_run(position_step(s, ops[0]).1, ops.skip(1))
    }
}

/// Conservation: the vault's holding balance equals the total ever minted on
/// both sides minus the total ever merged back out.
pub open spec fn conserves(s: InteractWithVault, total_merged: int) -> bool {
    s.vault_underlying_token_account.amount == s.vault.total_positive_tokens_minted
        + s.vault.total_negative_tokens_minted - total_merged
}

/// A freshly initialized vault conserves trivially: the holding and both
/// cumulative counters start at zero, and nothing has been merged.
pub proof fn lemma_new_vault_conserves(s: InteractWithVault)
    requires
        s.vault.total_positive_tokens_minted == 0,
        s.vault.total_negative_tokens_minted == 0,
        s.vault_underlying_token_account.amount == 0,
    ensures
        conserves(s, 0),
{
}

/// One mint keeps conservation: holding and the minted total grow by the
/// same amount (and a failed mint changes nothing). It also keeps the
/// accounts well formed.
pub proof fn lemma_mint_preserves_conservation(
    s: InteractWithVault,
    amount: u64,
    side: Side,
    total_merged: int,
)
    requires
        s.wf(),
        conserves(s, total_merged),
        op_in_limits(s, PositionOp::Mint(amount, side)),
    ensures
        mint_step(s, amount, side).1.wf(),
        conserves(mint_step(s, amount, side).1, total_merged),
{
}

/// One merge keeps conservation: holding shrinks by exactly what the merged
/// total grows by (and a failed merge changes nothing). It also keeps the
/// accounts well formed.
pub proof fn lemma_merge_preserves_conservation(
    s: InteractWithVault,
    amount: u64,
    total_merged: int,
)
    requires
        s.wf(),
        conserves(s, total_merged),
        op_in_limits(s, PositionOp::Merge(amount)),
    ensures
        merge_step(s, amount).1.wf(),
        merge_step(s, amount).0 is Ok ==> conserves(merge_step(s, amount).1, total_merged + amount),
        merge_step(s, amount).0 is Err ==> conserves(merge_step(s, amount).1, total_merged),
{
}

/// Conservation over every sequence of position operations: starting from
/// well-formed accounts whose holding equals total minted minus
/// `total_merged`, any run of mints and merges (within the machine-word
/// bounds each operation carries anyway) ends with the holding equal to the
/// new total minted minus the old merged total plus what the run merged out.
pub proof fn lemma_position_ops_preserve_conservation(
    s: InteractWithVault,
    ops: Seq<PositionOp>,
    total_merged: int,
)
    requires
        s.wf(),
        conserves(s, total_merged),
        ops_in_limits(s, ops),
    ensures
        run_position_ops(s, ops).wf(),
        conserves(run_position_ops(s, ops), total_merged + merged_in_run(s, ops)),
    decreases ops.len(),
{
    if ops.len() > 0 {
        let s1 = position_step(s, ops[0]).1;
        match ops[0] {
            PositionOp::Mint(amount, side) => {
                lemma_mint_preserves_conservation(s, amount, side, total_merged);
                lemma_position_ops_preserve_conservation(s1, ops.skip(1), total_merged);
            },
            PositionOp::Merge(amount) => {
                lemma_merge_preserves_conservation(s, amount, total_merged);
                if position_step(s, ops[0]).0 is Ok {
                    lemma_position_ops_preserve_conservation(
                        s1,
                        ops.skip(1),
                        total_merged + amount,
                    );
                } else {
                    lemma_position_ops_preserve_conservation(s1, ops.skip(1), total_merged);
                }
            },
        }
    }
}

} // verus!
