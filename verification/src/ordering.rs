//! The order of the era cycle: once an era has opened on a pool with active value, only
//! its settlement lets the next era open.

use vstd::prelude::*;
use crate::era_bond::EraBond;
use crate::era_merge::EraMerge;
use crate::era_new::EraNew;
use crate::era_unbond::EraUnbond;
use crate::era_update_active::EraUpdateActive;
use crate::era_update_rate::EraUpdateRate;
use crate::era_withdraw::EraWithdraw;
use crate::errors::Errors;
use crate::redelegate::Redelegate;
use crate::registry::lemma_without_len;
use crate::staker_stake::Stake;
use crate::staker_unstake::Unstake;
use crate::states::StakeManagerView;

verus! {

/// An era is under way: the work order holds the active value that the era opened on.
pub open spec fn era_under_way(ledger: StakeManagerView) -> bool {
    ledger.era_process_data.old_active != 0
}

/// The opening of an era on a pool with active value puts the era under way.
pub proof fn lemma_era_new_starts(ctx: EraNew)
    requires
        ctx.refusal() is None,
        ctx.stake_manager.active != 0,
    ensures
        era_under_way(ctx.ledger_after()),
{
}

/// While an era is under way, no era opens: whatever the clock shows, the opening is
/// refused as still being processed.
pub proof fn lemma_no_opening_under_way(ctx: EraNew)
    requires
        era_under_way(ctx.stake_manager@),
    ensures
        ctx.refusal() == Some(Errors::EraIsProcessing),
{
}

/// While an era is under way, no record is merged and no delegation is moved to another
/// validator.
pub proof fn lemma_no_maintenance_under_way(merge: EraMerge, redelegate: Redelegate, amount: u64)
    requires
        era_under_way(merge.stake_manager@),
        era_under_way(redelegate.stake_manager@),
    ensures
        merge.refusal() is Some,
        redelegate.refusal(amount) is Some,
{
}

/// A stake leaves an era under way.
pub proof fn lemma_stake_keeps_under_way(ctx: Stake, stake_amount: u64)
    requires
        ctx.refusal(stake_amount) is None,
        era_under_way(ctx.stake_manager@),
    ensures
        era_under_way(ctx.ledger_after(stake_amount)),
{
}

/// An unstake leaves an era under way.
pub proof fn lemma_unstake_keeps_under_way(ctx: Unstake, unstake_amount: u64)
    requires
        ctx.refusal(unstake_amount) is None,
        era_under_way(ctx.stake_manager@),
    ensures
        era_under_way(ctx.ledger_after(unstake_amount)),
{
}

/// A bond step leaves an era under way.
pub proof fn lemma_era_bond_keeps_under_way(ctx: EraBond)
    requires
        ctx.refusal() is None,
        era_under_way(ctx.stake_manager@),
    ensures
        era_under_way(ctx.ledger_after()),
{
}

/// An unbond step leaves an era under way.
pub proof fn lemma_era_unbond_keeps_under_way(ctx: EraUnbond)
    requires
        ctx.refusal() is None,
        era_under_way(ctx.stake_manager@),
    ensures
        era_under_way(ctx.ledger_after()),
{
}

/// An observation leaves an era under way.
pub proof fn lemma_era_update_active_keeps_under_way(ctx: EraUpdateActive)
    requires
        ctx.refusal() is None,
        era_under_way(ctx.stake_manager@),
    ensures
        era_under_way(ctx.ledger_after()),
{
}

/// Every accepted observation on a well-formed ledger takes exactly one record off those
/// that await observation, so that as many observations as records are pending use them
/// up.
pub proof fn lemma_era_update_active_makes_progress(ctx: EraUpdateActive)
    requires
        ctx.refusal() is None,
        ctx.stake_manager@.wf(),
    ensures
        ctx.ledger_after().era_process_data.pending_stake_accounts.len()
            == ctx.stake_manager@.era_process_data.pending_stake_accounts.len() - 1,
{
    lemma_without_len(
        ctx.stake_manager@.era_process_data.pending_stake_accounts,
        ctx.stake_account.key,
    );
}

/// Every accepted unbond step either lowers what is left to unbond or takes an active
/// record that holds nothing out of the active records, on a well-formed ledger.
pub proof fn lemma_era_unbond_makes_progress(ctx: EraUnbond)
    requires
        ctx.refusal() is None,
        ctx.stake_manager@.wf(),
    ensures
        ctx.ledger_after().era_process_data.need_unbond
            < ctx.stake_manager.era_process_data.need_unbond
            || ctx.ledger_after().stake_accounts.len() == ctx.stake_manager@.stake_accounts.len()
            - 1,
{
    lemma_without_len(ctx.stake_manager@.stake_accounts, ctx.from_stake_account.key);
}

/// The withdrawal of a split record leaves an era under way.
pub proof fn lemma_era_withdraw_keeps_under_way(ctx: EraWithdraw)
    requires
        ctx.refusal() is None,
        era_under_way(ctx.stake_manager@),
    ensures
        era_under_way(ctx.ledger_after()),
{
}

/// A settlement is accepted only on an era under way whose bonding, unbonding and
/// observations are done, and ends it: the work order is empty afterwards.
pub proof fn lemma_era_update_rate_ends(ctx: EraUpdateRate)
    requires
        ctx.refusal() is None,
    ensures
        era_under_way(ctx.stake_manager@),
        ctx.stake_manager@.era_process_data.need_update_rate(),
        !era_under_way(ctx.ledger_after()),
        ctx.ledger_after().era_process_data.is_empty(),
{
}

} // verus!
