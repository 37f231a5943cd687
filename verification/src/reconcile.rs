//! How the ledger's books move with each operation: the value that the ledger takes to
//! be in delegation changes only by what an operation asks the delegation primitive to
//! move, and a settlement books exactly what the era observed.

use vstd::prelude::*;
use crate::era_bond::EraBond;
use crate::era_new::EraNew;
use crate::era_unbond::EraUnbond;
use crate::era_update_active::EraUpdateActive;
use crate::era_update_rate::EraUpdateRate;
use crate::staker_stake::Stake;
use crate::staker_unstake::Unstake;
use crate::states::StakeManagerView;

verus! {

/// The value that the ledger takes to be in delegation: the active value, less the
/// stakes that still wait to be bonded, plus the unstakes that still wait to be
/// unbonded, whether they wait in the running totals or in the work order.
pub open spec fn booked_delegation(ledger: StakeManagerView) -> int {
    ledger.active - ledger.era_bond + ledger.era_unbond - ledger.era_process_data.need_bond
        + ledger.era_process_data.need_unbond
}

/// Since the era opened, the active value has moved only by the stakes and unstakes
/// that the running totals hold.
pub open spec fn tracks_era(ledger: StakeManagerView) -> bool {
    ledger.active == ledger.era_process_data.old_active + ledger.era_bond - ledger.era_unbond
}

/// A stake leaves the booked delegation as it was, and the active value on the era's
/// track.
pub proof fn lemma_stake_books(ctx: Stake, stake_amount: u64)
    requires
        ctx.refusal(stake_amount) is None,
    ensures
        booked_delegation(ctx.ledger_after(stake_amount)) == booked_delegation(
            ctx.stake_manager@,
        ),
        tracks_era(ctx.stake_manager@) ==> tracks_era(ctx.ledger_after(stake_amount)),
{
}

/// An unstake leaves the booked delegation as it was, and the active value on the era's
/// track.
pub proof fn lemma_unstake_books(ctx: Unstake, unstake_amount: u64)
    requires
        ctx.refusal(unstake_amount) is None,
    ensures
        booked_delegation(ctx.ledger_after(unstake_amount)) == booked_delegation(
            ctx.stake_manager@,
        ),
        tracks_era(ctx.stake_manager@) ==> tracks_era(ctx.ledger_after(unstake_amount)),
{
}

/// The opening of an era leaves the booked delegation as it was, and puts the active
/// value on the era's track.
pub proof fn lemma_era_new_books(ctx: EraNew)
    requires
        ctx.refusal() is None,
    ensures
        booked_delegation(ctx.ledger_after()) == booked_delegation(ctx.stake_manager@),
        tracks_era(ctx.ledger_after()),
{
}

/// A bond step raises the booked delegation by exactly what it moves into the new
/// record.
pub proof fn lemma_era_bond_books(ctx: EraBond)
    requires
        ctx.refusal() is None,
    ensures
        booked_delegation(ctx.ledger_after()) == booked_delegation(ctx.stake_manager@)
            + ctx.event().bond_amount,
        tracks_era(ctx.stake_manager@) ==> tracks_era(ctx.ledger_after()),
{
}

/// An unbond step lowers the booked delegation by exactly what it deactivates, which is
/// never more than what was left to unbond.
pub proof fn lemma_era_unbond_books(ctx: EraUnbond)
    requires
        ctx.refusal() is None,
    ensures
        ctx.event().unbond_amount <= ctx.stake_manager.era_process_data.need_unbond,
        booked_delegation(ctx.ledger_after()) == booked_delegation(ctx.stake_manager@)
            - ctx.event().unbond_amount,
        tracks_era(ctx.stake_manager@) ==> tracks_era(ctx.ledger_after()),
{
}

/// An observation leaves the booked delegation as it was and adds exactly the observed
/// value to what the era has observed.
pub proof fn lemma_era_update_active_books(ctx: EraUpdateActive)
    requires
        ctx.refusal() is None,
    ensures
        booked_delegation(ctx.ledger_after()) == booked_delegation(ctx.stake_manager@),
        ctx.ledger_after().era_process_data.new_active
            == ctx.stake_manager.era_process_data.new_active + ctx.event().stake_amount,
        tracks_era(ctx.stake_manager@) ==> tracks_era(ctx.ledger_after()),
{
}

/// A settlement on a ledger whose active value is on the era's track books exactly what
/// the era observed: afterwards the booked delegation is the observed active value,
/// unless the unstakes since the era opened exceed that value and the stakes together,
/// so that the settled active value is cut off at zero.
pub proof fn lemma_era_update_rate_books(ctx: EraUpdateRate)
    requires
        ctx.refusal() is None,
        tracks_era(ctx.stake_manager@),
        ctx.stake_manager.era_process_data.new_active + ctx.stake_manager.era_bond
            >= ctx.stake_manager.era_unbond,
    ensures
        booked_delegation(ctx.ledger_after()) == ctx.stake_manager.era_process_data.new_active,
{
}

} // verus!
