//! What converting between the base asset and derivative units loses, and why staking
//! never mints more than the deposit is worth.

use vstd::prelude::*;
use vstd::arithmetic::div_mod::{
    lemma_fundamental_div_mod, lemma_fundamental_div_mod_converse, lemma_mod_bound,
};
use crate::staker_stake::Stake;
use crate::states::{mul_div, to_base, to_derivative, StakeManager, StakeManagerView};

verus! {

/// What is left over when `base_amount`, scaled, is divided by `rate`.
pub open spec fn conversion_remainder(base_amount: u64, rate: u64) -> int
    recommends
        rate > 0,
{
    (base_amount * StakeManager::CAL_BASE) % (rate as int)
}

/// What a conversion to derivative units and back loses: the remainder of the first
/// division in whole base units, rounded up.
pub open spec fn round_trip_loss(base_amount: u64, rate: u64) -> int
    recommends
        rate > 0,
{
    (conversion_remainder(base_amount, rate) + StakeManager::CAL_BASE - 1) / (
    StakeManager::CAL_BASE as int)
}

/// The supply of derivative units is worth no more than the active value: what it
/// converts to at the ledger's rate does not exceed the active value.
pub open spec fn redeemable(ledger: StakeManagerView) -> bool {
    mul_div(ledger.total_rsol_supply, ledger.rate, StakeManager::CAL_BASE) <= ledger.active
}

/// Converting a base amount to derivative units and back succeeds wherever the first
/// conversion does, never yields more than the amount, and loses exactly
/// [`round_trip_loss`]. The loss is at most one unit exactly where the remainder of the
/// first division is at most the scale, which holds for every amount while the rate
/// does not exceed the scale.
pub proof fn lemma_round_trip(base_amount: u64, rate: u64)
    requires
        to_derivative(base_amount, rate) is Ok,
    ensures
        to_base(to_derivative(base_amount, rate)->Ok_0, rate) is Ok,
        to_base(to_derivative(base_amount, rate)->Ok_0, rate)->Ok_0 <= base_amount,
        base_amount - to_base(to_derivative(base_amount, rate)->Ok_0, rate)->Ok_0
            == round_trip_loss(base_amount, rate),
        round_trip_loss(base_amount, rate) <= 1 <==> conversion_remainder(base_amount, rate)
            <= StakeManager::CAL_BASE,
        rate <= StakeManager::CAL_BASE ==> round_trip_loss(base_amount, rate) <= 1,
{
    let base = StakeManager::CAL_BASE as int;
    let r = rate as int;
    let x = base_amount * StakeManager::CAL_BASE;
    let d = x / r;
    let m = x % r;
    lemma_fundamental_div_mod(x, r);
    lemma_mod_bound(x, r);
    let k = (m + base - 1) / base;
    let j = (m + base - 1) % base;
    lemma_fundamental_div_mod(m + base - 1, base);
    lemma_mod_bound(m + base - 1, base);
    assert(d * r == x - m) by (nonlinear_arith)
        requires
            x == r * d + m,
    ;
    assert(d * r == (base_amount - k) * base + (base - 1 - j)) by (nonlinear_arith)
        requires
            d * r == x - m,
            x == base_amount * base,
            m + base - 1 == base * k + j,
    ;
    lemma_fundamental_div_mod_converse(d * r, base, base_amount - k, base - 1 - j);
    assert(d == to_derivative(base_amount, rate)->Ok_0);
    assert(mul_div(d as u64, rate, StakeManager::CAL_BASE) == base_amount - k);
    assert(0 <= k) by (nonlinear_arith)
        requires
            m + base - 1 == base * k + j,
            0 <= m,
            0 <= j < base,
            base > 0,
    ;
    assert(base_amount - k >= 0) by (nonlinear_arith)
        requires
            d * r == (base_amount - k) * base + (base - 1 - j),
            0 <= d,
            0 < r,
            0 <= j < base,
            base > 0,
    ;
    assert(k <= 1 <==> m <= base) by (nonlinear_arith)
        requires
            m + base - 1 == base * k + j,
            0 <= j < base,
            base > 0,
    ;
}

/// Where the remainder of the first division is at most the scale, converting a base
/// amount to derivative units and back yields the amount or one unit less.
pub proof fn lemma_round_trip_within_one_unit(base_amount: u64, rate: u64)
    requires
        to_derivative(base_amount, rate) is Ok,
        conversion_remainder(base_amount, rate) <= StakeManager::CAL_BASE,
    ensures
        to_base(to_derivative(base_amount, rate)->Ok_0, rate) is Ok,
        base_amount - 1 <= to_base(to_derivative(base_amount, rate)->Ok_0, rate)->Ok_0
            <= base_amount,
{
    lemma_round_trip(base_amount, rate);
}

/// An accepted stake never raises the supply of derivative units beyond what the active
/// value can redeem at the ledger's rate: a supply that was redeemable before the stake
/// is redeemable after it.
pub proof fn lemma_stake_keeps_supply_redeemable(ctx: Stake, stake_amount: u64)
    requires
        ctx.refusal(stake_amount) is None,
        redeemable(ctx.stake_manager@),
    ensures
        redeemable(ctx.ledger_after(stake_amount)),
{
    let ledger = ctx.stake_manager@;
    let base = StakeManager::CAL_BASE as int;
    let r = ledger.rate as int;
    let x = stake_amount * StakeManager::CAL_BASE;
    let d = x / r;
    let supply = ledger.total_rsol_supply as int;
    let active = ledger.active as int;
    lemma_fundamental_div_mod(x, r);
    lemma_mod_bound(x, r);
    assert(d * r <= stake_amount * base) by (nonlinear_arith)
        requires
            x == r * d + x % r,
            0 <= x % r,
            x == stake_amount * base,
    ;
    let q = (supply * r) / base;
    lemma_fundamental_div_mod(supply * r, base);
    lemma_mod_bound(supply * r, base);
    assert(q <= active);
    assert((supply + d) * r < (active + stake_amount + 1) * base) by (nonlinear_arith)
        requires
            supply * r == base * q + (supply * r) % base,
            (supply * r) % base < base,
            q <= active,
            d * r <= stake_amount * base,
            base > 0,
    ;
    let after = (supply + d) * r;
    lemma_fundamental_div_mod(after, base);
    lemma_mod_bound(after, base);
    assert(after / base <= active + stake_amount) by (nonlinear_arith)
        requires
            after == base * (after / base) + after % base,
            0 <= after % base,
            after < (active + stake_amount + 1) * base,
            base > 0,
    ;
    assert(ctx.ledger_after(stake_amount).total_rsol_supply == supply + d);
    assert(ctx.ledger_after(stake_amount).active == active + stake_amount);
}

} // verus!
