//! The ledger of a staking pool, its era work order, withdrawal requests, and the
//! fixed-point accounting between the base asset and the derivative balance.

use vstd::prelude::*;
use crate::address::Address;
use crate::errors::Errors;
use crate::registry::{disjoint, included};

verus! {

/// The quotient `a * b / c`, as a mathematical integer.
pub open spec fn mul_div(a: u64, b: u64, c: u64) -> int
    recommends
        c > 0,
{
    (a * b) / (c as int)
}

/// What a fixed-point computation yields: the quotient `a * b / c` where the divisor is
/// not zero and the quotient fits in 64 bits, and a calculation failure otherwise.
pub open spec fn checked_mul_div(a: u64, b: u64, c: u64) -> Result<u64, Errors> {
    if c > 0 && mul_div(a, b, c) <= u64::MAX {
        Ok(mul_div(a, b, c) as u64)
    } else {
        Err(Errors::CalculationFail)
    }
}

/// The derivative amount that `base_amount` of the base asset buys at `rate`.
pub open spec fn to_derivative(base_amount: u64, rate: u64) -> Result<u64, Errors> {
    checked_mul_div(base_amount, StakeManager::CAL_BASE, rate)
}

/// The base-asset value of `derivative_amount` at `rate`.
pub open spec fn to_base(derivative_amount: u64, rate: u64) -> Result<u64, Errors> {
    checked_mul_div(derivative_amount, rate, StakeManager::CAL_BASE)
}

/// The fee, in derivative units, kept from an unstake of `amount` derivative units.
pub open spec fn unstake_fee(amount: u64, commission: u64) -> Result<u64, Errors> {
    checked_mul_div(amount, commission, StakeManager::CAL_BASE)
}

/// The protocol's share of a reward of `reward` base units, in derivative units.
pub open spec fn protocol_fee(reward: u64, commission: u64, rate: u64) -> Result<u64, Errors> {
    checked_mul_div(reward, commission, rate)
}

/// The rate at which `supply` derivative units are worth `active` base units; the
/// one-to-one rate where either is zero.
pub open spec fn new_rate(active: u64, supply: u64) -> Result<u64, Errors> {
    if active == 0 || supply == 0 {
        Ok(StakeManager::CAL_BASE)
    } else {
        checked_mul_div(active, StakeManager::CAL_BASE, supply)
    }
}

/// The distance between two rates.
pub open spec fn rate_distance(old_rate: u64, new_rate: u64) -> u64 {
    if old_rate > new_rate {
        (old_rate - new_rate) as u64
    } else {
        (new_rate - old_rate) as u64
    }
}

/// The change from `old_rate` to `new_rate` as a fraction of `old_rate`; zero where
/// `old_rate` is zero.
pub open spec fn rate_change_fraction(old_rate: u64, new_rate: u64) -> Result<u64, Errors> {
    if old_rate == 0 {
        Ok(0)
    } else {
        checked_mul_div(rate_distance(old_rate, new_rate), StakeManager::CAL_BASE, old_rate)
    }
}

/// The work order of one era: what is still to bond, to unbond and to observe.
#[derive(Clone, Debug, PartialEq, Eq)]
pub struct EraProcessData {
    pub need_bond: u64,
    pub need_unbond: u64,
    pub old_active: u64,
    pub new_active: u64,
    pub pending_stake_accounts: Vec<Address>,
}

/// The value of an [`EraProcessData`].
pub ghost struct EraProcessDataView {
    pub need_bond: u64,
    pub need_unbond: u64,
    pub old_active: u64,
    pub new_active: u64,
    pub pending_stake_accounts: Seq<Address>,
}

impl View for EraProcessData {
    type V = EraProcessDataView;

    open spec fn view(&self) -> EraProcessDataView {
        EraProcessDataView {
            need_bond: self.need_bond,
            need_unbond: self.need_unbond,
            old_active: self.old_active,
            new_active: self.new_active,
            pending_stake_accounts: self.pending_stake_accounts@,
        }
    }
}

impl EraProcessDataView {
    /// The work order with nothing in it.
    pub open spec fn empty() -> EraProcessDataView {
        EraProcessDataView {
            need_bond: 0,
            need_unbond: 0,
            old_active: 0,
            new_active: 0,
            pending_stake_accounts: Seq::empty(),
        }
    }

    /// Nothing is in flight: all four amounts are zero and no record awaits observation.
    pub open spec fn is_empty(self) -> bool {
        self.need_bond == 0 && self.need_unbond == 0 && self.old_active == 0 && self.new_active
            == 0 && self.pending_stake_accounts.len() == 0
    }

    /// Records await observation: nothing is left to bond, and either nothing is left to
    /// unbond or some record is still pending.
    pub open spec fn need_update_active(self) -> bool {
        self.need_bond == 0 && (self.need_unbond == 0 || self.pending_stake_accounts.len() > 0)
    }

    /// The era awaits its rate settlement: bonding, unbonding and observation are done and
    /// both snapshots of the active value are non-zero.
    pub open spec fn need_update_rate(self) -> bool {
        self.need_bond == 0 && self.need_unbond == 0 && self.pending_stake_accounts.len() == 0
            && self.old_active != 0 && self.new_active != 0
    }
}

impl EraProcessData {
    /// A work order with nothing in it.
    pub fn new() -> (data: EraProcessData)
        ensures
            data@ == EraProcessDataView::empty(),
    {
        EraProcessData {
            need_bond: 0,
            need_unbond: 0,
            old_active: 0,
            new_active: 0,
            pending_stake_accounts: Vec::new(),
        }
    }

    pub fn is_empty(&self) -> (b: bool)
        ensures
            b == self@.is_empty(),
    {
        self.need_bond == 0 && self.need_unbond == 0 && self.old_active == 0 && self.new_active
            == 0 && self.pending_stake_accounts.len() == 0
    }

    pub fn need_bond(&self) -> (b: bool)
        ensures
            b == (self.need_bond > 0),
    {
        self.need_bond > 0
    }

    pub fn need_unbond(&self) -> (b: bool)
        ensures
            b == (self.need_unbond > 0),
    {
        self.need_unbond > 0
    }

    pub fn need_update_active(&self) -> (b: bool)
        ensures
            b == self@.need_update_active(),
    {
        self.need_bond == 0 && (self.need_unbond == 0 || self.pending_stake_accounts.len() > 0)
    }

    pub fn need_update_rate(&self) -> (b: bool)
        ensures
            b == self@.need_update_rate(),
    {
        self.need_bond == 0 && self.need_unbond == 0 && self.pending_stake_accounts.len() == 0
            && self.old_active != 0 && self.new_active != 0
    }
}

/// The ledger of one pool.
#[derive(Clone, Debug, PartialEq, Eq)]
pub struct StakeManager {
    pub admin: Address,
    pub balancer: Address,
    pub rsol_mint: Address,
    pub fee_recipient: Address,
    pub pool_seed_bump: u8,
    pub rent_exempt_for_pool_acc: u64,
    pub min_stake_amount: u64,
    pub unstake_fee_commission: u64,
    pub protocol_fee_commission: u64,
    pub rate_change_limit: u64,
    pub stake_accounts_len_limit: u64,
    pub split_accounts_len_limit: u64,
    pub unbonding_duration: u64,
    pub latest_era: u64,
    pub rate: u64,
    pub era_bond: u64,
    pub era_unbond: u64,
    pub active: u64,
    pub total_rsol_supply: u64,
    pub total_protocol_fee: u64,
    pub validators: Vec<Address>,
    pub stake_accounts: Vec<Address>,
    pub split_accounts: Vec<Address>,
    pub era_process_data: EraProcessData,
}

/// The ledger as it was laid out before the balancer's role existed.
#[derive(Clone, Debug, PartialEq, Eq)]
pub struct StakeManagerOld {
    pub admin: Address,
    pub rsol_mint: Address,
    pub fee_recipient: Address,
    pub pool_seed_bump: u8,
    pub rent_exempt_for_pool_acc: u64,
    pub min_stake_amount: u64,
    pub unstake_fee_commission: u64,
    pub protocol_fee_commission: u64,
    pub rate_change_limit: u64,
    pub stake_accounts_len_limit: u64,
    pub split_accounts_len_limit: u64,
    pub unbonding_duration: u64,
    pub latest_era: u64,
    pub rate: u64,
    pub era_bond: u64,
    pub era_unbond: u64,
    pub active: u64,
    pub total_rsol_supply: u64,
    pub total_protocol_fee: u64,
    pub validators: Vec<Address>,
    pub stake_accounts: Vec<Address>,
    pub split_accounts: Vec<Address>,
    pub era_process_data: EraProcessData,
}

/// The value of a [`StakeManager`].
pub ghost struct StakeManagerView {
    pub admin: Address,
    pub balancer: Address,
    pub rsol_mint: Address,
    pub fee_recipient: Address,
    pub pool_seed_bump: u8,
    pub rent_exempt_for_pool_acc: u64,
    pub min_stake_amount: u64,
    pub unstake_fee_commission: u64,
    pub protocol_fee_commission: u64,
    pub rate_change_limit: u64,
    pub stake_accounts_len_limit: u64,
    pub split_accounts_len_limit: u64,
    pub unbonding_duration: u64,
    pub latest_era: u64,
    pub rate: u64,
    pub era_bond: u64,
    pub era_unbond: u64,
    pub active: u64,
    pub total_rsol_supply: u64,
    pub total_protocol_fee: u64,
    pub validators: Seq<Address>,
    pub stake_accounts: Seq<Address>,
    pub split_accounts: Seq<Address>,
    pub era_process_data: EraProcessDataView,
}

impl View for StakeManager {
    type V = StakeManagerView;

    open spec fn view(&self) -> StakeManagerView {
        StakeManagerView {
            admin: self.admin,
            balancer: self.balancer,
            rsol_mint: self.rsol_mint,
            fee_recipient: self.fee_recipient,
            pool_seed_bump: self.pool_seed_bump,
            rent_exempt_for_pool_acc: self.rent_exempt_for_pool_acc,
            min_stake_amount: self.min_stake_amount,
            unstake_fee_commission: self.unstake_fee_commission,
            protocol_fee_commission: self.protocol_fee_commission,
            rate_change_limit: self.rate_change_limit,
            stake_accounts_len_limit: self.stake_accounts_len_limit,
            split_accounts_len_limit: self.split_accounts_len_limit,
            unbonding_duration: self.unbonding_duration,
            latest_era: self.latest_era,
            rate: self.rate,
            era_bond: self.era_bond,
            era_unbond: self.era_unbond,
            active: self.active,
            total_rsol_supply: self.total_rsol_supply,
            total_protocol_fee: self.total_protocol_fee,
            validators: self.validators@,
            stake_accounts: self.stake_accounts@,
            split_accounts: self.split_accounts@,
            era_process_data: self.era_process_data@,
        }
    }
}

impl StakeManagerView {
    /// The registries are sets: no list names an address twice, no record is both active
    /// and split off, and only active records await observation.
    pub open spec fn wf(self) -> bool {
        &&& self.validators.no_duplicates()
        &&& self.stake_accounts.no_duplicates()
        &&& self.split_accounts.no_duplicates()
        &&& self.era_process_data.pending_stake_accounts.no_duplicates()
        &&& disjoint(self.stake_accounts, self.split_accounts)
        &&& included(self.era_process_data.pending_stake_accounts, self.stake_accounts)
    }

    /// Whether `key` names a delegation record of the pool, active or split off.
    pub open spec fn tracks(self, key: Address) -> bool {
        self.stake_accounts.contains(key) || self.split_accounts.contains(key)
    }
}

impl StakeManager {
    pub const POOL_SEED: [u8; 9] = [112, 111, 111, 108, 95, 115, 101, 101, 100];

    pub const DEFAULT_UNBONDING_DURATION: u64 = 2;

    pub const CAL_BASE: u64 = 1_000_000_000;

    pub const DEFAULT_MIN_STAKE_AMOUNT: u64 = 1_000_000;

    pub const DEFAULT_UNSTAKE_FEE_COMMISSION: u64 = 0;

    pub const DEFAULT_PROTOCOL_FEE_COMMISSION: u64 = 100_000_000;

    pub const DEFAULT_RATE_CHANGE_LIMIT: u64 = 500_000;

    pub const DEFAULT_STAKE_ACCOUNT_LEN_LIMIT: u64 = 100;

    pub const DEFAULT_SPLIT_ACCOUNT_LEN_LIMIT: u64 = 20;

    /// `a * b / c` in 128-bit precision, narrowed to 64 bits.
    fn mul_div(a: u64, b: u64, c: u64) -> (r: Result<u64, Errors>)
        ensures
            r == checked_mul_div(a, b, c),
    {
        if c == 0 {
            return Err(Errors::CalculationFail);
        }
        assert((a as u128) * (b as u128) <= u128::MAX) by (nonlinear_arith)
            requires
                a <= u64::MAX,
                b <= u64::MAX,
        ;
        let q: u128 = (a as u128) * (b as u128) / (c as u128);
        match u64::try_from(q) {
            Ok(v) => Ok(v),
            Err(_) => Err(Errors::CalculationFail),
        }
    }

    pub fn calc_rsol_amount(&self, sol_amount: u64) -> (r: Result<u64, Errors>)
        ensures
            r == to_derivative(sol_amount, self.rate),
    {
        StakeManager::mul_div(sol_amount, StakeManager::CAL_BASE, self.rate)
    }

    pub fn calc_sol_amount(&self, rsol_amount: u64) -> (r: Result<u64, Errors>)
        ensures
            r == to_base(rsol_amount, self.rate),
    {
        StakeManager::mul_div(rsol_amount, self.rate, StakeManager::CAL_BASE)
    }

    pub fn calc_unstake_fee(&self, rsol_amount: u64) -> (r: Result<u64, Errors>)
        ensures
            r == unstake_fee(rsol_amount, self.unstake_fee_commission),
    {
        StakeManager::mul_div(rsol_amount, self.unstake_fee_commission, StakeManager::CAL_BASE)
    }

    pub fn calc_protocol_fee(&self, reward_sol: u64) -> (r: Result<u64, Errors>)
        ensures
            r == protocol_fee(reward_sol, self.protocol_fee_commission, self.rate),
    {
        StakeManager::mul_div(reward_sol, self.protocol_fee_commission, self.rate)
    }

    pub fn calc_rate(&self, sol_amount: u64, rsol_amount: u64) -> (r: Result<u64, Errors>)
        ensures
            r == new_rate(sol_amount, rsol_amount),
    {
        if sol_amount == 0 || rsol_amount == 0 {
            return Ok(StakeManager::CAL_BASE);
        }
        StakeManager::mul_div(sol_amount, StakeManager::CAL_BASE, rsol_amount)
    }

    pub fn calc_rate_change(&self, old_rate: u64, new_rate: u64) -> (r: Result<u64, Errors>)
        ensures
            r == rate_change_fraction(old_rate, new_rate),
    {
        if old_rate == 0 {
            return Ok(0);
        }
        let diff: u64 = if old_rate > new_rate {
            old_rate - new_rate
        } else {
            new_rate - old_rate
        };
        StakeManager::mul_div(diff, StakeManager::CAL_BASE, old_rate)
    }
}

/// One withdrawal request: `amount` of the base asset owed to `recipient`, claimable once
/// the unbonding duration has passed since `created_epoch`.
#[derive(Clone, Copy, Debug, PartialEq, Eq)]
pub struct UnstakeAccount {
    pub stake_manager: Address,
    pub recipient: Address,
    pub amount: u64,
    pub created_epoch: u64,
}

impl UnstakeAccount {
    /// Whether the request can be claimed in `current_epoch`: the unbonding duration has
    /// passed since the request was made.
    pub open spec fn spec_is_claimable(&self, unbonding_duration: u64, current_epoch: u64) -> bool {
        current_epoch >= self.created_epoch + unbonding_duration
    }

    /// Whether the request can be claimed in `current_epoch`.
    #[verifier::when_used_as_spec(spec_is_claimable)]
    pub fn is_claimable(&self, unbonding_duration: u64, current_epoch: u64) -> (b: bool)
        ensures
            b == self.spec_is_claimable(unbonding_duration, current_epoch),
    {
        match self.created_epoch.checked_add(unbonding_duration) {
            Some(claimable_from) => current_epoch >= claimable_from,
            None => false,
        }
    }
}

} // verus!
