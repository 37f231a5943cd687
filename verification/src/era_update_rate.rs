//! Settling an era: the observed yield moves the exchange rate, within its limit.

use vstd::prelude::*;
use crate::actions::{Action, Outcome};
use crate::address::Address;
use crate::errors::Errors;
use crate::states::{
    new_rate, protocol_fee, rate_change_fraction, EraProcessDataView, StakeManager,
    StakeManagerView,
};

verus! {

/// What a rate settlement works on.
#[derive(Clone, Debug, PartialEq, Eq)]
pub struct EraUpdateRate {
    pub stake_manager: StakeManager,
    /// The token account that the caller names to take the protocol's fee.
    pub fee_recipient: Address,
}

/// The record of an accepted rate settlement.
#[derive(Clone, Copy, Debug, PartialEq, Eq)]
pub struct EventEraUpdateRate {
    pub era: u64,
    pub rate: u64,
    pub fee: u64,
}

/// The yield of an era: what was observed above the value at the era's opening.
pub open spec fn era_reward(old_active: u64, new_active: u64) -> u64 {
    if new_active > old_active {
        (new_active - old_active) as u64
    } else {
        0
    }
}

/// The active value after an era: the value before, moved by the difference between
/// what was observed and the value at the era's opening, and not below zero.
pub open spec fn settled_active(active: u64, old_active: u64, new_active: u64) -> int {
    if active + new_active > old_active {
        active + new_active - old_active
    } else {
        0
    }
}

impl EraUpdateRate {
    /// The yield that the era observed.
    pub open spec fn reward(self) -> u64 {
        let order = self.stake_manager.era_process_data;
        era_reward(order.old_active, order.new_active)
    }

    /// The protocol's fee on the yield, in derivative units; meaningful where its
    /// computation succeeds.
    pub open spec fn fee(self) -> u64 {
        protocol_fee(
            self.reward(),
            self.stake_manager.protocol_fee_commission,
            self.stake_manager.rate,
        )->Ok_0
    }

    /// The supply of derivative units once the fee is minted.
    pub open spec fn supply_after(self) -> int {
        self.stake_manager.total_rsol_supply + self.fee()
    }

    /// The active value that the settlement would commit.
    pub open spec fn candidate_active(self) -> int {
        let order = self.stake_manager.era_process_data;
        settled_active(self.stake_manager.active, order.old_active, order.new_active)
    }

    /// The rate that the settlement would commit; meaningful where the amounts are
    /// computable.
    pub open spec fn candidate_rate(self) -> u64 {
        new_rate(self.candidate_active() as u64, self.supply_after() as u64)->Ok_0
    }

    /// The change that the candidate rate makes, as a fraction of the ledger's rate;
    /// meaningful where the amounts are computable.
    pub open spec fn rate_change(self) -> u64 {
        rate_change_fraction(self.stake_manager.rate, self.candidate_rate())->Ok_0
    }

    /// Whether the amounts of the settlement can be computed and booked in 64 bits.
    pub open spec fn computable(self) -> bool {
        let ledger = self.stake_manager@;
        &&& protocol_fee(self.reward(), ledger.protocol_fee_commission, ledger.rate) is Ok
        &&& ledger.total_protocol_fee + self.fee() <= u64::MAX
        &&& self.supply_after() <= u64::MAX
        &&& self.candidate_active() <= u64::MAX
        &&& new_rate(self.candidate_active() as u64, self.supply_after() as u64) is Ok
        &&& rate_change_fraction(ledger.rate, self.candidate_rate()) is Ok
    }

    /// Why the settlement is refused, if it is: the first of the guards, in their order,
    /// that does not hold.
    pub open spec fn refusal(self) -> Option<Errors> {
        let ledger = self.stake_manager@;
        if ledger.fee_recipient != self.fee_recipient {
            Some(Errors::FeeRecipientNotMatch)
        } else if !ledger.era_process_data.need_update_rate() {
            Some(Errors::EraNoNeedUpdateRate)
        } else if !self.computable() {
            Some(Errors::CalculationFail)
        } else if self.rate_change() > ledger.rate_change_limit {
            Some(Errors::RateChangeOverLimit)
        } else {
            None
        }
    }

    /// The ledger after an accepted settlement: the fee is added to the protocol's fees
    /// and to the supply, the candidate active value and rate are committed, and the work
    /// order is used up.
    pub open spec fn ledger_after(self) -> StakeManagerView {
        let ledger = self.stake_manager@;
        StakeManagerView {
            total_protocol_fee: (ledger.total_protocol_fee + self.fee()) as u64,
            total_rsol_supply: self.supply_after() as u64,
            active: self.candidate_active() as u64,
            rate: self.candidate_rate(),
            era_process_data: EraProcessDataView {
                old_active: 0,
                new_active: 0,
                ..ledger.era_process_data
            },
            ..ledger
        }
    }

    /// The requests of an accepted settlement: a fee that is not zero is minted to the
    /// fee recipient.
    pub open spec fn actions(self) -> Seq<Action> {
        if self.fee() > 0 {
            seq![Action::MintToken { mint_to: self.fee_recipient, amount: self.fee() }]
        } else {
            Seq::empty()
        }
    }

    /// The record of an accepted settlement.
    pub open spec fn event(self) -> EventEraUpdateRate {
        EventEraUpdateRate {
            era: self.stake_manager.latest_era,
            rate: self.candidate_rate(),
            fee: self.fee(),
        }
    }

    /// How a run that returns `r` relates the state before it, `self`, to the state after
    /// it, `after`: what an accepted run has made of the ledger and hands back, and that a
    /// refused run names the first guard that failed and changes nothing.
    pub open spec fn yields(
        self,
        after: Self,
        r: Result<Outcome<EventEraUpdateRate>, Errors>,
    ) -> bool {
        &&& match r {
            Ok(out) => {
                &&& self.refusal() is None
                &&& after.stake_manager@ == self.ledger_after()
                &&& out.actions@ == self.actions()
                &&& out.event == self.event()
                &&& rate_change_fraction(
                    self.stake_manager.rate,
                    after.stake_manager.rate,
                ) is Ok
                &&& rate_change_fraction(
                    self.stake_manager.rate,
                    after.stake_manager.rate,
                )->Ok_0 <= self.stake_manager.rate_change_limit
                &&& after.stake_manager@.era_process_data.is_empty()
            },
            Err(e) => self.refusal() == Some(e) && after == self,
        }
        &&& after.fee_recipient == self.fee_recipient
    }

    /// Settles the era. A rate is committed only if its change from the rate before, as a
    /// fraction of that rate, is within the ledger's limit; the work order is empty
    /// afterwards.
    pub fn process(&mut self) -> (r: Result<Outcome<EventEraUpdateRate>, Errors>)
        ensures
            old(self).yields(*final(self), r),
            r is Ok ==> rate_change_fraction(
                old(self).stake_manager.rate,
                final(self).stake_manager.rate,
            ) is Ok && rate_change_fraction(
                old(self).stake_manager.rate,
                final(self).stake_manager.rate,
            )->Ok_0 <= old(self).stake_manager.rate_change_limit,
            r is Err ==> final(self).stake_manager.rate == old(self).stake_manager.rate,
            old(self).stake_manager@.wf() ==> final(self).stake_manager@.wf(),
    {
        if self.stake_manager.fee_recipient != self.fee_recipient {
            return Err(Errors::FeeRecipientNotMatch);
        }
        if !self.stake_manager.era_process_data.need_update_rate() {
            return Err(Errors::EraNoNeedUpdateRate);
        }
        let old_active = self.stake_manager.era_process_data.old_active;
        let observed = self.stake_manager.era_process_data.new_active;
        let reward = if observed > old_active {
            observed - old_active
        } else {
            0
        };
        let protocol_fee = match self.stake_manager.calc_protocol_fee(reward) {
            Ok(fee) => fee,
            Err(e) => {
                return Err(e);
            },
        };
        let total_protocol_fee = match self.stake_manager.total_protocol_fee.checked_add(
            protocol_fee,
        ) {
            Some(sum) => sum,
            None => {
                return Err(Errors::CalculationFail);
            },
        };
        let supply = match self.stake_manager.total_rsol_supply.checked_add(protocol_fee) {
            Some(sum) => sum,
            None => {
                return Err(Errors::CalculationFail);
            },
        };
        let cal_temp: u128 = self.stake_manager.active as u128 + observed as u128;
        let wide_active: u128 = if cal_temp > old_active as u128 {
            cal_temp - old_active as u128
        } else {
            0
        };
        let new_active = match u64::try_from(wide_active) {
            Ok(v) => v,
            Err(_) => {
                return Err(Errors::CalculationFail);
            },
        };
        let new_rate = match self.stake_manager.calc_rate(new_active, supply) {
            Ok(rate) => rate,
            Err(e) => {
                return Err(e);
            },
        };
        let rate_change = match self.stake_manager.calc_rate_change(
            self.stake_manager.rate,
            new_rate,
        ) {
            Ok(change) => change,
            Err(e) => {
                return Err(e);
            },
        };
        if rate_change > self.stake_manager.rate_change_limit {
            return Err(Errors::RateChangeOverLimit);
        }
        let mut actions: Vec<Action> = Vec::new();
        if protocol_fee > 0 {
            actions.push(Action::MintToken { mint_to: self.fee_recipient, amount: protocol_fee });
        }
        self.stake_manager.total_protocol_fee = total_protocol_fee;
        self.stake_manager.total_rsol_supply = supply;
        self.stake_manager.era_process_data.old_active = 0;
        self.stake_manager.era_process_data.new_active = 0;
        self.stake_manager.active = new_active;
        self.stake_manager.rate = new_rate;
        proof {
            assert(actions@ =~= old(self).actions());
        }
        Ok(
            Outcome {
                event: EventEraUpdateRate {
                    era: self.stake_manager.latest_era,
                    rate: new_rate,
                    fee: protocol_fee,
                },
                actions,
            },
        )
    }
}

} // verus!
