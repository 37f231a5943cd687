//! Depositing the base asset for derivative units.

use vstd::prelude::*;
use crate::accounts::{MintManager, SystemAccount, TokenAccount};
use crate::actions::{Action, Outcome};
use crate::address::Address;
use crate::errors::Errors;
use crate::states::{to_derivative, StakeManager, StakeManagerView};

verus! {

/// What a stake works on.
#[derive(Clone, Debug, PartialEq, Eq)]
pub struct Stake {
    pub stake_manager: StakeManager,
    /// The custody address of the pool.
    pub stake_pool: Address,
    /// Who stakes, and what they hold of the base asset.
    pub from: SystemAccount,
    pub mint_manager: MintManager,
    /// The mint of the derivative units that the caller names.
    pub rsol_mint: Address,
    /// The account that is credited the derivative units.
    pub mint_to: TokenAccount,
}

/// The record of an accepted stake.
#[derive(Clone, Copy, Debug, PartialEq, Eq)]
pub struct EventStake {
    pub era: u64,
    pub staker: Address,
    pub mint_to: Address,
    pub stake_amount: u64,
    pub rsol_amount: u64,
}

impl Stake {
    /// The derivative units that `stake_amount` buys at the ledger's rate; meaningful
    /// where the conversion succeeds.
    pub open spec fn rsol_amount(self, stake_amount: u64) -> u64 {
        to_derivative(stake_amount, self.stake_manager.rate)->Ok_0
    }

    /// Why the stake of `stake_amount` is refused, if it is: the first of the guards, in
    /// their order, that does not hold.
    pub open spec fn refusal(self, stake_amount: u64) -> Option<Errors> {
        let ledger = self.stake_manager@;
        if ledger.rsol_mint != self.rsol_mint {
            Some(Errors::MintAccountNotMatch)
        } else if self.from.key != self.mint_to.owner {
            Some(Errors::MintToOwnerNotMatch)
        } else if self.mint_manager.rsol_mint != self.rsol_mint {
            Some(Errors::MintAccountNotMatch)
        } else if stake_amount < ledger.min_stake_amount {
            Some(Errors::StakeAmountTooLow)
        } else if self.from.lamports < stake_amount {
            Some(Errors::BalanceNotEnough)
        } else if to_derivative(stake_amount, ledger.rate) is Err {
            Some(Errors::CalculationFail)
        } else if ledger.era_bond + stake_amount > u64::MAX || ledger.active + stake_amount
            > u64::MAX || ledger.total_rsol_supply + self.rsol_amount(stake_amount) > u64::MAX {
            Some(Errors::CalculationFail)
        } else {
            None
        }
    }

    /// The ledger after an accepted stake: the amount is added to what the era has to bond
    /// and to the active value, its worth in derivative units to the supply.
    pub open spec fn ledger_after(self, stake_amount: u64) -> StakeManagerView {
        let ledger = self.stake_manager@;
        StakeManagerView {
            era_bond: (ledger.era_bond + stake_amount) as u64,
            active: (ledger.active + stake_amount) as u64,
            total_rsol_supply: (ledger.total_rsol_supply + self.rsol_amount(stake_amount)) as u64,
            ..ledger
        }
    }

    /// The requests of an accepted stake: the amount moves into custody, and its worth in
    /// derivative units is minted to the staker's token account.
    pub open spec fn actions(self, stake_amount: u64) -> Seq<Action> {
        seq![
            Action::Transfer { from: self.from.key, to: self.stake_pool, lamports: stake_amount },
            Action::MintToken { mint_to: self.mint_to.key, amount: self.rsol_amount(stake_amount) },
        ]
    }

    /// The record of an accepted stake.
    pub open spec fn event(self, stake_amount: u64) -> EventStake {
        EventStake {
            era: self.stake_manager.latest_era,
            staker: self.from.key,
            mint_to: self.mint_to.key,
            stake_amount,
            rsol_amount: self.rsol_amount(stake_amount),
        }
    }

    /// How a run that returns `r` relates the state before it, `self`, to the state after
    /// it, `after`: what an accepted run has made of the ledger and hands back, and that a
    /// refused run names the first guard that failed and changes nothing.
    pub open spec fn yields(
        self,
        after: Self,
        stake_amount: u64,
        r: Result<Outcome<EventStake>, Errors>,
    ) -> bool {
        &&& match r {
            Ok(out) => {
                &&& self.refusal(stake_amount) is None
                &&& after.stake_manager@ == self.ledger_after(stake_amount)
                &&& out.actions@ == self.actions(stake_amount)
                &&& out.event == self.event(stake_amount)
            },
            Err(e) => self.refusal(stake_amount) == Some(e) && after == self,
        }
        &&& after.stake_pool == self.stake_pool
        &&& after.from == self.from
        &&& after.mint_manager == self.mint_manager
        &&& after.rsol_mint == self.rsol_mint
        &&& after.mint_to == self.mint_to
    }

    /// Stakes `stake_amount` of the base asset.
    pub fn process(&mut self, stake_amount: u64) -> (r: Result<Outcome<EventStake>, Errors>)
        ensures
            old(self).yields(*final(self), stake_amount, r),
            old(self).stake_manager@.wf() ==> final(self).stake_manager@.wf(),
    {
        if self.stake_manager.rsol_mint != self.rsol_mint {
            return Err(Errors::MintAccountNotMatch);
        }
        if self.from.key != self.mint_to.owner {
            return Err(Errors::MintToOwnerNotMatch);
        }
        if self.mint_manager.rsol_mint != self.rsol_mint {
            return Err(Errors::MintAccountNotMatch);
        }
        if stake_amount < self.stake_manager.min_stake_amount {
            return Err(Errors::StakeAmountTooLow);
        }
        if self.from.lamports < stake_amount {
            return Err(Errors::BalanceNotEnough);
        }
        let rsol_amount = match self.stake_manager.calc_rsol_amount(stake_amount) {
            Ok(amount) => amount,
            Err(e) => {
                return Err(e);
            },
        };
        let era_bond = match self.stake_manager.era_bond.checked_add(stake_amount) {
            Some(sum) => sum,
            None => {
                return Err(Errors::CalculationFail);
            },
        };
        let active = match self.stake_manager.active.checked_add(stake_amount) {
            Some(sum) => sum,
            None => {
                return Err(Errors::CalculationFail);
            },
        };
        let supply = match self.stake_manager.total_rsol_supply.checked_add(rsol_amount) {
            Some(sum) => sum,
            None => {
                return Err(Errors::CalculationFail);
            },
        };
        self.stake_manager.era_bond = era_bond;
        self.stake_manager.active = active;
        self.stake_manager.total_rsol_supply = supply;
        let mut actions: Vec<Action> = Vec::new();
        actions.push(
            Action::Transfer { from: self.from.key, to: self.stake_pool, lamports: stake_amount },
        );
        actions.push(Action::MintToken { mint_to: self.mint_to.key, amount: rsol_amount });
        proof {
            assert(actions@ =~= old(self).actions(stake_amount));
        }
        Ok(
            Outcome {
                event: EventStake {
                    era: self.stake_manager.latest_era,
                    staker: self.from.key,
                    mint_to: self.mint_to.key,
                    stake_amount,
                    rsol_amount,
                },
                actions,
            },
        )
    }
}

} // verus!
