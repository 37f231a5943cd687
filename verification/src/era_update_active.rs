//! Observing what an active record holds after the era's yield.

use vstd::prelude::*;
use crate::accounts::StakeAccount;
use crate::actions::Outcome;
use crate::address::Address;
use crate::errors::Errors;
use crate::registry::{
    contains, lemma_without_contains, lemma_without_no_duplicates, remove, without,
};
use crate::states::{EraProcessDataView, StakeManager, StakeManagerView};

verus! {

/// What an observation works on.
#[derive(Clone, Debug, PartialEq, Eq)]
pub struct EraUpdateActive {
    pub stake_manager: StakeManager,
    /// The record that is observed.
    pub stake_account: StakeAccount,
}

/// The record of an accepted observation.
#[derive(Clone, Copy, Debug, PartialEq, Eq)]
pub struct EventEraUpdateActive {
    pub era: u64,
    pub stake_account: Address,
    pub stake_amount: u64,
}

impl EraUpdateActive {
    /// Why the observation is refused, if it is: the first of the guards, in their order,
    /// that does not hold.
    pub open spec fn refusal(self) -> Option<Errors> {
        let order = self.stake_manager@.era_process_data;
        if !order.need_update_active() {
            Some(Errors::EraNoNeedUpdateActive)
        } else if !order.pending_stake_accounts.contains(self.stake_account.key) {
            Some(Errors::StakeAccountNotExist)
        } else {
            match self.stake_account.delegation {
                None => Some(Errors::DelegationEmpty),
                Some(delegation) => if !delegation.is_active() {
                    Some(Errors::StakeAccountNotActive)
                } else if order.new_active + delegation.stake > u64::MAX {
                    Some(Errors::CalculationFail)
                } else {
                    None
                },
            }
        }
    }

    /// The ledger after an accepted observation: the record no longer awaits observation,
    /// and its delegated value is added to the observed active value.
    pub open spec fn ledger_after(self) -> StakeManagerView {
        let ledger = self.stake_manager@;
        let order = ledger.era_process_data;
        StakeManagerView {
            era_process_data: EraProcessDataView {
                new_active: (order.new_active + self.stake_account.delegation->0.stake) as u64,
                pending_stake_accounts: without(
                    order.pending_stake_accounts,
                    self.stake_account.key,
                ),
                ..order
            },
            ..ledger
        }
    }

    /// The record of an accepted observation.
    pub open spec fn event(self) -> EventEraUpdateActive {
        EventEraUpdateActive {
            era: self.stake_manager.latest_era,
            stake_account: self.stake_account.key,
            stake_amount: self.stake_account.delegation->0.stake,
        }
    }

    /// An accepted observation keeps the registries well formed.
    pub proof fn lemma_ledger_after_wf(self)
        requires
            self.stake_manager@.wf(),
            self.refusal() is None,
        ensures
            self.ledger_after().wf(),
    {
        let ledger = self.stake_manager@;
        let after = self.ledger_after();
        let pending = ledger.era_process_data.pending_stake_accounts;
        lemma_without_no_duplicates(pending, self.stake_account.key);
        assert forall|x: Address|
            after.era_process_data.pending_stake_accounts.contains(
                x,
            ) implies after.stake_accounts.contains(x) by {
            lemma_without_contains(pending, self.stake_account.key, x);
        }
    }

    /// How a run that returns `r` relates the state before it, `self`, to the state after
    /// it, `after`: what an accepted run has made of the ledger and hands back, and that a
    /// refused run names the first guard that failed and changes nothing.
    pub open spec fn yields(
        self,
        after: Self,
        r: Result<Outcome<EventEraUpdateActive>, Errors>,
    ) -> bool {
        &&& match r {
            Ok(out) => {
                &&& self.refusal() is None
                &&& after.stake_manager@ == self.ledger_after()
                &&& out.actions@ == Seq::<crate::actions::Action>::empty()
                &&& out.event == self.event()
            },
            Err(e) => self.refusal() == Some(e) && after == self,
        }
        &&& after.stake_account == self.stake_account
    }

    /// Observes one pending record. Nothing is asked of the collaborators.
    pub fn process(&mut self) -> (r: Result<Outcome<EventEraUpdateActive>, Errors>)
        ensures
            old(self).yields(*final(self), r),
            old(self).stake_manager@.wf() ==> final(self).stake_manager@.wf(),
    {
        if !self.stake_manager.era_process_data.need_update_active() {
            return Err(Errors::EraNoNeedUpdateActive);
        }
        if !contains(
            &self.stake_manager.era_process_data.pending_stake_accounts,
            &self.stake_account.key,
        ) {
            return Err(Errors::StakeAccountNotExist);
        }
        let delegation = match self.stake_account.delegation {
            Some(delegation) => delegation,
            None => {
                return Err(Errors::DelegationEmpty);
            },
        };
        if !delegation.is_active() {
            return Err(Errors::StakeAccountNotActive);
        }
        let new_active = match self.stake_manager.era_process_data.new_active.checked_add(
            delegation.stake,
        ) {
            Some(sum) => sum,
            None => {
                return Err(Errors::CalculationFail);
            },
        };
        proof {
            if self.stake_manager@.wf() {
                self.lemma_ledger_after_wf();
            }
        }
        remove(
            &mut self.stake_manager.era_process_data.pending_stake_accounts,
            &self.stake_account.key,
        );
        self.stake_manager.era_process_data.new_active = new_active;
        Ok(
            Outcome {
                event: EventEraUpdateActive {
                    era: self.stake_manager.latest_era,
                    stake_account: self.stake_account.key,
                    stake_amount: delegation.stake,
                },
                actions: Vec::new(),
            },
        )
    }
}

} // verus!
