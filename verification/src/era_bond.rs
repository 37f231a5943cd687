//! Putting newly staked value into delegation, as the era's work order asks.

use vstd::prelude::*;
use crate::actions::{Action, Outcome};
use crate::address::Address;
use crate::errors::Errors;
use crate::registry::{contains, lemma_push_contains, lemma_push_no_duplicates};
use crate::states::{EraProcessDataView, StakeManager, StakeManagerView};

verus! {

/// What a bond step works on.
#[derive(Clone, Debug, PartialEq, Eq)]
pub struct EraBond {
    pub stake_manager: StakeManager,
    /// The validator to delegate to.
    pub validator: Address,
    /// The custody address of the pool, the authority over its stake records.
    pub stake_pool: Address,
    /// A fresh record that takes the value to bond.
    pub stake_account: Address,
}

/// The record of an accepted bond step.
#[derive(Clone, Copy, Debug, PartialEq, Eq)]
pub struct EventEraBond {
    pub era: u64,
    pub stake_account: Address,
    pub bond_amount: u64,
}

impl EraBond {
    /// Why the step is refused, if it is: the first of the guards, in their order, that
    /// does not hold.
    pub open spec fn refusal(self) -> Option<Errors> {
        let ledger = self.stake_manager@;
        if ledger.era_process_data.need_bond == 0 {
            Some(Errors::EraNoNeedBond)
        } else if !ledger.validators.contains(self.validator) {
            Some(Errors::ValidatorNotExist)
        } else if ledger.tracks(self.stake_account) {
            Some(Errors::StakeAccountAlreadyExist)
        } else {
            None
        }
    }

    /// The ledger after an accepted step: nothing is left to bond, and the new record is
    /// active and awaits observation.
    pub open spec fn ledger_after(self) -> StakeManagerView {
        let ledger = self.stake_manager@;
        let order = ledger.era_process_data;
        StakeManagerView {
            stake_accounts: ledger.stake_accounts.push(self.stake_account),
            era_process_data: EraProcessDataView {
                need_bond: 0,
                pending_stake_accounts: order.pending_stake_accounts.push(self.stake_account),
                ..order
            },
            ..ledger
        }
    }

    /// The requests of an accepted step: all that is to bond moves from custody into the
    /// new record, which becomes a stake record of the pool and is delegated.
    pub open spec fn actions(self) -> Seq<Action> {
        seq![
            Action::Transfer {
                from: self.stake_pool,
                to: self.stake_account,
                lamports: self.stake_manager.era_process_data.need_bond,
            },
            Action::InitializeStake {
                stake_account: self.stake_account,
                staker: self.stake_pool,
                withdrawer: self.stake_pool,
            },
            Action::DelegateStake {
                stake_account: self.stake_account,
                authority: self.stake_pool,
                validator: self.validator,
            },
        ]
    }

    /// The record of an accepted step.
    pub open spec fn event(self) -> EventEraBond {
        EventEraBond {
            era: self.stake_manager.latest_era,
            stake_account: self.stake_account,
            bond_amount: self.stake_manager.era_process_data.need_bond,
        }
    }

    /// An accepted step keeps the registries well formed.
    pub proof fn lemma_ledger_after_wf(self)
        requires
            self.stake_manager@.wf(),
            self.refusal() is None,
        ensures
            self.ledger_after().wf(),
    {
        let ledger = self.stake_manager@;
        let after = self.ledger_after();
        let key = self.stake_account;
        let pending = ledger.era_process_data.pending_stake_accounts;
        lemma_push_no_duplicates(ledger.stake_accounts, key);
        lemma_push_no_duplicates(pending, key);
        assert forall|x: Address| after.stake_accounts.contains(x) implies
            !after.split_accounts.contains(x) by {
            lemma_push_contains(ledger.stake_accounts, key, x);
        }
        assert forall|x: Address|
            after.era_process_data.pending_stake_accounts.contains(
                x,
            ) implies after.stake_accounts.contains(x) by {
            lemma_push_contains(pending, key, x);
            lemma_push_contains(ledger.stake_accounts, key, x);
        }
    }

    /// How a run that returns `r` relates the state before it, `self`, to the state after
    /// it, `after`: what an accepted run has made of the ledger and hands back, and that a
    /// refused run names the first guard that failed and changes nothing.
    pub open spec fn yields(self, after: Self, r: Result<Outcome<EventEraBond>, Errors>) -> bool {
        &&& match r {
            Ok(out) => {
                &&& self.refusal() is None
                &&& after.stake_manager@ == self.ledger_after()
                &&& out.actions@ == self.actions()
                &&& out.event == self.event()
            },
            Err(e) => self.refusal() == Some(e) && after == self,
        }
        &&& after.validator == self.validator
        &&& after.stake_pool == self.stake_pool
        &&& after.stake_account == self.stake_account
    }

    /// Delegates all that is left to bond to `validator`, in a new record.
    pub fn process(&mut self) -> (r: Result<Outcome<EventEraBond>, Errors>)
        ensures
            old(self).yields(*final(self), r),
            old(self).stake_manager@.wf() ==> final(self).stake_manager@.wf(),
    {
        if !self.stake_manager.era_process_data.need_bond() {
            return Err(Errors::EraNoNeedBond);
        }
        if !contains(&self.stake_manager.validators, &self.validator) {
            return Err(Errors::ValidatorNotExist);
        }
        if contains(&self.stake_manager.stake_accounts, &self.stake_account) || contains(
            &self.stake_manager.split_accounts,
            &self.stake_account,
        ) {
            return Err(Errors::StakeAccountAlreadyExist);
        }
        proof {
            if self.stake_manager@.wf() {
                self.lemma_ledger_after_wf();
            }
        }
        let need_bond = self.stake_manager.era_process_data.need_bond;
        let mut actions: Vec<Action> = Vec::new();
        actions.push(
            Action::Transfer { from: self.stake_pool, to: self.stake_account, lamports: need_bond },
        );
        actions.push(
            Action::InitializeStake {
                stake_account: self.stake_account,
                staker: self.stake_pool,
                withdrawer: self.stake_pool,
            },
        );
        actions.push(
            Action::DelegateStake {
                stake_account: self.stake_account,
                authority: self.stake_pool,
                validator: self.validator,
            },
        );
        self.stake_manager.era_process_data.need_bond = 0;
        self.stake_manager.stake_accounts.push(self.stake_account);
        self.stake_manager.era_process_data.pending_stake_accounts.push(self.stake_account);
        proof {
            assert(actions@ =~= old(self).actions());
        }
        Ok(
            Outcome {
                event: EventEraBond {
                    era: self.stake_manager.latest_era,
                    stake_account: self.stake_account,
                    bond_amount: need_bond,
                },
                actions,
            },
        )
    }
}

} // verus!
