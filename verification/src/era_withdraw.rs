//! Taking a deactivated split record back into custody.

use vstd::prelude::*;
use crate::accounts::StakeAccount;
use crate::actions::{Action, Outcome};
use crate::address::Address;
use crate::errors::Errors;
use crate::registry::{
    contains, lemma_without_contains, lemma_without_no_duplicates, remove, without,
};
use crate::states::{StakeManager, StakeManagerView};

verus! {

/// What the withdrawal of a split record works on.
#[derive(Clone, Debug, PartialEq, Eq)]
pub struct EraWithdraw {
    pub stake_manager: StakeManager,
    /// The custody address of the pool, the authority over its stake records.
    pub stake_pool: Address,
    /// The split record that is withdrawn.
    pub stake_account: StakeAccount,
}

/// The record of an accepted withdrawal of a split record.
#[derive(Clone, Copy, Debug, PartialEq, Eq)]
pub struct EventEraWithdraw {
    pub era: u64,
    pub stake_account: Address,
    pub withdraw_amount: u64,
}

impl EraWithdraw {
    /// Why the withdrawal is refused, if it is: the first of the guards, in their order,
    /// that does not hold.
    pub open spec fn refusal(self) -> Option<Errors> {
        let ledger = self.stake_manager@;
        if !ledger.split_accounts.contains(self.stake_account.key) {
            Some(Errors::StakeAccountNotExist)
        } else {
            match self.stake_account.delegation {
                None => Some(Errors::DelegationEmpty),
                Some(delegation) => if delegation.is_active() {
                    Some(Errors::StakeAccountActive)
                } else {
                    None
                },
            }
        }
    }

    /// The ledger after an accepted withdrawal: the record is no longer a split record.
    pub open spec fn ledger_after(self) -> StakeManagerView {
        let ledger = self.stake_manager@;
        StakeManagerView {
            split_accounts: without(ledger.split_accounts, self.stake_account.key),
            ..ledger
        }
    }

    /// The one request of an accepted withdrawal: all that the record holds moves into
    /// custody.
    pub open spec fn actions(self) -> Seq<Action> {
        seq![
            Action::WithdrawStake {
                stake_account: self.stake_account.key,
                withdrawer: self.stake_pool,
                to: self.stake_pool,
                lamports: self.stake_account.lamports,
            },
        ]
    }

    /// The record of an accepted withdrawal.
    pub open spec fn event(self) -> EventEraWithdraw {
        EventEraWithdraw {
            era: self.stake_manager.latest_era,
            stake_account: self.stake_account.key,
            withdraw_amount: self.stake_account.lamports,
        }
    }

    /// An accepted withdrawal keeps the registries well formed.
    pub proof fn lemma_ledger_after_wf(self)
        requires
            self.stake_manager@.wf(),
            self.refusal() is None,
        ensures
            self.ledger_after().wf(),
    {
        let ledger = self.stake_manager@;
        let after = self.ledger_after();
        lemma_without_no_duplicates(ledger.split_accounts, self.stake_account.key);
        assert forall|x: Address| after.stake_accounts.contains(x) implies
            !after.split_accounts.contains(x) by {
            lemma_without_contains(ledger.split_accounts, self.stake_account.key, x);
        }
    }

    /// How a run that returns `r` relates the state before it, `self`, to the state after
    /// it, `after`: what an accepted run has made of the ledger and hands back, and that a
    /// refused run names the first guard that failed and changes nothing.
    pub open spec fn yields(
        self,
        after: Self,
        r: Result<Outcome<EventEraWithdraw>, Errors>,
    ) -> bool {
        &&& match r {
            Ok(out) => {
                &&& self.refusal() is None
                &&& after.stake_manager@ == self.ledger_after()
                &&& out.actions@ == self.actions()
                &&& out.event == self.event()
            },
            Err(e) => self.refusal() == Some(e) && after == self,
        }
        &&& after.stake_pool == self.stake_pool
        &&& after.stake_account == self.stake_account
    }

    /// Withdraws a deactivated split record into custody.
    pub fn process(&mut self) -> (r: Result<Outcome<EventEraWithdraw>, Errors>)
        ensures
            old(self).yields(*final(self), r),
            old(self).stake_manager@.wf() ==> final(self).stake_manager@.wf(),
    {
        if !contains(&self.stake_manager.split_accounts, &self.stake_account.key) {
            return Err(Errors::StakeAccountNotExist);
        }
        let delegation = match self.stake_account.delegation {
            Some(delegation) => delegation,
            None => {
                return Err(Errors::DelegationEmpty);
            },
        };
        if delegation.is_active() {
            return Err(Errors::StakeAccountActive);
        }
        proof {
            if self.stake_manager@.wf() {
                self.lemma_ledger_after_wf();
            }
        }
        let withdraw_amount = self.stake_account.lamports;
        let mut actions: Vec<Action> = Vec::new();
        actions.push(
            Action::WithdrawStake {
                stake_account: self.stake_account.key,
                withdrawer: self.stake_pool,
                to: self.stake_pool,
                lamports: withdraw_amount,
            },
        );
        remove(&mut self.stake_manager.split_accounts, &self.stake_account.key);
        proof {
            assert(actions@ =~= old(self).actions());
        }
        Ok(
            Outcome {
                event: EventEraWithdraw {
                    era: self.stake_manager.latest_era,
                    stake_account: self.stake_account.key,
                    withdraw_amount,
                },
                actions,
            },
        )
    }
}

} // verus!
