//! Taking delegated value out of delegation, as the era's work order asks.

use vstd::prelude::*;
use crate::accounts::StakeAccount;
use crate::actions::{Action, Outcome};
use crate::address::Address;
use crate::errors::Errors;
use crate::registry::{
    contains, lemma_push_contains, lemma_push_no_duplicates, lemma_without_contains,
    lemma_without_no_duplicates, remove, without,
};
use crate::states::{EraProcessDataView, StakeManager, StakeManagerView};

verus! {

/// What an unbond step works on.
#[derive(Clone, Debug, PartialEq, Eq)]
pub struct EraUnbond {
    pub stake_manager: StakeManager,
    /// The custody address of the pool, the authority over its stake records.
    pub stake_pool: Address,
    /// The active record to take value from.
    pub from_stake_account: StakeAccount,
    /// A fresh record that takes the part carved off, where only a part is unbonded.
    pub split_stake_account: StakeAccount,
    /// The validator that the source record is expected to be delegated to.
    pub validator: Address,
    /// Who paid the reserve of the fresh record.
    pub rent_payer: Address,
}

/// The record of an accepted unbond step.
#[derive(Clone, Copy, Debug, PartialEq, Eq)]
pub struct EventEraUnbond {
    pub era: u64,
    pub from_stake_account: Address,
    pub split_account: Address,
    pub unbond_amount: u64,
}

impl EraUnbond {
    /// Why the step is refused, if it is: the first of the guards, in their order, that
    /// does not hold.
    pub open spec fn refusal(self) -> Option<Errors> {
        let ledger = self.stake_manager@;
        if ledger.era_process_data.need_unbond == 0 {
            Some(Errors::EraNoNeedUnBond)
        } else if !ledger.stake_accounts.contains(self.from_stake_account.key) {
            Some(Errors::StakeAccountNotExist)
        } else if ledger.tracks(self.split_stake_account.key) {
            Some(Errors::SplitStakeAccountAlreadyExist)
        } else {
            match self.from_stake_account.delegation {
                None => Some(Errors::DelegationEmpty),
                Some(delegation) => if delegation.voter_pubkey != self.validator {
                    Some(Errors::ValidatorNotMatch)
                } else {
                    None
                },
            }
        }
    }

    /// Whether the source record is deactivated whole: its delegated value does not
    /// exceed what is left to unbond.
    pub open spec fn is_whole(self) -> bool {
        self.from_stake_account.delegation is Some && self.from_stake_account.delegation->0.stake
            <= self.stake_manager.era_process_data.need_unbond
    }

    /// The record that is deactivated: the whole source record, or the part split off.
    pub open spec fn deactivated_account(self) -> Address {
        if self.is_whole() {
            self.from_stake_account.key
        } else {
            self.split_stake_account.key
        }
    }

    /// The amount that is deactivated: the whole delegated value of the source record, or
    /// exactly what is left to unbond.
    pub open spec fn deactivated_amount(self) -> u64 {
        if self.is_whole() {
            self.from_stake_account.delegation->0.stake
        } else {
            self.stake_manager.era_process_data.need_unbond
        }
    }

    /// The ledger after an accepted step: a source record deactivated whole leaves the
    /// active and the pending records; the deactivated record joins the split records and
    /// its amount is taken off what is left to unbond.
    pub open spec fn ledger_after(self) -> StakeManagerView {
        let ledger = self.stake_manager@;
        let from = self.from_stake_account.key;
        let order = ledger.era_process_data;
        StakeManagerView {
            stake_accounts: if self.is_whole() {
                without(ledger.stake_accounts, from)
            } else {
                ledger.stake_accounts
            },
            split_accounts: ledger.split_accounts.push(self.deactivated_account()),
            era_process_data: EraProcessDataView {
                need_unbond: (order.need_unbond - self.deactivated_amount()) as u64,
                pending_stake_accounts: if self.is_whole() {
                    without(order.pending_stake_accounts, from)
                } else {
                    order.pending_stake_accounts
                },
                ..order
            },
            ..ledger
        }
    }

    /// The requests of an accepted step: the return of the unused split record's reserve
    /// to its payer, or the split of the source record; then the deactivation.
    pub open spec fn actions(self) -> Seq<Action> {
        let first = if self.is_whole() {
            Action::WithdrawStake {
                stake_account: self.split_stake_account.key,
                withdrawer: self.split_stake_account.key,
                to: self.rent_payer,
                lamports: self.split_stake_account.lamports,
            }
        } else {
            Action::SplitStake {
                stake_account: self.from_stake_account.key,
                authority: self.stake_pool,
                lamports: self.stake_manager.era_process_data.need_unbond,
                split_to: self.split_stake_account.key,
            }
        };
        seq![
            first,
            Action::DeactivateStake {
                stake_account: self.deactivated_account(),
                staker: self.stake_pool,
            },
        ]
    }

    /// The record of an accepted step.
    pub open spec fn event(self) -> EventEraUnbond {
        EventEraUnbond {
            era: self.stake_manager.latest_era,
            from_stake_account: self.from_stake_account.key,
            split_account: self.deactivated_account(),
            unbond_amount: self.deactivated_amount(),
        }
    }

    /// An accepted step keeps the registries well formed.
    pub proof fn lemma_ledger_after_wf(self)
        requires
            self.stake_manager@.wf(),
            self.refusal() is None,
        ensures
            self.ledger_after().wf(),
    {
        let ledger = self.stake_manager@;
        let after = self.ledger_after();
        let from = self.from_stake_account.key;
        let gone = self.deactivated_account();
        let pending = ledger.era_process_data.pending_stake_accounts;
        lemma_without_no_duplicates(ledger.stake_accounts, from);
        lemma_without_no_duplicates(pending, from);
        lemma_push_no_duplicates(ledger.split_accounts, gone);
        assert forall|x: Address| after.stake_accounts.contains(x) implies
            !after.split_accounts.contains(x) by {
            lemma_push_contains(ledger.split_accounts, gone, x);
            lemma_without_contains(ledger.stake_accounts, from, x);
        }
        assert forall|x: Address|
            after.era_process_data.pending_stake_accounts.contains(
                x,
            ) implies after.stake_accounts.contains(x) by {
            lemma_without_contains(pending, from, x);
            lemma_without_contains(ledger.stake_accounts, from, x);
        }
    }

    /// How a run that returns `r` relates the state before it, `self`, to the state after
    /// it, `after`: what an accepted run has made of the ledger and hands back, and that a
    /// refused run names the first guard that failed and changes nothing.
    pub open spec fn yields(self, after: Self, r: Result<Outcome<EventEraUnbond>, Errors>) -> bool {
        &&& match r {
            Ok(out) => {
                &&& self.refusal() is None
                &&& after.stake_manager@ == self.ledger_after()
                &&& out.actions@ == self.actions()
                &&& out.event == self.event()
            },
            Err(e) => self.refusal() == Some(e) && after == self,
        }
        &&& after.stake_pool == self.stake_pool
        &&& after.from_stake_account == self.from_stake_account
        &&& after.split_stake_account == self.split_stake_account
        &&& after.validator == self.validator
        &&& after.rent_payer == self.rent_payer
    }

    /// Deactivates one record's worth of what is left to unbond.
    pub fn process(&mut self) -> (r: Result<Outcome<EventEraUnbond>, Errors>)
        ensures
            old(self).yields(*final(self), r),
            old(self).stake_manager@.wf() ==> final(self).stake_manager@.wf(),
    {
        if !self.stake_manager.era_process_data.need_unbond() {
            return Err(Errors::EraNoNeedUnBond);
        }
        if !contains(&self.stake_manager.stake_accounts, &self.from_stake_account.key) {
            return Err(Errors::StakeAccountNotExist);
        }
        if contains(&self.stake_manager.stake_accounts, &self.split_stake_account.key) || contains(
            &self.stake_manager.split_accounts,
            &self.split_stake_account.key,
        ) {
            return Err(Errors::SplitStakeAccountAlreadyExist);
        }
        let delegation = match self.from_stake_account.delegation {
            Some(delegation) => delegation,
            None => {
                return Err(Errors::DelegationEmpty);
            },
        };
        if delegation.voter_pubkey != self.validator {
            return Err(Errors::ValidatorNotMatch);
        }
        proof {
            if self.stake_manager@.wf() {
                self.lemma_ledger_after_wf();
            }
        }
        let total_need_unbond = self.stake_manager.era_process_data.need_unbond;
        let mut actions: Vec<Action> = Vec::new();
        let (gone, amount) = if delegation.stake <= total_need_unbond {
            actions.push(
                Action::WithdrawStake {
                    stake_account: self.split_stake_account.key,
                    withdrawer: self.split_stake_account.key,
                    to: self.rent_payer,
                    lamports: self.split_stake_account.lamports,
                },
            );
            remove(&mut self.stake_manager.stake_accounts, &self.from_stake_account.key);
            remove(
                &mut self.stake_manager.era_process_data.pending_stake_accounts,
                &self.from_stake_account.key,
            );
            (self.from_stake_account.key, delegation.stake)
        } else {
            actions.push(
                Action::SplitStake {
                    stake_account: self.from_stake_account.key,
                    authority: self.stake_pool,
                    lamports: total_need_unbond,
                    split_to: self.split_stake_account.key,
                },
            );
            (self.split_stake_account.key, total_need_unbond)
        };
        actions.push(Action::DeactivateStake { stake_account: gone, staker: self.stake_pool });
        self.stake_manager.split_accounts.push(gone);
        self.stake_manager.era_process_data.need_unbond = total_need_unbond - amount;
        proof {
            assert(actions@ =~= old(self).actions());
        }
        Ok(
            Outcome {
                event: EventEraUnbond {
                    era: self.stake_manager.latest_era,
                    from_stake_account: self.from_stake_account.key,
                    split_account: gone,
                    unbond_amount: amount,
                },
                actions,
            },
        )
    }
}

} // verus!
