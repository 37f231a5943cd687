//! Moving delegated value from one validator to another between era cycles.

use vstd::prelude::*;
use crate::accounts::StakeAccount;
use crate::actions::{Action, Outcome};
use crate::address::Address;
use crate::errors::Errors;
use crate::registry::{
    contains, lemma_push_contains, lemma_push_no_duplicates, lemma_without_contains,
    lemma_without_no_duplicates, remove, without,
};
use crate::states::{StakeManager, StakeManagerView};

verus! {

/// What a redelegation works on.
#[derive(Clone, Debug, PartialEq, Eq)]
pub struct Redelegate {
    pub stake_manager: StakeManager,
    /// Who asks for the redelegation.
    pub balancer: Address,
    pub to_validator: Address,
    /// The custody address of the pool, the authority over its stake records.
    pub stake_pool: Address,
    pub from_stake_account: StakeAccount,
    /// A fresh record that takes the part carved off, where only a part moves.
    pub split_stake_account: StakeAccount,
    /// A fresh record that takes the moved delegation.
    pub to_stake_account: Address,
    /// Who paid the reserve of the fresh records.
    pub rent_payer: Address,
}

/// The record of an accepted redelegation.
#[derive(Clone, Copy, Debug, PartialEq, Eq)]
pub struct EventRedelegate {
    pub from_stake_account: Address,
    pub to_stake_account: Address,
    pub redelegate_amount: u64,
}

impl Redelegate {
    /// Why the redelegation of `redelegate_amount` is refused, if it is: the first of the
    /// guards, in their order, that does not hold.
    pub open spec fn refusal(self, redelegate_amount: u64) -> Option<Errors> {
        let ledger = self.stake_manager@;
        if ledger.balancer != self.balancer {
            Some(Errors::BalancerNotMatch)
        } else if redelegate_amount == 0 {
            Some(Errors::AmountUnmatch)
        } else if !ledger.era_process_data.is_empty() {
            Some(Errors::EraIsProcessing)
        } else if !ledger.stake_accounts.contains(self.from_stake_account.key) {
            Some(Errors::StakeAccountNotExist)
        } else if ledger.tracks(self.to_stake_account) {
            Some(Errors::StakeAccountAlreadyExist)
        } else if ledger.tracks(self.split_stake_account.key) || self.split_stake_account.key
            == self.to_stake_account {
            Some(Errors::SplitStakeAccountAlreadyExist)
        } else if !ledger.validators.contains(self.to_validator) {
            Some(Errors::ValidatorNotExist)
        } else {
            match self.from_stake_account.delegation {
                None => Some(Errors::DelegationEmpty),
                Some(delegation) => if !delegation.is_active() {
                    Some(Errors::StakeAccountNotActive)
                } else if self.to_validator == delegation.voter_pubkey {
                    Some(Errors::ValidatorNotMatch)
                } else if delegation.stake < redelegate_amount {
                    Some(Errors::AmountUnmatch)
                } else {
                    None
                },
            }
        }
    }

    /// Whether only a part of the source record moves, so that it is split first.
    pub open spec fn is_partial(self, redelegate_amount: u64) -> bool {
        self.from_stake_account.delegation is Some && redelegate_amount
            < self.from_stake_account.delegation->0.stake
    }

    /// The record whose delegation moves: the part split off, or the whole source record.
    pub open spec fn moved_account(self, redelegate_amount: u64) -> Address {
        if self.is_partial(redelegate_amount) {
            self.split_stake_account.key
        } else {
            self.from_stake_account.key
        }
    }

    /// The ledger after an accepted redelegation: a source record that moves whole leaves
    /// the active records, the moved record joins the split records, and the target
    /// record joins the active ones.
    pub open spec fn ledger_after(self, redelegate_amount: u64) -> StakeManagerView {
        let ledger = self.stake_manager@;
        let remaining = if self.is_partial(redelegate_amount) {
            ledger.stake_accounts
        } else {
            without(ledger.stake_accounts, self.from_stake_account.key)
        };
        StakeManagerView {
            stake_accounts: remaining.push(self.to_stake_account),
            split_accounts: ledger.split_accounts.push(self.moved_account(redelegate_amount)),
            ..ledger
        }
    }

    /// The requests of an accepted redelegation: the split of the source record, or the
    /// return of the unused split record's reserve to its payer; then the redelegation.
    pub open spec fn actions(self, redelegate_amount: u64) -> Seq<Action> {
        let first = if self.is_partial(redelegate_amount) {
            Action::SplitStake {
                stake_account: self.from_stake_account.key,
                authority: self.stake_pool,
                lamports: redelegate_amount,
                split_to: self.split_stake_account.key,
            }
        } else {
            Action::WithdrawStake {
                stake_account: self.split_stake_account.key,
                withdrawer: self.split_stake_account.key,
                to: self.rent_payer,
                lamports: self.split_stake_account.lamports,
            }
        };
        seq![
            first,
            Action::RedelegateStake {
                stake_account: self.moved_account(redelegate_amount),
                authority: self.stake_pool,
                validator: self.to_validator,
                new_stake_account: self.to_stake_account,
            },
        ]
    }

    /// An accepted redelegation keeps the registries well formed.
    pub proof fn lemma_ledger_after_wf(self, redelegate_amount: u64)
        requires
            self.stake_manager@.wf(),
            self.refusal(redelegate_amount) is None,
        ensures
            self.ledger_after(redelegate_amount).wf(),
    {
        let ledger = self.stake_manager@;
        let after = self.ledger_after(redelegate_amount);
        let from = self.from_stake_account.key;
        let to = self.to_stake_account;
        let moved = self.moved_account(redelegate_amount);
        let remaining = if self.is_partial(redelegate_amount) {
            ledger.stake_accounts
        } else {
            without(ledger.stake_accounts, from)
        };
        assert(ledger.era_process_data.pending_stake_accounts =~= Seq::<Address>::empty());
        lemma_without_no_duplicates(ledger.stake_accounts, from);
        lemma_without_contains(ledger.stake_accounts, from, to);
        lemma_push_no_duplicates(remaining, to);
        assert(!ledger.split_accounts.contains(moved));
        lemma_push_no_duplicates(ledger.split_accounts, moved);
        assert forall|x: Address| after.stake_accounts.contains(x) implies
            !after.split_accounts.contains(x) by {
            lemma_push_contains(remaining, to, x);
            lemma_push_contains(ledger.split_accounts, moved, x);
            lemma_without_contains(ledger.stake_accounts, from, x);
        }
    }

    /// How a run that returns `r` relates the state before it, `self`, to the state after
    /// it, `after`: what an accepted run has made of the ledger and hands back, and that a
    /// refused run names the first guard that failed and changes nothing.
    pub open spec fn yields(
        self,
        after: Self,
        redelegate_amount: u64,
        r: Result<Outcome<EventRedelegate>, Errors>,
    ) -> bool {
        &&& match r {
            Ok(out) => {
                &&& self.refusal(redelegate_amount) is None
                &&& after.stake_manager@ == self.ledger_after(redelegate_amount)
                &&& out.actions@ == self.actions(redelegate_amount)
                &&& out.event == (EventRedelegate {
                    from_stake_account: self.from_stake_account.key,
                    to_stake_account: self.to_stake_account,
                    redelegate_amount,
                })
            },
            Err(e) => self.refusal(redelegate_amount) == Some(e) && after == self,
        }
        &&& after.balancer == self.balancer
        &&& after.to_validator == self.to_validator
        &&& after.stake_pool == self.stake_pool
        &&& after.from_stake_account == self.from_stake_account
        &&& after.split_stake_account == self.split_stake_account
        &&& after.to_stake_account == self.to_stake_account
        &&& after.rent_payer == self.rent_payer
    }

    /// Redelegates `redelegate_amount` of the source record to `to_validator`.
    pub fn process(
        &mut self,
        redelegate_amount: u64,
    ) -> (r: Result<Outcome<EventRedelegate>, Errors>)
        ensures
            old(self).yields(*final(self), redelegate_amount, r),
            old(self).stake_manager@.wf() ==> final(self).stake_manager@.wf(),
    {
        if self.stake_manager.balancer != self.balancer {
            return Err(Errors::BalancerNotMatch);
        }
        if redelegate_amount == 0 {
            return Err(Errors::AmountUnmatch);
        }
        if !self.stake_manager.era_process_data.is_empty() {
            return Err(Errors::EraIsProcessing);
        }
        if !contains(&self.stake_manager.stake_accounts, &self.from_stake_account.key) {
            return Err(Errors::StakeAccountNotExist);
        }
        if contains(&self.stake_manager.stake_accounts, &self.to_stake_account) || contains(
            &self.stake_manager.split_accounts,
            &self.to_stake_account,
        ) {
            return Err(Errors::StakeAccountAlreadyExist);
        }
        if contains(&self.stake_manager.stake_accounts, &self.split_stake_account.key) || contains(
            &self.stake_manager.split_accounts,
            &self.split_stake_account.key,
        ) || self.split_stake_account.key == self.to_stake_account {
            return Err(Errors::SplitStakeAccountAlreadyExist);
        }
        if !contains(&self.stake_manager.validators, &self.to_validator) {
            return Err(Errors::ValidatorNotExist);
        }
        let delegation = match self.from_stake_account.delegation {
            Some(delegation) => delegation,
            None => {
                return Err(Errors::DelegationEmpty);
            },
        };
        if !delegation.is_active() {
            return Err(Errors::StakeAccountNotActive);
        }
        if self.to_validator == delegation.voter_pubkey {
            return Err(Errors::ValidatorNotMatch);
        }
        if delegation.stake < redelegate_amount {
            return Err(Errors::AmountUnmatch);
        }
        proof {
            if self.stake_manager@.wf() {
                self.lemma_ledger_after_wf(redelegate_amount);
            }
        }
        let mut actions: Vec<Action> = Vec::new();
        let moved = if redelegate_amount < delegation.stake {
            actions.push(
                Action::SplitStake {
                    stake_account: self.from_stake_account.key,
                    authority: self.stake_pool,
                    lamports: redelegate_amount,
                    split_to: self.split_stake_account.key,
                },
            );
            self.split_stake_account.key
        } else {
            actions.push(
                Action::WithdrawStake {
                    stake_account: self.split_stake_account.key,
                    withdrawer: self.split_stake_account.key,
                    to: self.rent_payer,
                    lamports: self.split_stake_account.lamports,
                },
            );
            remove(&mut self.stake_manager.stake_accounts, &self.from_stake_account.key);
            self.from_stake_account.key
        };
        actions.push(
            Action::RedelegateStake {
                stake_account: moved,
                authority: self.stake_pool,
                validator: self.to_validator,
                new_stake_account: self.to_stake_account,
            },
        );
        self.stake_manager.split_accounts.push(moved);
        self.stake_manager.stake_accounts.push(self.to_stake_account);
        proof {
            assert(actions@ =~= old(self).actions(redelegate_amount));
        }
        Ok(
            Outcome {
                event: EventRedelegate {
                    from_stake_account: self.from_stake_account.key,
                    to_stake_account: self.to_stake_account,
                    redelegate_amount,
                },
                actions,
            },
        )
    }
}

} // verus!
