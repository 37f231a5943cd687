//! Consolidating two active records of one validator between era cycles.

use vstd::prelude::*;
use crate::accounts::StakeAccount;
use crate::actions::{Action, Outcome};
use crate::address::Address;
use crate::errors::Errors;
use crate::registry::{
    contains, lemma_without_contains, lemma_without_no_duplicates, remove, without,
};
use crate::states::{StakeManager, StakeManagerView};

verus! {

/// What a merge works on.
#[derive(Clone, Debug, PartialEq, Eq)]
pub struct EraMerge {
    pub stake_manager: StakeManager,
    /// The record that is merged away.
    pub src_stake_account: StakeAccount,
    /// The record that takes the merged value.
    pub dst_stake_account: StakeAccount,
    /// The custody address of the pool, the authority over its stake records.
    pub stake_pool: Address,
}

/// The record of an accepted merge.
#[derive(Clone, Copy, Debug, PartialEq, Eq)]
pub struct EventEraMerge {
    pub src_stake_account: Address,
    pub dst_stake_account: Address,
}

impl EraMerge {
    /// Why the merge is refused, if it is: the first of the guards, in their order, that
    /// does not hold.
    pub open spec fn refusal(self) -> Option<Errors> {
        let ledger = self.stake_manager@;
        if !ledger.era_process_data.is_empty() {
            Some(Errors::EraIsProcessing)
        } else if !ledger.stake_accounts.contains(self.src_stake_account.key) {
            Some(Errors::StakeAccountNotExist)
        } else if !ledger.stake_accounts.contains(self.dst_stake_account.key) {
            Some(Errors::StakeAccountNotExist)
        } else {
            match (self.src_stake_account.delegation, self.dst_stake_account.delegation) {
                (Some(src), Some(dst)) => if !src.is_active() || !dst.is_active() {
                    Some(Errors::StakeAccountNotActive)
                } else if src.voter_pubkey != dst.voter_pubkey {
                    Some(Errors::ValidatorsNotEqual)
                } else {
                    None
                },
                _ => Some(Errors::DelegationEmpty),
            }
        }
    }

    /// The ledger after an accepted merge: the source record is no longer active.
    pub open spec fn ledger_after(self) -> StakeManagerView {
        let ledger = self.stake_manager@;
        StakeManagerView {
            stake_accounts: without(ledger.stake_accounts, self.src_stake_account.key),
            ..ledger
        }
    }

    /// The one request of an accepted merge.
    pub open spec fn actions(self) -> Seq<Action> {
        seq![
            Action::MergeStake {
                destination: self.dst_stake_account.key,
                source: self.src_stake_account.key,
                authority: self.stake_pool,
            },
        ]
    }

    /// The record of an accepted merge.
    pub open spec fn event(self) -> EventEraMerge {
        EventEraMerge {
            src_stake_account: self.src_stake_account.key,
            dst_stake_account: self.dst_stake_account.key,
        }
    }

    /// An accepted merge keeps the registries well formed.
    pub proof fn lemma_ledger_after_wf(self)
        requires
            self.stake_manager@.wf(),
            self.refusal() is None,
        ensures
            self.ledger_after().wf(),
    {
        let ledger = self.stake_manager@;
        let after = self.ledger_after();
        let src = self.src_stake_account.key;
        assert(ledger.era_process_data.pending_stake_accounts =~= Seq::<Address>::empty());
        lemma_without_no_duplicates(ledger.stake_accounts, src);
        assert forall|x: Address| after.stake_accounts.contains(x) implies
            !after.split_accounts.contains(x) by {
            lemma_without_contains(ledger.stake_accounts, src, x);
        }
    }

    /// How a run that returns `r` relates the state before it, `self`, to the state after
    /// it, `after`: what an accepted run has made of the ledger and hands back, and that a
    /// refused run names the first guard that failed and changes nothing.
    pub open spec fn yields(self, after: Self, r: Result<Outcome<EventEraMerge>, Errors>) -> bool {
        &&& match r {
            Ok(out) => {
                &&& self.refusal() is None
                &&& after.stake_manager@ == self.ledger_after()
                &&& out.actions@ == self.actions()
                &&& out.event == self.event()
            },
            Err(e) => self.refusal() == Some(e) && after == self,
        }
        &&& after.src_stake_account == self.src_stake_account
        &&& after.dst_stake_account == self.dst_stake_account
        &&& after.stake_pool == self.stake_pool
    }

    /// Merges the source record into the destination record.
    pub fn process(&mut self) -> (r: Result<Outcome<EventEraMerge>, Errors>)
        ensures
            old(self).yields(*final(self), r),
            old(self).stake_manager@.wf() ==> final(self).stake_manager@.wf(),
    {
        if !self.stake_manager.era_process_data.is_empty() {
            return Err(Errors::EraIsProcessing);
        }
        if !contains(&self.stake_manager.stake_accounts, &self.src_stake_account.key) {
            return Err(Errors::StakeAccountNotExist);
        }
        if !contains(&self.stake_manager.stake_accounts, &self.dst_stake_account.key) {
            return Err(Errors::StakeAccountNotExist);
        }
        let src_delegation = match self.src_stake_account.delegation {
            Some(delegation) => delegation,
            None => {
                return Err(Errors::DelegationEmpty);
            },
        };
        let dst_delegation = match self.dst_stake_account.delegation {
            Some(delegation) => delegation,
            None => {
                return Err(Errors::DelegationEmpty);
            },
        };
        if !src_delegation.is_active() {
            return Err(Errors::StakeAccountNotActive);
        }
        if !dst_delegation.is_active() {
            return Err(Errors::StakeAccountNotActive);
        }
        if src_delegation.voter_pubkey != dst_delegation.voter_pubkey {
            return Err(Errors::ValidatorsNotEqual);
        }
        proof {
            if self.stake_manager@.wf() {
                self.lemma_ledger_after_wf();
            }
        }
        let mut actions: Vec<Action> = Vec::new();
        actions.push(
            Action::MergeStake {
                destination: self.dst_stake_account.key,
                source: self.src_stake_account.key,
                authority: self.stake_pool,
            },
        );
        remove(&mut self.stake_manager.stake_accounts, &self.src_stake_account.key);
        proof {
            assert(actions@ =~= old(self).actions());
        }
        Ok(
            Outcome {
                event: EventEraMerge {
                    src_stake_account: self.src_stake_account.key,
                    dst_stake_account: self.dst_stake_account.key,
                },
                actions,
            },
        )
    }
}

} // verus!
