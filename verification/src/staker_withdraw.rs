//! Claiming a withdrawal request once its unbonding duration has passed.

use vstd::prelude::*;
use crate::accounts::{Clock, SystemAccount};
use crate::actions::{Action, Outcome};
use crate::address::Address;
use crate::errors::Errors;
use crate::states::{StakeManager, UnstakeAccount};

verus! {

/// What a withdrawal works on.
#[derive(Clone, Debug, PartialEq, Eq)]
pub struct Withdraw {
    pub stake_manager: StakeManager,
    /// The address of the ledger itself.
    pub stake_manager_key: Address,
    /// The custody account of the pool and what it holds.
    pub stake_pool: SystemAccount,
    /// The withdrawal request that is claimed.
    pub unstake_account: UnstakeAccount,
    /// The address of the withdrawal request.
    pub unstake_account_key: Address,
    pub clock: Clock,
}

/// The record of an accepted withdrawal.
#[derive(Clone, Copy, Debug, PartialEq, Eq)]
pub struct EventWithdraw {
    pub era: u64,
    pub staker: Address,
    pub unstake_account: Address,
    pub withdraw_amount: u64,
}

impl Withdraw {
    /// Whether the request can be claimed now.
    pub open spec fn claimable(self) -> bool {
        self.unstake_account.is_claimable(self.stake_manager.unbonding_duration, self.clock.epoch)
    }

    /// What custody holds above its reserve; negative where it holds less than the
    /// reserve.
    pub open spec fn available(self) -> int {
        self.stake_pool.lamports - self.stake_manager.rent_exempt_for_pool_acc
    }

    /// Why the withdrawal is refused, if it is: the first of the guards, in their order,
    /// that does not hold.
    pub open spec fn refusal(self) -> Option<Errors> {
        if self.unstake_account.stake_manager != self.stake_manager_key {
            Some(Errors::InvalidUnstakeAccount)
        } else if self.unstake_account.amount == 0 {
            Some(Errors::UnstakeAccountAmountZero)
        } else if !self.claimable() {
            Some(Errors::UnstakeAccountNotClaimable)
        } else if self.unstake_account.amount > self.available() {
            Some(Errors::PoolBalanceNotEnough)
        } else {
            None
        }
    }

    /// The requests of an accepted withdrawal: the amount moves from custody to the
    /// recipient that the request records, and the request is destroyed.
    pub open spec fn actions(self) -> Seq<Action> {
        seq![
            Action::Transfer {
                from: self.stake_pool.key,
                to: self.unstake_account.recipient,
                lamports: self.unstake_account.amount,
            },
            Action::CloseAccount {
                account: self.unstake_account_key,
                destination: self.unstake_account.recipient,
            },
        ]
    }

    /// The record of an accepted withdrawal.
    pub open spec fn event(self) -> EventWithdraw {
        EventWithdraw {
            era: self.stake_manager.latest_era,
            staker: self.unstake_account.recipient,
            unstake_account: self.unstake_account_key,
            withdraw_amount: self.unstake_account.amount,
        }
    }

    /// A request is claimable exactly from the epoch on in which the unbonding duration
    /// has passed since its creation. A claim before that epoch is always refused; it is
    /// refused as not claimable where the request belongs to the ledger and is not empty.
    pub proof fn lemma_claim_before_due_is_refused(self)
        ensures
            self.claimable() <==> self.clock.epoch >= self.unstake_account.created_epoch
                + self.stake_manager.unbonding_duration,
            !self.claimable() ==> self.refusal() is Some,
            self.refusal() == Some(Errors::UnstakeAccountNotClaimable) <==> {
                &&& self.unstake_account.stake_manager == self.stake_manager_key
                &&& self.unstake_account.amount > 0
                &&& !self.claimable()
            },
    {
    }

    /// A claim of a request that belongs to the ledger and is not empty, while custody
    /// holds its amount above the reserve, is accepted exactly from the epoch on in which
    /// the unbonding duration has passed since the request's creation.
    pub proof fn lemma_claim_accepted_iff_due(self)
        requires
            self.unstake_account.stake_manager == self.stake_manager_key,
            self.unstake_account.amount > 0,
            self.unstake_account.amount <= self.available(),
        ensures
            self.refusal() is None <==> self.clock.epoch >= self.unstake_account.created_epoch
                + self.stake_manager.unbonding_duration,
    {
    }

    /// A claim in the very epoch in which the unbonding duration has passed is accepted,
    /// where the request belongs to the ledger and is not empty, and custody holds its
    /// amount above the reserve.
    pub proof fn lemma_claim_at_boundary_is_accepted(self)
        requires
            self.clock.epoch == self.unstake_account.created_epoch
                + self.stake_manager.unbonding_duration,
            self.unstake_account.stake_manager == self.stake_manager_key,
            self.unstake_account.amount > 0,
            self.unstake_account.amount <= self.available(),
        ensures
            self.refusal() is None,
    {
        self.lemma_claim_accepted_iff_due();
    }

    /// How a run that returns `r` relates the state before it, `self`, to the state after
    /// it, `after`: nothing is changed; an accepted run hands back its requests and its
    /// record, and a refused run names the first guard that failed.
    pub open spec fn yields(self, after: Self, r: Result<Outcome<EventWithdraw>, Errors>) -> bool {
        &&& match r {
            Ok(out) => {
                &&& self.refusal() is None
                &&& out.actions@ == self.actions()
                &&& out.event == self.event()
            },
            Err(e) => self.refusal() == Some(e),
        }
        &&& after == self
    }

    /// Claims the withdrawal request for the recipient that it records. The ledger is
    /// never changed.
    pub fn process(&mut self) -> (r: Result<Outcome<EventWithdraw>, Errors>)
        ensures
            old(self).yields(*final(self), r),
    {
        if self.unstake_account.stake_manager != self.stake_manager_key {
            return Err(Errors::InvalidUnstakeAccount);
        }
        if self.unstake_account.amount == 0 {
            return Err(Errors::UnstakeAccountAmountZero);
        }
        if !self.unstake_account.is_claimable(
            self.stake_manager.unbonding_duration,
            self.clock.epoch,
        ) {
            return Err(Errors::UnstakeAccountNotClaimable);
        }
        let withdraw_amount = self.unstake_account.amount;
        if self.stake_pool.lamports < self.stake_manager.rent_exempt_for_pool_acc
            || withdraw_amount > self.stake_pool.lamports
            - self.stake_manager.rent_exempt_for_pool_acc {
            return Err(Errors::PoolBalanceNotEnough);
        }
        let mut actions: Vec<Action> = Vec::new();
        actions.push(
            Action::Transfer {
                from: self.stake_pool.key,
                to: self.unstake_account.recipient,
                lamports: withdraw_amount,
            },
        );
        actions.push(
            Action::CloseAccount {
                account: self.unstake_account_key,
                destination: self.unstake_account.recipient,
            },
        );
        proof {
            assert(actions@ =~= old(self).actions());
        }
        Ok(
            Outcome {
                event: EventWithdraw {
                    era: self.stake_manager.latest_era,
                    staker: self.unstake_account.recipient,
                    unstake_account: self.unstake_account_key,
                    withdraw_amount,
                },
                actions,
            },
        )
    }
}

} // verus!
