//! The administrator's settings: who holds which role, the pool's parameters and its
//! validator set.

use vstd::prelude::*;
use crate::address::Address;
use crate::errors::Errors;
use crate::registry::{
    contains, lemma_push_no_duplicates, lemma_without_no_duplicates, remove, without,
};
use crate::states::{StakeManager, StakeManagerView};

verus! {

/// Whether `signer` is the administrator of `ledger`.
pub open spec fn is_admin(ledger: StakeManagerView, signer: Address) -> bool {
    ledger.admin == signer
}

/// What a change of the administrator's role works on.
#[derive(Clone, Debug, PartialEq, Eq)]
pub struct TransferAdmin {
    pub stake_manager: StakeManager,
    /// Who asks for the change.
    pub admin: Address,
}

impl TransferAdmin {
    /// How a run that returns `r` relates the state before it, `self`, to the state after
    /// it, `after`: an accepted run has made the one change to the ledger, and a refused
    /// run names the guard that failed and changes nothing.
    pub open spec fn yields(self, after: Self, new_admin: Address, r: Result<(), Errors>) -> bool {
        &&& match r {
            Ok(_) => is_admin(self.stake_manager@, self.admin)
                && after.stake_manager@ == (StakeManagerView {
                admin: new_admin,
                ..self.stake_manager@
            }),
            Err(e) => e == Errors::AdminNotMatch && !is_admin(
                self.stake_manager@,
                self.admin,
            ) && after == self,
        }
        &&& after.admin == self.admin
    }

    /// Hands the administrator's role to `new_admin`. Only the administrator may do so.
    pub fn process(&mut self, new_admin: Address) -> (r: Result<(), Errors>)
        ensures
            old(self).yields(*final(self), new_admin, r),
            old(self).stake_manager@.wf() ==> final(self).stake_manager@.wf(),
    {
        if self.stake_manager.admin != self.admin {
            return Err(Errors::AdminNotMatch);
        }
        self.stake_manager.admin = new_admin;
        Ok(())
    }
}

/// What a change of the balancer's role works on.
#[derive(Clone, Debug, PartialEq, Eq)]
pub struct TransferBalancer {
    pub stake_manager: StakeManager,
    /// Who asks for the change.
    pub admin: Address,
}

impl TransferBalancer {
    /// How a run that returns `r` relates the state before it, `self`, to the state after
    /// it, `after`: an accepted run has made the one change to the ledger, and a refused
    /// run names the guard that failed and changes nothing.
    pub open spec fn yields(
        self,
        after: Self,
        new_balancer: Address,
        r: Result<(), Errors>,
    ) -> bool {
        &&& match r {
            Ok(_) => is_admin(self.stake_manager@, self.admin)
                && after.stake_manager@ == (StakeManagerView {
                balancer: new_balancer,
                ..self.stake_manager@
            }),
            Err(e) => e == Errors::AdminNotMatch && !is_admin(
                self.stake_manager@,
                self.admin,
            ) && after == self,
        }
        &&& after.admin == self.admin
    }

    /// Hands the balancer's role to `new_balancer`. Only the administrator may do so.
    pub fn process(&mut self, new_balancer: Address) -> (r: Result<(), Errors>)
        ensures
            old(self).yields(*final(self), new_balancer, r),
            old(self).stake_manager@.wf() ==> final(self).stake_manager@.wf(),
    {
        if self.stake_manager.admin != self.admin {
            return Err(Errors::AdminNotMatch);
        }
        self.stake_manager.balancer = new_balancer;
        Ok(())
    }
}

/// What a change of the fee recipient works on.
#[derive(Clone, Debug, PartialEq, Eq)]
pub struct TransferFeeRecipient {
    pub stake_manager: StakeManager,
    /// Who asks for the change.
    pub admin: Address,
}

impl TransferFeeRecipient {
    /// How a run that returns `r` relates the state before it, `self`, to the state after
    /// it, `after`: an accepted run has made the one change to the ledger, and a refused
    /// run names the guard that failed and changes nothing.
    pub open spec fn yields(
        self,
        after: Self,
        new_fee_recipient: Address,
        r: Result<(), Errors>,
    ) -> bool {
        &&& match r {
            Ok(_) => is_admin(self.stake_manager@, self.admin)
                && after.stake_manager@ == (StakeManagerView {
                fee_recipient: new_fee_recipient,
                ..self.stake_manager@
            }),
            Err(e) => e == Errors::AdminNotMatch && !is_admin(
                self.stake_manager@,
                self.admin,
            ) && after == self,
        }
        &&& after.admin == self.admin
    }

    /// Names `new_fee_recipient` as the account that takes the fees. Only the administrator may
    /// do so.
    pub fn process(&mut self, new_fee_recipient: Address) -> (r: Result<(), Errors>)
        ensures
            old(self).yields(*final(self), new_fee_recipient, r),
            old(self).stake_manager@.wf() ==> final(self).stake_manager@.wf(),
    {
        if self.stake_manager.admin != self.admin {
            return Err(Errors::AdminNotMatch);
        }
        self.stake_manager.fee_recipient = new_fee_recipient;
        Ok(())
    }
}

/// What a change of the least stake amount works on.
#[derive(Clone, Debug, PartialEq, Eq)]
pub struct SetMinStakeAmount {
    pub stake_manager: StakeManager,
    /// Who asks for the change.
    pub admin: Address,
}

impl SetMinStakeAmount {
    /// How a run that returns `r` relates the state before it, `self`, to the state after
    /// it, `after`: an accepted run has made the one change to the ledger, and a refused
    /// run names the guard that failed and changes nothing.
    pub open spec fn yields(self, after: Self, amount: u64, r: Result<(), Errors>) -> bool {
        &&& match r {
            Ok(_) => is_admin(self.stake_manager@, self.admin)
                && after.stake_manager@ == (StakeManagerView {
                min_stake_amount: amount,
                ..self.stake_manager@
            }),
            Err(e) => e == Errors::AdminNotMatch && !is_admin(
                self.stake_manager@,
                self.admin,
            ) && after == self,
        }
        &&& after.admin == self.admin
    }

    /// Sets the least amount that a stake may have. Only the administrator may do so.
    pub fn process(&mut self, amount: u64) -> (r: Result<(), Errors>)
        ensures
            old(self).yields(*final(self), amount, r),
            old(self).stake_manager@.wf() ==> final(self).stake_manager@.wf(),
    {
        if self.stake_manager.admin != self.admin {
            return Err(Errors::AdminNotMatch);
        }
        self.stake_manager.min_stake_amount = amount;
        Ok(())
    }
}

/// What a change of the unbonding duration works on.
#[derive(Clone, Debug, PartialEq, Eq)]
pub struct SetUnbondingDuration {
    pub stake_manager: StakeManager,
    /// Who asks for the change.
    pub admin: Address,
}

impl SetUnbondingDuration {
    /// How a run that returns `r` relates the state before it, `self`, to the state after
    /// it, `after`: an accepted run has made the one change to the ledger, and a refused
    /// run names the guard that failed and changes nothing.
    pub open spec fn yields(self, after: Self, duration: u64, r: Result<(), Errors>) -> bool {
        &&& match r {
            Ok(_) => is_admin(self.stake_manager@, self.admin)
                && after.stake_manager@ == (StakeManagerView {
                unbonding_duration: duration,
                ..self.stake_manager@
            }),
            Err(e) => e == Errors::AdminNotMatch && !is_admin(
                self.stake_manager@,
                self.admin,
            ) && after == self,
        }
        &&& after.admin == self.admin
    }

    /// Sets how many epochs a withdrawal request waits. Only the administrator may do so.
    pub fn process(&mut self, duration: u64) -> (r: Result<(), Errors>)
        ensures
            old(self).yields(*final(self), duration, r),
            old(self).stake_manager@.wf() ==> final(self).stake_manager@.wf(),
    {
        if self.stake_manager.admin != self.admin {
            return Err(Errors::AdminNotMatch);
        }
        self.stake_manager.unbonding_duration = duration;
        Ok(())
    }
}

/// What a change of the unstake commission works on.
#[derive(Clone, Debug, PartialEq, Eq)]
pub struct SetUnstakeFeeCommission {
    pub stake_manager: StakeManager,
    /// Who asks for the change.
    pub admin: Address,
}

impl SetUnstakeFeeCommission {
    /// How a run that returns `r` relates the state before it, `self`, to the state after
    /// it, `after`: an accepted run has made the one change to the ledger, and a refused
    /// run names the guard that failed and changes nothing.
    pub open spec fn yields(
        self,
        after: Self,
        unstake_fee_commission: u64,
        r: Result<(), Errors>,
    ) -> bool {
        &&& match r {
            Ok(_) => is_admin(self.stake_manager@, self.admin)
                && after.stake_manager@ == (StakeManagerView {
                unstake_fee_commission: unstake_fee_commission,
                ..self.stake_manager@
            }),
            Err(e) => e == Errors::AdminNotMatch && !is_admin(
                self.stake_manager@,
                self.admin,
            ) && after == self,
        }
        &&& after.admin == self.admin
    }

    /// Sets the commission kept from an unstake. Only the administrator may do so.
    pub fn process(&mut self, unstake_fee_commission: u64) -> (r: Result<(), Errors>)
        ensures
            old(self).yields(*final(self), unstake_fee_commission, r),
            old(self).stake_manager@.wf() ==> final(self).stake_manager@.wf(),
    {
        if self.stake_manager.admin != self.admin {
            return Err(Errors::AdminNotMatch);
        }
        self.stake_manager.unstake_fee_commission = unstake_fee_commission;
        Ok(())
    }
}

/// What a change of the limit of the rate's change works on.
#[derive(Clone, Debug, PartialEq, Eq)]
pub struct SetRateChangeLimit {
    pub stake_manager: StakeManager,
    /// Who asks for the change.
    pub admin: Address,
}

impl SetRateChangeLimit {
    /// How a run that returns `r` relates the state before it, `self`, to the state after
    /// it, `after`: an accepted run has made the one change to the ledger, and a refused
    /// run names the guard that failed and changes nothing.
    pub open spec fn yields(
        self,
        after: Self,
        rate_change_limit: u64,
        r: Result<(), Errors>,
    ) -> bool {
        &&& match r {
            Ok(_) => is_admin(self.stake_manager@, self.admin)
                && after.stake_manager@ == (StakeManagerView {
                rate_change_limit: rate_change_limit,
                ..self.stake_manager@
            }),
            Err(e) => e == Errors::AdminNotMatch && !is_admin(
                self.stake_manager@,
                self.admin,
            ) && after == self,
        }
        &&& after.admin == self.admin
    }

    /// Sets the greatest change of the rate that a settlement may commit. Only the
    /// administrator may do so.
    pub fn process(&mut self, rate_change_limit: u64) -> (r: Result<(), Errors>)
        ensures
            old(self).yields(*final(self), rate_change_limit, r),
            old(self).stake_manager@.wf() ==> final(self).stake_manager@.wf(),
    {
        if self.stake_manager.admin != self.admin {
            return Err(Errors::AdminNotMatch);
        }
        self.stake_manager.rate_change_limit = rate_change_limit;
        Ok(())
    }
}

/// What a change of the ledger's room works on.
#[derive(Clone, Debug, PartialEq, Eq)]
pub struct ReallocStakeManager {
    pub stake_manager: StakeManager,
    /// Who asks for the change.
    pub admin: Address,
}

impl ReallocStakeManager {
    /// How a run that returns `r` relates the state before it, `self`, to the state after
    /// it, `after`: the ledger is never changed, and only the administrator is accepted.
    pub open spec fn yields(self, after: Self, new_size: u32, r: Result<(), Errors>) -> bool {
        &&& match r {
            Ok(_) => is_admin(self.stake_manager@, self.admin),
            Err(e) => e == Errors::AdminNotMatch && !is_admin(self.stake_manager@, self.admin),
        }
        &&& after == self
    }

    /// Lets the host give the ledger `new_size` bytes of room. Only the administrator may
    /// ask; what the ledger holds stays as it is.
    pub fn process(&mut self, new_size: u32) -> (r: Result<(), Errors>)
        ensures
            old(self).yields(*final(self), new_size, r),
    {
        if self.stake_manager.admin != self.admin {
            return Err(Errors::AdminNotMatch);
        }
        Ok(())
    }
}

/// What the admission of a validator works on.
#[derive(Clone, Debug, PartialEq, Eq)]
pub struct AddValidator {
    pub stake_manager: StakeManager,
    /// Who asks for the change.
    pub admin: Address,
}

impl AddValidator {
    /// Why the admission of `new_validator` is refused, if it is.
    pub open spec fn refusal(self, new_validator: Address) -> Option<Errors> {
        if !is_admin(self.stake_manager@, self.admin) {
            Some(Errors::AdminNotMatch)
        } else if self.stake_manager@.validators.contains(new_validator) {
            Some(Errors::ValidatorAlreadyExist)
        } else {
            None
        }
    }

    /// How a run that returns `r` relates the state before it, `self`, to the state after
    /// it, `after`: an accepted run has made the one change to the ledger, and a refused
    /// run names the guard that failed and changes nothing.
    pub open spec fn yields(
        self,
        after: Self,
        new_validator: Address,
        r: Result<(), Errors>,
    ) -> bool {
        &&& match r {
            Ok(_) => self.refusal(new_validator) is None && after.stake_manager@
                == (StakeManagerView {
                validators: self.stake_manager@.validators.push(new_validator),
                ..self.stake_manager@
            }),
            Err(e) => self.refusal(new_validator) == Some(e) && after == self,
        }
        &&& after.admin == self.admin
    }

    /// Admits `new_validator` to the validator set, as its last member. Only the
    /// administrator may do so, and only for a validator that is not in the set.
    pub fn process(&mut self, new_validator: Address) -> (r: Result<(), Errors>)
        ensures
            old(self).yields(*final(self), new_validator, r),
            old(self).stake_manager@.wf() ==> final(self).stake_manager@.wf(),
    {
        if self.stake_manager.admin != self.admin {
            return Err(Errors::AdminNotMatch);
        }
        if contains(&self.stake_manager.validators, &new_validator) {
            return Err(Errors::ValidatorAlreadyExist);
        }
        proof {
            if self.stake_manager@.wf() {
                lemma_push_no_duplicates(self.stake_manager@.validators, new_validator);
            }
        }
        self.stake_manager.validators.push(new_validator);
        Ok(())
    }
}

/// What the dismissal of a validator works on.
#[derive(Clone, Debug, PartialEq, Eq)]
pub struct RemoveValidator {
    pub stake_manager: StakeManager,
    /// Who asks for the change.
    pub admin: Address,
}

impl RemoveValidator {
    /// Why the dismissal of `remove_validator` is refused, if it is.
    pub open spec fn refusal(self, remove_validator: Address) -> Option<Errors> {
        if !is_admin(self.stake_manager@, self.admin) {
            Some(Errors::AdminNotMatch)
        } else if !self.stake_manager@.validators.contains(remove_validator) {
            Some(Errors::ValidatorNotExist)
        } else {
            None
        }
    }

    /// How a run that returns `r` relates the state before it, `self`, to the state after
    /// it, `after`: an accepted run has made the one change to the ledger, and a refused
    /// run names the guard that failed and changes nothing.
    pub open spec fn yields(
        self,
        after: Self,
        remove_validator: Address,
        r: Result<(), Errors>,
    ) -> bool {
        &&& match r {
            Ok(_) => self.refusal(remove_validator) is None
                && after.stake_manager@ == (StakeManagerView {
                validators: without(self.stake_manager@.validators, remove_validator),
                ..self.stake_manager@
            }),
            Err(e) => self.refusal(remove_validator) == Some(e) && after == self,
        }
        &&& after.admin == self.admin
    }

    /// Takes `remove_validator` out of the validator set. Only the administrator may do
    /// so, and only for a validator that is in the set.
    pub fn process(&mut self, remove_validator: Address) -> (r: Result<(), Errors>)
        ensures
            old(self).yields(*final(self), remove_validator, r),
            old(self).stake_manager@.wf() ==> final(self).stake_manager@.wf(),
    {
        if self.stake_manager.admin != self.admin {
            return Err(Errors::AdminNotMatch);
        }
        if !contains(&self.stake_manager.validators, &remove_validator) {
            return Err(Errors::ValidatorNotExist);
        }
        proof {
            if self.stake_manager@.wf() {
                lemma_without_no_duplicates(self.stake_manager@.validators, remove_validator);
            }
        }
        remove(&mut self.stake_manager.validators, &remove_validator);
        Ok(())
    }
}

} // verus!
