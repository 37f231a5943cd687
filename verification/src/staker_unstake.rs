//! Giving up derivative units for a withdrawal request.

use vstd::prelude::*;
use crate::accounts::{Clock, TokenAccount};
use crate::actions::{Action, Outcome};
use crate::address::Address;
use crate::errors::Errors;
use crate::states::{to_base, unstake_fee, StakeManager, StakeManagerView, UnstakeAccount};

verus! {

/// What an unstake works on.
#[derive(Clone, Debug, PartialEq, Eq)]
pub struct Unstake {
    pub stake_manager: StakeManager,
    /// The address of the ledger itself.
    pub stake_manager_key: Address,
    /// The mint of the derivative units that the caller names.
    pub rsol_mint: Address,
    /// The token account that gives up the derivative units.
    pub burn_rsol_from: TokenAccount,
    /// Who asks: the owner of the token account or its delegate.
    pub burn_rsol_authority: Address,
    /// The withdrawal request; an accepted unstake writes it.
    pub unstake_account: UnstakeAccount,
    /// The address of the withdrawal request.
    pub unstake_account_key: Address,
    /// The token account that the caller names to take the fee.
    pub fee_recipient: Address,
    pub clock: Clock,
}

/// The record of an accepted unstake.
#[derive(Clone, Copy, Debug, PartialEq, Eq)]
pub struct EventUnstake {
    pub era: u64,
    pub staker: Address,
    pub burn_rsol_from: Address,
    pub unstake_account: Address,
    pub unstake_amount: u64,
    pub sol_amount: u64,
    pub unstake_fee: u64,
}

impl Unstake {
    /// Why the authority may not give up `unstake_amount`, if it may not: a delegate is
    /// held to the delegated amount, the owner to the balance, and nobody else may ask.
    pub open spec fn authority_refusal(self, unstake_amount: u64) -> Option<Errors> {
        if self.burn_rsol_from.delegate == Some(self.burn_rsol_authority) {
            if self.burn_rsol_from.delegated_amount < unstake_amount {
                Some(Errors::BalanceNotEnough)
            } else {
                None
            }
        } else if self.burn_rsol_authority == self.burn_rsol_from.owner {
            if self.burn_rsol_from.amount < unstake_amount {
                Some(Errors::BalanceNotEnough)
            } else {
                None
            }
        } else {
            Some(Errors::AuthorityNotMatch)
        }
    }

    /// The fee in derivative units; meaningful where its computation succeeds.
    pub open spec fn fee(self, unstake_amount: u64) -> u64 {
        unstake_fee(unstake_amount, self.stake_manager.unstake_fee_commission)->Ok_0
    }

    /// The derivative units that are burnt: the amount less the fee.
    pub open spec fn net_amount(self, unstake_amount: u64) -> u64 {
        (unstake_amount - self.fee(unstake_amount)) as u64
    }

    /// The base-asset value of the burnt units at the ledger's rate; meaningful where the
    /// conversion succeeds.
    pub open spec fn sol_amount(self, unstake_amount: u64) -> u64 {
        to_base(self.net_amount(unstake_amount), self.stake_manager.rate)->Ok_0
    }

    /// Whether the amounts of the unstake can be computed and booked in 64 bits.
    pub open spec fn computable(self, unstake_amount: u64) -> bool {
        let ledger = self.stake_manager@;
        &&& unstake_fee(unstake_amount, ledger.unstake_fee_commission) is Ok
        &&& self.fee(unstake_amount) <= unstake_amount
        &&& ledger.total_protocol_fee + self.fee(unstake_amount) <= u64::MAX
        &&& to_base(self.net_amount(unstake_amount), ledger.rate) is Ok
        &&& ledger.era_unbond + self.sol_amount(unstake_amount) <= u64::MAX
        &&& self.sol_amount(unstake_amount) <= ledger.active
        &&& self.net_amount(unstake_amount) <= ledger.total_rsol_supply
    }

    /// Why the unstake of `unstake_amount` is refused, if it is: the first of the guards,
    /// in their order, that does not hold.
    pub open spec fn refusal(self, unstake_amount: u64) -> Option<Errors> {
        let ledger = self.stake_manager@;
        if ledger.fee_recipient != self.fee_recipient {
            Some(Errors::FeeRecipientNotMatch)
        } else if ledger.rsol_mint != self.rsol_mint {
            Some(Errors::MintAccountNotMatch)
        } else if unstake_amount == 0 {
            Some(Errors::UnstakeAmountIsZero)
        } else if self.authority_refusal(unstake_amount) is Some {
            self.authority_refusal(unstake_amount)
        } else if !self.computable(unstake_amount) {
            Some(Errors::CalculationFail)
        } else {
            None
        }
    }

    /// The ledger after an accepted unstake: the fee is added to the protocol's fees, the
    /// value of the burnt units moves from the active value to what the era has to
    /// unbond, and the burnt units leave the supply.
    pub open spec fn ledger_after(self, unstake_amount: u64) -> StakeManagerView {
        let ledger = self.stake_manager@;
        StakeManagerView {
            total_protocol_fee: (ledger.total_protocol_fee + self.fee(unstake_amount)) as u64,
            era_unbond: (ledger.era_unbond + self.sol_amount(unstake_amount)) as u64,
            active: (ledger.active - self.sol_amount(unstake_amount)) as u64,
            total_rsol_supply: (ledger.total_rsol_supply - self.net_amount(unstake_amount)) as u64,
            ..ledger
        }
    }

    /// The withdrawal request that an accepted unstake writes.
    pub open spec fn request(self, unstake_amount: u64) -> UnstakeAccount {
        UnstakeAccount {
            stake_manager: self.stake_manager_key,
            recipient: self.burn_rsol_from.owner,
            amount: self.sol_amount(unstake_amount),
            created_epoch: self.clock.epoch,
        }
    }

    /// The requests of an accepted unstake: a fee that is not zero moves to the fee
    /// recipient; the rest is burnt.
    pub open spec fn actions(self, unstake_amount: u64) -> Seq<Action> {
        let burn = Action::BurnToken {
            from: self.burn_rsol_from.key,
            authority: self.burn_rsol_authority,
            amount: self.net_amount(unstake_amount),
        };
        if self.fee(unstake_amount) > 0 {
            seq![
                Action::TransferToken {
                    from: self.burn_rsol_from.key,
                    to: self.fee_recipient,
                    authority: self.burn_rsol_authority,
                    amount: self.fee(unstake_amount),
                },
                burn,
            ]
        } else {
            seq![burn]
        }
    }

    /// The record of an accepted unstake.
    pub open spec fn event(self, unstake_amount: u64) -> EventUnstake {
        EventUnstake {
            era: self.stake_manager.latest_era,
            staker: self.burn_rsol_from.owner,
            burn_rsol_from: self.burn_rsol_from.key,
            unstake_account: self.unstake_account_key,
            unstake_amount,
            sol_amount: self.sol_amount(unstake_amount),
            unstake_fee: self.fee(unstake_amount),
        }
    }

    /// How a run that returns `r` relates the state before it, `self`, to the state after
    /// it, `after`: what an accepted run has made of the ledger and hands back, and that a
    /// refused run names the first guard that failed and changes nothing.
    pub open spec fn yields(
        self,
        after: Self,
        unstake_amount: u64,
        r: Result<Outcome<EventUnstake>, Errors>,
    ) -> bool {
        &&& match r {
            Ok(out) => {
                &&& self.refusal(unstake_amount) is None
                &&& after.stake_manager@ == self.ledger_after(unstake_amount)
                &&& after.unstake_account == self.request(unstake_amount)
                &&& out.actions@ == self.actions(unstake_amount)
                &&& out.event == self.event(unstake_amount)
            },
            Err(e) => self.refusal(unstake_amount) == Some(e) && after == self,
        }
        &&& after.stake_manager_key == self.stake_manager_key
        &&& after.rsol_mint == self.rsol_mint
        &&& after.burn_rsol_from == self.burn_rsol_from
        &&& after.burn_rsol_authority == self.burn_rsol_authority
        &&& after.unstake_account_key == self.unstake_account_key
        &&& after.fee_recipient == self.fee_recipient
        &&& after.clock == self.clock
    }

    /// Gives up `unstake_amount` derivative units for a withdrawal request.
    pub fn process(&mut self, unstake_amount: u64) -> (r: Result<Outcome<EventUnstake>, Errors>)
        ensures
            old(self).yields(*final(self), unstake_amount, r),
            old(self).stake_manager@.wf() ==> final(self).stake_manager@.wf(),
    {
        if self.stake_manager.fee_recipient != self.fee_recipient {
            return Err(Errors::FeeRecipientNotMatch);
        }
        if self.stake_manager.rsol_mint != self.rsol_mint {
            return Err(Errors::MintAccountNotMatch);
        }
        if unstake_amount == 0 {
            return Err(Errors::UnstakeAmountIsZero);
        }
        let by_delegate = match self.burn_rsol_from.delegate {
            Some(delegate) => delegate == self.burn_rsol_authority,
            None => false,
        };
        if by_delegate {
            if self.burn_rsol_from.delegated_amount < unstake_amount {
                return Err(Errors::BalanceNotEnough);
            }
        } else if self.burn_rsol_authority == self.burn_rsol_from.owner {
            if self.burn_rsol_from.amount < unstake_amount {
                return Err(Errors::BalanceNotEnough);
            }
        } else {
            return Err(Errors::AuthorityNotMatch);
        }
        let fee = match self.stake_manager.calc_unstake_fee(unstake_amount) {
            Ok(fee) => fee,
            Err(e) => {
                return Err(e);
            },
        };
        if fee > unstake_amount {
            return Err(Errors::CalculationFail);
        }
        let unbond_amount = unstake_amount - fee;
        let total_protocol_fee = match self.stake_manager.total_protocol_fee.checked_add(fee) {
            Some(sum) => sum,
            None => {
                return Err(Errors::CalculationFail);
            },
        };
        let sol_amount = match self.stake_manager.calc_sol_amount(unbond_amount) {
            Ok(amount) => amount,
            Err(e) => {
                return Err(e);
            },
        };
        let era_unbond = match self.stake_manager.era_unbond.checked_add(sol_amount) {
            Some(sum) => sum,
            None => {
                return Err(Errors::CalculationFail);
            },
        };
        if sol_amount > self.stake_manager.active || unbond_amount
            > self.stake_manager.total_rsol_supply {
            return Err(Errors::CalculationFail);
        }
        let mut actions: Vec<Action> = Vec::new();
        if fee > 0 {
            actions.push(
                Action::TransferToken {
                    from: self.burn_rsol_from.key,
                    to: self.fee_recipient,
                    authority: self.burn_rsol_authority,
                    amount: fee,
                },
            );
        }
        actions.push(
            Action::BurnToken {
                from: self.burn_rsol_from.key,
                authority: self.burn_rsol_authority,
                amount: unbond_amount,
            },
        );
        self.stake_manager.total_protocol_fee = total_protocol_fee;
        self.stake_manager.era_unbond = era_unbond;
        self.stake_manager.active = self.stake_manager.active - sol_amount;
        self.stake_manager.total_rsol_supply = self.stake_manager.total_rsol_supply - unbond_amount;
        self.unstake_account = UnstakeAccount {
            stake_manager: self.stake_manager_key,
            recipient: self.burn_rsol_from.owner,
            amount: sol_amount,
            created_epoch: self.clock.epoch,
        };
        proof {
            assert(actions@ =~= old(self).actions(unstake_amount));
        }
        Ok(
            Outcome {
                event: EventUnstake {
                    era: self.stake_manager.latest_era,
                    staker: self.burn_rsol_from.owner,
                    burn_rsol_from: self.burn_rsol_from.key,
                    unstake_account: self.unstake_account_key,
                    unstake_amount,
                    sol_amount,
                    unstake_fee: fee,
                },
                actions,
            },
        )
    }
}

} // verus!
