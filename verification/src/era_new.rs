//! Opening an era: the running totals become the era's work order.

use vstd::prelude::*;
use crate::accounts::Clock;
use crate::actions::Outcome;
use crate::errors::Errors;
use crate::registry::copy;
use crate::states::{EraProcessData, EraProcessDataView, StakeManager, StakeManagerView};

verus! {

/// What the opening of an era works on.
#[derive(Clone, Debug, PartialEq, Eq)]
pub struct EraNew {
    pub stake_manager: StakeManager,
    pub clock: Clock,
}

/// The record of an opened era.
#[derive(Clone, Copy, Debug, PartialEq, Eq)]
pub struct EventEraNew {
    pub new_era: u64,
    pub need_bond: u64,
    pub need_unbond: u64,
    pub active: u64,
}

/// What an era has to bond: the excess of the stakes over the unstakes, if any.
pub open spec fn net_bond(era_bond: u64, era_unbond: u64) -> u64 {
    if era_bond > era_unbond {
        (era_bond - era_unbond) as u64
    } else {
        0
    }
}

/// What an era has to unbond: the excess of the unstakes over the stakes, if any.
pub open spec fn net_unbond(era_bond: u64, era_unbond: u64) -> u64 {
    if era_bond > era_unbond {
        0
    } else {
        (era_unbond - era_bond) as u64
    }
}

impl EraNew {
    /// Why the era may not open, if it may not: the work order of the latest era is not
    /// used up, or else the clock has not passed the latest era.
    pub open spec fn refusal(self) -> Option<Errors> {
        let ledger = self.stake_manager@;
        if !ledger.era_process_data.is_empty() {
            Some(Errors::EraIsProcessing)
        } else if self.clock.epoch < ledger.latest_era + 1 {
            Some(Errors::EraIsLatest)
        } else {
            None
        }
    }

    /// The ledger after the era has opened: the era counter is one higher, the running
    /// totals are zero, and the work order holds their difference, the active value and
    /// the active records.
    pub open spec fn ledger_after(self) -> StakeManagerView {
        let ledger = self.stake_manager@;
        StakeManagerView {
            latest_era: (ledger.latest_era + 1) as u64,
            era_bond: 0,
            era_unbond: 0,
            era_process_data: EraProcessDataView {
                need_bond: net_bond(ledger.era_bond, ledger.era_unbond),
                need_unbond: net_unbond(ledger.era_bond, ledger.era_unbond),
                old_active: ledger.active,
                new_active: 0,
                pending_stake_accounts: ledger.stake_accounts,
            },
            ..ledger
        }
    }

    /// The record of the opened era.
    pub open spec fn event(self) -> EventEraNew {
        EventEraNew {
            new_era: (self.stake_manager.latest_era + 1) as u64,
            need_bond: net_bond(self.stake_manager.era_bond, self.stake_manager.era_unbond),
            need_unbond: net_unbond(self.stake_manager.era_bond, self.stake_manager.era_unbond),
            active: self.stake_manager.active,
        }
    }

    /// Whatever the clock shows, an attempt to open an era on a work order that is not
    /// empty is refused as still being processed. On an empty work order the era opens
    /// exactly when the clock has passed the latest era, and is otherwise refused as the
    /// latest; so once the clock has passed the latest era, the era may open exactly when
    /// the work order is empty.
    pub proof fn lemma_opens_iff_work_order_empty(self)
        ensures
            !self.stake_manager@.era_process_data.is_empty() ==> self.refusal() == Some(
                Errors::EraIsProcessing,
            ),
            self.stake_manager@.era_process_data.is_empty() ==> (self.refusal() is None
                <==> self.clock.epoch >= self.stake_manager.latest_era + 1),
            self.stake_manager@.era_process_data.is_empty() && self.clock.epoch
                <= self.stake_manager.latest_era ==> self.refusal() == Some(Errors::EraIsLatest),
            self.clock.epoch > self.stake_manager.latest_era ==> (self.refusal() is None
                <==> self.stake_manager@.era_process_data.is_empty()),
    {
    }

    /// How a run that returns `r` relates the state before it, `self`, to the state after
    /// it, `after`: what an accepted run has made of the ledger and hands back, and that a
    /// refused run names the first guard that failed and changes nothing.
    pub open spec fn yields(self, after: Self, r: Result<Outcome<EventEraNew>, Errors>) -> bool {
        &&& match r {
            Ok(out) => {
                &&& self.refusal() is None
                &&& after.stake_manager@ == self.ledger_after()
                &&& out.actions@ == Seq::<crate::actions::Action>::empty()
                &&& out.event == self.event()
            },
            Err(e) => self.refusal() == Some(e) && after == self,
        }
        &&& after.clock == self.clock
    }

    /// Opens the next era. Nothing is asked of the collaborators.
    pub fn process(&mut self) -> (r: Result<Outcome<EventEraNew>, Errors>)
        ensures
            old(self).yields(*final(self), r),
            old(self).stake_manager@.wf() ==> final(self).stake_manager@.wf(),
    {
        if !self.stake_manager.era_process_data.is_empty() {
            return Err(Errors::EraIsProcessing);
        }
        if self.clock.epoch <= self.stake_manager.latest_era {
            return Err(Errors::EraIsLatest);
        }
        let new_era = self.stake_manager.latest_era + 1;
        let (need_bond, need_unbond) = if self.stake_manager.era_bond
            > self.stake_manager.era_unbond {
            (self.stake_manager.era_bond - self.stake_manager.era_unbond, 0)
        } else {
            (0, self.stake_manager.era_unbond - self.stake_manager.era_bond)
        };
        let active = self.stake_manager.active;
        self.stake_manager.latest_era = new_era;
        self.stake_manager.era_bond = 0;
        self.stake_manager.era_unbond = 0;
        self.stake_manager.era_process_data = EraProcessData {
            need_bond,
            need_unbond,
            old_active: active,
            new_active: 0,
            pending_stake_accounts: copy(&self.stake_manager.stake_accounts),
        };
        Ok(
            Outcome {
                event: EventEraNew { new_era, need_bond, need_unbond, active },
                actions: Vec::new(),
            },
        )
    }
}

} // verus!
