//! Setting up the ledger of a pool.

use vstd::prelude::*;
use crate::accounts::SystemAccount;
use crate::address::Address;
use crate::errors::Errors;
use crate::states::{new_rate, EraProcessData, EraProcessDataView, StakeManager, StakeManagerView};

verus! {

/// What the set-up of a ledger works on.
#[derive(Clone, Debug, PartialEq, Eq)]
pub struct Initialize {
    /// The ledger; an accepted set-up writes it.
    pub stake_manager: StakeManager,
    /// The custody account of the pool and what it holds.
    pub stake_pool: SystemAccount,
    /// The token account that takes the fees.
    pub fee_recipient: Address,
    /// Who sets the ledger up, and becomes its administrator and balancer.
    pub admin: Address,
    /// What the host asks an empty account to hold.
    pub rent_exempt_for_pool_acc: u64,
}

/// The balances that a ledger starts from.
#[derive(Clone, Copy, Debug, PartialEq, Eq)]
pub struct InitializeData {
    pub rsol_mint: Address,
    pub validator: Address,
    pub bond: u64,
    pub unbond: u64,
    pub active: u64,
    pub latest_era: u64,
    pub rate: u64,
    pub total_rsol_supply: u64,
    pub total_protocol_fee: u64,
}

impl Initialize {
    /// Why the set-up is refused, if it is: custody does not hold exactly its reserve, or
    /// the rate given is not the rate of the balances given.
    pub open spec fn refusal(self, initialize_data: InitializeData) -> Option<Errors> {
        if self.stake_pool.lamports != self.rent_exempt_for_pool_acc {
            Some(Errors::RentNotEnough)
        } else {
            match new_rate(initialize_data.active, initialize_data.total_rsol_supply) {
                Err(e) => Some(e),
                Ok(rate) => if initialize_data.rate != rate {
                    Some(Errors::InitializeDataMatch)
                } else {
                    None
                },
            }
        }
    }

    /// The ledger that an accepted set-up writes: the roles go to `admin`, the parameters
    /// have their defaults, the balances are those given, the one validator given is the
    /// validator set, and no record and no work is there yet.
    pub open spec fn ledger_after(
        self,
        initialize_data: InitializeData,
        pool_seed_bump: u8,
    ) -> StakeManagerView {
        StakeManagerView {
            admin: self.admin,
            balancer: self.admin,
            rsol_mint: initialize_data.rsol_mint,
            fee_recipient: self.fee_recipient,
            pool_seed_bump,
            rent_exempt_for_pool_acc: self.rent_exempt_for_pool_acc,
            min_stake_amount: StakeManager::DEFAULT_MIN_STAKE_AMOUNT,
            unstake_fee_commission: StakeManager::DEFAULT_UNSTAKE_FEE_COMMISSION,
            protocol_fee_commission: StakeManager::DEFAULT_PROTOCOL_FEE_COMMISSION,
            rate_change_limit: StakeManager::DEFAULT_RATE_CHANGE_LIMIT,
            stake_accounts_len_limit: StakeManager::DEFAULT_STAKE_ACCOUNT_LEN_LIMIT,
            split_accounts_len_limit: StakeManager::DEFAULT_SPLIT_ACCOUNT_LEN_LIMIT,
            unbonding_duration: StakeManager::DEFAULT_UNBONDING_DURATION,
            latest_era: initialize_data.latest_era,
            rate: initialize_data.rate,
            era_bond: initialize_data.bond,
            era_unbond: initialize_data.unbond,
            active: initialize_data.active,
            total_rsol_supply: initialize_data.total_rsol_supply,
            total_protocol_fee: initialize_data.total_protocol_fee,
            validators: seq![initialize_data.validator],
            stake_accounts: Seq::empty(),
            split_accounts: Seq::empty(),
            era_process_data: EraProcessDataView::empty(),
        }
    }

    /// How a run that returns `r` relates the state before it, `self`, to the state after
    /// it, `after`: an accepted run has written the ledger, and a refused run names the
    /// first guard that failed and changes nothing.
    pub open spec fn yields(
        self,
        after: Self,
        initialize_data: InitializeData,
        pool_seed_bump: u8,
        r: Result<(), Errors>,
    ) -> bool {
        &&& match r {
            Ok(_) => {
                &&& self.refusal(initialize_data) is None
                &&& after.stake_manager@ == self.ledger_after(
                    initialize_data,
                    pool_seed_bump,
                )
                &&& after.stake_manager@.wf()
            },
            Err(e) => self.refusal(initialize_data) == Some(e) && after == self,
        }
        &&& after.stake_pool == self.stake_pool
        &&& after.fee_recipient == self.fee_recipient
        &&& after.admin == self.admin
        &&& after.rent_exempt_for_pool_acc == self.rent_exempt_for_pool_acc
    }

    /// Sets the ledger up. The ledger that is written is well formed.
    pub fn process(
        &mut self,
        initialize_data: InitializeData,
        pool_seed_bump: u8,
    ) -> (r: Result<(), Errors>)
        ensures
            old(self).yields(*final(self), initialize_data, pool_seed_bump, r),
    {
        if self.stake_pool.lamports != self.rent_exempt_for_pool_acc {
            return Err(Errors::RentNotEnough);
        }
        let rate = match self.stake_manager.calc_rate(
            initialize_data.active,
            initialize_data.total_rsol_supply,
        ) {
            Ok(rate) => rate,
            Err(e) => {
                return Err(e);
            },
        };
        if initialize_data.rate != rate {
            return Err(Errors::InitializeDataMatch);
        }
        let mut validators: Vec<Address> = Vec::new();
        validators.push(initialize_data.validator);
        self.stake_manager = StakeManager {
            admin: self.admin,
            balancer: self.admin,
            rsol_mint: initialize_data.rsol_mint,
            fee_recipient: self.fee_recipient,
            pool_seed_bump,
            rent_exempt_for_pool_acc: self.rent_exempt_for_pool_acc,
            min_stake_amount: StakeManager::DEFAULT_MIN_STAKE_AMOUNT,
            unstake_fee_commission: StakeManager::DEFAULT_UNSTAKE_FEE_COMMISSION,
            protocol_fee_commission: StakeManager::DEFAULT_PROTOCOL_FEE_COMMISSION,
            rate_change_limit: StakeManager::DEFAULT_RATE_CHANGE_LIMIT,
            stake_accounts_len_limit: StakeManager::DEFAULT_STAKE_ACCOUNT_LEN_LIMIT,
            split_accounts_len_limit: StakeManager::DEFAULT_SPLIT_ACCOUNT_LEN_LIMIT,
            unbonding_duration: StakeManager::DEFAULT_UNBONDING_DURATION,
            latest_era: initialize_data.latest_era,
            rate: initialize_data.rate,
            era_bond: initialize_data.bond,
            era_unbond: initialize_data.unbond,
            active: initialize_data.active,
            total_rsol_supply: initialize_data.total_rsol_supply,
            total_protocol_fee: initialize_data.total_protocol_fee,
            validators,
            stake_accounts: Vec::new(),
            split_accounts: Vec::new(),
            era_process_data: EraProcessData::new(),
        };
        proof {
            assert(self.stake_manager@.validators =~= seq![initialize_data.validator]);
            assert(self.stake_manager@.stake_accounts =~= Seq::<Address>::empty());
            assert(self.stake_manager@.split_accounts =~= Seq::<Address>::empty());
        }
        Ok(())
    }
}

} // verus!
