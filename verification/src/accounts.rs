//! What an operation reads of the world outside the ledger: the clock, balances,
//! token holdings and the delegation behind a stake record.

use vstd::prelude::*;
use crate::address::Address;

verus! {

/// A delegation whose `deactivation_epoch` has this value has not been deactivated.
pub const NEVER_DEACTIVATED: u64 = 0xffff_ffff_ffff_ffff;

/// The host's clock.
#[derive(Clone, Copy, Debug, PartialEq, Eq)]
pub struct Clock {
    pub epoch: u64,
}

/// The delegation behind a stake record: how much is delegated, to which validator, and
/// from which epoch on it is deactivated.
#[derive(Clone, Copy, Debug, PartialEq, Eq)]
pub struct Delegation {
    pub voter_pubkey: Address,
    pub stake: u64,
    pub deactivation_epoch: u64,
}

impl Delegation {
    /// Whether the delegation has not been deactivated.
    pub open spec fn spec_is_active(&self) -> bool {
        self.deactivation_epoch == NEVER_DEACTIVATED
    }

    /// Whether the delegation has not been deactivated.
    #[verifier::when_used_as_spec(spec_is_active)]
    pub fn is_active(&self) -> (b: bool)
        ensures
            b == self.spec_is_active(),
    {
        self.deactivation_epoch == NEVER_DEACTIVATED
    }
}

/// A stake record as the delegation primitive shows it.
#[derive(Clone, Copy, Debug, PartialEq, Eq)]
pub struct StakeAccount {
    pub key: Address,
    pub lamports: u64,
    pub delegation: Option<Delegation>,
}

/// An account that holds the base asset.
#[derive(Clone, Copy, Debug, PartialEq, Eq)]
pub struct SystemAccount {
    pub key: Address,
    pub lamports: u64,
}

/// An account that holds derivative units.
#[derive(Clone, Copy, Debug, PartialEq, Eq)]
pub struct TokenAccount {
    pub key: Address,
    pub owner: Address,
    pub amount: u64,
    pub delegate: Option<Address>,
    pub delegated_amount: u64,
}

/// The minting service's own record, as far as the ledger reads it.
#[derive(Clone, Copy, Debug, PartialEq, Eq)]
pub struct MintManager {
    pub rsol_mint: Address,
}

} // verus!
