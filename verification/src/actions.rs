//! The work that an accepted operation leaves to the collaborators of the ledger: the
//! asset-transfer primitive, the minting service and the delegation primitive.

use vstd::prelude::*;
use crate::address::Address;

verus! {

/// One request to a collaborator. An accepted operation yields its requests in the order
/// in which they are to be carried out; if one of them fails, the operation as a whole
/// has failed and the ledger stays as it was before.
#[derive(Clone, Copy, Debug, PartialEq, Eq)]
pub enum Action {
    /// Move `lamports` of the base asset from `from` to `to`.
    Transfer { from: Address, to: Address, lamports: u64 },
    /// Credit `amount` newly minted derivative units to `mint_to`.
    MintToken { mint_to: Address, amount: u64 },
    /// Burn `amount` derivative units held by `from`.
    BurnToken { from: Address, authority: Address, amount: u64 },
    /// Move `amount` derivative units from `from` to `to`.
    TransferToken { from: Address, to: Address, authority: Address, amount: u64 },
    /// Make `stake_account` a stake record under the given authorities.
    InitializeStake { stake_account: Address, staker: Address, withdrawer: Address },
    /// Delegate all of `stake_account` to `validator`.
    DelegateStake { stake_account: Address, authority: Address, validator: Address },
    /// Carve `lamports` off `stake_account` into `split_to`.
    SplitStake { stake_account: Address, authority: Address, lamports: u64, split_to: Address },
    /// Deactivate the delegation of `stake_account`.
    DeactivateStake { stake_account: Address, staker: Address },
    /// Withdraw `lamports` from `stake_account` to `to`.
    WithdrawStake { stake_account: Address, withdrawer: Address, to: Address, lamports: u64 },
    /// Merge `source` into `destination`.
    MergeStake { destination: Address, source: Address, authority: Address },
    /// Move the delegation of `stake_account` to `validator`, into `new_stake_account`.
    RedelegateStake {
        stake_account: Address,
        authority: Address,
        validator: Address,
        new_stake_account: Address,
    },
    /// Destroy `account` and hand what it holds to `destination`.
    CloseAccount { account: Address, destination: Address },
}

/// What an accepted operation hands back: the event that records it and the requests to
/// carry out.
#[derive(Clone, Debug, PartialEq, Eq)]
pub struct Outcome<E> {
    pub event: E,
    pub actions: Vec<Action>,
}

} // verus!
