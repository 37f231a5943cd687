//! The conditions under which a ledger operation is refused.

use vstd::prelude::*;

verus! {

/// Why an operation was refused. A refused operation leaves the ledger as it was.
#[derive(Clone, Copy, Debug, PartialEq, Eq, Structural, Hash)]
pub enum Errors {
    ProgramIdNotMatch,
    RemainingAccountsNotMatch,
    AdminNotMatch,
    BalancerNotMatch,
    InitializeDataMatch,
    FeeRecipientNotMatch,
    DelegationEmpty,
    StakeAmountTooLow,
    StakeAccountNotActive,
    StakeAccountActive,
    StakeAccountWithLockup,
    UnstakeRecipientNotMatch,
    ValidatorNotExist,
    ValidatorAlreadyExist,
    ValidatorNotMatch,
    StakeAccountAlreadyExist,
    SplitStakeAccountAlreadyExist,
    StakeAccountNotExist,
    RentNotEnough,
    BalanceNotEnough,
    CalculationFail,
    AuthorityNotMatch,
    EraIsLatest,
    EraIsProcessing,
    EraIsProcessed,
    EraNoNeedBond,
    EraNoNeedUnBond,
    EraNoNeedUpdateActive,
    EraNoNeedUpdateRate,
    AmountUnmatch,
    InvalidUnstakeAccount,
    UnstakeAccountNotClaimable,
    UnstakeAccountAmountZero,
    PoolBalanceNotEnough,
    UnstakeAmountIsZero,
    ValidatorsNotEqual,
    RateChangeOverLimit,
    MintAccountNotMatch,
    MintToOwnerNotMatch,
    StakeAccountsLenOverLimit,
}

impl Errors {
    /// What the condition is called when it is reported.
    pub open spec fn spec_message(&self) -> &'static str {
        match self {
            Errors::ProgramIdNotMatch => "Program id not match",
            Errors::RemainingAccountsNotMatch => "Remaining accounts not match",
            Errors::AdminNotMatch => "Admin not match",
            Errors::BalancerNotMatch => "Balancer not match",
            Errors::InitializeDataMatch => "Initialize data not match",
            Errors::FeeRecipientNotMatch => "Fee recipient not match",
            Errors::DelegationEmpty => "Delegation empty",
            Errors::StakeAmountTooLow => "Stake amount too low",
            Errors::StakeAccountNotActive => "Stake account not active",
            Errors::StakeAccountActive => "Stake account active",
            Errors::StakeAccountWithLockup => "Stake account with lockup",
            Errors::UnstakeRecipientNotMatch => "Unstake recipient not match",
            Errors::ValidatorNotExist => "Validator not exist",
            Errors::ValidatorAlreadyExist => "Validator already exist",
            Errors::ValidatorNotMatch => "Validator not match",
            Errors::StakeAccountAlreadyExist => "Stake account already exist",
            Errors::SplitStakeAccountAlreadyExist => "Split stake account already exist",
            Errors::StakeAccountNotExist => "Stake account not exist",
            Errors::RentNotEnough => "Rent not enough",
            Errors::BalanceNotEnough => "Balance not enough",
            Errors::CalculationFail => "Calulation fail",
            Errors::AuthorityNotMatch => "Authority not match",
            Errors::EraIsLatest => "Era is latest",
            Errors::EraIsProcessing => "Era is processing",
            Errors::EraIsProcessed => "Era is processed",
            Errors::EraNoNeedBond => "Era no need bond",
            Errors::EraNoNeedUnBond => "Era no need unbond",
            Errors::EraNoNeedUpdateActive => "Era no need update active",
            Errors::EraNoNeedUpdateRate => "Era no need update rate",
            Errors::AmountUnmatch => "Amount unmatch",
            Errors::InvalidUnstakeAccount => "Invalid unstake account",
            Errors::UnstakeAccountNotClaimable => "Unstake account not claimable",
            Errors::UnstakeAccountAmountZero => "Unstake account amount zero",
            Errors::PoolBalanceNotEnough => "Pool balance not enough",
            Errors::UnstakeAmountIsZero => "Unstake amount is zero",
            Errors::ValidatorsNotEqual => "Validators not equal",
            Errors::RateChangeOverLimit => "Rate change over limit",
            Errors::MintAccountNotMatch => "Mint account not match",
            Errors::MintToOwnerNotMatch => "Mint to owner not match",
            Errors::StakeAccountsLenOverLimit => "Stake accounts len over limit",
        }
    }

    /// What the condition is called when it is reported.
    #[verifier::when_used_as_spec(spec_message)]
    pub fn message(&self) -> (text: &'static str)
        ensures
            text == self.spec_message(),
    {
        match self {
            Errors::ProgramIdNotMatch => "Program id not match",
            Errors::RemainingAccountsNotMatch => "Remaining accounts not match",
            Errors::AdminNotMatch => "Admin not match",
            Errors::BalancerNotMatch => "Balancer not match",
            Errors::InitializeDataMatch => "Initialize data not match",
            Errors::FeeRecipientNotMatch => "Fee recipient not match",
            Errors::DelegationEmpty => "Delegation empty",
            Errors::StakeAmountTooLow => "Stake amount too low",
            Errors::StakeAccountNotActive => "Stake account not active",
            Errors::StakeAccountActive => "Stake account active",
            Errors::StakeAccountWithLockup => "Stake account with lockup",
            Errors::UnstakeRecipientNotMatch => "Unstake recipient not match",
            Errors::ValidatorNotExist => "Validator not exist",
            Errors::ValidatorAlreadyExist => "Validator already exist",
            Errors::ValidatorNotMatch => "Validator not match",
            Errors::StakeAccountAlreadyExist => "Stake account already exist",
            Errors::SplitStakeAccountAlreadyExist => "Split stake account already exist",
            Errors::StakeAccountNotExist => "Stake account not exist",
            Errors::RentNotEnough => "Rent not enough",
            Errors::BalanceNotEnough => "Balance not enough",
            Errors::CalculationFail => "Calulation fail",
            Errors::AuthorityNotMatch => "Authority not match",
            Errors::EraIsLatest => "Era is latest",
            Errors::EraIsProcessing => "Era is processing",
            Errors::EraIsProcessed => "Era is processed",
            Errors::EraNoNeedBond => "Era no need bond",
            Errors::EraNoNeedUnBond => "Era no need unbond",
            Errors::EraNoNeedUpdateActive => "Era no need update active",
            Errors::EraNoNeedUpdateRate => "Era no need update rate",
            Errors::AmountUnmatch => "Amount unmatch",
            Errors::InvalidUnstakeAccount => "Invalid unstake account",
            Errors::UnstakeAccountNotClaimable => "Unstake account not claimable",
            Errors::UnstakeAccountAmountZero => "Unstake account amount zero",
            Errors::PoolBalanceNotEnough => "Pool balance not enough",
            Errors::UnstakeAmountIsZero => "Unstake amount is zero",
            Errors::ValidatorsNotEqual => "Validators not equal",
            Errors::RateChangeOverLimit => "Rate change over limit",
            Errors::MintAccountNotMatch => "Mint account not match",
            Errors::MintToOwnerNotMatch => "Mint to owner not match",
            Errors::StakeAccountsLenOverLimit => "Stake accounts len over limit",
        }
    }
}

} // verus!
