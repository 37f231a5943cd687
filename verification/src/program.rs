//! The operations of the pool as its host calls them: each checks that the call is meant
//! for this program and names no accounts beyond its own, and then runs the operation.

use vstd::prelude::*;
use crate::actions::Outcome;
use crate::address::Address;
use crate::admin::{
    AddValidator, RemoveValidator, SetMinStakeAmount, SetRateChangeLimit, SetUnbondingDuration,
    TransferAdmin,
};
use crate::era_bond::{EraBond, EventEraBond};
use crate::era_merge::{EraMerge, EventEraMerge};
use crate::era_new::{EraNew, EventEraNew};
use crate::era_unbond::{EraUnbond, EventEraUnbond};
use crate::era_update_active::{EraUpdateActive, EventEraUpdateActive};
use crate::era_update_rate::{EraUpdateRate, EventEraUpdateRate};
use crate::era_withdraw::{EraWithdraw, EventEraWithdraw};
use crate::initialize::{Initialize, InitializeData};
use crate::redelegate::{EventRedelegate, Redelegate};
use crate::staker_stake::{EventStake, Stake};
use crate::staker_unstake::{EventUnstake, Unstake};
use crate::staker_withdraw::{EventWithdraw, Withdraw};
use crate::errors::Errors;

verus! {

/// The address of this program.
pub const ID: [u8; 32] = [
    93, 239, 178, 14, 6, 185, 182, 241,
    98, 70, 251, 150, 22, 162, 32, 66,
    166, 110, 52, 202, 40, 66, 63, 26,
    72, 221, 197, 38, 134, 78, 19, 250,
];

/// A call as the host hands it over.
#[derive(Clone, Debug, PartialEq, Eq)]
pub struct Context<T> {
    /// The program that the call is addressed to.
    pub program_id: Address,
    /// What the operation works on.
    pub accounts: T,
    /// How many accounts the call names beyond those of the operation.
    pub remaining_accounts: usize,
}

/// The address of this program.
pub open spec fn spec_id() -> Address {
    Address { bytes: ID }
}

/// The address of this program.
#[verifier::when_used_as_spec(spec_id)]
pub fn id() -> (a: Address)
    ensures
        a == spec_id(),
{
    Address::new(ID)
}

/// Whether `program_id` is the address of this program.
pub fn check_id(program_id: &Address) -> (b: bool)
    ensures
        b == (*program_id == id()),
{
    *program_id == id()
}

/// Why a call is turned away before its operation runs, if it is: it is addressed to
/// another program, or it names accounts beyond those of the operation.
pub open spec fn context_refusal<T>(ctx: Context<T>) -> Option<Errors> {
    if ctx.program_id != id() {
        Some(Errors::ProgramIdNotMatch)
    } else if ctx.remaining_accounts != 0 {
        Some(Errors::RemainingAccountsNotMatch)
    } else {
        None
    }
}

/// Checks that the call is addressed to this program and names no further accounts.
pub fn check_context<T>(ctx: &Context<T>) -> (r: Result<(), Errors>)
    ensures
        match r {
            Ok(_) => context_refusal(*ctx) is None,
            Err(e) => context_refusal(*ctx) == Some(e),
        },
{
    if !check_id(&ctx.program_id) {
        return Err(Errors::ProgramIdNotMatch);
    }
    if ctx.remaining_accounts != 0 {
        return Err(Errors::RemainingAccountsNotMatch);
    }
    Ok(())
}

/// Sets the ledger up. A call that is turned away leaves everything as it was; any other call does
/// what the operation does.
pub fn initialize(
    ctx: &mut Context<Initialize>,
    initialize_data: InitializeData,
    pool_seed_bump: u8,
) -> (r: Result<(), Errors>)
    ensures
        match context_refusal(*old(ctx)) {
            Some(e) => r == Err::<(), Errors>(e)
                && *final(ctx) == *old(ctx),
            None => old(ctx).accounts.yields(
                final(ctx).accounts,
                initialize_data,
                pool_seed_bump,
                r,
            ),
        },
        final(ctx).program_id == old(ctx).program_id,
        final(ctx).remaining_accounts == old(ctx).remaining_accounts,
{
    match check_context(ctx) {
        Ok(_) => {},
        Err(e) => {
            return Err(e);
        },
    }
    ctx.accounts.process(initialize_data, pool_seed_bump)
}

/// Hands the administrator's role on. A call that is turned away leaves everything as it was;
/// any other call does what the operation does.
pub fn transfer_admin(
    ctx: &mut Context<TransferAdmin>,
    new_admin: Address,
) -> (r: Result<(), Errors>)
    ensures
        match context_refusal(*old(ctx)) {
            Some(e) => r == Err::<(), Errors>(e)
                && *final(ctx) == *old(ctx),
            None => old(ctx).accounts.yields(final(ctx).accounts, new_admin, r),
        },
        final(ctx).program_id == old(ctx).program_id,
        final(ctx).remaining_accounts == old(ctx).remaining_accounts,
        old(ctx).accounts.stake_manager@.wf() ==> final(ctx).accounts.stake_manager@.wf(),
{
    match check_context(ctx) {
        Ok(_) => {},
        Err(e) => {
            return Err(e);
        },
    }
    ctx.accounts.process(new_admin)
}

/// Sets the least amount that a stake may have. A call that is turned away leaves everything as
/// it was; any other call does what the operation does.
pub fn set_min_stake_amount(
    ctx: &mut Context<SetMinStakeAmount>,
    amount: u64,
) -> (r: Result<(), Errors>)
    ensures
        match context_refusal(*old(ctx)) {
            Some(e) => r == Err::<(), Errors>(e)
                && *final(ctx) == *old(ctx),
            None => old(ctx).accounts.yields(final(ctx).accounts, amount, r),
        },
        final(ctx).program_id == old(ctx).program_id,
        final(ctx).remaining_accounts == old(ctx).remaining_accounts,
        old(ctx).accounts.stake_manager@.wf() ==> final(ctx).accounts.stake_manager@.wf(),
{
    match check_context(ctx) {
        Ok(_) => {},
        Err(e) => {
            return Err(e);
        },
    }
    ctx.accounts.process(amount)
}

/// Sets how many epochs a withdrawal request waits. A call that is turned away leaves
/// everything as it was; any other call does what the operation does.
pub fn set_unbonding_duration(
    ctx: &mut Context<SetUnbondingDuration>,
    duration: u64,
) -> (r: Result<(), Errors>)
    ensures
        match context_refusal(*old(ctx)) {
            Some(e) => r == Err::<(), Errors>(e)
                && *final(ctx) == *old(ctx),
            None => old(ctx).accounts.yields(final(ctx).accounts, duration, r),
        },
        final(ctx).program_id == old(ctx).program_id,
        final(ctx).remaining_accounts == old(ctx).remaining_accounts,
        old(ctx).accounts.stake_manager@.wf() ==> final(ctx).accounts.stake_manager@.wf(),
{
    match check_context(ctx) {
        Ok(_) => {},
        Err(e) => {
            return Err(e);
        },
    }
    ctx.accounts.process(duration)
}

/// Sets the greatest change of the rate that a settlement may commit. A call that is turned
/// away leaves everything as it was; any other call does what the operation does.
pub fn set_rate_change_limit(
    ctx: &mut Context<SetRateChangeLimit>,
    rate_change_limit: u64,
) -> (r: Result<(), Errors>)
    ensures
        match context_refusal(*old(ctx)) {
            Some(e) => r == Err::<(), Errors>(e)
                && *final(ctx) == *old(ctx),
            None => old(ctx).accounts.yields(final(ctx).accounts, rate_change_limit, r),
        },
        final(ctx).program_id == old(ctx).program_id,
        final(ctx).remaining_accounts == old(ctx).remaining_accounts,
        old(ctx).accounts.stake_manager@.wf() ==> final(ctx).accounts.stake_manager@.wf(),
{
    match check_context(ctx) {
        Ok(_) => {},
        Err(e) => {
            return Err(e);
        },
    }
    ctx.accounts.process(rate_change_limit)
}

/// Admits a validator to the validator set. A call that is turned away leaves everything as it
/// was; any other call does what the operation does.
pub fn add_validator(
    ctx: &mut Context<AddValidator>,
    new_validator: Address,
) -> (r: Result<(), Errors>)
    ensures
        match context_refusal(*old(ctx)) {
            Some(e) => r == Err::<(), Errors>(e)
                && *final(ctx) == *old(ctx),
            None => old(ctx).accounts.yields(final(ctx).accounts, new_validator, r),
        },
        final(ctx).program_id == old(ctx).program_id,
        final(ctx).remaining_accounts == old(ctx).remaining_accounts,
        old(ctx).accounts.stake_manager@.wf() ==> final(ctx).accounts.stake_manager@.wf(),
{
    match check_context(ctx) {
        Ok(_) => {},
        Err(e) => {
            return Err(e);
        },
    }
    ctx.accounts.process(new_validator)
}

/// Takes a validator out of the validator set. A call that is turned away leaves everything as
/// it was; any other call does what the operation does.
pub fn remove_validator(
    ctx: &mut Context<RemoveValidator>,
    validator: Address,
) -> (r: Result<(), Errors>)
    ensures
        match context_refusal(*old(ctx)) {
            Some(e) => r == Err::<(), Errors>(e)
                && *final(ctx) == *old(ctx),
            None => old(ctx).accounts.yields(final(ctx).accounts, validator, r),
        },
        final(ctx).program_id == old(ctx).program_id,
        final(ctx).remaining_accounts == old(ctx).remaining_accounts,
        old(ctx).accounts.stake_manager@.wf() ==> final(ctx).accounts.stake_manager@.wf(),
{
    match check_context(ctx) {
        Ok(_) => {},
        Err(e) => {
            return Err(e);
        },
    }
    ctx.accounts.process(validator)
}

/// Moves delegated value to another validator. A call that is turned away leaves everything as
/// it was; any other call does what the operation does.
pub fn redelegate(
    ctx: &mut Context<Redelegate>,
    redelegate_amount: u64,
) -> (r: Result<Outcome<EventRedelegate>, Errors>)
    ensures
        match context_refusal(*old(ctx)) {
            Some(e) => r == Err::<Outcome<EventRedelegate>, Errors>(e)
                && *final(ctx) == *old(ctx),
            None => old(ctx).accounts.yields(final(ctx).accounts, redelegate_amount, r),
        },
        final(ctx).program_id == old(ctx).program_id,
        final(ctx).remaining_accounts == old(ctx).remaining_accounts,
        old(ctx).accounts.stake_manager@.wf() ==> final(ctx).accounts.stake_manager@.wf(),
{
    match check_context(ctx) {
        Ok(_) => {},
        Err(e) => {
            return Err(e);
        },
    }
    ctx.accounts.process(redelegate_amount)
}

/// Stakes the base asset for derivative units. A call that is turned away leaves everything as
/// it was; any other call does what the operation does.
pub fn stake(
    ctx: &mut Context<Stake>,
    stake_amount: u64,
) -> (r: Result<Outcome<EventStake>, Errors>)
    ensures
        match context_refusal(*old(ctx)) {
            Some(e) => r == Err::<Outcome<EventStake>, Errors>(e)
                && *final(ctx) == *old(ctx),
            None => old(ctx).accounts.yields(final(ctx).accounts, stake_amount, r),
        },
        final(ctx).program_id == old(ctx).program_id,
        final(ctx).remaining_accounts == old(ctx).remaining_accounts,
        old(ctx).accounts.stake_manager@.wf() ==> final(ctx).accounts.stake_manager@.wf(),
{
    match check_context(ctx) {
        Ok(_) => {},
        Err(e) => {
            return Err(e);
        },
    }
    ctx.accounts.process(stake_amount)
}

/// Gives up derivative units for a withdrawal request. A call that is turned away leaves
/// everything as it was; any other call does what the operation does.
pub fn unstake(
    ctx: &mut Context<Unstake>,
    unstake_amount: u64,
) -> (r: Result<Outcome<EventUnstake>, Errors>)
    ensures
        match context_refusal(*old(ctx)) {
            Some(e) => r == Err::<Outcome<EventUnstake>, Errors>(e)
                && *final(ctx) == *old(ctx),
            None => old(ctx).accounts.yields(final(ctx).accounts, unstake_amount, r),
        },
        final(ctx).program_id == old(ctx).program_id,
        final(ctx).remaining_accounts == old(ctx).remaining_accounts,
        old(ctx).accounts.stake_manager@.wf() ==> final(ctx).accounts.stake_manager@.wf(),
{
    match check_context(ctx) {
        Ok(_) => {},
        Err(e) => {
            return Err(e);
        },
    }
    ctx.accounts.process(unstake_amount)
}

/// Claims a withdrawal request. A call that is turned away leaves everything as it was; any
/// other call does what the operation does.
pub fn withdraw(ctx: &mut Context<Withdraw>) -> (r: Result<Outcome<EventWithdraw>, Errors>)
    ensures
        match context_refusal(*old(ctx)) {
            Some(e) => r == Err::<Outcome<EventWithdraw>, Errors>(e)
                && *final(ctx) == *old(ctx),
            None => old(ctx).accounts.yields(final(ctx).accounts, r),
        },
        final(ctx).program_id == old(ctx).program_id,
        final(ctx).remaining_accounts == old(ctx).remaining_accounts,
{
    match check_context(ctx) {
        Ok(_) => {},
        Err(e) => {
            return Err(e);
        },
    }
    ctx.accounts.process()
}

/// Opens the next era. A call that is turned away leaves everything as it was; any other call does
/// what the operation does.
pub fn era_new(ctx: &mut Context<EraNew>) -> (r: Result<Outcome<EventEraNew>, Errors>)
    ensures
        match context_refusal(*old(ctx)) {
            Some(e) => r == Err::<Outcome<EventEraNew>, Errors>(e)
                && *final(ctx) == *old(ctx),
            None => old(ctx).accounts.yields(final(ctx).accounts, r),
        },
        final(ctx).program_id == old(ctx).program_id,
        final(ctx).remaining_accounts == old(ctx).remaining_accounts,
        old(ctx).accounts.stake_manager@.wf() ==> final(ctx).accounts.stake_manager@.wf(),
{
    match check_context(ctx) {
        Ok(_) => {},
        Err(e) => {
            return Err(e);
        },
    }
    ctx.accounts.process()
}

/// Delegates what the era has to bond. A call that is turned away leaves everything as it was;
/// any other call does what the operation does.
pub fn era_bond(ctx: &mut Context<EraBond>) -> (r: Result<Outcome<EventEraBond>, Errors>)
    ensures
        match context_refusal(*old(ctx)) {
            Some(e) => r == Err::<Outcome<EventEraBond>, Errors>(e)
                && *final(ctx) == *old(ctx),
            None => old(ctx).accounts.yields(final(ctx).accounts, r),
        },
        final(ctx).program_id == old(ctx).program_id,
        final(ctx).remaining_accounts == old(ctx).remaining_accounts,
        old(ctx).accounts.stake_manager@.wf() ==> final(ctx).accounts.stake_manager@.wf(),
{
    match check_context(ctx) {
        Ok(_) => {},
        Err(e) => {
            return Err(e);
        },
    }
    ctx.accounts.process()
}

/// Deactivates what the era has to unbond, one record at a time. A call that is turned away
/// leaves everything as it was; any other call does what the operation does.
pub fn era_unbond(ctx: &mut Context<EraUnbond>) -> (r: Result<Outcome<EventEraUnbond>, Errors>)
    ensures
        match context_refusal(*old(ctx)) {
            Some(e) => r == Err::<Outcome<EventEraUnbond>, Errors>(e)
                && *final(ctx) == *old(ctx),
            None => old(ctx).accounts.yields(final(ctx).accounts, r),
        },
        final(ctx).program_id == old(ctx).program_id,
        final(ctx).remaining_accounts == old(ctx).remaining_accounts,
        old(ctx).accounts.stake_manager@.wf() ==> final(ctx).accounts.stake_manager@.wf(),
{
    match check_context(ctx) {
        Ok(_) => {},
        Err(e) => {
            return Err(e);
        },
    }
    ctx.accounts.process()
}

/// Observes one pending record. A call that is turned away leaves everything as it was; any
/// other call does what the operation does.
pub fn era_update_active(
    ctx: &mut Context<EraUpdateActive>,
) -> (r: Result<Outcome<EventEraUpdateActive>, Errors>)
    ensures
        match context_refusal(*old(ctx)) {
            Some(e) => r == Err::<Outcome<EventEraUpdateActive>, Errors>(e)
                && *final(ctx) == *old(ctx),
            None => old(ctx).accounts.yields(final(ctx).accounts, r),
        },
        final(ctx).program_id == old(ctx).program_id,
        final(ctx).remaining_accounts == old(ctx).remaining_accounts,
        old(ctx).accounts.stake_manager@.wf() ==> final(ctx).accounts.stake_manager@.wf(),
{
    match check_context(ctx) {
        Ok(_) => {},
        Err(e) => {
            return Err(e);
        },
    }
    ctx.accounts.process()
}

/// Settles the era. A call that is turned away leaves everything as it was; any other call does
/// what the operation does.
pub fn era_update_rate(
    ctx: &mut Context<EraUpdateRate>,
) -> (r: Result<Outcome<EventEraUpdateRate>, Errors>)
    ensures
        match context_refusal(*old(ctx)) {
            Some(e) => r == Err::<Outcome<EventEraUpdateRate>, Errors>(e)
                && *final(ctx) == *old(ctx),
            None => old(ctx).accounts.yields(final(ctx).accounts, r),
        },
        final(ctx).program_id == old(ctx).program_id,
        final(ctx).remaining_accounts == old(ctx).remaining_accounts,
        old(ctx).accounts.stake_manager@.wf() ==> final(ctx).accounts.stake_manager@.wf(),
{
    match check_context(ctx) {
        Ok(_) => {},
        Err(e) => {
            return Err(e);
        },
    }
    ctx.accounts.process()
}

/// Merges two active records of one validator. A call that is turned away leaves everything as
/// it was; any other call does what the operation does.
pub fn era_merge(ctx: &mut Context<EraMerge>) -> (r: Result<Outcome<EventEraMerge>, Errors>)
    ensures
        match context_refusal(*old(ctx)) {
            Some(e) => r == Err::<Outcome<EventEraMerge>, Errors>(e)
                && *final(ctx) == *old(ctx),
            None => old(ctx).accounts.yields(final(ctx).accounts, r),
        },
        final(ctx).program_id == old(ctx).program_id,
        final(ctx).remaining_accounts == old(ctx).remaining_accounts,
        old(ctx).accounts.stake_manager@.wf() ==> final(ctx).accounts.stake_manager@.wf(),
{
    match check_context(ctx) {
        Ok(_) => {},
        Err(e) => {
            return Err(e);
        },
    }
    ctx.accounts.process()
}

/// Withdraws a deactivated split record into custody. A call that is turned away leaves
/// everything as it was; any other call does what the operation does.
pub fn era_withdraw(
    ctx: &mut Context<EraWithdraw>,
) -> (r: Result<Outcome<EventEraWithdraw>, Errors>)
    ensures
        match context_refusal(*old(ctx)) {
            Some(e) => r == Err::<Outcome<EventEraWithdraw>, Errors>(e)
                && *final(ctx) == *old(ctx),
            None => old(ctx).accounts.yields(final(ctx).accounts, r),
        },
        final(ctx).program_id == old(ctx).program_id,
        final(ctx).remaining_accounts == old(ctx).remaining_accounts,
        old(ctx).accounts.stake_manager@.wf() ==> final(ctx).accounts.stake_manager@.wf(),
{
    match check_context(ctx) {
        Ok(_) => {},
        Err(e) => {
            return Err(e);
        },
    }
    ctx.accounts.process()
}

} // verus!
