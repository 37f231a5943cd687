use stake_manager::accounts::SystemAccount;
use stake_manager::address::Address;
use stake_manager::admin::{
    AddValidator, ReallocStakeManager, RemoveValidator, SetMinStakeAmount, SetRateChangeLimit,
    SetUnbondingDuration, SetUnstakeFeeCommission, TransferAdmin, TransferBalancer,
    TransferFeeRecipient,
};
use stake_manager::errors::Errors;
use stake_manager::initialize::{Initialize, InitializeData};
use stake_manager::states::{EraProcessData, StakeManager};

fn addr(n: u8) -> Address {
    Address::new([n; 32])
}

fn ledger() -> StakeManager {
    StakeManager {
        admin: addr(1),
        balancer: addr(2),
        rsol_mint: addr(3),
        fee_recipient: addr(4),
        pool_seed_bump: 255,
        rent_exempt_for_pool_acc: 890_880,
        min_stake_amount: 1_000_000,
        unstake_fee_commission: 0,
        protocol_fee_commission: 100_000_000,
        rate_change_limit: 500_000,
        stake_accounts_len_limit: 100,
        split_accounts_len_limit: 20,
        unbonding_duration: 2,
        latest_era: 10,
        rate: 1_000_000_000,
        era_bond: 0,
        era_unbond: 0,
        active: 0,
        total_rsol_supply: 0,
        total_protocol_fee: 0,
        validators: vec![addr(20), addr(21)],
        stake_accounts: vec![],
        split_accounts: vec![],
        era_process_data: EraProcessData::new(),
    }
}

#[test]
fn administrator_hands_roles_on() {
    let mut ctx = TransferAdmin { stake_manager: ledger(), admin: addr(1) };
    ctx.process(addr(70)).unwrap();
    let mut expected = ledger();
    expected.admin = addr(70);
    assert_eq!(ctx.stake_manager, expected);
    assert_eq!(ctx.process(addr(71)).unwrap_err(), Errors::AdminNotMatch);
    assert_eq!(ctx.stake_manager, expected);

    let mut ctx = TransferBalancer { stake_manager: ledger(), admin: addr(1) };
    ctx.process(addr(70)).unwrap();
    let mut expected = ledger();
    expected.balancer = addr(70);
    assert_eq!(ctx.stake_manager, expected);

    let mut ctx = TransferFeeRecipient { stake_manager: ledger(), admin: addr(1) };
    ctx.process(addr(70)).unwrap();
    let mut expected = ledger();
    expected.fee_recipient = addr(70);
    assert_eq!(ctx.stake_manager, expected);
}

#[test]
fn administrator_sets_the_parameters() {
    let mut ctx = SetMinStakeAmount { stake_manager: ledger(), admin: addr(1) };
    ctx.process(5).unwrap();
    let mut expected = ledger();
    expected.min_stake_amount = 5;
    assert_eq!(ctx.stake_manager, expected);

    let mut ctx = SetUnbondingDuration { stake_manager: ledger(), admin: addr(1) };
    ctx.process(9).unwrap();
    let mut expected = ledger();
    expected.unbonding_duration = 9;
    assert_eq!(ctx.stake_manager, expected);

    let mut ctx = SetUnstakeFeeCommission { stake_manager: ledger(), admin: addr(1) };
    ctx.process(1_000).unwrap();
    let mut expected = ledger();
    expected.unstake_fee_commission = 1_000;
    assert_eq!(ctx.stake_manager, expected);

    let mut ctx = SetRateChangeLimit { stake_manager: ledger(), admin: addr(1) };
    ctx.process(77).unwrap();
    let mut expected = ledger();
    expected.rate_change_limit = 77;
    assert_eq!(ctx.stake_manager, expected);
}

#[test]
fn nobody_but_the_administrator_changes_a_setting() {
    let stranger = addr(2);
    let mut ctx = TransferBalancer { stake_manager: ledger(), admin: stranger };
    assert_eq!(ctx.process(addr(70)).unwrap_err(), Errors::AdminNotMatch);
    assert_eq!(ctx.stake_manager, ledger());
    let mut ctx = TransferFeeRecipient { stake_manager: ledger(), admin: stranger };
    assert_eq!(ctx.process(addr(70)).unwrap_err(), Errors::AdminNotMatch);
    let mut ctx = SetMinStakeAmount { stake_manager: ledger(), admin: stranger };
    assert_eq!(ctx.process(5).unwrap_err(), Errors::AdminNotMatch);
    let mut ctx = SetUnbondingDuration { stake_manager: ledger(), admin: stranger };
    assert_eq!(ctx.process(5).unwrap_err(), Errors::AdminNotMatch);
    let mut ctx = SetUnstakeFeeCommission { stake_manager: ledger(), admin: stranger };
    assert_eq!(ctx.process(5).unwrap_err(), Errors::AdminNotMatch);
    let mut ctx = SetRateChangeLimit { stake_manager: ledger(), admin: stranger };
    assert_eq!(ctx.process(5).unwrap_err(), Errors::AdminNotMatch);
    assert_eq!(ctx.stake_manager, ledger());
    let mut ctx = AddValidator { stake_manager: ledger(), admin: stranger };
    assert_eq!(ctx.process(addr(22)).unwrap_err(), Errors::AdminNotMatch);
    let mut ctx = RemoveValidator { stake_manager: ledger(), admin: stranger };
    assert_eq!(ctx.process(addr(20)).unwrap_err(), Errors::AdminNotMatch);
    assert_eq!(ctx.stake_manager, ledger());
    let mut ctx = ReallocStakeManager { stake_manager: ledger(), admin: stranger };
    assert_eq!(ctx.process(4_096).unwrap_err(), Errors::AdminNotMatch);
    ctx.admin = addr(1);
    assert_eq!(ctx.process(4_096), Ok(()));
    assert_eq!(ctx.stake_manager, ledger());
}

#[test]
fn validator_set_takes_each_validator_once() {
    let mut ctx = AddValidator { stake_manager: ledger(), admin: addr(1) };
    ctx.process(addr(22)).unwrap();
    assert_eq!(ctx.stake_manager.validators, vec![addr(20), addr(21), addr(22)]);
    assert_eq!(ctx.process(addr(22)).unwrap_err(), Errors::ValidatorAlreadyExist);
    assert_eq!(ctx.process(addr(20)).unwrap_err(), Errors::ValidatorAlreadyExist);
    assert_eq!(ctx.stake_manager.validators, vec![addr(20), addr(21), addr(22)]);
}

#[test]
fn validator_set_lets_only_members_go() {
    let mut ctx = RemoveValidator { stake_manager: ledger(), admin: addr(1) };
    assert_eq!(ctx.process(addr(22)).unwrap_err(), Errors::ValidatorNotExist);
    ctx.process(addr(20)).unwrap();
    assert_eq!(ctx.stake_manager.validators, vec![addr(21)]);
    assert_eq!(ctx.process(addr(20)).unwrap_err(), Errors::ValidatorNotExist);
    ctx.process(addr(21)).unwrap();
    assert!(ctx.stake_manager.validators.is_empty());
}

fn set_up() -> Initialize {
    Initialize {
        stake_manager: ledger(),
        stake_pool: SystemAccount { key: addr(5), lamports: 890_880 },
        fee_recipient: addr(14),
        admin: addr(11),
        rent_exempt_for_pool_acc: 890_880,
    }
}

fn balances() -> InitializeData {
    InitializeData {
        rsol_mint: addr(13),
        validator: addr(25),
        bond: 7,
        unbond: 8,
        active: 3_000,
        latest_era: 500,
        rate: 1_500_000_000,
        total_rsol_supply: 2_000,
        total_protocol_fee: 9,
    }
}

#[test]
fn set_up_writes_the_ledger() {
    let mut ctx = set_up();
    ctx.process(balances(), 254).unwrap();
    assert_eq!(
        ctx.stake_manager,
        StakeManager {
            admin: addr(11),
            balancer: addr(11),
            rsol_mint: addr(13),
            fee_recipient: addr(14),
            pool_seed_bump: 254,
            rent_exempt_for_pool_acc: 890_880,
            min_stake_amount: 1_000_000,
            unstake_fee_commission: 0,
            protocol_fee_commission: 100_000_000,
            rate_change_limit: 500_000,
            stake_accounts_len_limit: 100,
            split_accounts_len_limit: 20,
            unbonding_duration: 2,
            latest_era: 500,
            rate: 1_500_000_000,
            era_bond: 7,
            era_unbond: 8,
            active: 3_000,
            total_rsol_supply: 2_000,
            total_protocol_fee: 9,
            validators: vec![addr(25)],
            stake_accounts: vec![],
            split_accounts: vec![],
            era_process_data: EraProcessData::new(),
        }
    );
}

#[test]
fn set_up_of_an_empty_pool_starts_at_par() {
    let mut ctx = set_up();
    let data = InitializeData { active: 0, total_rsol_supply: 0, rate: 1_000_000_000, ..balances() };
    ctx.process(data, 1).unwrap();
    assert_eq!(ctx.stake_manager.rate, 1_000_000_000);
    assert_eq!(ctx.stake_manager.active, 0);
}

#[test]
fn set_up_is_refused_on_each_failing_guard() {
    let mut ctx = set_up();
    ctx.stake_pool.lamports = 890_881;
    assert_eq!(ctx.process(balances(), 254).unwrap_err(), Errors::RentNotEnough);
    ctx.stake_pool.lamports = 890_879;
    assert_eq!(ctx.process(balances(), 254).unwrap_err(), Errors::RentNotEnough);
    ctx.stake_pool.lamports = 890_880;
    let data = InitializeData { rate: 1_500_000_001, ..balances() };
    assert_eq!(ctx.process(data, 254).unwrap_err(), Errors::InitializeDataMatch);
    let data = InitializeData { active: u64::MAX, total_rsol_supply: 1, ..balances() };
    assert_eq!(ctx.process(data, 254).unwrap_err(), Errors::CalculationFail);
    assert_eq!(ctx.stake_manager, ledger());
}
