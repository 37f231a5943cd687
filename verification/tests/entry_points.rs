use stake_manager::accounts::{
    Clock, Delegation, MintManager, StakeAccount, SystemAccount, TokenAccount, NEVER_DEACTIVATED,
};
use stake_manager::address::Address;
use stake_manager::admin::{
    AddValidator, RemoveValidator, SetMinStakeAmount, SetRateChangeLimit, SetUnbondingDuration,
    TransferAdmin,
};
use stake_manager::era_bond::EraBond;
use stake_manager::era_merge::EraMerge;
use stake_manager::era_new::EraNew;
use stake_manager::era_unbond::EraUnbond;
use stake_manager::era_update_active::EraUpdateActive;
use stake_manager::era_update_rate::EraUpdateRate;
use stake_manager::era_withdraw::EraWithdraw;
use stake_manager::errors::Errors;
use stake_manager::initialize::{Initialize, InitializeData};
use stake_manager::program::{
    add_validator, era_bond, era_merge, era_new, era_unbond, era_update_active, era_update_rate,
    era_withdraw, id, initialize, redelegate, remove_validator, set_min_stake_amount,
    set_rate_change_limit, set_unbonding_duration, stake, transfer_admin, unstake, withdraw,
    Context,
};
use stake_manager::redelegate::Redelegate;
use stake_manager::staker_stake::Stake;
use stake_manager::staker_unstake::Unstake;
use stake_manager::staker_withdraw::Withdraw;
use stake_manager::states::{EraProcessData, StakeManager, UnstakeAccount};

fn addr(n: u8) -> Address {
    Address::new([n; 32])
}

fn ledger() -> StakeManager {
    StakeManager {
        admin: addr(1),
        balancer: addr(2),
        rsol_mint: addr(3),
        fee_recipient: addr(4),
        pool_seed_bump: 255,
        rent_exempt_for_pool_acc: 890_880,
        min_stake_amount: 1_000_000,
        unstake_fee_commission: 0,
        protocol_fee_commission: 100_000_000,
        rate_change_limit: 500_000,
        stake_accounts_len_limit: 100,
        split_accounts_len_limit: 20,
        unbonding_duration: 2,
        latest_era: 10,
        rate: 1_000_000_000,
        era_bond: 0,
        era_unbond: 0,
        active: 0,
        total_rsol_supply: 0,
        total_protocol_fee: 0,
        validators: vec![addr(20), addr(21)],
        stake_accounts: vec![],
        split_accounts: vec![],
        era_process_data: EraProcessData::new(),
    }
}

fn call<T>(accounts: T) -> Context<T> {
    Context { program_id: id(), accounts, remaining_accounts: 0 }
}

fn foreign<T>(accounts: T) -> Context<T> {
    Context { program_id: addr(200), accounts, remaining_accounts: 0 }
}

fn crowded<T>(accounts: T) -> Context<T> {
    Context { program_id: id(), accounts, remaining_accounts: 3 }
}

fn record(key: u8, voter: u8, stake: u64, deactivation_epoch: u64) -> StakeAccount {
    StakeAccount {
        key: addr(key),
        lamports: stake + 2_282_880,
        delegation: Some(Delegation { voter_pubkey: addr(voter), stake, deactivation_epoch }),
    }
}

fn fresh(key: u8) -> StakeAccount {
    StakeAccount { key: addr(key), lamports: 2_282_880, delegation: None }
}

fn staked() -> StakeManager {
    let mut m = ledger();
    m.active = 30_000_000;
    m.total_rsol_supply = 30_000_000;
    m.stake_accounts = vec![addr(40), addr(41)];
    m.split_accounts = vec![addr(50)];
    m
}

fn in_era(need_bond: u64, need_unbond: u64) -> StakeManager {
    let mut m = staked();
    m.era_process_data.need_bond = need_bond;
    m.era_process_data.need_unbond = need_unbond;
    m.era_process_data.old_active = 30_000_000;
    m.era_process_data.pending_stake_accounts = vec![addr(40), addr(41)];
    m
}

fn settling() -> StakeManager {
    let mut m = staked();
    m.era_process_data.old_active = 30_000_000;
    m.era_process_data.new_active = 30_003_000;
    m
}

fn token_account() -> TokenAccount {
    TokenAccount {
        key: addr(31),
        owner: addr(30),
        amount: 5_000_000,
        delegate: None,
        delegated_amount: 0,
    }
}

fn set_up() -> Initialize {
    Initialize {
        stake_manager: ledger(),
        stake_pool: SystemAccount { key: addr(5), lamports: 890_880 },
        fee_recipient: addr(4),
        admin: addr(1),
        rent_exempt_for_pool_acc: 890_880,
    }
}

fn balances() -> InitializeData {
    InitializeData {
        rsol_mint: addr(3),
        validator: addr(20),
        bond: 0,
        unbond: 0,
        active: 0,
        latest_era: 10,
        rate: 1_000_000_000,
        total_rsol_supply: 0,
        total_protocol_fee: 0,
    }
}

fn staking() -> Stake {
    Stake {
        stake_manager: staked(),
        stake_pool: addr(5),
        from: SystemAccount { key: addr(30), lamports: 50_000_000 },
        mint_manager: MintManager { rsol_mint: addr(3) },
        rsol_mint: addr(3),
        mint_to: token_account(),
    }
}

fn unstaking() -> Unstake {
    Unstake {
        stake_manager: staked(),
        stake_manager_key: addr(9),
        rsol_mint: addr(3),
        burn_rsol_from: token_account(),
        burn_rsol_authority: addr(30),
        unstake_account: UnstakeAccount {
            stake_manager: addr(0),
            recipient: addr(0),
            amount: 0,
            created_epoch: 0,
        },
        unstake_account_key: addr(32),
        fee_recipient: addr(4),
        clock: Clock { epoch: 12 },
    }
}

fn withdrawing() -> Withdraw {
    Withdraw {
        stake_manager: staked(),
        stake_manager_key: addr(9),
        stake_pool: SystemAccount { key: addr(5), lamports: 10_000_000 },
        unstake_account: UnstakeAccount {
            stake_manager: addr(9),
            recipient: addr(30),
            amount: 1_000_000,
            created_epoch: 12,
        },
        unstake_account_key: addr(32),
        clock: Clock { epoch: 14 },
    }
}

fn bonding() -> EraBond {
    EraBond {
        stake_manager: in_era(6_000_000, 0),
        validator: addr(20),
        stake_pool: addr(5),
        stake_account: addr(42),
    }
}

fn unbonding() -> EraUnbond {
    EraUnbond {
        stake_manager: in_era(0, 6_000_000),
        stake_pool: addr(5),
        from_stake_account: record(40, 20, 7_000_000, NEVER_DEACTIVATED),
        split_stake_account: fresh(51),
        validator: addr(20),
        rent_payer: addr(60),
    }
}

fn observing() -> EraUpdateActive {
    EraUpdateActive {
        stake_manager: in_era(0, 0),
        stake_account: record(40, 20, 7_000_000, NEVER_DEACTIVATED),
    }
}

fn merging() -> EraMerge {
    EraMerge {
        stake_manager: staked(),
        src_stake_account: record(40, 20, 7_000_000, NEVER_DEACTIVATED),
        dst_stake_account: record(41, 20, 8_000_000, NEVER_DEACTIVATED),
        stake_pool: addr(5),
    }
}

fn reclaiming() -> EraWithdraw {
    EraWithdraw {
        stake_manager: staked(),
        stake_pool: addr(5),
        stake_account: record(50, 20, 4_000_000, 10),
    }
}

fn redelegating() -> Redelegate {
    Redelegate {
        stake_manager: staked(),
        balancer: addr(2),
        to_validator: addr(21),
        stake_pool: addr(5),
        from_stake_account: record(40, 20, 7_000_000, NEVER_DEACTIVATED),
        split_stake_account: fresh(51),
        to_stake_account: addr(42),
        rent_payer: addr(60),
    }
}

#[test]
fn every_entry_point_turns_a_foreign_call_away() {
    let e = Errors::ProgramIdNotMatch;
    let mut ctx = foreign(set_up());
    assert_eq!(initialize(&mut ctx, balances(), 254).unwrap_err(), e);
    assert_eq!(ctx, foreign(set_up()));
    let admin = |m: StakeManager| (m, addr(1));
    let (m, a) = admin(ledger());
    assert_eq!(
        transfer_admin(&mut foreign(TransferAdmin { stake_manager: m, admin: a }), addr(7))
            .unwrap_err(),
        e
    );
    let (m, a) = admin(ledger());
    assert_eq!(
        set_min_stake_amount(&mut foreign(SetMinStakeAmount { stake_manager: m, admin: a }), 7)
            .unwrap_err(),
        e
    );
    let (m, a) = admin(ledger());
    assert_eq!(
        set_unbonding_duration(
            &mut foreign(SetUnbondingDuration { stake_manager: m, admin: a }),
            7
        )
        .unwrap_err(),
        e
    );
    let (m, a) = admin(ledger());
    assert_eq!(
        set_rate_change_limit(&mut foreign(SetRateChangeLimit { stake_manager: m, admin: a }), 7)
            .unwrap_err(),
        e
    );
    let (m, a) = admin(ledger());
    assert_eq!(
        add_validator(&mut foreign(AddValidator { stake_manager: m, admin: a }), addr(22))
            .unwrap_err(),
        e
    );
    let (m, a) = admin(ledger());
    assert_eq!(
        remove_validator(&mut foreign(RemoveValidator { stake_manager: m, admin: a }), addr(20))
            .unwrap_err(),
        e
    );
    assert_eq!(redelegate(&mut foreign(redelegating()), 1_000_000).unwrap_err(), e);
    assert_eq!(stake(&mut foreign(staking()), 1_000_000).unwrap_err(), e);
    assert_eq!(unstake(&mut foreign(unstaking()), 1_000_000).unwrap_err(), e);
    assert_eq!(withdraw(&mut foreign(withdrawing())).unwrap_err(), e);
    let opening = EraNew { stake_manager: staked(), clock: Clock { epoch: 11 } };
    assert_eq!(era_new(&mut foreign(opening)).unwrap_err(), e);
    assert_eq!(era_bond(&mut foreign(bonding())).unwrap_err(), e);
    assert_eq!(era_unbond(&mut foreign(unbonding())).unwrap_err(), e);
    assert_eq!(era_update_active(&mut foreign(observing())).unwrap_err(), e);
    let settle = EraUpdateRate { stake_manager: settling(), fee_recipient: addr(4) };
    assert_eq!(era_update_rate(&mut foreign(settle)).unwrap_err(), e);
    assert_eq!(era_merge(&mut foreign(merging())).unwrap_err(), e);
    assert_eq!(era_withdraw(&mut foreign(reclaiming())).unwrap_err(), e);
}

#[test]
fn every_entry_point_turns_a_crowded_call_away() {
    let e = Errors::RemainingAccountsNotMatch;
    let mut ctx = crowded(staking());
    assert_eq!(stake(&mut ctx, 1_000_000).unwrap_err(), e);
    assert_eq!(ctx, crowded(staking()));
    let mut ctx = crowded(unstaking());
    assert_eq!(unstake(&mut ctx, 1_000_000).unwrap_err(), e);
    assert_eq!(ctx, crowded(unstaking()));
    let mut ctx = crowded(bonding());
    assert_eq!(era_bond(&mut ctx).unwrap_err(), e);
    assert_eq!(ctx, crowded(bonding()));
    let mut ctx = crowded(unbonding());
    assert_eq!(era_unbond(&mut ctx).unwrap_err(), e);
    assert_eq!(ctx, crowded(unbonding()));
    let mut ctx = crowded(redelegating());
    assert_eq!(redelegate(&mut ctx, 1_000_000).unwrap_err(), e);
    assert_eq!(ctx, crowded(redelegating()));
    let mut ctx = crowded(set_up());
    assert_eq!(initialize(&mut ctx, balances(), 254).unwrap_err(), e);
    assert_eq!(ctx, crowded(set_up()));
}

#[test]
fn every_entry_point_runs_its_operation() {
    let mut ctx = call(set_up());
    initialize(&mut ctx, balances(), 254).unwrap();
    assert_eq!(ctx.accounts.stake_manager.pool_seed_bump, 254);
    assert_eq!(ctx.accounts.stake_manager.validators, vec![addr(20)]);

    let mut ctx = call(TransferAdmin { stake_manager: ledger(), admin: addr(1) });
    transfer_admin(&mut ctx, addr(7)).unwrap();
    assert_eq!(ctx.accounts.stake_manager.admin, addr(7));

    let mut ctx = call(SetMinStakeAmount { stake_manager: ledger(), admin: addr(1) });
    set_min_stake_amount(&mut ctx, 7).unwrap();
    assert_eq!(ctx.accounts.stake_manager.min_stake_amount, 7);

    let mut ctx = call(SetUnbondingDuration { stake_manager: ledger(), admin: addr(1) });
    set_unbonding_duration(&mut ctx, 7).unwrap();
    assert_eq!(ctx.accounts.stake_manager.unbonding_duration, 7);

    let mut ctx = call(SetRateChangeLimit { stake_manager: ledger(), admin: addr(1) });
    set_rate_change_limit(&mut ctx, 7).unwrap();
    assert_eq!(ctx.accounts.stake_manager.rate_change_limit, 7);

    let mut ctx = call(AddValidator { stake_manager: ledger(), admin: addr(1) });
    add_validator(&mut ctx, addr(22)).unwrap();
    assert_eq!(ctx.accounts.stake_manager.validators, vec![addr(20), addr(21), addr(22)]);

    let mut ctx = call(RemoveValidator { stake_manager: ledger(), admin: addr(1) });
    remove_validator(&mut ctx, addr(20)).unwrap();
    assert_eq!(ctx.accounts.stake_manager.validators, vec![addr(21)]);

    let mut ctx = call(redelegating());
    let out = redelegate(&mut ctx, 7_000_000).unwrap();
    assert_eq!(out.event.redelegate_amount, 7_000_000);
    assert_eq!(ctx.accounts.stake_manager.stake_accounts, vec![addr(41), addr(42)]);
    assert_eq!(ctx.accounts.stake_manager.split_accounts, vec![addr(50), addr(40)]);

    let mut ctx = call(staking());
    let out = stake(&mut ctx, 1_000_000).unwrap();
    assert_eq!(out.event.rsol_amount, 1_000_000);
    assert_eq!(ctx.accounts.stake_manager.era_bond, 1_000_000);

    let mut ctx = call(unstaking());
    let out = unstake(&mut ctx, 1_000_000).unwrap();
    assert_eq!(out.event.sol_amount, 1_000_000);
    assert_eq!(ctx.accounts.stake_manager.era_unbond, 1_000_000);
    assert_eq!(ctx.accounts.unstake_account.amount, 1_000_000);

    let mut ctx = call(withdrawing());
    let out = withdraw(&mut ctx).unwrap();
    assert_eq!(out.event.withdraw_amount, 1_000_000);
    assert_eq!(ctx, call(withdrawing()));

    let mut ctx = call(EraNew { stake_manager: staked(), clock: Clock { epoch: 11 } });
    let out = era_new(&mut ctx).unwrap();
    assert_eq!(out.event.new_era, 11);
    assert_eq!(ctx.accounts.stake_manager.latest_era, 11);

    let mut ctx = call(bonding());
    let out = era_bond(&mut ctx).unwrap();
    assert_eq!(out.event.bond_amount, 6_000_000);
    assert_eq!(ctx.accounts.stake_manager.era_process_data.need_bond, 0);

    let mut ctx = call(unbonding());
    let out = era_unbond(&mut ctx).unwrap();
    assert_eq!(out.event.unbond_amount, 6_000_000);
    assert_eq!(out.event.split_account, addr(51));
    assert_eq!(ctx.accounts.stake_manager.era_process_data.need_unbond, 0);

    let mut ctx = call(observing());
    let out = era_update_active(&mut ctx).unwrap();
    assert_eq!(out.event.stake_amount, 7_000_000);
    assert_eq!(ctx.accounts.stake_manager.era_process_data.new_active, 7_000_000);

    let mut ctx = call(EraUpdateRate { stake_manager: settling(), fee_recipient: addr(4) });
    let out = era_update_rate(&mut ctx).unwrap();
    assert_eq!(out.event.fee, 300);
    assert_eq!(out.event.rate, 30_003_000u64 * 1_000_000_000 / 30_000_300);
    assert_eq!(ctx.accounts.stake_manager.active, 30_003_000);

    let mut ctx = call(merging());
    era_merge(&mut ctx).unwrap();
    assert_eq!(ctx.accounts.stake_manager.stake_accounts, vec![addr(41)]);

    let mut ctx = call(reclaiming());
    let out = era_withdraw(&mut ctx).unwrap();
    assert_eq!(out.event.withdraw_amount, 6_282_880);
    assert!(ctx.accounts.stake_manager.split_accounts.is_empty());
}
