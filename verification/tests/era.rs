use stake_manager::accounts::{Clock, Delegation, StakeAccount, NEVER_DEACTIVATED};
use stake_manager::actions::Action;
use stake_manager::address::Address;
use stake_manager::era_bond::{EraBond, EventEraBond};
use stake_manager::era_merge::{EraMerge, EventEraMerge};
use stake_manager::era_new::{EraNew, EventEraNew};
use stake_manager::era_unbond::{EraUnbond, EventEraUnbond};
use stake_manager::era_update_active::{EraUpdateActive, EventEraUpdateActive};
use stake_manager::era_update_rate::{EraUpdateRate, EventEraUpdateRate};
use stake_manager::era_withdraw::{EraWithdraw, EventEraWithdraw};
use stake_manager::errors::Errors;
use stake_manager::redelegate::{EventRedelegate, Redelegate};
use stake_manager::states::{EraProcessData, StakeManager};

fn addr(n: u8) -> Address {
    Address::new([n; 32])
}

fn ledger() -> StakeManager {
    StakeManager {
        admin: addr(1),
        balancer: addr(2),
        rsol_mint: addr(3),
        fee_recipient: addr(4),
        pool_seed_bump: 255,
        rent_exempt_for_pool_acc: 890_880,
        min_stake_amount: 1_000_000,
        unstake_fee_commission: 0,
        protocol_fee_commission: 100_000_000,
        rate_change_limit: 500_000,
        stake_accounts_len_limit: 100,
        split_accounts_len_limit: 20,
        unbonding_duration: 2,
        latest_era: 10,
        rate: 1_000_000_000,
        era_bond: 0,
        era_unbond: 0,
        active: 0,
        total_rsol_supply: 0,
        total_protocol_fee: 0,
        validators: vec![addr(20), addr(21)],
        stake_accounts: vec![],
        split_accounts: vec![],
        era_process_data: EraProcessData::new(),
    }
}

fn record(key: u8, voter: u8, stake: u64) -> StakeAccount {
    StakeAccount {
        key: addr(key),
        lamports: stake + 2_282_880,
        delegation: Some(Delegation {
            voter_pubkey: addr(voter),
            stake,
            deactivation_epoch: NEVER_DEACTIVATED,
        }),
    }
}

fn deactivated(key: u8, voter: u8, stake: u64, epoch: u64) -> StakeAccount {
    let mut account = record(key, voter, stake);
    account.delegation = Some(Delegation {
        voter_pubkey: addr(voter),
        stake,
        deactivation_epoch: epoch,
    });
    account
}

fn fresh(key: u8) -> StakeAccount {
    StakeAccount { key: addr(key), lamports: 2_282_880, delegation: None }
}

fn staked() -> StakeManager {
    let mut m = ledger();
    m.active = 30_000_000;
    m.total_rsol_supply = 30_000_000;
    m.stake_accounts = vec![addr(40), addr(41)];
    m.split_accounts = vec![addr(50)];
    m
}

fn unbonding(need_unbond: u64) -> StakeManager {
    let mut m = staked();
    m.era_process_data.need_unbond = need_unbond;
    m.era_process_data.old_active = 30_000_000;
    m.era_process_data.pending_stake_accounts = vec![addr(40), addr(41)];
    m
}

fn bonding(need_bond: u64) -> StakeManager {
    let mut m = staked();
    m.era_process_data.need_bond = need_bond;
    m.era_process_data.old_active = 30_000_000;
    m.era_process_data.pending_stake_accounts = vec![addr(40), addr(41)];
    m
}

fn settling(old_active: u64, new_active: u64) -> StakeManager {
    let mut m = ledger();
    m.active = old_active;
    m.total_rsol_supply = old_active;
    m.era_process_data.old_active = old_active;
    m.era_process_data.new_active = new_active;
    m
}

#[test]
fn era_opens_with_the_net_of_bond_and_unbond() {
    let mut m = staked();
    m.era_bond = 10_000_000;
    m.era_unbond = 4_000_000;
    let mut ctx = EraNew { stake_manager: m, clock: Clock { epoch: 11 } };
    let out = ctx.process().unwrap();
    assert_eq!(
        out.event,
        EventEraNew { new_era: 11, need_bond: 6_000_000, need_unbond: 0, active: 30_000_000 }
    );
    assert!(out.actions.is_empty());
    let mut expected = staked();
    expected.latest_era = 11;
    expected.era_process_data = EraProcessData {
        need_bond: 6_000_000,
        need_unbond: 0,
        old_active: 30_000_000,
        new_active: 0,
        pending_stake_accounts: vec![addr(40), addr(41)],
    };
    assert_eq!(ctx.stake_manager, expected);
    assert_eq!(ctx.clock, Clock { epoch: 11 });
}

#[test]
fn era_opens_with_the_net_unbond_where_unstakes_prevail() {
    let mut m = staked();
    m.era_bond = 4_000_000;
    m.era_unbond = 10_000_000;
    let mut ctx = EraNew { stake_manager: m, clock: Clock { epoch: 40 } };
    let out = ctx.process().unwrap();
    assert_eq!(out.event.need_bond, 0);
    assert_eq!(out.event.need_unbond, 6_000_000);
    assert_eq!(out.event.new_era, 11);
    assert_eq!(ctx.stake_manager.era_process_data.need_unbond, 6_000_000);
    assert_eq!(ctx.stake_manager.era_bond, 0);
    assert_eq!(ctx.stake_manager.era_unbond, 0);
}

#[test]
fn era_with_balanced_totals_opens_with_nothing_to_move() {
    let mut m = staked();
    m.era_bond = 5;
    m.era_unbond = 5;
    let mut ctx = EraNew { stake_manager: m, clock: Clock { epoch: 11 } };
    let out = ctx.process().unwrap();
    assert_eq!(out.event.need_bond, 0);
    assert_eq!(out.event.need_unbond, 0);
    assert!(!ctx.stake_manager.era_process_data.is_empty());
}

#[test]
fn era_does_not_open_before_the_clock_passes_it() {
    let mut ctx = EraNew { stake_manager: staked(), clock: Clock { epoch: 10 } };
    assert_eq!(ctx.process().unwrap_err(), Errors::EraIsLatest);
    assert_eq!(ctx.stake_manager, staked());
    ctx.clock.epoch = 0;
    assert_eq!(ctx.process().unwrap_err(), Errors::EraIsLatest);
    let mut m = staked();
    m.latest_era = u64::MAX;
    let mut ctx = EraNew { stake_manager: m, clock: Clock { epoch: u64::MAX } };
    assert_eq!(ctx.process().unwrap_err(), Errors::EraIsLatest);
}

#[test]
fn era_does_not_open_on_a_work_order_in_progress() {
    let mut orders = Vec::new();
    for field in 0..5 {
        let mut order = EraProcessData::new();
        match field {
            0 => order.need_bond = 1,
            1 => order.need_unbond = 1,
            2 => order.old_active = 1,
            3 => order.new_active = 1,
            _ => order.pending_stake_accounts.push(addr(40)),
        }
        orders.push(order);
    }
    for order in orders {
        let mut m = staked();
        m.era_process_data = order;
        let before = m.clone();
        let mut ctx = EraNew { stake_manager: m, clock: Clock { epoch: 11 } };
        assert_eq!(ctx.process().unwrap_err(), Errors::EraIsProcessing);
        assert_eq!(ctx.stake_manager, before);
        for epoch in [0u64, 10, u64::MAX] {
            ctx.clock.epoch = epoch;
            assert_eq!(ctx.process().unwrap_err(), Errors::EraIsProcessing);
            assert_eq!(ctx.stake_manager, before);
        }
    }
}

#[test]
fn bond_delegates_all_that_is_to_bond() {
    let mut ctx = EraBond {
        stake_manager: bonding(6_000_000),
        validator: addr(21),
        stake_pool: addr(5),
        stake_account: addr(42),
    };
    let out = ctx.process().unwrap();
    assert_eq!(out.event, EventEraBond { era: 10, stake_account: addr(42), bond_amount: 6_000_000 });
    assert_eq!(
        out.actions,
        vec![
            Action::Transfer { from: addr(5), to: addr(42), lamports: 6_000_000 },
            Action::InitializeStake {
                stake_account: addr(42),
                staker: addr(5),
                withdrawer: addr(5),
            },
            Action::DelegateStake {
                stake_account: addr(42),
                authority: addr(5),
                validator: addr(21),
            },
        ]
    );
    let mut expected = bonding(0);
    expected.stake_accounts = vec![addr(40), addr(41), addr(42)];
    expected.era_process_data.pending_stake_accounts = vec![addr(40), addr(41), addr(42)];
    assert_eq!(ctx.stake_manager, expected);
    assert_eq!(ctx.process().unwrap_err(), Errors::EraNoNeedBond);
}

#[test]
fn bond_is_refused_without_need_validator_or_fresh_record() {
    let mut ctx = EraBond {
        stake_manager: bonding(0),
        validator: addr(99),
        stake_pool: addr(5),
        stake_account: addr(40),
    };
    assert_eq!(ctx.process().unwrap_err(), Errors::EraNoNeedBond);
    ctx.stake_manager = bonding(1);
    assert_eq!(ctx.process().unwrap_err(), Errors::ValidatorNotExist);
    ctx.validator = addr(20);
    assert_eq!(ctx.process().unwrap_err(), Errors::StakeAccountAlreadyExist);
    ctx.stake_account = addr(50);
    assert_eq!(ctx.process().unwrap_err(), Errors::StakeAccountAlreadyExist);
    assert_eq!(ctx.stake_manager, bonding(1));
    ctx.stake_account = addr(42);
    assert!(ctx.process().is_ok());
}

#[test]
fn unbond_deactivates_a_small_record_whole() {
    let mut ctx = EraUnbond {
        stake_manager: unbonding(6_000_000),
        stake_pool: addr(5),
        from_stake_account: record(40, 20, 4_000_000),
        split_stake_account: fresh(51),
        validator: addr(20),
        rent_payer: addr(60),
    };
    let out = ctx.process().unwrap();
    assert_eq!(
        out.event,
        EventEraUnbond {
            era: 10,
            from_stake_account: addr(40),
            split_account: addr(40),
            unbond_amount: 4_000_000,
        }
    );
    assert_eq!(
        out.actions,
        vec![
            Action::WithdrawStake {
                stake_account: addr(51),
                withdrawer: addr(51),
                to: addr(60),
                lamports: 2_282_880,
            },
            Action::DeactivateStake { stake_account: addr(40), staker: addr(5) },
        ]
    );
    let mut expected = unbonding(2_000_000);
    expected.stake_accounts = vec![addr(41)];
    expected.split_accounts = vec![addr(50), addr(40)];
    expected.era_process_data.pending_stake_accounts = vec![addr(41)];
    assert_eq!(ctx.stake_manager, expected);
}

#[test]
fn unbond_of_a_record_that_holds_exactly_the_need_takes_it_whole() {
    let mut ctx = EraUnbond {
        stake_manager: unbonding(4_000_000),
        stake_pool: addr(5),
        from_stake_account: record(41, 21, 4_000_000),
        split_stake_account: fresh(51),
        validator: addr(21),
        rent_payer: addr(60),
    };
    let out = ctx.process().unwrap();
    assert_eq!(out.event.split_account, addr(41));
    assert_eq!(out.event.unbond_amount, 4_000_000);
    assert_eq!(ctx.stake_manager.era_process_data.need_unbond, 0);
    assert_eq!(ctx.stake_manager.stake_accounts, vec![addr(40)]);
    assert_eq!(ctx.process().unwrap_err(), Errors::EraNoNeedUnBond);
}

#[test]
fn unbond_splits_a_large_record() {
    let mut ctx = EraUnbond {
        stake_manager: unbonding(6_000_000),
        stake_pool: addr(5),
        from_stake_account: record(40, 20, 6_000_001),
        split_stake_account: fresh(51),
        validator: addr(20),
        rent_payer: addr(60),
    };
    let out = ctx.process().unwrap();
    assert_eq!(
        out.event,
        EventEraUnbond {
            era: 10,
            from_stake_account: addr(40),
            split_account: addr(51),
            unbond_amount: 6_000_000,
        }
    );
    assert_eq!(
        out.actions,
        vec![
            Action::SplitStake {
                stake_account: addr(40),
                authority: addr(5),
                lamports: 6_000_000,
                split_to: addr(51),
            },
            Action::DeactivateStake { stake_account: addr(51), staker: addr(5) },
        ]
    );
    let mut expected = unbonding(0);
    expected.split_accounts = vec![addr(50), addr(51)];
    assert_eq!(ctx.stake_manager, expected);
}

#[test]
fn unbond_is_refused_on_each_failing_guard() {
    let mut ctx = EraUnbond {
        stake_manager: unbonding(0),
        stake_pool: addr(5),
        from_stake_account: fresh(44),
        split_stake_account: fresh(50),
        validator: addr(20),
        rent_payer: addr(60),
    };
    assert_eq!(ctx.process().unwrap_err(), Errors::EraNoNeedUnBond);
    ctx.stake_manager = unbonding(5);
    assert_eq!(ctx.process().unwrap_err(), Errors::StakeAccountNotExist);
    ctx.from_stake_account.key = addr(40);
    assert_eq!(ctx.process().unwrap_err(), Errors::SplitStakeAccountAlreadyExist);
    ctx.split_stake_account.key = addr(41);
    assert_eq!(ctx.process().unwrap_err(), Errors::SplitStakeAccountAlreadyExist);
    ctx.split_stake_account.key = addr(51);
    assert_eq!(ctx.process().unwrap_err(), Errors::DelegationEmpty);
    ctx.from_stake_account = record(40, 21, 9);
    assert_eq!(ctx.process().unwrap_err(), Errors::ValidatorNotMatch);
    assert_eq!(ctx.stake_manager, unbonding(5));
    ctx.validator = addr(21);
    assert!(ctx.process().is_ok());
}

#[test]
fn observation_adds_what_the_record_holds() {
    let mut m = unbonding(0);
    m.era_process_data.new_active = 7;
    let mut ctx = EraUpdateActive { stake_manager: m, stake_account: record(40, 20, 20_000_100) };
    let out = ctx.process().unwrap();
    assert_eq!(
        out.event,
        EventEraUpdateActive { era: 10, stake_account: addr(40), stake_amount: 20_000_100 }
    );
    assert!(out.actions.is_empty());
    let mut expected = unbonding(0);
    expected.era_process_data.new_active = 20_000_107;
    expected.era_process_data.pending_stake_accounts = vec![addr(41)];
    assert_eq!(ctx.stake_manager, expected);
    assert_eq!(ctx.process().unwrap_err(), Errors::StakeAccountNotExist);
}

#[test]
fn observation_goes_on_while_unbonding_is_unfinished_and_records_are_pending() {
    let mut ctx =
        EraUpdateActive { stake_manager: unbonding(5), stake_account: record(41, 21, 10) };
    assert!(ctx.process().is_ok());
    ctx.stake_account = record(40, 20, 10);
    assert!(ctx.process().is_ok());
    assert_eq!(ctx.process().unwrap_err(), Errors::EraNoNeedUpdateActive);
}

#[test]
fn observation_is_refused_on_each_failing_guard() {
    let mut ctx = EraUpdateActive { stake_manager: bonding(1), stake_account: fresh(44) };
    assert_eq!(ctx.process().unwrap_err(), Errors::EraNoNeedUpdateActive);
    ctx.stake_manager = bonding(0);
    assert_eq!(ctx.process().unwrap_err(), Errors::StakeAccountNotExist);
    ctx.stake_account.key = addr(40);
    assert_eq!(ctx.process().unwrap_err(), Errors::DelegationEmpty);
    ctx.stake_account = deactivated(40, 20, 5, 11);
    assert_eq!(ctx.process().unwrap_err(), Errors::StakeAccountNotActive);
    ctx.stake_account = record(40, 20, 5);
    ctx.stake_manager.era_process_data.new_active = u64::MAX - 4;
    let before = ctx.stake_manager.clone();
    assert_eq!(ctx.process().unwrap_err(), Errors::CalculationFail);
    assert_eq!(ctx.stake_manager, before);
    ctx.stake_manager.era_process_data.new_active = u64::MAX - 5;
    assert!(ctx.process().is_ok());
    assert_eq!(ctx.stake_manager.era_process_data.new_active, u64::MAX);
}

#[test]
fn settlement_takes_a_tenth_of_the_reward() {
    let mut m = settling(100, 110);
    m.rate_change_limit = 100_000_000;
    let mut ctx = EraUpdateRate { stake_manager: m, fee_recipient: addr(4) };
    let out = ctx.process().unwrap();
    assert_eq!(out.event, EventEraUpdateRate { era: 10, rate: 1_089_108_910, fee: 1 });
    assert_eq!(out.actions, vec![Action::MintToken { mint_to: addr(4), amount: 1 }]);
    let mut expected = ledger();
    expected.rate_change_limit = 100_000_000;
    expected.total_protocol_fee = 1;
    expected.total_rsol_supply = 101;
    expected.active = 110;
    expected.rate = 1_089_108_910;
    assert_eq!(ctx.stake_manager, expected);
    assert!(ctx.stake_manager.era_process_data.is_empty());
    assert_eq!(ctx.process().unwrap_err(), Errors::EraNoNeedUpdateRate);
}

#[test]
fn settlement_counts_stakes_made_during_the_era() {
    let mut m = settling(1_000_000_000, 1_000_400_000);
    m.active = 1_000_000_000 + 5_000_000 - 2_000_000;
    m.total_rsol_supply = 1_003_000_000;
    m.era_bond = 5_000_000;
    m.era_unbond = 2_000_000;
    let mut ctx = EraUpdateRate { stake_manager: m, fee_recipient: addr(4) };
    let out = ctx.process().unwrap();
    assert_eq!(out.event.fee, 40_000);
    assert_eq!(ctx.stake_manager.active, 1_003_400_000);
    assert_eq!(ctx.stake_manager.total_rsol_supply, 1_003_040_000);
    assert_eq!(ctx.stake_manager.rate, 1_003_400_000u64 * 1_000_000_000 / 1_003_040_000);
    assert_eq!(ctx.stake_manager.rate, 1_000_358_908);
    assert_eq!(ctx.stake_manager.era_bond, 5_000_000);
    assert_eq!(ctx.stake_manager.era_unbond, 2_000_000);
}

#[test]
fn settlement_without_reward_mints_nothing() {
    let mut m = settling(1_000_000_000, 999_900_000);
    m.rate_change_limit = 500_000;
    let mut ctx = EraUpdateRate { stake_manager: m, fee_recipient: addr(4) };
    let out = ctx.process().unwrap();
    assert_eq!(out.event.fee, 0);
    assert!(out.actions.is_empty());
    assert_eq!(ctx.stake_manager.active, 999_900_000);
    assert_eq!(ctx.stake_manager.rate, 999_900_000);
    assert_eq!(ctx.stake_manager.total_rsol_supply, 1_000_000_000);
}

#[test]
fn settlement_never_commits_a_change_over_the_limit() {
    for (new_active, limit) in
        [(1_000_600_000u64, 500_000u64), (999_400_000, 500_000), (1_100_000_000, 89_108_909)]
    {
        let mut m = settling(1_000_000_000, new_active);
        m.rate_change_limit = limit;
        let before = m.clone();
        let mut ctx = EraUpdateRate { stake_manager: m, fee_recipient: addr(4) };
        assert_eq!(ctx.process().unwrap_err(), Errors::RateChangeOverLimit);
        assert_eq!(ctx.stake_manager, before);
    }
    for (new_active, limit) in
        [(1_000_500_000u64, 500_000u64), (999_500_000, 500_000), (1_000_000_000, 0)]
    {
        let mut m = settling(1_000_000_000, new_active);
        m.rate_change_limit = limit;
        let old_rate = m.rate;
        let mut ctx = EraUpdateRate { stake_manager: m, fee_recipient: addr(4) };
        ctx.process().unwrap();
        let change = ctx.stake_manager.calc_rate_change(old_rate, ctx.stake_manager.rate).unwrap();
        assert!(change <= limit);
    }
}

#[test]
fn settlement_is_refused_on_each_failing_guard() {
    let mut ctx = EraUpdateRate { stake_manager: settling(100, 0), fee_recipient: addr(77) };
    assert_eq!(ctx.process().unwrap_err(), Errors::FeeRecipientNotMatch);
    ctx.fee_recipient = addr(4);
    assert_eq!(ctx.process().unwrap_err(), Errors::EraNoNeedUpdateRate);
    ctx.stake_manager = settling(0, 100);
    assert_eq!(ctx.process().unwrap_err(), Errors::EraNoNeedUpdateRate);
    ctx.stake_manager = settling(100, 110);
    ctx.stake_manager.era_process_data.need_unbond = 1;
    assert_eq!(ctx.process().unwrap_err(), Errors::EraNoNeedUpdateRate);
    ctx.stake_manager = settling(100, 110);
    ctx.stake_manager.rate = 0;
    assert_eq!(ctx.process().unwrap_err(), Errors::CalculationFail);
    ctx.stake_manager = settling(100, 110);
    ctx.stake_manager.total_rsol_supply = u64::MAX;
    assert_eq!(ctx.process().unwrap_err(), Errors::CalculationFail);
    ctx.stake_manager = settling(100, u64::MAX);
    ctx.stake_manager.protocol_fee_commission = 0;
    ctx.stake_manager.active = 101;
    let before = ctx.stake_manager.clone();
    assert_eq!(ctx.process().unwrap_err(), Errors::CalculationFail);
    assert_eq!(ctx.stake_manager, before);
}

#[test]
fn settlement_cuts_the_active_value_off_at_zero() {
    let mut m = settling(1_000, 10);
    m.active = 5;
    m.total_rsol_supply = 5;
    m.rate_change_limit = u64::MAX;
    let mut ctx = EraUpdateRate { stake_manager: m, fee_recipient: addr(4) };
    let out = ctx.process().unwrap();
    assert_eq!(ctx.stake_manager.active, 0);
    assert_eq!(out.event.rate, 1_000_000_000);
    assert_eq!(out.event.fee, 0);
}

#[test]
fn merge_drops_the_source_record() {
    let mut ctx = EraMerge {
        stake_manager: staked(),
        src_stake_account: record(40, 20, 10),
        dst_stake_account: record(41, 20, 20),
        stake_pool: addr(5),
    };
    let out = ctx.process().unwrap();
    assert_eq!(
        out.event,
        EventEraMerge { src_stake_account: addr(40), dst_stake_account: addr(41) }
    );
    assert_eq!(
        out.actions,
        vec![Action::MergeStake { destination: addr(41), source: addr(40), authority: addr(5) }]
    );
    let mut expected = staked();
    expected.stake_accounts = vec![addr(41)];
    assert_eq!(ctx.stake_manager, expected);
}

#[test]
fn merge_is_refused_on_each_failing_guard() {
    let mut ctx = EraMerge {
        stake_manager: bonding(0),
        src_stake_account: fresh(44),
        dst_stake_account: fresh(45),
        stake_pool: addr(5),
    };
    assert_eq!(ctx.process().unwrap_err(), Errors::EraIsProcessing);
    ctx.stake_manager = staked();
    assert_eq!(ctx.process().unwrap_err(), Errors::StakeAccountNotExist);
    ctx.src_stake_account.key = addr(40);
    assert_eq!(ctx.process().unwrap_err(), Errors::StakeAccountNotExist);
    ctx.dst_stake_account.key = addr(41);
    assert_eq!(ctx.process().unwrap_err(), Errors::DelegationEmpty);
    ctx.src_stake_account = record(40, 20, 10);
    assert_eq!(ctx.process().unwrap_err(), Errors::DelegationEmpty);
    ctx.src_stake_account = deactivated(40, 20, 10, 9);
    ctx.dst_stake_account = record(41, 21, 10);
    assert_eq!(ctx.process().unwrap_err(), Errors::StakeAccountNotActive);
    ctx.src_stake_account = record(40, 20, 10);
    ctx.dst_stake_account = deactivated(41, 21, 10, 9);
    assert_eq!(ctx.process().unwrap_err(), Errors::StakeAccountNotActive);
    ctx.dst_stake_account = record(41, 21, 10);
    assert_eq!(ctx.process().unwrap_err(), Errors::ValidatorsNotEqual);
    assert_eq!(ctx.stake_manager, staked());
}

#[test]
fn split_record_is_withdrawn_into_custody() {
    let mut ctx = EraWithdraw {
        stake_manager: staked(),
        stake_pool: addr(5),
        stake_account: deactivated(50, 20, 4_000_000, 10),
    };
    let out = ctx.process().unwrap();
    assert_eq!(
        out.event,
        EventEraWithdraw { era: 10, stake_account: addr(50), withdraw_amount: 6_282_880 }
    );
    assert_eq!(
        out.actions,
        vec![Action::WithdrawStake {
            stake_account: addr(50),
            withdrawer: addr(5),
            to: addr(5),
            lamports: 6_282_880,
        }]
    );
    let mut expected = staked();
    expected.split_accounts = vec![];
    assert_eq!(ctx.stake_manager, expected);
    assert_eq!(ctx.process().unwrap_err(), Errors::StakeAccountNotExist);
}

#[test]
fn split_record_is_not_withdrawn_while_active_or_unknown() {
    let mut ctx = EraWithdraw {
        stake_manager: staked(),
        stake_pool: addr(5),
        stake_account: deactivated(40, 20, 4_000_000, 10),
    };
    assert_eq!(ctx.process().unwrap_err(), Errors::StakeAccountNotExist);
    ctx.stake_account = fresh(50);
    assert_eq!(ctx.process().unwrap_err(), Errors::DelegationEmpty);
    ctx.stake_account = record(50, 20, 4_000_000);
    assert_eq!(ctx.process().unwrap_err(), Errors::StakeAccountActive);
    assert_eq!(ctx.stake_manager, staked());
}

fn redelegation() -> Redelegate {
    Redelegate {
        stake_manager: staked(),
        balancer: addr(2),
        to_validator: addr(21),
        stake_pool: addr(5),
        from_stake_account: record(40, 20, 10_000_000),
        split_stake_account: fresh(51),
        to_stake_account: addr(42),
        rent_payer: addr(60),
    }
}

#[test]
fn redelegation_of_a_part_splits_the_record() {
    let mut ctx = redelegation();
    let out = ctx.process(9_999_999).unwrap();
    assert_eq!(
        out.event,
        EventRedelegate {
            from_stake_account: addr(40),
            to_stake_account: addr(42),
            redelegate_amount: 9_999_999,
        }
    );
    assert_eq!(
        out.actions,
        vec![
            Action::SplitStake {
                stake_account: addr(40),
                authority: addr(5),
                lamports: 9_999_999,
                split_to: addr(51),
            },
            Action::RedelegateStake {
                stake_account: addr(51),
                authority: addr(5),
                validator: addr(21),
                new_stake_account: addr(42),
            },
        ]
    );
    let mut expected = staked();
    expected.stake_accounts = vec![addr(40), addr(41), addr(42)];
    expected.split_accounts = vec![addr(50), addr(51)];
    assert_eq!(ctx.stake_manager, expected);
}

#[test]
fn redelegation_of_the_whole_moves_the_record() {
    let mut ctx = redelegation();
    let out = ctx.process(10_000_000).unwrap();
    assert_eq!(
        out.actions,
        vec![
            Action::WithdrawStake {
                stake_account: addr(51),
                withdrawer: addr(51),
                to: addr(60),
                lamports: 2_282_880,
            },
            Action::RedelegateStake {
                stake_account: addr(40),
                authority: addr(5),
                validator: addr(21),
                new_stake_account: addr(42),
            },
        ]
    );
    let mut expected = staked();
    expected.stake_accounts = vec![addr(41), addr(42)];
    expected.split_accounts = vec![addr(50), addr(40)];
    assert_eq!(ctx.stake_manager, expected);
}

#[test]
fn redelegation_is_refused_on_each_failing_guard() {
    let mut ctx = redelegation();
    ctx.balancer = addr(1);
    assert_eq!(ctx.process(0).unwrap_err(), Errors::BalancerNotMatch);
    ctx.balancer = addr(2);
    assert_eq!(ctx.process(0).unwrap_err(), Errors::AmountUnmatch);
    ctx.stake_manager = bonding(0);
    assert_eq!(ctx.process(1).unwrap_err(), Errors::EraIsProcessing);
    ctx.stake_manager = staked();
    ctx.from_stake_account.key = addr(44);
    assert_eq!(ctx.process(1).unwrap_err(), Errors::StakeAccountNotExist);
    ctx.from_stake_account.key = addr(40);
    ctx.to_stake_account = addr(41);
    assert_eq!(ctx.process(1).unwrap_err(), Errors::StakeAccountAlreadyExist);
    ctx.to_stake_account = addr(50);
    assert_eq!(ctx.process(1).unwrap_err(), Errors::StakeAccountAlreadyExist);
    ctx.to_stake_account = addr(42);
    ctx.split_stake_account.key = addr(50);
    assert_eq!(ctx.process(1).unwrap_err(), Errors::SplitStakeAccountAlreadyExist);
    ctx.split_stake_account.key = addr(41);
    assert_eq!(ctx.process(1).unwrap_err(), Errors::SplitStakeAccountAlreadyExist);
    ctx.split_stake_account.key = addr(42);
    assert_eq!(ctx.process(1).unwrap_err(), Errors::SplitStakeAccountAlreadyExist);
    ctx.split_stake_account.key = addr(51);
    ctx.to_validator = addr(99);
    assert_eq!(ctx.process(1).unwrap_err(), Errors::ValidatorNotExist);
    ctx.to_validator = addr(20);
    ctx.from_stake_account.delegation = None;
    assert_eq!(ctx.process(1).unwrap_err(), Errors::DelegationEmpty);
    ctx.from_stake_account = deactivated(40, 20, 10_000_000, 3);
    assert_eq!(ctx.process(1).unwrap_err(), Errors::StakeAccountNotActive);
    ctx.from_stake_account = record(40, 20, 10_000_000);
    assert_eq!(ctx.process(1).unwrap_err(), Errors::ValidatorNotMatch);
    ctx.to_validator = addr(21);
    assert_eq!(ctx.process(10_000_001).unwrap_err(), Errors::AmountUnmatch);
    assert_eq!(ctx.stake_manager, staked());
    assert!(ctx.process(1).is_ok());
}

#[test]
fn cycle_runs_from_one_era_to_the_next() {
    let mut m = ledger();
    m.active = 20_000_000;
    m.total_rsol_supply = 20_000_000;
    m.era_bond = 10_000_000;
    m.era_unbond = 4_000_000;
    m.stake_accounts = vec![addr(40)];
    m.rate_change_limit = 10_000_000;
    let mut open = EraNew { stake_manager: m, clock: Clock { epoch: 11 } };
    open.process().unwrap();
    let mut again = open.clone();
    assert_eq!(again.process().unwrap_err(), Errors::EraIsProcessing);
    again.clock.epoch = 12;
    assert_eq!(again.process().unwrap_err(), Errors::EraIsProcessing);
    let mut bond = EraBond {
        stake_manager: open.stake_manager,
        validator: addr(20),
        stake_pool: addr(5),
        stake_account: addr(41),
    };
    bond.process().unwrap();
    let mut observe =
        EraUpdateActive { stake_manager: bond.stake_manager, stake_account: record(40, 20, 14_010_000) };
    observe.process().unwrap();
    observe.stake_account = record(41, 20, 6_000_000);
    observe.process().unwrap();
    assert_eq!(observe.stake_manager.era_process_data.new_active, 20_010_000);
    let mut settle = EraUpdateRate { stake_manager: observe.stake_manager, fee_recipient: addr(4) };
    let out = settle.process().unwrap();
    assert_eq!(out.event.fee, 1_000);
    assert_eq!(settle.stake_manager.active, 20_010_000);
    assert_eq!(settle.stake_manager.total_rsol_supply, 20_001_000);
    assert_eq!(settle.stake_manager.rate, 1_000_449_977);
    assert!(settle.stake_manager.era_process_data.is_empty());
    let mut next = EraNew { stake_manager: settle.stake_manager, clock: Clock { epoch: 11 } };
    assert_eq!(next.process().unwrap_err(), Errors::EraIsLatest);
    next.clock.epoch = 12;
    let out = next.process().unwrap();
    assert_eq!(out.event.new_era, 12);
    assert_eq!(out.event.need_bond, 0);
    assert_eq!(out.event.need_unbond, 0);
    assert_eq!(next.stake_manager.era_process_data.pending_stake_accounts, vec![addr(40), addr(41)]);
}

#[test]
fn settlement_books_what_the_era_observed() {
    let mut m = ledger();
    m.active = 20_000_000;
    m.total_rsol_supply = 20_000_000;
    m.stake_accounts = vec![addr(40)];
    m.rate_change_limit = 10_000_000;
    let mut open = EraNew { stake_manager: m, clock: Clock { epoch: 11 } };
    open.process().unwrap();
    let mut m = open.stake_manager;
    assert_eq!(m.active, m.era_process_data.old_active + m.era_bond - m.era_unbond);
    m.active += 3_000_000;
    m.era_bond += 3_000_000;
    m.active -= 1_000_000;
    m.era_unbond += 1_000_000;
    m.total_rsol_supply += 2_000_000;
    let mut observe =
        EraUpdateActive { stake_manager: m, stake_account: record(40, 20, 20_010_000) };
    observe.process().unwrap();
    let mut settle = EraUpdateRate { stake_manager: observe.stake_manager, fee_recipient: addr(4) };
    settle.process().unwrap();
    let m = settle.stake_manager;
    assert_eq!(m.active, 22_010_000);
    assert_eq!(m.active - m.era_bond + m.era_unbond, 20_010_000);
    assert_eq!(m.era_bond, 3_000_000);
    assert_eq!(m.era_unbond, 1_000_000);
}
