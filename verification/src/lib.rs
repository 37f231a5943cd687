//! Accounting and era-cycle engine of a pooled-staking service.
//!
//! Users deposit a base asset and hold derivative units, a pro-rata claim on the pool. The
//! pool delegates what it holds to validators and rebalances once per era. This crate is
//! the ledger of such a pool and the rules of every operation on it; it moves no funds
//! itself. An operation reads plain values (the ledger, balances, the delegation behind a
//! stake record, the clock), decides, and hands back the changed ledger together with the
//! requests that its host is to carry out with the asset-transfer primitive, the minting
//! service and the delegation primitive. A refused operation names the guard that failed
//! and changes nothing.
//!
//! - [`states`] holds the ledger, the era's work order, the withdrawal request and the
//!   fixed-point accounting; [`conversion`] proves what a conversion loses.
//! - [`staker_stake`], [`staker_unstake`] and [`staker_withdraw`] are the users' operations.
//! - [`era_new`], [`era_bond`], [`era_unbond`], [`era_update_active`] and
//!   [`era_update_rate`] make up the era cycle; [`era_merge`], [`era_withdraw`] and
//!   [`redelegate`] maintain the delegation records between and beside the cycles.
//! - [`admin`] and [`initialize`] set the pool up and change its settings.
//! - [`program`] is the surface that a host calls.
//! - [`ordering`] and [`reconcile`] prove how the operations order the era cycle and how
//!   they move the ledger's books.
//! - [`registry`], [`address`], [`accounts`], [`actions`] and [`errors`] are the
//!   vocabulary of the rest.

pub mod accounts;
pub mod actions;
pub mod address;
pub mod admin;
pub mod conversion;
pub mod era_bond;
pub mod era_merge;
pub mod era_new;
pub mod era_unbond;
pub mod era_update_active;
pub mod era_update_rate;
pub mod era_withdraw;
pub mod errors;
pub mod initialize;
pub mod ordering;
pub mod program;
pub mod reconcile;
pub mod redelegate;
pub mod registry;
pub mod staker_stake;
pub mod staker_unstake;
pub mod staker_withdraw;
pub mod states;
