//! Decision-and-execution gate for an automated liquidity-position manager.
//!
//! The crate models a managed concentrated-liquidity position together with
//! its linked rebalance decisions: creation, rate-limited proposal, risk
//! classification, conditional human approval, guarded execution with
//! slippage enforcement, and an append-only audit ledger.

pub mod audit;
pub mod codec;
pub mod config;
pub mod decision;
pub mod detector;
pub mod errors;
pub mod execute;
pub mod ids;
pub mod payment;
pub mod position;
pub mod registry;
pub mod risk;
pub mod rpc;
pub mod strategy;
