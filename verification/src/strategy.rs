//! User-defined strategy preferences: how aggressively a user's positions
//! are managed and what limits of their own they impose on top of the
//! protocol's.

use vstd::prelude::*;
use crate::ids::AccountId;

verus! {

/// Broad shape of a user's strategy.
#[derive(Clone, Copy, PartialEq, Eq, Structural, Debug)]
pub enum StrategyType {
    Conservative,
    Balanced,
    Aggressive,
    Custom,
}

/// When rebalances may be proposed for the user's positions.
#[derive(Clone, Copy, PartialEq, Eq, Structural, Debug)]
pub enum RebalanceFrequency {
    OnSignal,
    Daily,
    Weekly,
    Monthly,
    Manual,
}

/// The user's own appetite for risk.
#[derive(Clone, Copy, PartialEq, Eq, Structural, Debug)]
pub enum RiskTolerance {
    Low,
    Medium,
    High,
}

/// A user's strategy parameters and preferences. The record is owner data
/// threaded into position management by its owner; the engine's own checks
/// (caps, rate limits, approval) stand regardless of it.
#[derive(Clone, PartialEq, Debug)]
pub struct UserStrategy {
    pub user: AccountId,
    pub strategy_name: String,
    pub strategy_type: StrategyType,
    pub risk_tolerance: RiskTolerance,
    pub auto_rebalance_enabled: bool,
    pub rebalance_frequency: RebalanceFrequency,
    pub price_range_width: u16,
    pub max_position_size: Option<u64>,
    pub max_single_trade: Option<u64>,
    pub max_slippage_bps: Option<u16>,
    pub preferred_tokens: Vec<AccountId>,
    pub blacklisted_tokens: Vec<AccountId>,
    pub preferred_ai_model: Option<String>,
    pub require_human_approval: bool,
    pub created_at: i64,
    pub updated_at: i64,
}

} // verus!
