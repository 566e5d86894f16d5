//! The protocol configuration: risk thresholds, rate limits, size caps and
//! fee parameters, threaded as an explicit value into each call.

use vstd::prelude::*;
use crate::ids::AccountId;

verus! {

/// How much compliance machinery the deployment runs with.
#[derive(Clone, Copy, PartialEq, Eq, Structural, Debug)]
pub enum ComplianceMode {
    Basic,
    Enhanced,
    Full,
}

/// Default minimum seconds between rebalances of one position.
pub const DEFAULT_MIN_REBALANCE_INTERVAL: u32 = 3600;

/// Default cap on rebalances per day.
pub const DEFAULT_MAX_REBALANCE_FREQUENCY: u32 = 24;

/// Default slippage tolerance in basis points.
pub const DEFAULT_SLIPPAGE_TOLERANCE_BPS: u16 = 50;

/// Default cap on a position's total size (value-scaled units).
pub const DEFAULT_MAX_POSITION_SIZE: u64 = 1_000_000_000_000;

/// Default cap on a single trade (value-scaled units).
pub const DEFAULT_MAX_SINGLE_TRADE_SIZE: u64 = 100_000_000_000;

/// Default locked-value threshold above which every decision needs human
/// sign-off (value-scaled units).
pub const DEFAULT_HUMAN_APPROVAL_THRESHOLD: u64 = 500_000_000_000;

/// Global protocol configuration and parameters.
#[derive(Clone, PartialEq, Debug)]
pub struct ProtocolConfig {
    pub authority: AccountId,
    pub performance_fee_bps: u16,
    pub protocol_fee_bps: u16,
    pub fee_recipient: AccountId,
    pub x402_facilitator: Option<AccountId>,
    pub x402_min_payment: u64,
    pub x402_api_base_url: String,
    pub min_rebalance_interval: u32,
    pub max_rebalance_frequency: u32,
    pub default_slippage_tolerance_bps: u16,
    pub max_position_size: u64,
    pub max_single_trade_size: u64,
    pub require_human_approval_threshold: u64,
    pub default_ai_model_version: String,
    pub ai_model_registry: Vec<AccountId>,
    pub audit_log_enabled: bool,
    pub compliance_mode: ComplianceMode,
    pub created_at: i64,
    pub updated_at: i64,
}

impl ProtocolConfig {
    /// Validity of a configuration: fee and slippage rates are genuine basis
    /// points, so derived fee and bound arithmetic cannot overflow or
    /// truncate.
    pub open spec fn wf(self) -> bool {
        &&& self.performance_fee_bps <= 10000
        &&& self.protocol_fee_bps <= 10000
        &&& self.default_slippage_tolerance_bps <= 10000
    }
}

/// Build the protocol configuration an authority initializes: the given fee
/// parameters together with the documented protocol defaults.
pub fn initialize_protocol_config(
    authority: AccountId,
    fee_recipient: AccountId,
    performance_fee_bps: u16,
    protocol_fee_bps: u16,
    x402_min_payment: u64,
    now: i64,
) -> (c: ProtocolConfig)
    requires
        performance_fee_bps <= 10000,
        protocol_fee_bps <= 10000,
    ensures
        c.wf(),
        c.authority == authority,
        c.fee_recipient == fee_recipient,
        c.performance_fee_bps == performance_fee_bps,
        c.protocol_fee_bps == protocol_fee_bps,
        c.x402_facilitator is None,
        c.x402_min_payment == x402_min_payment,
        c.x402_api_base_url@ == "https://api.x-liquidity-engine.com"@,
        c.min_rebalance_interval == DEFAULT_MIN_REBALANCE_INTERVAL,
        c.max_rebalance_frequency == DEFAULT_MAX_REBALANCE_FREQUENCY,
        c.default_slippage_tolerance_bps == DEFAULT_SLIPPAGE_TOLERANCE_BPS,
        c.max_position_size == DEFAULT_MAX_POSITION_SIZE,
        c.max_single_trade_size == DEFAULT_MAX_SINGLE_TRADE_SIZE,
        c.require_human_approval_threshold == DEFAULT_HUMAN_APPROVAL_THRESHOLD,
        c.default_ai_model_version@ == "v1.0.0"@,
        c.ai_model_registry@ == Seq::<AccountId>::empty(),
        c.audit_log_enabled == true,
        c.compliance_mode == ComplianceMode::Enhanced,
        c.created_at == now,
        c.updated_at == now,
{
    ProtocolConfig {
        authority,
        performance_fee_bps,
        protocol_fee_bps,
        fee_recipient,
        x402_facilitator: None,
        x402_min_payment,
        x402_api_base_url: String::from_str("https://api.x-liquidity-engine.com"),
        min_rebalance_interval: DEFAULT_MIN_REBALANCE_INTERVAL,
        max_rebalance_frequency: DEFAULT_MAX_REBALANCE_FREQUENCY,
        default_slippage_tolerance_bps: DEFAULT_SLIPPAGE_TOLERANCE_BPS,
        max_position_size: DEFAULT_MAX_POSITION_SIZE,
        max_single_trade_size: DEFAULT_MAX_SINGLE_TRADE_SIZE,
        require_human_approval_threshold: DEFAULT_HUMAN_APPROVAL_THRESHOLD,
        default_ai_model_version: String::from_str("v1.0.0"),
        ai_model_registry: Vec::new(),
        audit_log_enabled: true,
        compliance_mode: ComplianceMode::Enhanced,
        created_at: now,
        updated_at: now,
    }
}

} // verus!
