//! The position registry: creation and fee collection of managed
//! concentrated-liquidity positions.

use vstd::prelude::*;
use crate::audit::{audit_appended, AuditEventType, AuditLog};
use crate::config::ProtocolConfig;
use crate::errors::XLiquidityEngineError;
use crate::ids::{AccountId, PositionKey};

verus! {

/// The venue family a position lives on.
#[derive(Clone, Copy, PartialEq, Eq, Structural, Debug)]
pub enum DexType {
    Raydium,
    Orca,
    Meteora,
    Unknown,
}

/// Lifecycle status of a position. `Closed` and `Liquidated` are terminal.
#[derive(Clone, Copy, PartialEq, Eq, Structural, Debug)]
pub enum PositionStatus {
    Active,
    Paused,
    Closed,
    Liquidated,
}

/// A managed concentrated-liquidity position.
#[derive(Clone, PartialEq, Debug)]
pub struct LiquidityPosition {
    pub owner: AccountId,
    pub token_a: AccountId,
    pub token_b: AccountId,
    pub token_a_vault: AccountId,
    pub token_b_vault: AccountId,
    pub dex: DexType,
    pub pool_address: AccountId,
    pub position_nft: Option<AccountId>,
    pub current_tick_lower: i32,
    pub current_tick_upper: i32,
    pub current_price_lower: u128,
    pub current_price_upper: u128,
    pub liquidity_amount: u128,
    pub total_fees_earned_a: u64,
    pub total_fees_earned_b: u64,
    pub total_value_locked: u64,
    pub last_rebalance_slot: u64,
    pub last_rebalance_timestamp: i64,
    pub rebalance_count: u32,
    pub total_return_percentage: i16,
    pub apy_estimate: u16,
    pub status: PositionStatus,
    pub auto_rebalance_enabled: bool,
    pub min_rebalance_interval: u32,
    pub max_position_size: u64,
    pub max_single_trade: u64,
    pub allowed_dex_programs: Vec<AccountId>,
    pub created_at: i64,
    pub updated_at: i64,
}

impl LiquidityPosition {
    /// Validity of a position record: an ordered active range and
    /// non-negative clock readings.
    pub open spec fn wf(self) -> bool {
        &&& self.current_tick_lower < self.current_tick_upper
        &&& self.current_price_lower < self.current_price_upper
        &&& 0 <= self.last_rebalance_timestamp
        &&& 0 <= self.created_at
        &&& 0 <= self.updated_at
    }
}

/// The first validation failure of a creation request, if any: the ranges
/// must be ordered, and the requested caps must not exceed the protocol's.
pub open spec fn create_check(
    tick_lower: i32,
    tick_upper: i32,
    price_lower: u128,
    price_upper: u128,
    max_position_size: u64,
    max_single_trade: u64,
    config: ProtocolConfig,
) -> Option<XLiquidityEngineError> {
    if !(tick_lower < tick_upper && price_lower < price_upper) {
        Some(XLiquidityEngineError::InvalidRange)
    } else if max_position_size > config.max_position_size {
        Some(XLiquidityEngineError::CapExceeded)
    } else if max_single_trade > config.max_single_trade_size {
        Some(XLiquidityEngineError::CapExceeded)
    } else {
        None
    }
}

/// Create a position: validate the ranges and caps, initialize an active
/// record with zeroed counters, and record a `PositionCreated` audit event.
///
/// Succeeds exactly on ordered ranges and caps within the protocol's; an
/// unordered range fails with `InvalidRange`, an oversized cap with
/// `CapExceeded`, and a failure mutates nothing.
pub fn create_liquidity_position(
    owner: AccountId,
    position_index: u8,
    token_a: AccountId,
    token_b: AccountId,
    token_a_vault: AccountId,
    token_b_vault: AccountId,
    pool_address: AccountId,
    tick_lower: i32,
    tick_upper: i32,
    price_lower: u128,
    price_upper: u128,
    max_position_size: u64,
    max_single_trade: u64,
    config: &ProtocolConfig,
    now: i64,
    audit: &mut AuditLog,
) -> (r: Result<LiquidityPosition, XLiquidityEngineError>)
    requires
        0 <= now,
        old(audit).wf(),
        old(audit).can_append_at(now),
        old(audit).events@.len() < u64::MAX,
    ensures
        final(audit).wf(),
        final(audit).can_append_at(now),
        r is Ok <==> create_check(
            tick_lower,
            tick_upper,
            price_lower,
            price_upper,
            max_position_size,
            max_single_trade,
            *config,
        ) is None,
        r matches Err(e) ==> {
            &&& Some(e) == create_check(
                tick_lower,
                tick_upper,
                price_lower,
                price_upper,
                max_position_size,
                max_single_trade,
                *config,
            )
            &&& *final(audit) == *old(audit)
        },
        r matches Ok(p) ==> {
            &&& p.wf()
            &&& p.owner == owner
            &&& p.token_a == token_a
            &&& p.token_b == token_b
            &&& p.token_a_vault == token_a_vault
            &&& p.token_b_vault == token_b_vault
            &&& p.dex == DexType::Raydium
            &&& p.pool_address == pool_address
            &&& p.position_nft is None
            &&& p.current_tick_lower == tick_lower
            &&& p.current_tick_upper == tick_upper
            &&& p.current_price_lower == price_lower
            &&& p.current_price_upper == price_upper
            &&& p.liquidity_amount == 0
            &&& p.total_fees_earned_a == 0
            &&& p.total_fees_earned_b == 0
            &&& p.total_value_locked == 0
            &&& p.last_rebalance_slot == 0
            &&& p.last_rebalance_timestamp == 0
            &&& p.rebalance_count == 0
            &&& p.total_return_percentage == 0
            &&& p.apy_estimate == 0
            &&& p.status == PositionStatus::Active
            &&& p.auto_rebalance_enabled == true
            &&& p.min_rebalance_interval == config.min_rebalance_interval
            &&& p.max_position_size == max_position_size
            &&& p.max_single_trade == max_single_trade
            &&& p.allowed_dex_programs@ == seq![pool_address]
            &&& p.created_at == now
            &&& p.updated_at == now
            &&& audit_appended(
                *final(audit),
                *old(audit),
                AuditEventType::PositionCreated,
                Some(PositionKey { owner, index: position_index }),
                owner,
                Seq::<u8>::empty(),
                now,
            )
        },
{
    if !(tick_lower < tick_upper && price_lower < price_upper) {
        return Err(XLiquidityEngineError::InvalidRange);
    }
    if max_position_size > config.max_position_size {
        return Err(XLiquidityEngineError::CapExceeded);
    }
    if max_single_trade > config.max_single_trade_size {
        return Err(XLiquidityEngineError::CapExceeded);
    }

    let mut allowed_dex_programs: Vec<AccountId> = Vec::new();
    allowed_dex_programs.push(pool_address);

    let position = LiquidityPosition {
        owner,
        token_a,
        token_b,
        token_a_vault,
        token_b_vault,
        dex: DexType::Raydium,
        pool_address,
        position_nft: None,
        current_tick_lower: tick_lower,
        current_tick_upper: tick_upper,
        current_price_lower: price_lower,
        current_price_upper: price_upper,
        liquidity_amount: 0,
        total_fees_earned_a: 0,
        total_fees_earned_b: 0,
        total_value_locked: 0,
        last_rebalance_slot: 0,
        last_rebalance_timestamp: 0,
        rebalance_count: 0,
        total_return_percentage: 0,
        apy_estimate: 0,
        status: PositionStatus::Active,
        auto_rebalance_enabled: true,
        min_rebalance_interval: config.min_rebalance_interval,
        max_position_size,
        max_single_trade,
        allowed_dex_programs,
        created_at: now,
        updated_at: now,
    };

    audit.append(
        AuditEventType::PositionCreated,
        Some(PositionKey { owner, index: position_index }),
        owner,
        Vec::new(),
        now,
    );

    Ok(position)
}

/// The protocol's cut of a collected fee amount, in basis points, rounded
/// down.
pub fn protocol_fee(amount: u64, fee_bps: u16) -> (f: u64)
    requires
        fee_bps <= 10000,
    ensures
        f == (amount as int * fee_bps as int) / 10000,
{
    proof {
        assert(amount as int * fee_bps as int <= amount as int * 10000) by (nonlinear_arith)
            requires
                fee_bps <= 10000,
                0 <= amount as int,
        ;
        assert((amount as int * fee_bps as int) / 10000 <= amount as int) by (nonlinear_arith)
            requires
                amount as int * fee_bps as int <= amount as int * 10000,
                0 <= amount as int,
        ;
        assert(0 <= amount as int * fee_bps as int) by (nonlinear_arith)
            requires
                0 <= amount as int,
                0 <= fee_bps as int,
        ;
    }
    (((amount as u128) * (fee_bps as u128)) / 10000) as u64
}

/// Collect the accrued fees of an active position: report both sides, take
/// the protocol's cut into account, reset the accruals, and record a
/// `FeesCollected` audit event whose payload carries the two collected
/// amounts.
///
/// Fails `PositionNotActive` unless the position is active, and
/// `NoFeesToCollect` when nothing is accrued on either side; a failure
/// mutates nothing. On success the returned pair is the accrued amounts
/// before the reset.
pub fn collect_fees(
    position: &mut LiquidityPosition,
    position_key: PositionKey,
    config: &ProtocolConfig,
    now: i64,
    audit: &mut AuditLog,
) -> (r: Result<(u64, u64), XLiquidityEngineError>)
    requires
        config.wf(),
        0 <= now,
        old(audit).wf(),
        old(audit).can_append_at(now),
        old(audit).events@.len() < u64::MAX,
    ensures
        final(audit).wf(),
        final(audit).can_append_at(now),
        r is Ok <==> (old(position).status == PositionStatus::Active && (old(
            position,
        ).total_fees_earned_a > 0 || old(position).total_fees_earned_b > 0)),
        old(position).status != PositionStatus::Active ==> r == Result::<
            (u64, u64),
            XLiquidityEngineError,
        >::Err(XLiquidityEngineError::PositionNotActive),
        (old(position).status == PositionStatus::Active && old(position).total_fees_earned_a == 0
            && old(position).total_fees_earned_b == 0) ==> r == Result::<
            (u64, u64),
            XLiquidityEngineError,
        >::Err(XLiquidityEngineError::NoFeesToCollect),
        r is Err ==> *final(position) == *old(position) && *final(audit) == *old(audit),
        r matches Ok(collected) ==> {
            &&& collected == (old(position).total_fees_earned_a, old(position).total_fees_earned_b)
            &&& *final(position) == (LiquidityPosition {
                total_fees_earned_a: 0,
                total_fees_earned_b: 0,
                updated_at: now,
                ..*old(position)
            })
            &&& audit_appended(
                *final(audit),
                *old(audit),
                AuditEventType::FeesCollected,
                Some(position_key),
                old(position).owner,
                crate::codec::fees_collected_payload(
                    old(position).total_fees_earned_a,
                    old(position).total_fees_earned_b,
                ),
                now,
            )
        },
{
    if !matches!(position.status, PositionStatus::Active) {
        return Err(XLiquidityEngineError::PositionNotActive);
    }
    if !(position.total_fees_earned_a > 0 || position.total_fees_earned_b > 0) {
        return Err(XLiquidityEngineError::NoFeesToCollect);
    }

    let _protocol_fee_a = protocol_fee(position.total_fees_earned_a, config.protocol_fee_bps);
    let _protocol_fee_b = protocol_fee(position.total_fees_earned_b, config.protocol_fee_bps);

    let fees_collected_a = position.total_fees_earned_a;
    let fees_collected_b = position.total_fees_earned_b;
    position.total_fees_earned_a = 0;
    position.total_fees_earned_b = 0;
    position.updated_at = now;

    audit.append(
        AuditEventType::FeesCollected,
        Some(position_key),
        position.owner,
        crate::codec::fees_collected_bytes(fees_collected_a, fees_collected_b),
        now,
    );

    Ok((fees_collected_a, fees_collected_b))
}

} // verus!
