//! The decision workflow and approval gate: rate-limited proposal of a
//! rebalance, risk classification, and at-most-once human sign-off.

use vstd::prelude::*;
use crate::audit::{audit_appended, AuditEventType, AuditLog};
use crate::config::ProtocolConfig;
use crate::errors::XLiquidityEngineError;
use crate::ids::{AccountId, PositionKey};
use crate::position::{LiquidityPosition, PositionStatus};
use crate::risk::{classify, RiskLevel};

verus! {

/// Execution status of a decision. `Pending` is the only non-terminal
/// state; the other four are terminal and have no outgoing transitions.
#[derive(Clone, Copy, PartialEq, Eq, Structural, Debug)]
pub enum ExecutionStatus {
    Pending,
    Executed,
    Failed,
    Rejected,
    Cancelled,
}

/// A proposed range change for a position, carrying its AI provenance, risk
/// tier, approval state and execution record.
#[derive(Clone, PartialEq, Debug)]
pub struct RebalanceDecision {
    /// Key of the position this decision belongs to.
    pub position: PositionKey,
    pub new_tick_lower: i32,
    pub new_tick_upper: i32,
    pub new_price_lower: u128,
    pub new_price_upper: u128,
    pub ai_model_version: String,
    pub ai_model_hash: [u8; 32],
    pub prediction_confidence: u16,
    pub market_sentiment_score: i16,
    pub volatility_metric: u16,
    pub whale_activity_score: u16,
    pub on_chain_indicators: Vec<u64>,
    pub decision_reason: String,
    pub risk_assessment: RiskLevel,
    pub execution_status: ExecutionStatus,
    pub execution_tx_signature: Option<String>,
    pub execution_slippage: Option<u16>,
    /// Pre-built external swap transaction, if the proposal came with one.
    pub jupiter_swap_transaction: Option<String>,
    pub expected_output_amount: Option<u64>,
    /// Fixed at creation, never changed afterwards.
    pub requires_human_approval: bool,
    pub human_approver: Option<AccountId>,
    pub approval_timestamp: Option<i64>,
    pub created_at: i64,
    pub executed_at: Option<i64>,
}

impl RebalanceDecision {
    /// Validity of a decision record: an ordered proposed range.
    pub open spec fn wf(self) -> bool {
        &&& self.new_tick_lower < self.new_tick_upper
        &&& self.new_price_lower < self.new_price_upper
    }
}

/// Whether a decision with the given risk tier, on a position with the
/// given locked value, needs human sign-off under the given configuration.
pub open spec fn needs_approval(risk: RiskLevel, total_value_locked: u64, config: ProtocolConfig) -> bool {
    ||| risk == RiskLevel::Critical
    ||| risk == RiskLevel::High
    ||| total_value_locked >= config.require_human_approval_threshold
}

/// A decision whose tier is High or Critical needs human sign-off whatever
/// the position's size.
pub proof fn lemma_high_risk_needs_approval(
    risk: RiskLevel,
    total_value_locked: u64,
    config: ProtocolConfig,
)
    requires
        risk == RiskLevel::High || risk == RiskLevel::Critical,
    ensures
        needs_approval(risk, total_value_locked, config),
{
}

/// The first precondition failure of a proposal, if any: the position must
/// be active, its minimum interval must have elapsed since its last
/// executed rebalance, and the proposed ranges must be ordered.
pub open spec fn propose_check(
    position: LiquidityPosition,
    new_tick_lower: i32,
    new_tick_upper: i32,
    new_price_lower: u128,
    new_price_upper: u128,
    now: i64,
) -> Option<XLiquidityEngineError> {
    if position.status != PositionStatus::Active {
        Some(XLiquidityEngineError::PositionNotActive)
    } else if now - position.last_rebalance_timestamp < position.min_rebalance_interval {
        Some(XLiquidityEngineError::RateLimited)
    } else if !(new_tick_lower < new_tick_upper && new_price_lower < new_price_upper) {
        Some(XLiquidityEngineError::InvalidRange)
    } else {
        None
    }
}

/// Propose a rebalance of a position: validate, classify the risk of the
/// prediction, fix whether human sign-off will be needed, and record a
/// `DecisionProposed` audit event. The position itself is not touched.
///
/// The proposal is gated on the position's last executed rebalance; an
/// earlier proposal that was never executed does not rate-limit a new one.
#[allow(unused_variables)]
pub fn create_rebalance_decision(
    position: &LiquidityPosition,
    position_key: PositionKey,
    decision_index: u32,
    new_tick_lower: i32,
    new_tick_upper: i32,
    new_price_lower: u128,
    new_price_upper: u128,
    ai_model_version: String,
    ai_model_hash: [u8; 32],
    prediction_confidence: u16,
    market_sentiment_score: i16,
    volatility_metric: u16,
    whale_activity_score: u16,
    decision_reason: String,
    jupiter_swap_transaction: Option<String>,
    expected_output_amount: Option<u64>,
    config: &ProtocolConfig,
    now: i64,
    audit: &mut AuditLog,
) -> (r: Result<RebalanceDecision, XLiquidityEngineError>)
    requires
        position.wf(),
        0 <= now,
        old(audit).wf(),
        old(audit).can_append_at(now),
        old(audit).events@.len() < u64::MAX,
    ensures
        final(audit).wf(),
        final(audit).can_append_at(now),
        r is Ok <==> propose_check(
            *position,
            new_tick_lower,
            new_tick_upper,
            new_price_lower,
            new_price_upper,
            now,
        ) is None,
        r matches Err(e) ==> {
            &&& Some(e) == propose_check(
                *position,
                new_tick_lower,
                new_tick_upper,
                new_price_lower,
                new_price_upper,
                now,
            )
            &&& *final(audit) == *old(audit)
        },
        r matches Ok(d) ==> {
            &&& d.wf()
            &&& d.position == position_key
            &&& d.new_tick_lower == new_tick_lower
            &&& d.new_tick_upper == new_tick_upper
            &&& d.new_price_lower == new_price_lower
            &&& d.new_price_upper == new_price_upper
            &&& d.ai_model_version == ai_model_version
            &&& d.ai_model_hash == ai_model_hash
            &&& d.prediction_confidence == prediction_confidence
            &&& d.market_sentiment_score == market_sentiment_score
            &&& d.volatility_metric == volatility_metric
            &&& d.whale_activity_score == whale_activity_score
            &&& d.on_chain_indicators@ == Seq::<u64>::empty()
            &&& d.decision_reason == decision_reason
            &&& d.risk_assessment == classify(
                prediction_confidence,
                market_sentiment_score,
                volatility_metric,
            )
            &&& d.execution_status == ExecutionStatus::Pending
            &&& d.execution_tx_signature is None
            &&& d.execution_slippage is None
            &&& d.jupiter_swap_transaction == jupiter_swap_transaction
            &&& d.expected_output_amount == expected_output_amount
            &&& d.requires_human_approval == needs_approval(
                d.risk_assessment,
                position.total_value_locked,
                *config,
            )
            &&& d.human_approver is None
            &&& d.approval_timestamp is None
            &&& d.created_at == now
            &&& d.executed_at is None
            &&& audit_appended(
                *final(audit),
                *old(audit),
                AuditEventType::DecisionProposed,
                Some(position_key),
                position.owner,
                Seq::<u8>::empty(),
                now,
            )
        },
{
    if position.status != PositionStatus::Active {
        return Err(XLiquidityEngineError::PositionNotActive);
    }
    if now - position.last_rebalance_timestamp < position.min_rebalance_interval as i64 {
        return Err(XLiquidityEngineError::RateLimited);
    }
    if !(new_tick_lower < new_tick_upper && new_price_lower < new_price_upper) {
        return Err(XLiquidityEngineError::InvalidRange);
    }

    let risk_assessment = crate::risk::assess_risk(
        prediction_confidence,
        market_sentiment_score,
        volatility_metric,
    );
    let requires_human_approval = risk_assessment == RiskLevel::Critical || risk_assessment
        == RiskLevel::High || position.total_value_locked >= config.require_human_approval_threshold;

    let decision = RebalanceDecision {
        position: position_key,
        new_tick_lower,
        new_tick_upper,
        new_price_lower,
        new_price_upper,
        ai_model_version,
        ai_model_hash,
        prediction_confidence,
        market_sentiment_score,
        volatility_metric,
        whale_activity_score,
        on_chain_indicators: Vec::new(),
        decision_reason,
        risk_assessment,
        execution_status: ExecutionStatus::Pending,
        execution_tx_signature: None,
        execution_slippage: None,
        jupiter_swap_transaction,
        expected_output_amount,
        requires_human_approval,
        human_approver: None,
        approval_timestamp: None,
        created_at: now,
        executed_at: None,
    };

    audit.append(
        AuditEventType::DecisionProposed,
        Some(position_key),
        position.owner,
        Vec::new(),
        now,
    );

    Ok(decision)
}

/// The first precondition failure of a sign-off, if any: the decision must
/// need approval, still be pending, and not be approved already.
pub open spec fn approve_check(decision: RebalanceDecision) -> Option<XLiquidityEngineError> {
    if !decision.requires_human_approval {
        Some(XLiquidityEngineError::ApprovalNotRequired)
    } else if decision.execution_status != ExecutionStatus::Pending {
        Some(XLiquidityEngineError::InvalidState)
    } else if decision.human_approver is Some {
        Some(XLiquidityEngineError::AlreadyApproved)
    } else {
        None
    }
}

/// A decision after sign-off: only the approver identity and the approval
/// timestamp change.
pub open spec fn approved_decision(
    decision: RebalanceDecision,
    approver: AccountId,
    now: i64,
) -> RebalanceDecision {
    RebalanceDecision {
        human_approver: Some(approver),
        approval_timestamp: Some(now),
        ..decision
    }
}

/// Record human sign-off on a pending decision, at most once, and record a
/// `HumanApprovalGranted` audit event. Only the approver identity and the
/// approval timestamp change; a failure mutates nothing.
pub fn approve_rebalance(
    decision: &mut RebalanceDecision,
    approver: AccountId,
    now: i64,
    audit: &mut AuditLog,
) -> (r: Result<(), XLiquidityEngineError>)
    requires
        0 <= now,
        old(audit).wf(),
        old(audit).can_append_at(now),
        old(audit).events@.len() < u64::MAX,
    ensures
        final(audit).wf(),
        final(audit).can_append_at(now),
        r is Ok <==> approve_check(*old(decision)) is None,
        r matches Err(e) ==> {
            &&& Some(e) == approve_check(*old(decision))
            &&& *final(decision) == *old(decision)
            &&& *final(audit) == *old(audit)
        },
        r is Ok ==> {
            &&& *final(decision) == approved_decision(*old(decision), approver, now)
            &&& audit_appended(
                *final(audit),
                *old(audit),
                AuditEventType::HumanApprovalGranted,
                Some(old(decision).position),
                approver,
                Seq::<u8>::empty(),
                now,
            )
        },
{
    if !decision.requires_human_approval {
        return Err(XLiquidityEngineError::ApprovalNotRequired);
    }
    if decision.execution_status != ExecutionStatus::Pending {
        return Err(XLiquidityEngineError::InvalidState);
    }
    if decision.human_approver.is_some() {
        return Err(XLiquidityEngineError::AlreadyApproved);
    }

    decision.human_approver = Some(approver);
    decision.approval_timestamp = Some(now);

    audit.append(
        AuditEventType::HumanApprovalGranted,
        Some(decision.position),
        approver,
        Vec::new(),
        now,
    );

    Ok(())
}

/// The proposal gate looks only at the position's last executed rebalance:
/// if a proposal passes at one clock reading, a second proposal with an
/// ordered range passes at any later reading too — a pending, unexecuted
/// proposal never rate-limits the next one.
pub proof fn lemma_propose_not_gated_by_pending_proposal(
    position: LiquidityPosition,
    new_tick_lower: i32,
    new_tick_upper: i32,
    new_price_lower: u128,
    new_price_upper: u128,
    now1: i64,
    now2: i64,
    tick_lower2: i32,
    tick_upper2: i32,
    price_lower2: u128,
    price_upper2: u128,
)
    requires
        propose_check(
            position,
            new_tick_lower,
            new_tick_upper,
            new_price_lower,
            new_price_upper,
            now1,
        ) is None,
        now1 <= now2,
        tick_lower2 < tick_upper2,
        price_lower2 < price_upper2,
    ensures
        propose_check(
            position,
            tick_lower2,
            tick_upper2,
            price_lower2,
            price_upper2,
            now2,
        ) is None,
{
}

} // verus!
