use flow::audit::{AuditEventType, AuditLog};
use flow::config::{initialize_protocol_config, ProtocolConfig};
use flow::decision::{create_rebalance_decision, approve_rebalance, ExecutionStatus, RebalanceDecision};
use flow::errors::XLiquidityEngineError;
use flow::execute::{calculate_swap_amount, calculate_swap_requirements, execute_rebalance, validate_route_plan, JupiterRoutePlan, JupiterSwapResult};
use flow::ids::{AccountId, PositionKey};
use flow::payment::{verify_x402_payment, PaymentCurrency, PaymentStatus};
use flow::position::{collect_fees, create_liquidity_position, protocol_fee, LiquidityPosition, PositionStatus};
use flow::risk::{assess_risk, RiskLevel};

fn owner() -> AccountId {
    AccountId::from_words(1, 0, 0, 0)
}

fn approver() -> AccountId {
    AccountId::from_words(7, 7, 7, 7)
}

fn sample_config() -> ProtocolConfig {
    initialize_protocol_config(owner(), owner(), 100, 50, 10, 0)
}

fn sample_position(audit: &mut AuditLog) -> LiquidityPosition {
    let config = sample_config();
    create_liquidity_position(
        owner(),
        0,
        AccountId::from_words(2, 0, 0, 0),
        AccountId::from_words(3, 0, 0, 0),
        AccountId::from_words(4, 0, 0, 0),
        AccountId::from_words(5, 0, 0, 0),
        AccountId::from_words(6, 0, 0, 0),
        -100,
        100,
        1000,
        2000,
        1000,
        500,
        &config,
        1000,
        audit,
    )
    .unwrap()
}

fn position_key() -> PositionKey {
    PositionKey { owner: owner(), index: 0 }
}

fn sample_decision(
    position: &LiquidityPosition,
    confidence: u16,
    sentiment: i16,
    volatility: u16,
    new_price_lower: u128,
    swap_tx: Option<String>,
    audit: &mut AuditLog,
) -> Result<RebalanceDecision, XLiquidityEngineError> {
    let config = sample_config();
    create_rebalance_decision(
        position,
        position_key(),
        0,
        -50,
        50,
        new_price_lower,
        new_price_lower + 1000,
        "v1.0.0".to_string(),
        [0u8; 32],
        confidence,
        sentiment,
        volatility,
        0,
        "test rationale".to_string(),
        swap_tx,
        None,
        &config,
        10_000,
        audit,
    )
}

#[test]
fn classify_boundaries() {
    assert_eq!(assess_risk(4000, 0, 0), RiskLevel::Critical);
    assert_eq!(assess_risk(9000, 0, 0), RiskLevel::Low);
}

#[test]
fn classify_tiers() {
    assert_eq!(assess_risk(4999, 0, 0), RiskLevel::Critical);
    assert_eq!(assess_risk(9000, 0, 8001), RiskLevel::Critical);
    assert_eq!(assess_risk(5000, 0, 0), RiskLevel::High);
    assert_eq!(assess_risk(6999, 0, 0), RiskLevel::High);
    assert_eq!(assess_risk(9000, 0, 6001), RiskLevel::High);
    assert_eq!(assess_risk(9000, -5001, 0), RiskLevel::High);
    assert_eq!(assess_risk(8499, 0, 0), RiskLevel::Medium);
    assert_eq!(assess_risk(9000, 0, 4001), RiskLevel::Medium);
    assert_eq!(assess_risk(8500, 0, 4000), RiskLevel::Low);
    assert_eq!(assess_risk(8500, -5000, 0), RiskLevel::Low);
}

#[test]
fn config_defaults() {
    let c = sample_config();
    assert_eq!(c.min_rebalance_interval, 3600);
    assert_eq!(c.max_rebalance_frequency, 24);
    assert_eq!(c.default_slippage_tolerance_bps, 50);
    assert_eq!(c.max_position_size, 1_000_000_000_000);
    assert_eq!(c.max_single_trade_size, 100_000_000_000);
    assert_eq!(c.require_human_approval_threshold, 500_000_000_000);
    assert_eq!(c.x402_api_base_url, "https://api.x-liquidity-engine.com");
    assert_eq!(c.default_ai_model_version, "v1.0.0");
    assert!(c.audit_log_enabled);
}

#[test]
fn create_valid_ranges_succeeds() {
    let mut audit = AuditLog::new();
    let p = sample_position(&mut audit);
    assert_eq!(p.status, PositionStatus::Active);
    assert_eq!(p.rebalance_count, 0);
    assert_eq!(p.last_rebalance_timestamp, 0);
    assert_eq!(p.total_value_locked, 0);
    assert!(p.auto_rebalance_enabled);
    assert_eq!(p.min_rebalance_interval, 3600);
    assert_eq!(audit.events.len(), 1);
    assert_eq!(audit.events[0].event_type, AuditEventType::PositionCreated);
    assert_eq!(audit.events[0].sequence, 0);
}

#[test]
fn create_unordered_range_fails_invalid_range() {
    let config = sample_config();
    let mut audit = AuditLog::new();
    let id = owner();
    let r = create_liquidity_position(
        id, 0, id, id, id, id, id, 100, -100, 1000, 2000, 1000, 500, &config, 1000, &mut audit,
    );
    assert_eq!(r.unwrap_err(), XLiquidityEngineError::InvalidRange);
    let r = create_liquidity_position(
        id, 0, id, id, id, id, id, -100, 100, 2000, 1000, 1000, 500, &config, 1000, &mut audit,
    );
    assert_eq!(r.unwrap_err(), XLiquidityEngineError::InvalidRange);
    let r = create_liquidity_position(
        id, 0, id, id, id, id, id, 5, 5, 1000, 2000, 1000, 500, &config, 1000, &mut audit,
    );
    assert_eq!(r.unwrap_err(), XLiquidityEngineError::InvalidRange);
    assert_eq!(audit.events.len(), 0);
}

#[test]
fn create_oversized_caps_fail_cap_exceeded() {
    let config = sample_config();
    let mut audit = AuditLog::new();
    let id = owner();
    let r = create_liquidity_position(
        id, 0, id, id, id, id, id, -100, 100, 1000, 2000, 1_000_000_000_001, 500, &config, 1000,
        &mut audit,
    );
    assert_eq!(r.unwrap_err(), XLiquidityEngineError::CapExceeded);
    let r = create_liquidity_position(
        id, 0, id, id, id, id, id, -100, 100, 1000, 2000, 1000, 100_000_000_001, &config, 1000,
        &mut audit,
    );
    assert_eq!(r.unwrap_err(), XLiquidityEngineError::CapExceeded);
}

#[test]
fn propose_on_inactive_position_fails() {
    let mut audit = AuditLog::new();
    let mut p = sample_position(&mut audit);
    p.status = PositionStatus::Paused;
    let r = sample_decision(&p, 9000, 0, 0, 1000, None, &mut audit);
    assert_eq!(r.unwrap_err(), XLiquidityEngineError::PositionNotActive);
}

#[test]
fn propose_too_soon_is_rate_limited() {
    let mut audit = AuditLog::new();
    let p = sample_position(&mut audit);
    let config = sample_config();
    let r = create_rebalance_decision(
        &p,
        position_key(),
        0,
        -50,
        50,
        1000,
        2000,
        "v1.0.0".to_string(),
        [0u8; 32],
        9000,
        0,
        0,
        0,
        "too soon".to_string(),
        None,
        None,
        &config,
        3599,
        &mut audit,
    );
    assert_eq!(r.unwrap_err(), XLiquidityEngineError::RateLimited);
}

#[test]
fn propose_unordered_range_fails() {
    let mut audit = AuditLog::new();
    let p = sample_position(&mut audit);
    let config = sample_config();
    let r = create_rebalance_decision(
        &p,
        position_key(),
        0,
        50,
        -50,
        1000,
        2000,
        "v1.0.0".to_string(),
        [0u8; 32],
        9000,
        0,
        0,
        0,
        "bad range".to_string(),
        None,
        None,
        &config,
        10_000,
        &mut audit,
    );
    assert_eq!(r.unwrap_err(), XLiquidityEngineError::InvalidRange);
}

#[test]
fn high_risk_always_needs_approval() {
    let mut audit = AuditLog::new();
    let p = sample_position(&mut audit);
    assert_eq!(p.total_value_locked, 0);
    let d = sample_decision(&p, 4000, 0, 0, 1000, None, &mut audit).unwrap();
    assert_eq!(d.risk_assessment, RiskLevel::Critical);
    assert!(d.requires_human_approval);
    let mut audit2 = AuditLog::new();
    let p2 = sample_position(&mut audit2);
    let d2 = sample_decision(&p2, 6000, 0, 0, 1000, None, &mut audit2).unwrap();
    assert_eq!(d2.risk_assessment, RiskLevel::High);
    assert!(d2.requires_human_approval);
}

#[test]
fn low_risk_small_position_needs_no_approval() {
    let mut audit = AuditLog::new();
    let p = sample_position(&mut audit);
    let d = sample_decision(&p, 9000, 0, 0, 1000, None, &mut audit).unwrap();
    assert_eq!(d.risk_assessment, RiskLevel::Low);
    assert!(!d.requires_human_approval);
    assert_eq!(d.execution_status, ExecutionStatus::Pending);
    assert!(d.human_approver.is_none());
}

#[test]
fn big_position_needs_approval_at_any_risk() {
    let mut audit = AuditLog::new();
    let mut p = sample_position(&mut audit);
    p.total_value_locked = 500_000_000_000;
    let d = sample_decision(&p, 9000, 0, 0, 1000, None, &mut audit).unwrap();
    assert_eq!(d.risk_assessment, RiskLevel::Low);
    assert!(d.requires_human_approval);
}

#[test]
fn approve_not_required_fails() {
    let mut audit = AuditLog::new();
    let p = sample_position(&mut audit);
    let mut d = sample_decision(&p, 9000, 0, 0, 1000, None, &mut audit).unwrap();
    let r = approve_rebalance(&mut d, approver(), 10_001, &mut audit);
    assert_eq!(r.unwrap_err(), XLiquidityEngineError::ApprovalNotRequired);
    assert!(d.human_approver.is_none());
}

#[test]
fn approve_records_approver_once() {
    let mut audit = AuditLog::new();
    let p = sample_position(&mut audit);
    let mut d = sample_decision(&p, 4000, 0, 0, 1000, None, &mut audit).unwrap();
    let r = approve_rebalance(&mut d, approver(), 10_001, &mut audit);
    assert!(r.is_ok());
    assert_eq!(d.human_approver, Some(approver()));
    assert_eq!(d.approval_timestamp, Some(10_001));
    assert_eq!(
        audit.events.last().unwrap().event_type,
        AuditEventType::HumanApprovalGranted
    );
    let r2 = approve_rebalance(&mut d, owner(), 10_002, &mut audit);
    assert_eq!(r2.unwrap_err(), XLiquidityEngineError::AlreadyApproved);
    assert_eq!(d.human_approver, Some(approver()));
    assert_eq!(d.approval_timestamp, Some(10_001));
}

#[test]
fn approve_terminal_decision_fails_invalid_state() {
    let mut audit = AuditLog::new();
    let p = sample_position(&mut audit);
    let mut d = sample_decision(&p, 4000, 0, 0, 1000, None, &mut audit).unwrap();
    d.execution_status = ExecutionStatus::Cancelled;
    let r = approve_rebalance(&mut d, approver(), 10_001, &mut audit);
    assert_eq!(r.unwrap_err(), XLiquidityEngineError::InvalidState);
}

#[test]
fn execute_without_approver_fails_and_mutates_nothing() {
    let mut audit = AuditLog::new();
    let mut p = sample_position(&mut audit);
    let mut d = sample_decision(&p, 4000, 0, 0, 1000, None, &mut audit).unwrap();
    assert!(d.requires_human_approval);
    let config = sample_config();
    let p_before = p.clone();
    let d_before = d.clone();
    let events_before = audit.events.len();
    let r = execute_rebalance(
        &mut p,
        &mut d,
        &config,
        50,
        Some(approver()),
        None,
        None,
        10_001,
        5,
        &mut audit,
    );
    assert_eq!(r.unwrap_err(), XLiquidityEngineError::ApprovalRequired);
    assert_eq!(p, p_before);
    assert_eq!(d, d_before);
    assert_eq!(audit.events.len(), events_before);
}

#[test]
fn execute_without_credential_fails_approval_required() {
    let mut audit = AuditLog::new();
    let mut p = sample_position(&mut audit);
    let mut d = sample_decision(&p, 4000, 0, 0, 1000, None, &mut audit).unwrap();
    approve_rebalance(&mut d, approver(), 10_001, &mut audit).unwrap();
    let config = sample_config();
    let r = execute_rebalance(&mut p, &mut d, &config, 50, None, None, None, 10_002, 5, &mut audit);
    assert_eq!(r.unwrap_err(), XLiquidityEngineError::ApprovalRequired);
}

#[test]
fn execute_with_wrong_credential_fails_unauthorized() {
    let mut audit = AuditLog::new();
    let mut p = sample_position(&mut audit);
    let mut d = sample_decision(&p, 4000, 0, 0, 1000, None, &mut audit).unwrap();
    approve_rebalance(&mut d, approver(), 10_001, &mut audit).unwrap();
    let config = sample_config();
    let r = execute_rebalance(
        &mut p,
        &mut d,
        &config,
        50,
        Some(owner()),
        None,
        None,
        10_002,
        5,
        &mut audit,
    );
    assert_eq!(r.unwrap_err(), XLiquidityEngineError::UnauthorizedApprover);
    assert_eq!(d.execution_status, ExecutionStatus::Pending);
}

#[test]
fn execute_rejects_tolerance_above_twice_default() {
    let mut audit = AuditLog::new();
    let mut p = sample_position(&mut audit);
    let mut d = sample_decision(&p, 9000, 0, 0, 1000, None, &mut audit).unwrap();
    let config = sample_config();
    let r = execute_rebalance(&mut p, &mut d, &config, 101, None, None, None, 10_002, 5, &mut audit);
    assert_eq!(r.unwrap_err(), XLiquidityEngineError::SlippageBoundInvalid);
}

#[test]
fn execute_enforces_venue_slippage() {
    // Tolerance of exactly twice the default, venue one basis point over:
    // the execution fails SlippageExceeded and the decision stays pending,
    // with the observed slippage persisted.
    let mut audit = AuditLog::new();
    let mut p = sample_position(&mut audit);
    // A far-moved lower price bound makes the swap necessary.
    let mut d = sample_decision(&p, 4000, 0, 0, 2000, None, &mut audit).unwrap();
    approve_rebalance(&mut d, approver(), 10_001, &mut audit).unwrap();
    let config = sample_config();
    let venue = JupiterSwapResult {
        executed: true,
        actual_slippage_bps: Some(101),
        actual_amount_out: Some(900),
    };
    let r = execute_rebalance(
        &mut p,
        &mut d,
        &config,
        100,
        Some(approver()),
        None,
        Some(venue),
        10_002,
        5,
        &mut audit,
    );
    assert_eq!(r.unwrap_err(), XLiquidityEngineError::SlippageExceeded);
    assert_eq!(d.execution_status, ExecutionStatus::Pending);
    assert_eq!(d.execution_slippage, Some(101));
    assert_eq!(p.rebalance_count, 0);
}

#[test]
fn execute_accepts_venue_slippage_within_tolerance() {
    let mut audit = AuditLog::new();
    let mut p = sample_position(&mut audit);
    let mut d = sample_decision(&p, 4000, 0, 0, 2000, None, &mut audit).unwrap();
    approve_rebalance(&mut d, approver(), 10_001, &mut audit).unwrap();
    let config = sample_config();
    let venue = JupiterSwapResult {
        executed: true,
        actual_slippage_bps: Some(99),
        actual_amount_out: Some(900),
    };
    let r = execute_rebalance(
        &mut p,
        &mut d,
        &config,
        100,
        Some(approver()),
        None,
        Some(venue),
        10_002,
        5,
        &mut audit,
    );
    assert!(r.is_ok());
    assert_eq!(d.execution_status, ExecutionStatus::Executed);
    assert_eq!(d.execution_slippage, Some(99));
    assert_eq!(d.executed_at, Some(10_002));
    assert_eq!(p.current_price_lower, 2000);
    assert_eq!(p.current_price_upper, 3000);
    assert_eq!(p.current_tick_lower, -50);
    assert_eq!(p.current_tick_upper, 50);
    assert_eq!(p.last_rebalance_timestamp, 10_002);
    assert_eq!(p.last_rebalance_slot, 5);
    assert_eq!(p.rebalance_count, 1);
    assert_eq!(audit.events.last().unwrap().event_type, AuditEventType::Rebalanced);
}

#[test]
fn execute_records_prebuilt_swap_signature() {
    let mut audit = AuditLog::new();
    let mut p = sample_position(&mut audit);
    let mut d = sample_decision(&p, 9000, 0, 0, 2000, Some("swap-tx".to_string()), &mut audit)
        .unwrap();
    let config = sample_config();
    let r = execute_rebalance(
        &mut p,
        &mut d,
        &config,
        50,
        None,
        Some("sig-abc".to_string()),
        None,
        10_002,
        5,
        &mut audit,
    );
    assert!(r.is_ok());
    assert_eq!(d.execution_tx_signature, Some("sig-abc".to_string()));
    assert_eq!(d.execution_status, ExecutionStatus::Executed);
}

#[test]
fn execute_twice_commits_exactly_once() {
    let mut audit = AuditLog::new();
    let mut p = sample_position(&mut audit);
    let mut d = sample_decision(&p, 9000, 0, 0, 1000, None, &mut audit).unwrap();
    let config = sample_config();
    let r1 = execute_rebalance(&mut p, &mut d, &config, 50, None, None, None, 10_002, 5, &mut audit);
    assert!(r1.is_ok());
    assert_eq!(d.execution_status, ExecutionStatus::Executed);
    assert_eq!(p.rebalance_count, 1);
    let p_after = p.clone();
    let d_after = d.clone();
    let r2 = execute_rebalance(&mut p, &mut d, &config, 50, None, None, None, 10_003, 6, &mut audit);
    assert_eq!(r2.unwrap_err(), XLiquidityEngineError::InvalidState);
    assert_eq!(p, p_after);
    assert_eq!(d, d_after);
    assert_eq!(p.rebalance_count, 1);
}

#[test]
fn counter_at_maximum_fails_overflow() {
    let mut audit = AuditLog::new();
    let mut p = sample_position(&mut audit);
    p.rebalance_count = u32::MAX;
    let mut d = sample_decision(&p, 9000, 0, 0, 1000, None, &mut audit).unwrap();
    let config = sample_config();
    let p_before = p.clone();
    let r = execute_rebalance(&mut p, &mut d, &config, 50, None, None, None, 10_002, 5, &mut audit);
    assert_eq!(r.unwrap_err(), XLiquidityEngineError::CounterOverflow);
    assert_eq!(p, p_before);
    assert_eq!(d.execution_status, ExecutionStatus::Pending);
}

#[test]
fn propose_gates_on_executed_rebalance_only() {
    // Two proposals in a row both pass: a pending, unexecuted proposal does
    // not rate-limit the next. Only after a successful execution does the
    // rate limit bite.
    let mut audit = AuditLog::new();
    let mut p = sample_position(&mut audit);
    let d1 = sample_decision(&p, 9000, 0, 0, 1000, None, &mut audit);
    assert!(d1.is_ok());
    let d2 = sample_decision(&p, 9000, 0, 0, 1000, None, &mut audit);
    assert!(d2.is_ok());
    let mut d = d2.unwrap();
    let config = sample_config();
    execute_rebalance(&mut p, &mut d, &config, 50, None, None, None, 10_002, 5, &mut audit)
        .unwrap();
    assert_eq!(p.last_rebalance_timestamp, 10_002);
    let config2 = sample_config();
    let r = create_rebalance_decision(
        &p,
        position_key(),
        1,
        -50,
        50,
        1000,
        2000,
        "v1.0.0".to_string(),
        [0u8; 32],
        9000,
        0,
        0,
        0,
        "after execution".to_string(),
        None,
        None,
        &config2,
        10_003,
        &mut audit,
    );
    assert_eq!(r.unwrap_err(), XLiquidityEngineError::RateLimited);
}

#[test]
fn swap_need_follows_price_move() {
    let mut audit = AuditLog::new();
    let p = sample_position(&mut audit);
    let near = sample_decision(&p, 9000, 0, 0, 1050, None, &mut audit).unwrap();
    assert!(!calculate_swap_requirements(&p, &near));
    assert_eq!(calculate_swap_amount(&p, &near).unwrap(), 0);
    let far = sample_decision(&p, 9000, 0, 0, 2000, None, &mut audit).unwrap();
    assert!(calculate_swap_requirements(&p, &far));
    assert_eq!(calculate_swap_amount(&p, &far).unwrap(), 1000);
}

#[test]
fn route_plan_validation() {
    let mut audit = AuditLog::new();
    let p = sample_position(&mut audit);
    let good = JupiterRoutePlan {
        input_mint: p.token_a,
        output_mint: p.token_b,
        in_amount: 1000,
        out_amount: 990,
        slippage_bps: 40,
        route_data: vec![1, 2, 3],
    };
    assert!(validate_route_plan(&good, &p, 1000, 50).is_ok());
    let wrong_pair = JupiterRoutePlan { input_mint: p.token_b, ..good.clone() };
    assert_eq!(
        validate_route_plan(&wrong_pair, &p, 1000, 50).unwrap_err(),
        XLiquidityEngineError::InvalidFacilitator
    );
    let wrong_amount = JupiterRoutePlan { in_amount: 999, ..good.clone() };
    assert_eq!(
        validate_route_plan(&wrong_amount, &p, 1000, 50).unwrap_err(),
        XLiquidityEngineError::InvalidFacilitator
    );
    let too_loose = JupiterRoutePlan { slippage_bps: 51, ..good };
    assert_eq!(
        validate_route_plan(&too_loose, &p, 1000, 50).unwrap_err(),
        XLiquidityEngineError::SlippageBoundInvalid
    );
}

#[test]
fn collect_fees_requires_active_position() {
    let mut audit = AuditLog::new();
    let mut p = sample_position(&mut audit);
    p.status = PositionStatus::Closed;
    p.total_fees_earned_a = 10;
    let config = sample_config();
    let r = collect_fees(&mut p, position_key(), &config, 2000, &mut audit);
    assert_eq!(r.unwrap_err(), XLiquidityEngineError::PositionNotActive);
}

#[test]
fn collect_fees_requires_accrued_fees() {
    let mut audit = AuditLog::new();
    let mut p = sample_position(&mut audit);
    let config = sample_config();
    let r = collect_fees(&mut p, position_key(), &config, 2000, &mut audit);
    assert_eq!(r.unwrap_err(), XLiquidityEngineError::NoFeesToCollect);
}

#[test]
fn collect_fees_reports_and_resets() {
    let mut audit = AuditLog::new();
    let mut p = sample_position(&mut audit);
    p.total_fees_earned_a = 123;
    p.total_fees_earned_b = 456;
    let config = sample_config();
    let r = collect_fees(&mut p, position_key(), &config, 2000, &mut audit).unwrap();
    assert_eq!(r, (123, 456));
    assert_eq!(p.total_fees_earned_a, 0);
    assert_eq!(p.total_fees_earned_b, 0);
    assert_eq!(p.updated_at, 2000);
    let last = audit.events.last().unwrap();
    assert_eq!(last.event_type, AuditEventType::FeesCollected);
    // The ledger carries the collected amounts, little-endian, side A first.
    assert_eq!(
        last.payload,
        vec![123, 0, 0, 0, 0, 0, 0, 0, 200, 1, 0, 0, 0, 0, 0, 0]
    );
    let r2 = collect_fees(&mut p, position_key(), &config, 2001, &mut audit);
    assert_eq!(r2.unwrap_err(), XLiquidityEngineError::NoFeesToCollect);
}

#[test]
fn protocol_fee_is_floored_basis_points() {
    assert_eq!(protocol_fee(10_000, 250), 250);
    assert_eq!(protocol_fee(999, 100), 9);
    assert_eq!(protocol_fee(0, 10_000), 0);
    assert_eq!(protocol_fee(u64::MAX, 10_000), u64::MAX);
}

#[test]
fn payment_below_minimum_fails() {
    let mut audit = AuditLog::new();
    let config = sample_config();
    let r = verify_x402_payment(
        [1u8; 32],
        owner(),
        owner(),
        9,
        PaymentCurrency::USDC,
        "/quote".to_string(),
        "v1".to_string(),
        AccountId::zero(),
        &config,
        5000,
        &mut audit,
    );
    assert_eq!(r.unwrap_err(), XLiquidityEngineError::PaymentTooSmall);
}

#[test]
fn payment_with_wrong_facilitator_fails() {
    let mut audit = AuditLog::new();
    let config = sample_config();
    let r = verify_x402_payment(
        [1u8; 32],
        owner(),
        owner(),
        10,
        PaymentCurrency::USDC,
        "/quote".to_string(),
        "v1".to_string(),
        AccountId::from_words(9, 9, 9, 9),
        &config,
        5000,
        &mut audit,
    );
    assert_eq!(r.unwrap_err(), XLiquidityEngineError::InvalidFacilitator);
}

#[test]
fn verified_payment_grants_timed_access() {
    let mut audit = AuditLog::new();
    let config = sample_config();
    let pay = verify_x402_payment(
        [1u8; 32],
        owner(),
        owner(),
        10,
        PaymentCurrency::SOL,
        "/quote".to_string(),
        "v1".to_string(),
        AccountId::zero(),
        &config,
        5000,
        &mut audit,
    )
    .unwrap();
    assert_eq!(pay.payment_status, PaymentStatus::Verified);
    assert!(pay.access_granted);
    assert_eq!(pay.access_expires_at, Some(5000 + 3600));
    assert_eq!(pay.verified_at, Some(5000));
    assert_eq!(pay.settled_at, None);
    assert_eq!(audit.events.last().unwrap().event_type, AuditEventType::PaymentReceived);
    assert_eq!(audit.events.last().unwrap().position_ref, None);
}
