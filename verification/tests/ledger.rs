use flow::audit::{AuditEventType, AuditLog};
use flow::codec::{fees_collected_bytes, rebalanced_bytes, u128_le_bytes, u32_le_bytes, u64_le_bytes};
use flow::config::initialize_protocol_config;
use flow::errors::XLiquidityEngineError;
use flow::ids::{AccountId, PositionKey};
use flow::registry::Registry;

fn owner() -> AccountId {
    AccountId::from_words(1, 0, 0, 0)
}

fn approver() -> AccountId {
    AccountId::from_words(7, 7, 7, 7)
}

fn key(index: u8) -> PositionKey {
    PositionKey { owner: owner(), index }
}

fn fresh_registry() -> Registry {
    Registry::new(initialize_protocol_config(owner(), owner(), 100, 50, 10, 0))
}

fn create_at(reg: &mut Registry, index: u8, now: i64) -> Result<(), XLiquidityEngineError> {
    let id = owner();
    reg.create_position(
        id, index, id, id, id, id, id, -100, 100, 1000, 2000, 1000, 500, now,
    )
}

fn propose_at(
    reg: &mut Registry,
    index: u8,
    decision_index: u32,
    confidence: u16,
    now: i64,
) -> Result<(), XLiquidityEngineError> {
    reg.propose(
        key(index),
        decision_index,
        -50,
        50,
        1000,
        2000,
        "v1.0.0".to_string(),
        [0u8; 32],
        confidence,
        0,
        0,
        0,
        "registry proposal".to_string(),
        None,
        None,
        now,
    )
}

#[test]
fn audit_append_assigns_monotonic_keys() {
    let mut log = AuditLog::new();
    let id0 = log.append(AuditEventType::PositionCreated, Some(key(0)), owner(), vec![], 100);
    let id1 = log.append(AuditEventType::DecisionProposed, Some(key(0)), owner(), vec![1], 150);
    let id2 = log.append(AuditEventType::Rebalanced, Some(key(0)), owner(), vec![], 150);
    assert_eq!((id0, id1, id2), (0, 1, 2));
    assert_eq!(log.events.len(), 3);
    for w in log.events.windows(2) {
        assert!(w[0].sequence < w[1].sequence);
        assert!(w[0].created_at <= w[1].created_at);
    }
    assert_eq!(log.events[1].payload, vec![1]);
    assert_eq!(log.events[2].actor, owner());
}

#[test]
fn little_endian_codecs_are_exact() {
    assert_eq!(u32_le_bytes(0x01020304), vec![4, 3, 2, 1]);
    assert_eq!(
        u64_le_bytes(0x0102030405060708),
        vec![8, 7, 6, 5, 4, 3, 2, 1]
    );
    assert_eq!(u64_le_bytes(456), vec![200, 1, 0, 0, 0, 0, 0, 0]);
    assert_eq!(
        u128_le_bytes(1000),
        vec![232, 3, 0, 0, 0, 0, 0, 0, 0, 0, 0, 0, 0, 0, 0, 0]
    );
    // Ticks travel in two's complement.
    let encoded = rebalanced_bytes(-50, 50, 1000, 2000);
    assert_eq!(encoded.len(), 40);
    assert_eq!(&encoded[0..4], &[206, 255, 255, 255]);
    assert_eq!(&encoded[4..8], &[50, 0, 0, 0]);
    assert_eq!(&encoded[8..24], &[232, 3, 0, 0, 0, 0, 0, 0, 0, 0, 0, 0, 0, 0, 0, 0]);
    assert_eq!(&encoded[24..40], &[208, 7, 0, 0, 0, 0, 0, 0, 0, 0, 0, 0, 0, 0, 0, 0]);
    let fees = fees_collected_bytes(123, 456);
    assert_eq!(
        fees,
        vec![123, 0, 0, 0, 0, 0, 0, 0, 200, 1, 0, 0, 0, 0, 0, 0]
    );
}

#[test]
fn registry_create_validates_like_the_core() {
    let mut reg = fresh_registry();
    let id = owner();
    let r = reg.create_position(
        id, 0, id, id, id, id, id, 100, -100, 1000, 2000, 1000, 500, 1000,
    );
    assert_eq!(r.unwrap_err(), XLiquidityEngineError::InvalidRange);
    let r = reg.create_position(
        id, 0, id, id, id, id, id, -100, 100, 1000, 2000, 1_000_000_000_001, 500, 1000,
    );
    assert_eq!(r.unwrap_err(), XLiquidityEngineError::CapExceeded);
    assert_eq!(reg.positions.len(), 0);
    assert_eq!(reg.audit.events.len(), 0);
}

#[test]
fn registry_rejects_duplicate_position_key() {
    let mut reg = fresh_registry();
    create_at(&mut reg, 0, 1000).unwrap();
    let r = create_at(&mut reg, 0, 1001);
    assert_eq!(r.unwrap_err(), XLiquidityEngineError::InvalidState);
    assert_eq!(reg.positions.len(), 1);
    assert_eq!(reg.audit.events.len(), 1);
}

#[test]
fn registry_propose_requires_existing_position() {
    let mut reg = fresh_registry();
    let r = propose_at(&mut reg, 3, 0, 9000, 10_000);
    assert_eq!(r.unwrap_err(), XLiquidityEngineError::InvalidState);
}

#[test]
fn registry_rejects_duplicate_decision_key() {
    let mut reg = fresh_registry();
    create_at(&mut reg, 0, 1000).unwrap();
    propose_at(&mut reg, 0, 0, 9000, 10_000).unwrap();
    let r = propose_at(&mut reg, 0, 0, 9000, 10_001);
    assert_eq!(r.unwrap_err(), XLiquidityEngineError::InvalidState);
    assert_eq!(reg.decisions.len(), 1);
}

#[test]
fn registry_execute_requires_existing_decision() {
    let mut reg = fresh_registry();
    create_at(&mut reg, 0, 1000).unwrap();
    let r = reg.execute(key(0), 9, 50, None, None, None, 10_000, 5);
    assert_eq!(r.unwrap_err(), XLiquidityEngineError::InvalidState);
}

#[test]
fn registry_full_lifecycle_keeps_ordered_ledger() {
    // Create, propose (high risk), approve, execute; then read the ledger
    // back: sequence keys strictly increase, timestamps never decrease, and
    // exactly one PositionCreated event for the position precedes its
    // Rebalanced event.
    let mut reg = fresh_registry();
    create_at(&mut reg, 0, 1000).unwrap();
    propose_at(&mut reg, 0, 0, 4000, 10_000).unwrap();
    reg.approve(key(0), 0, approver(), 10_001).unwrap();
    reg.execute(key(0), 0, 100, Some(approver()), None, None, 10_002, 42)
        .unwrap();

    let kinds: Vec<AuditEventType> = reg.audit.events.iter().map(|e| e.event_type).collect();
    assert_eq!(
        kinds,
        vec![
            AuditEventType::PositionCreated,
            AuditEventType::DecisionProposed,
            AuditEventType::HumanApprovalGranted,
            AuditEventType::Rebalanced,
        ]
    );
    for w in reg.audit.events.windows(2) {
        assert!(w[0].sequence < w[1].sequence);
        assert!(w[0].created_at <= w[1].created_at);
    }
    let created: Vec<u64> = reg
        .audit
        .events
        .iter()
        .filter(|e| {
            e.event_type == AuditEventType::PositionCreated && e.position_ref == Some(key(0))
        })
        .map(|e| e.sequence)
        .collect();
    let rebalanced: Vec<u64> = reg
        .audit
        .events
        .iter()
        .filter(|e| e.event_type == AuditEventType::Rebalanced && e.position_ref == Some(key(0)))
        .map(|e| e.sequence)
        .collect();
    assert_eq!(created.len(), 1);
    assert_eq!(rebalanced.len(), 1);
    assert!(created[0] < rebalanced[0]);

    let position = &reg.positions[0].position;
    assert_eq!(position.rebalance_count, 1);
    assert_eq!(position.current_price_lower, 1000);
    assert_eq!(position.last_rebalance_timestamp, 10_002);
    assert_eq!(position.last_rebalance_slot, 42);

    // The Rebalanced event's payload carries the adopted range.
    let last = reg.audit.events.last().unwrap();
    assert_eq!(last.payload, rebalanced_bytes(-50, 50, 1000, 2000));
}

#[test]
fn registry_execute_twice_commits_exactly_once() {
    let mut reg = fresh_registry();
    create_at(&mut reg, 0, 1000).unwrap();
    propose_at(&mut reg, 0, 0, 9000, 10_000).unwrap();
    let r1 = reg.execute(key(0), 0, 50, None, None, None, 10_001, 5);
    assert!(r1.is_ok());
    let r2 = reg.execute(key(0), 0, 50, None, None, None, 10_002, 6);
    assert_eq!(r2.unwrap_err(), XLiquidityEngineError::InvalidState);
    assert_eq!(reg.positions[0].position.rebalance_count, 1);
    let rebalanced = reg
        .audit
        .events
        .iter()
        .filter(|e| e.event_type == AuditEventType::Rebalanced)
        .count();
    assert_eq!(rebalanced, 1);
}

#[test]
fn registry_two_positions_keep_distinct_trails() {
    let mut reg = fresh_registry();
    create_at(&mut reg, 0, 1000).unwrap();
    create_at(&mut reg, 1, 1001).unwrap();
    propose_at(&mut reg, 1, 0, 9000, 10_000).unwrap();
    reg.execute(key(1), 0, 50, None, None, None, 10_001, 5).unwrap();
    let rebalanced_zero = reg
        .audit
        .events
        .iter()
        .filter(|e| e.event_type == AuditEventType::Rebalanced && e.position_ref == Some(key(0)))
        .count();
    assert_eq!(rebalanced_zero, 0);
    assert_eq!(reg.positions[0].position.rebalance_count, 0);
    assert_eq!(reg.positions[1].position.rebalance_count, 1);
}
