//! The execution coordinator: validate a pending decision's preconditions,
//! enforce approval and slippage, and commit the position and decision
//! atomically with a `Rebalanced` audit event.
//!
//! Venue work (the swap and the liquidity moves) is long-latency external
//! I/O owned by the venue edge; its observed results are handed in as plain
//! values, and the coordinator commits nothing unless every check passes.

use vstd::prelude::*;
use crate::audit::{audit_appended, AuditEventType, AuditLog};
use crate::config::ProtocolConfig;
use crate::decision::{ExecutionStatus, RebalanceDecision};
use crate::errors::XLiquidityEngineError;
use crate::ids::AccountId;
use crate::position::LiquidityPosition;

verus! {

/// What the venue reported for a swap: whether it ran, and if so with what
/// slippage and output.
#[derive(Clone, Copy, PartialEq, Debug)]
pub struct JupiterSwapResult {
    pub executed: bool,
    pub actual_slippage_bps: Option<u16>,
    pub actual_amount_out: Option<u64>,
}

/// A swap route quoted off-chain, to be validated against the position and
/// tolerance before the venue executes it.
#[derive(Clone, PartialEq, Debug)]
pub struct JupiterRoutePlan {
    pub input_mint: AccountId,
    pub output_mint: AccountId,
    pub in_amount: u64,
    pub out_amount: u64,
    pub slippage_bps: u16,
    pub route_data: Vec<u8>,
}

/// Whether rebalancing to the decision's range needs a token swap: the
/// lower price bound moves by more than a tenth of its current value.
pub open spec fn swap_needed(position: LiquidityPosition, decision: RebalanceDecision) -> bool {
    let delta = if decision.new_price_lower > position.current_price_lower {
        decision.new_price_lower - position.current_price_lower
    } else {
        position.current_price_lower - decision.new_price_lower
    };
    delta > position.current_price_lower / 10
}

/// Decide whether token swaps are required to move the position onto the
/// decision's range.
pub fn calculate_swap_requirements(
    position: &LiquidityPosition,
    decision: &RebalanceDecision,
) -> (b: bool)
    ensures
        b == swap_needed(*position, *decision),
{
    let price_range_change: u128 = if decision.new_price_lower > position.current_price_lower {
        decision.new_price_lower - position.current_price_lower
    } else {
        position.current_price_lower - decision.new_price_lower
    };
    price_range_change > position.current_price_lower / 10
}

/// The amount of token A to swap for the rebalance: a fixed nominal
/// amount when a swap is needed, nothing otherwise.
pub fn calculate_swap_amount(
    position: &LiquidityPosition,
    decision: &RebalanceDecision,
) -> (r: Result<u64, XLiquidityEngineError>)
    ensures
        r == Result::<u64, XLiquidityEngineError>::Ok(
            if swap_needed(*position, *decision) {
                1000u64
            } else {
                0u64
            },
        ),
{
    if calculate_swap_requirements(position, decision) {
        Ok(1000)
    } else {
        Ok(0)
    }
}

/// The first failure of a quoted route plan against the swap it is meant to
/// perform, if any: it must route the position's token pair, move exactly
/// the computed amount, and quote no more slippage than the caller
/// tolerates.
pub open spec fn route_plan_check(
    plan: JupiterRoutePlan,
    position: LiquidityPosition,
    swap_amount: u64,
    slippage_tolerance_bps: u16,
) -> Option<XLiquidityEngineError> {
    if !(plan.input_mint == position.token_a && plan.output_mint == position.token_b) {
        Some(XLiquidityEngineError::InvalidFacilitator)
    } else if plan.in_amount != swap_amount {
        Some(XLiquidityEngineError::InvalidFacilitator)
    } else if plan.slippage_bps > slippage_tolerance_bps {
        Some(XLiquidityEngineError::SlippageBoundInvalid)
    } else {
        None
    }
}

/// Validate a quoted route plan before the venue edge executes it.
pub fn validate_route_plan(
    plan: &JupiterRoutePlan,
    position: &LiquidityPosition,
    swap_amount: u64,
    slippage_tolerance_bps: u16,
) -> (r: Result<(), XLiquidityEngineError>)
    ensures
        r is Ok <==> route_plan_check(*plan, *position, swap_amount, slippage_tolerance_bps)
            is None,
        r matches Err(e) ==> Some(e) == route_plan_check(
            *plan,
            *position,
            swap_amount,
            slippage_tolerance_bps,
        ),
{
    if !(plan.input_mint == position.token_a && plan.output_mint == position.token_b) {
        return Err(XLiquidityEngineError::InvalidFacilitator);
    }
    if plan.in_amount != swap_amount {
        return Err(XLiquidityEngineError::InvalidFacilitator);
    }
    if plan.slippage_bps > slippage_tolerance_bps {
        return Err(XLiquidityEngineError::SlippageBoundInvalid);
    }
    Ok(())
}

/// The first precondition failure of an execution, if any: the decision
/// must be pending; when it needs human sign-off an approver must be
/// recorded and the executor must present that approver's credential; and
/// the tolerance must stay within twice the protocol default.
pub open spec fn execute_precheck(
    decision: RebalanceDecision,
    config: ProtocolConfig,
    slippage_tolerance_bps: u16,
    executor: Option<AccountId>,
) -> Option<XLiquidityEngineError> {
    if decision.execution_status != ExecutionStatus::Pending {
        Some(XLiquidityEngineError::InvalidState)
    } else if decision.requires_human_approval && decision.human_approver is None {
        Some(XLiquidityEngineError::ApprovalRequired)
    } else if decision.requires_human_approval && executor is None {
        Some(XLiquidityEngineError::ApprovalRequired)
    } else if decision.requires_human_approval && executor != decision.human_approver {
        Some(XLiquidityEngineError::UnauthorizedApprover)
    } else if slippage_tolerance_bps > 2 * config.default_slippage_tolerance_bps {
        Some(XLiquidityEngineError::SlippageBoundInvalid)
    } else {
        None
    }
}

/// The slippage the venue observed, where the coordinator is the one that
/// must enforce it: a swap was needed, no pre-built external swap reference
/// exists, and the venue reported a slippage figure.
pub open spec fn observed_slippage(
    decision: RebalanceDecision,
    swap_result: Option<JupiterSwapResult>,
    needed: bool,
) -> Option<u16> {
    if ({
        &&& needed
        &&& decision.jupiter_swap_transaction is None
        &&& swap_result matches Some(res) && res.actual_slippage_bps is Some
    }) {
        swap_result->Some_0.actual_slippage_bps
    } else {
        None
    }
}

/// The execution signature the decision ends up carrying: when a swap was
/// needed and ran through a pre-built external swap reference, a supplied
/// signature is recorded; otherwise the old value stays.
pub open spec fn recorded_signature(
    decision: RebalanceDecision,
    swap_execution_signature: Option<String>,
    needed: bool,
) -> Option<String> {
    if needed && decision.jupiter_swap_transaction is Some && swap_execution_signature is Some {
        swap_execution_signature
    } else {
        decision.execution_tx_signature
    }
}

/// The position after a committed rebalance: it adopts the decision's
/// range, stamps the slot and clock, and counts one more rebalance.
pub open spec fn committed_position(
    position: LiquidityPosition,
    decision: RebalanceDecision,
    now: i64,
    slot: u64,
) -> LiquidityPosition {
    LiquidityPosition {
        current_tick_lower: decision.new_tick_lower,
        current_tick_upper: decision.new_tick_upper,
        current_price_lower: decision.new_price_lower,
        current_price_upper: decision.new_price_upper,
        last_rebalance_slot: slot,
        last_rebalance_timestamp: now,
        rebalance_count: (position.rebalance_count + 1) as u32,
        updated_at: now,
        ..position
    }
}

/// The decision after a committed rebalance: terminal `Executed`, stamped
/// with the execution time, signature and slippage.
pub open spec fn executed_decision(
    decision: RebalanceDecision,
    now: i64,
    signature: Option<String>,
    slippage: Option<u16>,
) -> RebalanceDecision {
    RebalanceDecision {
        execution_status: ExecutionStatus::Executed,
        executed_at: Some(now),
        execution_tx_signature: signature,
        execution_slippage: slippage,
        ..decision
    }
}

/// The whole outcome of one execution attempt: the result, the position
/// after it, and the decision after it.
pub open spec fn execute_outcome(
    position: LiquidityPosition,
    decision: RebalanceDecision,
    config: ProtocolConfig,
    slippage_tolerance_bps: u16,
    executor: Option<AccountId>,
    swap_execution_signature: Option<String>,
    swap_result: Option<JupiterSwapResult>,
    now: i64,
    slot: u64,
) -> (Result<(), XLiquidityEngineError>, LiquidityPosition, RebalanceDecision) {
    let pre = execute_precheck(decision, config, slippage_tolerance_bps, executor);
    let needed = swap_needed(position, decision);
    let observed = observed_slippage(decision, swap_result, needed);
    let slippage_failed = observed matches Some(s) && s > slippage_tolerance_bps;
    if pre is Some {
        (Err(pre->Some_0), position, decision)
    } else if slippage_failed {
        (
            Err(XLiquidityEngineError::SlippageExceeded),
            position,
            RebalanceDecision { execution_slippage: observed, ..decision },
        )
    } else if position.rebalance_count == u32::MAX {
        (Err(XLiquidityEngineError::CounterOverflow), position, decision)
    } else {
        (
            Ok(()),
            committed_position(position, decision, now, slot),
            executed_decision(
                decision,
                now,
                recorded_signature(decision, swap_execution_signature, needed),
                if observed is Some {
                    observed
                } else {
                    decision.execution_slippage
                },
            ),
        )
    }
}

/// Execute a pending rebalance decision.
///
/// After the prechecks, the venue's observed swap result is held against
/// the caller's tolerance: more slippage than tolerated fails
/// `SlippageExceeded`, persisting the observed figure into the decision and
/// leaving it pending. A counter about to wrap fails `CounterOverflow` with
/// no mutation. Only when everything passes are the position and the
/// decision committed together, with a `Rebalanced` audit event; any
/// earlier failure mutates nothing (`SlippageExceeded` excepted, which
/// records only the observed slippage).
pub fn execute_rebalance(
    position: &mut LiquidityPosition,
    decision: &mut RebalanceDecision,
    config: &ProtocolConfig,
    slippage_tolerance_bps: u16,
    executor: Option<AccountId>,
    swap_execution_signature: Option<String>,
    swap_result: Option<JupiterSwapResult>,
    now: i64,
    slot: u64,
    audit: &mut AuditLog,
) -> (r: Result<(), XLiquidityEngineError>)
    requires
        config.wf(),
        old(position).wf(),
        old(decision).wf(),
        0 <= now,
        old(audit).wf(),
        old(audit).can_append_at(now),
        old(audit).events@.len() < u64::MAX,
    ensures
        final(audit).wf(),
        final(audit).can_append_at(now),
        ({
            let (rr, p1, d1) = execute_outcome(
                *old(position),
                *old(decision),
                *config,
                slippage_tolerance_bps,
                executor,
                swap_execution_signature,
                swap_result,
                now,
                slot,
            );
            r == rr && *final(position) == p1 && *final(decision) == d1
        }),
        r is Err ==> final(audit).events@ == old(audit).events@,
        ({
            let pre = execute_precheck(*old(decision), *config, slippage_tolerance_bps, executor);
            let needed = swap_needed(*old(position), *old(decision));
            let observed = observed_slippage(*old(decision), swap_result, needed);
            let slippage_failed = observed matches Some(s) && s > slippage_tolerance_bps;
            &&& (r is Ok <==> {
                &&& pre is None
                &&& !slippage_failed
                &&& old(position).rebalance_count < u32::MAX
            })
            &&& (pre matches Some(e) ==> {
                &&& r == Result::<(), XLiquidityEngineError>::Err(e)
                &&& *final(position) == *old(position)
                &&& *final(decision) == *old(decision)
                &&& *final(audit) == *old(audit)
            })
            &&& (pre is None && slippage_failed ==> {
                &&& r == Result::<(), XLiquidityEngineError>::Err(
                    XLiquidityEngineError::SlippageExceeded,
                )
                &&& *final(position) == *old(position)
                &&& *final(decision) == (RebalanceDecision {
                    execution_slippage: observed,
                    ..*old(decision)
                })
                &&& final(decision).execution_status == ExecutionStatus::Pending
                &&& *final(audit) == *old(audit)
            })
            &&& (pre is None && !slippage_failed && old(position).rebalance_count == u32::MAX
                ==> {
                &&& r == Result::<(), XLiquidityEngineError>::Err(
                    XLiquidityEngineError::CounterOverflow,
                )
                &&& *final(position) == *old(position)
                &&& *final(decision) == *old(decision)
                &&& *final(audit) == *old(audit)
            })
            &&& (r is Ok ==> {
                &&& *final(position) == committed_position(
                    *old(position),
                    *old(decision),
                    now,
                    slot,
                )
                &&& final(position).wf()
                &&& *final(decision) == executed_decision(
                    *old(decision),
                    now,
                    recorded_signature(*old(decision), swap_execution_signature, needed),
                    if observed is Some {
                        observed
                    } else {
                        old(decision).execution_slippage
                    },
                )
                &&& audit_appended(
                    *final(audit),
                    *old(audit),
                    AuditEventType::Rebalanced,
                    Some(old(decision).position),
                    old(position).owner,
                    crate::codec::rebalanced_payload(
                        old(decision).new_tick_lower,
                        old(decision).new_tick_upper,
                        old(decision).new_price_lower,
                        old(decision).new_price_upper,
                    ),
                    now,
                )
            })
        }),
{
    // Prechecks: status, approval, authorization, tolerance bound.
    if decision.execution_status != ExecutionStatus::Pending {
        return Err(XLiquidityEngineError::InvalidState);
    }
    if decision.requires_human_approval {
        match (&decision.human_approver, &executor) {
            (None, _) => {
                return Err(XLiquidityEngineError::ApprovalRequired);
            },
            (Some(_), None) => {
                return Err(XLiquidityEngineError::ApprovalRequired);
            },
            (Some(approver), Some(presented)) => {
                if *approver != *presented {
                    return Err(XLiquidityEngineError::UnauthorizedApprover);
                }
            },
        }
    }
    if slippage_tolerance_bps > 2 * config.default_slippage_tolerance_bps {
        return Err(XLiquidityEngineError::SlippageBoundInvalid);
    }

    // Swap phase: enforce the tolerance on what the venue observed, and
    // work out what the committed decision will record.
    let needed = calculate_swap_requirements(position, decision);
    let mut recorded_slippage: Option<u16> = decision.execution_slippage;
    let mut recorded_sig: Option<String> = None;
    let mut record_new_sig = false;
    if needed {
        if decision.jupiter_swap_transaction.is_some() {
            match &swap_execution_signature {
                Some(_) => {
                    recorded_sig = swap_execution_signature;
                    record_new_sig = true;
                },
                None => {},
            }
        } else {
            match &swap_result {
                Some(res) => {
                    match res.actual_slippage_bps {
                        Some(s) => {
                            recorded_slippage = Some(s);
                            if s > slippage_tolerance_bps {
                                decision.execution_slippage = Some(s);
                                return Err(XLiquidityEngineError::SlippageExceeded);
                            }
                        },
                        None => {},
                    }
                },
                None => {},
            }
        }
    }

    // Commit: everything checked, so mutate both records together.
    if position.rebalance_count == u32::MAX {
        return Err(XLiquidityEngineError::CounterOverflow);
    }

    position.current_tick_lower = decision.new_tick_lower;
    position.current_tick_upper = decision.new_tick_upper;
    position.current_price_lower = decision.new_price_lower;
    position.current_price_upper = decision.new_price_upper;
    position.last_rebalance_slot = slot;
    position.last_rebalance_timestamp = now;
    position.rebalance_count = position.rebalance_count + 1;
    position.updated_at = now;

    decision.execution_status = ExecutionStatus::Executed;
    decision.executed_at = Some(now);
    if record_new_sig {
        decision.execution_tx_signature = recorded_sig;
    }
    decision.execution_slippage = recorded_slippage;

    let payload = crate::codec::rebalanced_bytes(
        decision.new_tick_lower,
        decision.new_tick_upper,
        decision.new_price_lower,
        decision.new_price_upper,
    );
    audit.append(AuditEventType::Rebalanced, Some(decision.position), position.owner, payload, now);

    Ok(())
}

/// An approved, authorized execution offered at a tolerance of twice the
/// protocol default, where the venue ran the swap and reported one basis
/// point more than tolerated, fails `SlippageExceeded`: the position is
/// untouched and the decision stays pending with the observed slippage
/// persisted. The coordinator consults a venue figure only on the path
/// that actually invokes the venue — a swap must be needed and the
/// decision must carry no pre-built external swap reference; on any other
/// path the figure is ignored, so those inputs are excluded here.
pub proof fn lemma_excess_venue_slippage_rejected(
    position: LiquidityPosition,
    decision: RebalanceDecision,
    config: ProtocolConfig,
    approver: AccountId,
    slippage_tolerance_bps: u16,
    swap_execution_signature: Option<String>,
    swap_result: JupiterSwapResult,
    now: i64,
    slot: u64,
)
    requires
        config.wf(),
        decision.execution_status == ExecutionStatus::Pending,
        decision.human_approver == Some(approver),
        slippage_tolerance_bps == 2 * config.default_slippage_tolerance_bps,
        swap_needed(position, decision),
        decision.jupiter_swap_transaction is None,
        swap_result.actual_slippage_bps matches Some(s) && s == slippage_tolerance_bps + 1,
    ensures
        ({
            let (rr, p1, d1) = execute_outcome(
                position,
                decision,
                config,
                slippage_tolerance_bps,
                Some(approver),
                swap_execution_signature,
                Some(swap_result),
                now,
                slot,
            );
            &&& rr == Result::<(), XLiquidityEngineError>::Err(
                XLiquidityEngineError::SlippageExceeded,
            )
            &&& p1 == position
            &&& d1.execution_status == ExecutionStatus::Pending
            &&& d1.execution_slippage == swap_result.actual_slippage_bps
            &&& d1 == (RebalanceDecision {
                execution_slippage: swap_result.actual_slippage_bps,
                ..decision
            })
        }),
{
}

/// The rate limit measures from the last executed rebalance: once a
/// rebalance commits at one clock reading, a proposal within the position's
/// minimum interval of that reading is rejected as rate-limited.
pub proof fn lemma_rate_limit_follows_commit(
    position: LiquidityPosition,
    decision: RebalanceDecision,
    now: i64,
    slot: u64,
    now2: i64,
    tick_lower2: i32,
    tick_upper2: i32,
    price_lower2: u128,
    price_upper2: u128,
)
    requires
        position.status == crate::position::PositionStatus::Active,
        now <= now2,
        now2 - now < position.min_rebalance_interval,
    ensures
        crate::decision::propose_check(
            committed_position(position, decision, now, slot),
            tick_lower2,
            tick_upper2,
            price_lower2,
            price_upper2,
            now2,
        ) == Some(XLiquidityEngineError::RateLimited),
{
}

/// Exactly one of two executions of the same pending decision can commit:
/// once one has committed, the decision is terminal `Executed`, so the
/// other fails `InvalidState` before mutating anything, and the rebalance
/// counter has increased by exactly one.
pub proof fn lemma_exactly_one_execution(
    position: LiquidityPosition,
    decision: RebalanceDecision,
    config: ProtocolConfig,
    slippage_tolerance_bps: u16,
    executor: Option<AccountId>,
    signature: Option<String>,
    slippage: Option<u16>,
    now: i64,
    slot: u64,
    tolerance2: u16,
    executor2: Option<AccountId>,
)
    requires
        position.rebalance_count < u32::MAX,
    ensures
        executed_decision(decision, now, signature, slippage).execution_status
            != ExecutionStatus::Pending,
        execute_precheck(
            executed_decision(decision, now, signature, slippage),
            config,
            tolerance2,
            executor2,
        ) == Some(XLiquidityEngineError::InvalidState),
        committed_position(position, decision, now, slot).rebalance_count
            == position.rebalance_count + 1,
{
}

} // verus!
