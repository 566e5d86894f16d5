//! The in-memory record store of the engine: positions and decisions under
//! their keys, the shared configuration, and the audit ledger, kept
//! consistent as one state so that ledger-wide guarantees can be stated
//! and proved of it.

use vstd::prelude::*;
use crate::audit::{AuditEventType, AuditLog};
use crate::config::ProtocolConfig;
use crate::decision::RebalanceDecision;
use crate::errors::XLiquidityEngineError;
use crate::execute::JupiterSwapResult;
use crate::ids::{AccountId, PositionKey};
use crate::position::LiquidityPosition;

verus! {

/// A stored position under its per-owner index.
pub struct PositionRecord {
    pub index: u8,
    pub position: LiquidityPosition,
}

/// A stored decision under its per-position index.
pub struct DecisionRecord {
    pub index: u32,
    pub decision: RebalanceDecision,
}

/// The persistence key of a stored position.
pub open spec fn record_key(rec: PositionRecord) -> PositionKey {
    PositionKey { owner: rec.position.owner, index: rec.index }
}

/// A stored position with the given key sits at offset `k`.
pub open spec fn position_at(reg: Registry, k: int, key: PositionKey) -> bool {
    0 <= k < reg.positions@.len() && record_key(reg.positions@[k]) == key
}

/// A stored decision with the given key sits at offset `j`.
pub open spec fn decision_at(reg: Registry, j: int, key: PositionKey, index: u32) -> bool {
    0 <= j < reg.decisions@.len() && reg.decisions@[j].decision.position == key
        && reg.decisions@[j].index == index
}

/// The whole state of the engine: configuration, records and ledger.
pub struct Registry {
    pub config: ProtocolConfig,
    pub positions: Vec<PositionRecord>,
    pub decisions: Vec<DecisionRecord>,
    pub audit: AuditLog,
    /// Ledger offset of each stored position's creation event.
    pub created: Ghost<Seq<int>>,
}

impl Registry {
    /// The registry invariant. Beyond well-formedness of the parts, it ties
    /// the ledger to the records: every stored position has exactly one
    /// `PositionCreated` event, keys are unique, every `PositionCreated`
    /// event belongs to a stored position, and every `Rebalanced` event
    /// refers to a stored position and comes after its creation event.
    pub open spec fn inv(self) -> bool {
        &&& self.config.wf()
        &&& self.audit.wf()
        &&& self.created@.len() == self.positions@.len()
        &&& forall|k: int|
            0 <= k < self.positions@.len() ==> (#[trigger] self.positions@[k]).position.wf()
        &&& forall|k: int|
            0 <= k < self.positions@.len() ==> {
                &&& 0 <= #[trigger] self.created@[k] < self.audit.events@.len()
                &&& self.audit.events@[self.created@[k]].event_type
                    == AuditEventType::PositionCreated
                &&& self.audit.events@[self.created@[k]].position_ref == Some(
                    record_key(self.positions@[k]),
                )
            }
        &&& forall|k1: int, k2: int|
            0 <= k1 < k2 < self.positions@.len() ==> record_key(#[trigger] self.positions@[k1])
                != record_key(#[trigger] self.positions@[k2])
        &&& forall|i: int|
            0 <= i < self.audit.events@.len() && (#[trigger] self.audit.events@[i]).event_type
                == AuditEventType::PositionCreated ==> exists|k: int|
                0 <= k < self.positions@.len() && #[trigger] self.created@[k] == i
        &&& forall|i: int|
            0 <= i < self.audit.events@.len() && (#[trigger] self.audit.events@[i]).event_type
                == AuditEventType::Rebalanced ==> exists|k: int|
                {
                    &&& 0 <= k < self.positions@.len()
                    &&& Some(record_key(#[trigger] self.positions@[k]))
                        == self.audit.events@[i].position_ref
                    &&& self.created@[k] < i
                }
        &&& forall|j: int|
            0 <= j < self.decisions@.len() ==> (#[trigger] self.decisions@[j]).decision.wf()
        &&& forall|j1: int, j2: int|
            0 <= j1 < j2 < self.decisions@.len() ==> !((#[trigger] self.decisions@[j1]).decision.position
                == (#[trigger] self.decisions@[j2]).decision.position && self.decisions@[j1].index
                == self.decisions@[j2].index)
    }

    /// A clock reading the registry can still record events at.
    pub open spec fn clock_ok(self, now: i64) -> bool {
        &&& 0 <= now
        &&& self.audit.can_append_at(now)
        &&& self.audit.events@.len() < u64::MAX
    }

    /// An empty registry under a configuration.
    pub fn new(config: ProtocolConfig) -> (r: Registry)
        requires
            config.wf(),
        ensures
            r.inv(),
            r.config == config,
            r.positions@.len() == 0,
            r.decisions@.len() == 0,
            r.audit.events@.len() == 0,
    {
        Registry {
            config,
            positions: Vec::new(),
            decisions: Vec::new(),
            audit: AuditLog::new(),
            created: Ghost(Seq::empty()),
        }
    }

    /// Find the stored position with the given key.
    pub fn find_position(&self, key: PositionKey) -> (r: Option<usize>)
        ensures
            match r {
                Some(k) => k < self.positions@.len() && record_key(self.positions@[k as int])
                    == key,
                None => forall|k: int|
                    0 <= k < self.positions@.len() ==> record_key(#[trigger] self.positions@[k])
                        != key,
            },
    {
        let mut k: usize = 0;
        while k < self.positions.len()
            invariant
                k <= self.positions@.len(),
                forall|j: int|
                    0 <= j < k ==> record_key(#[trigger] self.positions@[j]) != key,
            decreases self.positions@.len() - k,
        {
            let rec = &self.positions[k];
            if rec.position.owner == key.owner && rec.index == key.index {
                return Some(k);
            }
            k = k + 1;
        }
        None
    }

    /// Find the stored decision with the given position key and index.
    pub fn find_decision(&self, position_key: PositionKey, index: u32) -> (r: Option<usize>)
        ensures
            match r {
                Some(j) => j < self.decisions@.len() && self.decisions@[j as int].decision.position
                    == position_key && self.decisions@[j as int].index == index,
                None => forall|j: int|
                    0 <= j < self.decisions@.len() ==> !((#[trigger] self.decisions@[j]).decision.position
                        == position_key && self.decisions@[j].index == index),
            },
    {
        let mut j: usize = 0;
        while j < self.decisions.len()
            invariant
                j <= self.decisions@.len(),
                forall|i: int|
                    0 <= i < j ==> !((#[trigger] self.decisions@[i]).decision.position
                        == position_key && self.decisions@[i].index == index),
            decreases self.decisions@.len() - j,
        {
            let rec = &self.decisions[j];
            if rec.decision.position.owner == position_key.owner && rec.decision.position.index
                == position_key.index && rec.index == index {
                return Some(j);
            }
            j = j + 1;
        }
        None
    }

    /// Create a position under `(owner, position_index)`. A key already in
    /// use fails `InvalidState`; otherwise the request is validated and
    /// recorded as `create_liquidity_position` states: it succeeds exactly
    /// on a fresh key, ordered ranges and caps within the protocol's, and
    /// the new record is stored under its key with a `PositionCreated`
    /// event; any failure mutates nothing.
    pub fn create_position(
        &mut self,
        owner: AccountId,
        position_index: u8,
        token_a: AccountId,
        token_b: AccountId,
        token_a_vault: AccountId,
        token_b_vault: AccountId,
        pool_address: AccountId,
        tick_lower: i32,
        tick_upper: i32,
        price_lower: u128,
        price_upper: u128,
        max_position_size: u64,
        max_single_trade: u64,
        now: i64,
    ) -> (r: Result<(), XLiquidityEngineError>)
        requires
            old(self).inv(),
            old(self).clock_ok(now),
        ensures
            final(self).inv(),
            final(self).config == old(self).config,
            final(self).decisions@ == old(self).decisions@,
            r is Err ==> *final(self) == *old(self),
            ({
                let key = PositionKey { owner, index: position_index };
                let check = crate::position::create_check(
                    tick_lower,
                    tick_upper,
                    price_lower,
                    price_upper,
                    max_position_size,
                    max_single_trade,
                    old(self).config,
                );
                if exists|k: int| position_at(*old(self), k, key) {
                    r == Result::<(), XLiquidityEngineError>::Err(
                        XLiquidityEngineError::InvalidState,
                    )
                } else {
                    match check {
                        Some(e) => r == Result::<(), XLiquidityEngineError>::Err(e),
                        None => {
                            let rec = final(self).positions@.last();
                            let p = rec.position;
                            &&& r is Ok
                            &&& final(self).positions@.len() == old(self).positions@.len() + 1
                            &&& forall|k: int|
                                0 <= k < old(self).positions@.len() ==> (#[trigger] final(self).positions@[k]) == old(self).positions@[k]
                            &&& rec.index == position_index
                            &&& p.wf()
                            &&& p.owner == owner
                            &&& p.token_a == token_a
                            &&& p.token_b == token_b
                            &&& p.token_a_vault == token_a_vault
                            &&& p.token_b_vault == token_b_vault
                            &&& p.dex == crate::position::DexType::Raydium
                            &&& p.pool_address == pool_address
                            &&& p.position_nft is None
                            &&& p.current_tick_lower == tick_lower
                            &&& p.current_tick_upper == tick_upper
                            &&& p.current_price_lower == price_lower
                            &&& p.current_price_upper == price_upper
                            &&& p.liquidity_amount == 0
                            &&& p.total_fees_earned_a == 0
                            &&& p.total_fees_earned_b == 0
                            &&& p.total_value_locked == 0
                            &&& p.last_rebalance_slot == 0
                            &&& p.last_rebalance_timestamp == 0
                            &&& p.rebalance_count == 0
                            &&& p.total_return_percentage == 0
                            &&& p.apy_estimate == 0
                            &&& p.status == crate::position::PositionStatus::Active
                            &&& p.auto_rebalance_enabled == true
                            &&& p.min_rebalance_interval == old(self).config.min_rebalance_interval
                            &&& p.max_position_size == max_position_size
                            &&& p.max_single_trade == max_single_trade
                            &&& p.allowed_dex_programs@ == seq![pool_address]
                            &&& p.created_at == now
                            &&& p.updated_at == now
                            &&& crate::audit::audit_appended(
                                final(self).audit,
                                old(self).audit,
                                AuditEventType::PositionCreated,
                                Some(key),
                                owner,
                                Seq::<u8>::empty(),
                                now,
                            )
                        },
                    }
                }
            }),
    {
        let key = PositionKey { owner, index: position_index };
        match self.find_position(key) {
            Some(kdup) => {
                proof {
                    assert(position_at(*old(self), kdup as int, key));
                }
                return Err(XLiquidityEngineError::InvalidState);
            },
            None => {},
        }
        proof {
            assert forall|k0: int| !position_at(*old(self), k0, key) by {
                if 0 <= k0 < old(self).positions@.len() {
                    assert(record_key(old(self).positions@[k0]) != key);
                }
            }
        }
        let ghost pre_events = self.audit.events@;
        let created_position = match crate::position::create_liquidity_position(
            owner,
            position_index,
            token_a,
            token_b,
            token_a_vault,
            token_b_vault,
            pool_address,
            tick_lower,
            tick_upper,
            price_lower,
            price_upper,
            max_position_size,
            max_single_trade,
            &self.config,
            now,
            &mut self.audit,
        ) {
            Ok(p) => p,
            Err(e) => {
                return Err(e);
            },
        };
        let ghost creation_offset = pre_events.len() as int;
        self.positions.push(PositionRecord { index: position_index, position: created_position });
        proof {
            self.created@ = self.created@.push(creation_offset);
        }
        proof {
            let pre = *old(self);
            let post = *self;
            assert forall|i: int|
                0 <= i < post.audit.events@.len() && (#[trigger] post.audit.events@[i]).event_type
                    == AuditEventType::PositionCreated implies exists|k: int|
                0 <= k < post.positions@.len() && #[trigger] post.created@[k] == i by {
                if i < pre.audit.events@.len() {
                    assert(post.audit.events@[i] == pre.audit.events@[i]);
                    let k = choose|k: int|
                        0 <= k < pre.positions@.len() && #[trigger] pre.created@[k] == i;
                    assert(post.created@[k] == i);
                } else {
                    assert(post.created@[post.positions@.len() - 1] == i);
                }
            }
            assert forall|i: int|
                0 <= i < post.audit.events@.len() && (#[trigger] post.audit.events@[i]).event_type
                    == AuditEventType::Rebalanced implies exists|k: int|
                {
                    &&& 0 <= k < post.positions@.len()
                    &&& Some(record_key(#[trigger] post.positions@[k]))
                        == post.audit.events@[i].position_ref
                    &&& post.created@[k] < i
                } by {
                assert(i < pre.audit.events@.len());
                assert(post.audit.events@[i] == pre.audit.events@[i]);
                let k = choose|k: int|
                    {
                        &&& 0 <= k < pre.positions@.len()
                        &&& Some(record_key(#[trigger] pre.positions@[k]))
                            == pre.audit.events@[i].position_ref
                        &&& pre.created@[k] < i
                    };
                assert(post.positions@[k] == pre.positions@[k]);
                assert(post.created@[k] == pre.created@[k]);
            }
        }
        Ok(())
    }


    /// Propose a rebalance for the stored position with the given key,
    /// storing the decision under `(position_key, decision_index)`. A
    /// missing position or a decision index already in use fails
    /// `InvalidState`; otherwise the proposal is validated, classified and
    /// recorded as `create_rebalance_decision` states.
    pub fn propose(
        &mut self,
        position_key: PositionKey,
        decision_index: u32,
        new_tick_lower: i32,
        new_tick_upper: i32,
        new_price_lower: u128,
        new_price_upper: u128,
        ai_model_version: String,
        ai_model_hash: [u8; 32],
        prediction_confidence: u16,
        market_sentiment_score: i16,
        volatility_metric: u16,
        whale_activity_score: u16,
        decision_reason: String,
        jupiter_swap_transaction: Option<String>,
        expected_output_amount: Option<u64>,
        now: i64,
    ) -> (r: Result<(), XLiquidityEngineError>)
        requires
            old(self).inv(),
            old(self).clock_ok(now),
        ensures
            final(self).inv(),
            final(self).config == old(self).config,
            final(self).positions@ == old(self).positions@,
            ({
                if exists|k: int| position_at(*old(self), k, position_key) {
                    let k = choose|k: int| position_at(*old(self), k, position_key);
                    if exists|j: int| decision_at(*old(self), j, position_key, decision_index) {
                        &&& r == Result::<(), XLiquidityEngineError>::Err(
                            XLiquidityEngineError::InvalidState,
                        )
                        &&& final(self).decisions@ == old(self).decisions@
                        &&& final(self).audit.events@ == old(self).audit.events@
                    } else {
                        let p = old(self).positions@[k].position;
                        match crate::decision::propose_check(
                            p,
                            new_tick_lower,
                            new_tick_upper,
                            new_price_lower,
                            new_price_upper,
                            now,
                        ) {
                            Some(e) => {
                                &&& r == Result::<(), XLiquidityEngineError>::Err(e)
                                &&& final(self).decisions@ == old(self).decisions@
                                &&& final(self).audit.events@ == old(self).audit.events@
                            },
                            None => {
                                let d = final(self).decisions@.last().decision;
                                &&& r is Ok
                                &&& final(self).decisions@.len() == old(self).decisions@.len() + 1
                                &&& forall|j: int|
                                    0 <= j < old(self).decisions@.len() ==> (#[trigger] final(self).decisions@[j]) == old(self).decisions@[j]

                                &&& final(self).decisions@.last().index == decision_index
                                &&& d.position == position_key
                                &&& d.new_tick_lower == new_tick_lower
                                &&& d.new_tick_upper == new_tick_upper
                                &&& d.new_price_lower == new_price_lower
                                &&& d.new_price_upper == new_price_upper
                                &&& d.risk_assessment == crate::risk::classify(
                                    prediction_confidence,
                                    market_sentiment_score,
                                    volatility_metric,
                                )
                                &&& d.execution_status
                                    == crate::decision::ExecutionStatus::Pending
                                &&& d.requires_human_approval == crate::decision::needs_approval(
                                    d.risk_assessment,
                                    p.total_value_locked,
                                    old(self).config,
                                )
                                &&& d.human_approver is None
                                &&& d.created_at == now
                                &&& d.ai_model_version == ai_model_version
                                &&& d.ai_model_hash == ai_model_hash
                                &&& d.prediction_confidence == prediction_confidence
                                &&& d.market_sentiment_score == market_sentiment_score
                                &&& d.volatility_metric == volatility_metric
                                &&& d.whale_activity_score == whale_activity_score
                                &&& d.on_chain_indicators@ == Seq::<u64>::empty()
                                &&& d.decision_reason == decision_reason
                                &&& d.jupiter_swap_transaction == jupiter_swap_transaction
                                &&& d.expected_output_amount == expected_output_amount
                                &&& d.execution_tx_signature is None
                                &&& d.execution_slippage is None
                                &&& d.approval_timestamp is None
                                &&& d.executed_at is None
                                &&& crate::audit::audit_appended(
                                    final(self).audit,
                                    old(self).audit,
                                    AuditEventType::DecisionProposed,
                                    Some(position_key),
                                    p.owner,
                                    Seq::<u8>::empty(),
                                    now,
                                )
                            },
                        }
                    }
                } else {
                    &&& r == Result::<(), XLiquidityEngineError>::Err(
                        XLiquidityEngineError::InvalidState,
                    )
                    &&& final(self).decisions@ == old(self).decisions@
                    &&& final(self).audit.events@ == old(self).audit.events@
                }
            }),
    {
        let k = match self.find_position(position_key) {
            Some(k) => k,
            None => {
                proof {
                    assert forall|k0: int| !position_at(*old(self), k0, position_key) by {
                        if 0 <= k0 < old(self).positions@.len() {
                            assert(record_key(old(self).positions@[k0]) != position_key);
                        }
                    }
                }
                return Err(XLiquidityEngineError::InvalidState);
            },
        };
        proof {
            assert(position_at(*old(self), k as int, position_key));
            lemma_position_at_unique(
                *old(self),
                k as int,
                choose|k0: int| position_at(*old(self), k0, position_key),
                position_key,
            );
        }
        match self.find_decision(position_key, decision_index) {
            Some(jdup) => {
                proof {
                    assert(decision_at(*old(self), jdup as int, position_key, decision_index));
                }
                return Err(XLiquidityEngineError::InvalidState);
            },
            None => {},
        }
        proof {
            assert forall|j0: int| !decision_at(*old(self), j0, position_key, decision_index) by {
                if 0 <= j0 < old(self).decisions@.len() {
                    assert(!(old(self).decisions@[j0].decision.position == position_key && old(
                        self,
                    ).decisions@[j0].index == decision_index));
                }
            }
        }
        let decision = match crate::decision::create_rebalance_decision(
            &self.positions[k].position,
            position_key,
            decision_index,
            new_tick_lower,
            new_tick_upper,
            new_price_lower,
            new_price_upper,
            ai_model_version,
            ai_model_hash,
            prediction_confidence,
            market_sentiment_score,
            volatility_metric,
            whale_activity_score,
            decision_reason,
            jupiter_swap_transaction,
            expected_output_amount,
            &self.config,
            now,
            &mut self.audit,
        ) {
            Ok(d) => d,
            Err(e) => {
                return Err(e);
            },
        };
        let ghost new_decision = decision;
        self.decisions.push(DecisionRecord { index: decision_index, decision });
        proof {
            let pre = *old(self);
            let post = *self;
            assert forall|j1: int, j2: int| 0 <= j1 < j2 < post.decisions@.len() implies !((
            #[trigger] post.decisions@[j1]).decision.position == (
            #[trigger] post.decisions@[j2]).decision.position && post.decisions@[j1].index
                == post.decisions@[j2].index) by {
                if j2 < pre.decisions@.len() {
                    assert(post.decisions@[j1] == pre.decisions@[j1]);
                    assert(post.decisions@[j2] == pre.decisions@[j2]);
                } else {
                    assert(post.decisions@[j1] == pre.decisions@[j1]);
                    assert(post.decisions@[j2].decision.position == position_key
                        && post.decisions@[j2].index == decision_index);
                    assert(!(pre.decisions@[j1].decision.position == position_key
                        && pre.decisions@[j1].index == decision_index));
                }
            }
            lemma_inv_preserved_after_other_append(pre, post);
        }
        Ok(())
    }

    /// Record human sign-off on the stored decision with the given key. A
    /// missing decision fails `InvalidState`; otherwise the sign-off is
    /// gated and recorded as `approve_rebalance` states.
    pub fn approve(
        &mut self,
        position_key: PositionKey,
        decision_index: u32,
        approver: AccountId,
        now: i64,
    ) -> (r: Result<(), XLiquidityEngineError>)
        requires
            old(self).inv(),
            old(self).clock_ok(now),
        ensures
            final(self).inv(),
            final(self).config == old(self).config,
            final(self).positions@ == old(self).positions@,
            ({
                if exists|j: int| decision_at(*old(self), j, position_key, decision_index) {
                    let j = choose|j: int| decision_at(*old(self), j, position_key, decision_index);
                    let d0 = old(self).decisions@[j].decision;
                    match crate::decision::approve_check(d0) {
                        Some(e) => {
                            &&& r == Result::<(), XLiquidityEngineError>::Err(e)
                            &&& final(self).decisions@ == old(self).decisions@
                            &&& final(self).audit.events@ == old(self).audit.events@
                        },
                        None => {
                            &&& r is Ok
                            &&& final(self).decisions@ == old(self).decisions@.update(
                                j,
                                DecisionRecord {
                                    index: decision_index,
                                    decision: crate::decision::approved_decision(
                                        d0,
                                        approver,
                                        now,
                                    ),
                                },
                            )
                            &&& crate::audit::audit_appended(
                                final(self).audit,
                                old(self).audit,
                                AuditEventType::HumanApprovalGranted,
                                Some(position_key),
                                approver,
                                Seq::<u8>::empty(),
                                now,
                            )
                        },
                    }
                } else {
                    &&& r == Result::<(), XLiquidityEngineError>::Err(
                        XLiquidityEngineError::InvalidState,
                    )
                    &&& final(self).decisions@ == old(self).decisions@
                    &&& final(self).audit.events@ == old(self).audit.events@
                }
            }),
    {
        let j = match self.find_decision(position_key, decision_index) {
            Some(j) => j,
            None => {
                proof {
                    assert forall|j0: int| !decision_at(
                        *old(self),
                        j0,
                        position_key,
                        decision_index,
                    ) by {
                        if 0 <= j0 < old(self).decisions@.len() {
                            assert(!(old(self).decisions@[j0].decision.position == position_key
                                && old(self).decisions@[j0].index == decision_index));
                        }
                    }
                }
                return Err(XLiquidityEngineError::InvalidState);
            },
        };
        proof {
            assert(decision_at(*old(self), j as int, position_key, decision_index));
            lemma_decision_at_unique(
                *old(self),
                j as int,
                choose|j0: int| decision_at(*old(self), j0, position_key, decision_index),
                position_key,
                decision_index,
            );
        }
        let mut rec = self.decisions.remove(j);
        let r = crate::decision::approve_rebalance(&mut rec.decision, approver, now, &mut self.audit);
        let ghost rec1 = rec;
        self.decisions.insert(j, rec);
        proof {
            let pre = *old(self);
            lemma_remove_insert_is_update(pre.decisions@, j as int, rec1);
            assert(self.decisions@ == pre.decisions@.update(j as int, rec1));
        }
        match r {
            Ok(()) => {
                proof {
                    let pre = *old(self);
                    let post = *self;
                    assert(rec1 == (DecisionRecord {
                        index: decision_index,
                        decision: crate::decision::approved_decision(
                            pre.decisions@[j as int].decision,
                            approver,
                            now,
                        ),
                    }));
                    assert forall|j1: int, j2: int| 0 <= j1 < j2 < post.decisions@.len() implies !((
                    #[trigger] post.decisions@[j1]).decision.position == (
                    #[trigger] post.decisions@[j2]).decision.position && post.decisions@[j1].index
                        == post.decisions@[j2].index) by {
                        assert(post.decisions@[j1].decision.position
                            == pre.decisions@[j1].decision.position && post.decisions@[j1].index
                            == pre.decisions@[j1].index);
                        assert(post.decisions@[j2].decision.position
                            == pre.decisions@[j2].decision.position && post.decisions@[j2].index
                            == pre.decisions@[j2].index);
                    }
                    assert forall|j1: int| 0 <= j1 < post.decisions@.len() implies (
                    #[trigger] post.decisions@[j1]).decision.wf() by {
                        if j1 != j as int {
                            assert(post.decisions@[j1] == pre.decisions@[j1]);
                        }
                    }
                    lemma_inv_preserved_after_other_append(pre, post);
                }
                Ok(())
            },
            Err(e) => {
                proof {
                    let pre = *old(self);
                    assert(rec1 == pre.decisions@[j as int]);
                    assert(self.decisions@ =~= pre.decisions@);
                }
                Err(e)
            },
        }
    }

    /// Execute the stored decision with the given key against its stored
    /// position. A missing decision or position fails `InvalidState`;
    /// otherwise the attempt runs as `execute_rebalance` states, and on
    /// success both records are committed together with their `Rebalanced`
    /// audit event.
    pub fn execute(
        &mut self,
        position_key: PositionKey,
        decision_index: u32,
        slippage_tolerance_bps: u16,
        executor: Option<AccountId>,
        swap_execution_signature: Option<String>,
        swap_result: Option<JupiterSwapResult>,
        now: i64,
        slot: u64,
    ) -> (r: Result<(), XLiquidityEngineError>)
        requires
            old(self).inv(),
            old(self).clock_ok(now),
        ensures
            final(self).inv(),
            final(self).config == old(self).config,
            ({
                if exists|j: int| decision_at(*old(self), j, position_key, decision_index) {
                    let j = choose|j: int| decision_at(*old(self), j, position_key, decision_index);
                    if exists|k: int| position_at(*old(self), k, position_key) {
                        let k = choose|k: int| position_at(*old(self), k, position_key);
                        let d0 = old(self).decisions@[j].decision;
                        let p0 = old(self).positions@[k].position;
                        let (rr, p1, d1) = crate::execute::execute_outcome(
                            p0,
                            d0,
                            old(self).config,
                            slippage_tolerance_bps,
                            executor,
                            swap_execution_signature,
                            swap_result,
                            now,
                            slot,
                        );
                        &&& r == rr
                        &&& final(self).positions@ == old(self).positions@.update(
                            k,
                            PositionRecord {
                                index: old(self).positions@[k].index,
                                position: p1,
                            },
                        )
                        &&& final(self).decisions@ == old(self).decisions@.update(
                            j,
                            DecisionRecord { index: decision_index, decision: d1 },
                        )
                        &&& (r is Ok ==> crate::audit::audit_appended(
                            final(self).audit,
                            old(self).audit,
                            AuditEventType::Rebalanced,
                            Some(position_key),
                            p0.owner,
                            crate::codec::rebalanced_payload(
                                d0.new_tick_lower,
                                d0.new_tick_upper,
                                d0.new_price_lower,
                                d0.new_price_upper,
                            ),
                            now,
                        ))
                        &&& (r is Err ==> final(self).audit.events@ == old(self).audit.events@)
                    } else {
                        &&& r == Result::<(), XLiquidityEngineError>::Err(
                            XLiquidityEngineError::InvalidState,
                        )
                        &&& final(self).positions@ == old(self).positions@
                        &&& final(self).decisions@ == old(self).decisions@
                        &&& final(self).audit.events@ == old(self).audit.events@
                    }
                } else {
                    &&& r == Result::<(), XLiquidityEngineError>::Err(
                        XLiquidityEngineError::InvalidState,
                    )
                    &&& final(self).positions@ == old(self).positions@
                    &&& final(self).decisions@ == old(self).decisions@
                    &&& final(self).audit.events@ == old(self).audit.events@
                }
            }),
    {
        let j = match self.find_decision(position_key, decision_index) {
            Some(j) => j,
            None => {
                proof {
                    assert forall|j0: int| !decision_at(
                        *old(self),
                        j0,
                        position_key,
                        decision_index,
                    ) by {
                        if 0 <= j0 < old(self).decisions@.len() {
                            assert(!(old(self).decisions@[j0].decision.position == position_key
                                && old(self).decisions@[j0].index == decision_index));
                        }
                    }
                }
                return Err(XLiquidityEngineError::InvalidState);
            },
        };
        proof {
            assert(decision_at(*old(self), j as int, position_key, decision_index));
            lemma_decision_at_unique(
                *old(self),
                j as int,
                choose|j0: int| decision_at(*old(self), j0, position_key, decision_index),
                position_key,
                decision_index,
            );
        }
        let k = match self.find_position(position_key) {
            Some(k) => k,
            None => {
                proof {
                    assert forall|k0: int| !position_at(*old(self), k0, position_key) by {
                        if 0 <= k0 < old(self).positions@.len() {
                            assert(record_key(old(self).positions@[k0]) != position_key);
                        }
                    }
                }
                return Err(XLiquidityEngineError::InvalidState);
            },
        };
        proof {
            assert(position_at(*old(self), k as int, position_key));
            lemma_position_at_unique(
                *old(self),
                k as int,
                choose|k0: int| position_at(*old(self), k0, position_key),
                position_key,
            );
        }
        let mut drec = self.decisions.remove(j);
        let mut prec = self.positions.remove(k);
        let r = crate::execute::execute_rebalance(
            &mut prec.position,
            &mut drec.decision,
            &self.config,
            slippage_tolerance_bps,
            executor,
            swap_execution_signature,
            swap_result,
            now,
            slot,
            &mut self.audit,
        );
        let ghost prec1 = prec;
        let ghost drec1 = drec;
        self.positions.insert(k, prec);
        self.decisions.insert(j, drec);
        proof {
            let pre = *old(self);
            let post = *self;
            let p0 = pre.positions@[k as int].position;
            let d0 = pre.decisions@[j as int].decision;
            let outcome = crate::execute::execute_outcome(
                p0,
                d0,
                pre.config,
                slippage_tolerance_bps,
                executor,
                swap_execution_signature,
                swap_result,
                now,
                slot,
            );
            lemma_remove_insert_is_update(pre.positions@, k as int, prec1);
            lemma_remove_insert_is_update(pre.decisions@, j as int, drec1);
            assert(post.positions@ == pre.positions@.update(k as int, prec1));
            assert(post.decisions@ == pre.decisions@.update(j as int, drec1));
            assert(prec1 == (PositionRecord {
                index: pre.positions@[k as int].index,
                position: outcome.1,
            }));
            assert(drec1 == (DecisionRecord { index: decision_index, decision: outcome.2 }));
            assert(pre.decisions@[j as int].decision.wf());
            assert(drec1.decision.wf());
            assert forall|j1: int, j2: int| 0 <= j1 < j2 < post.decisions@.len() implies !((
            #[trigger] post.decisions@[j1]).decision.position == (
            #[trigger] post.decisions@[j2]).decision.position && post.decisions@[j1].index
                == post.decisions@[j2].index) by {
                assert(post.decisions@[j1].decision.position
                    == pre.decisions@[j1].decision.position && post.decisions@[j1].index
                    == pre.decisions@[j1].index);
                assert(post.decisions@[j2].decision.position
                    == pre.decisions@[j2].decision.position && post.decisions@[j2].index
                    == pre.decisions@[j2].index);
            }
            assert forall|j1: int| 0 <= j1 < post.decisions@.len() implies (
            #[trigger] post.decisions@[j1]).decision.wf() by {
                if j1 != j as int {
                    assert(post.decisions@[j1] == pre.decisions@[j1]);
                } else {
                    assert(post.decisions@[j1].decision == drec1.decision);
                }
            }
            if r is Ok {
                assert(prec1.position == crate::execute::committed_position(p0, d0, now, slot));
                assert(prec1.position.owner == p0.owner);
                assert(record_key(post.positions@[k as int]) == record_key(
                    pre.positions@[k as int],
                ));
                assert(post.audit.events@.last().position_ref == Some(d0.position));
                assert(d0.position == position_key);
                assert(record_key(pre.positions@[k as int]) == position_key);
                assert forall|k2: int|
                    0 <= k2 < pre.positions@.len() && k2 != k as int implies (
                #[trigger] post.positions@[k2]) == pre.positions@[k2] by {}
                lemma_inv_preserved_after_rebalance(pre, post, k as int);
            } else {
                assert(prec1 == pre.positions@[k as int]);
                assert(post.positions@ =~= pre.positions@);
                assert(post.audit == pre.audit);
                assert(pre.positions@.update(k as int, prec1) =~= pre.positions@);
                assert(post.inv());
            }
        }
        r
    }
}

/// Removing an element and inserting another at the same offset is an
/// update at that offset.
proof fn lemma_remove_insert_is_update<T>(s: Seq<T>, j: int, x: T)
    requires
        0 <= j < s.len(),
    ensures
        s.remove(j).insert(j, x) == s.update(j, x),
{
    s.remove_ensures(j);
    s.remove(j).insert_ensures(j, x);
    assert forall|i: int| 0 <= i < s.len() implies s.remove(j).insert(j, x)[i] == s.update(
        j,
        x,
    )[i] by {
        if i < j {
        } else if i == j {
        } else {
            assert(s.remove(j)[i - 1] == s[i]);
            assert(s.remove(j).insert(j, x)[i] == s.remove(j)[i - 1]);
        }
    }
    assert(s.remove(j).insert(j, x) =~= s.update(j, x));
}

/// Two stored positions with the same key sit at the same offset.
proof fn lemma_position_at_unique(reg: Registry, k1: int, k2: int, key: PositionKey)
    requires
        reg.inv(),
        position_at(reg, k1, key),
        position_at(reg, k2, key),
    ensures
        k1 == k2,
{
    if k1 < k2 {
        assert(record_key(reg.positions@[k1]) != record_key(reg.positions@[k2]));
    }
    if k2 < k1 {
        assert(record_key(reg.positions@[k2]) != record_key(reg.positions@[k1]));
    }
}

/// Two stored decisions with the same key sit at the same offset.
proof fn lemma_decision_at_unique(
    reg: Registry,
    j1: int,
    j2: int,
    key: PositionKey,
    index: u32,
)
    requires
        reg.inv(),
        decision_at(reg, j1, key, index),
        decision_at(reg, j2, key, index),
    ensures
        j1 == j2,
{
    if j1 < j2 {
        assert(!(reg.decisions@[j1].decision.position == reg.decisions@[j2].decision.position
            && reg.decisions@[j1].index == reg.decisions@[j2].index));
    }
    if j2 < j1 {
        assert(!(reg.decisions@[j2].decision.position == reg.decisions@[j1].decision.position
            && reg.decisions@[j2].index == reg.decisions@[j1].index));
    }
}

/// The invariant survives appending an event that is neither
/// `PositionCreated` nor `Rebalanced`, with the positions untouched.
proof fn lemma_inv_preserved_after_other_append(pre: Registry, post: Registry)
    requires
        pre.inv(),
        post.config == pre.config,
        post.positions@ == pre.positions@,
        post.created@ == pre.created@,
        post.audit.wf(),
        post.audit.events@.len() == pre.audit.events@.len() + 1,
        forall|i: int|
            0 <= i < pre.audit.events@.len() ==> (#[trigger] post.audit.events@[i])
                == pre.audit.events@[i],
        post.audit.events@.last().event_type != AuditEventType::PositionCreated,
        post.audit.events@.last().event_type != AuditEventType::Rebalanced,
        forall|j: int|
            0 <= j < post.decisions@.len() ==> (#[trigger] post.decisions@[j]).decision.wf(),
        forall|j1: int, j2: int|
            0 <= j1 < j2 < post.decisions@.len() ==> !((#[trigger] post.decisions@[j1]).decision.position
                == (#[trigger] post.decisions@[j2]).decision.position && post.decisions@[j1].index
                == post.decisions@[j2].index),
    ensures
        post.inv(),
{
    assert forall|i: int|
        0 <= i < post.audit.events@.len() && (#[trigger] post.audit.events@[i]).event_type
            == AuditEventType::PositionCreated implies exists|k: int|
        0 <= k < post.positions@.len() && #[trigger] post.created@[k] == i by {
        assert(i < pre.audit.events@.len());
        assert(post.audit.events@[i] == pre.audit.events@[i]);
        let k = choose|k: int| 0 <= k < pre.positions@.len() && #[trigger] pre.created@[k] == i;
        assert(post.created@[k] == i);
    }
    assert forall|i: int|
        0 <= i < post.audit.events@.len() && (#[trigger] post.audit.events@[i]).event_type
            == AuditEventType::Rebalanced implies exists|k: int|
        {
            &&& 0 <= k < post.positions@.len()
            &&& Some(record_key(#[trigger] post.positions@[k])) == post.audit.events@[i].position_ref
            &&& post.created@[k] < i
        } by {
        assert(i < pre.audit.events@.len());
        assert(post.audit.events@[i] == pre.audit.events@[i]);
        let k = choose|k: int|
            {
                &&& 0 <= k < pre.positions@.len()
                &&& Some(record_key(#[trigger] pre.positions@[k]))
                    == pre.audit.events@[i].position_ref
                &&& pre.created@[k] < i
            };
        assert(post.positions@[k] == pre.positions@[k]);
        assert(post.created@[k] == pre.created@[k]);
    }
}

/// The invariant survives a committed rebalance: one position is updated
/// under its unchanged key, and one `Rebalanced` event referring to that
/// key is appended.
proof fn lemma_inv_preserved_after_rebalance(pre: Registry, post: Registry, k: int)
    requires
        pre.inv(),
        post.config == pre.config,
        post.created@ == pre.created@,
        post.positions@.len() == pre.positions@.len(),
        0 <= k < pre.positions@.len(),
        forall|k2: int|
            0 <= k2 < pre.positions@.len() && k2 != k ==> (#[trigger] post.positions@[k2])
                == pre.positions@[k2],
        record_key(post.positions@[k]) == record_key(pre.positions@[k]),
        post.positions@[k].position.wf(),
        post.audit.wf(),
        post.audit.events@.len() == pre.audit.events@.len() + 1,
        forall|i: int|
            0 <= i < pre.audit.events@.len() ==> (#[trigger] post.audit.events@[i])
                == pre.audit.events@[i],
        post.audit.events@.last().event_type == AuditEventType::Rebalanced,
        post.audit.events@.last().position_ref == Some(record_key(pre.positions@[k])),
        forall|j: int|
            0 <= j < post.decisions@.len() ==> (#[trigger] post.decisions@[j]).decision.wf(),
        forall|j1: int, j2: int|
            0 <= j1 < j2 < post.decisions@.len() ==> !((#[trigger] post.decisions@[j1]).decision.position
                == (#[trigger] post.decisions@[j2]).decision.position && post.decisions@[j1].index
                == post.decisions@[j2].index),
    ensures
        post.inv(),
{
    assert forall|k2: int|
        0 <= k2 < post.positions@.len() implies record_key(#[trigger] post.positions@[k2])
        == record_key(pre.positions@[k2]) by {
        if k2 != k {
            assert(post.positions@[k2] == pre.positions@[k2]);
        }
    }
    assert forall|k2: int| 0 <= k2 < post.positions@.len() implies (
    #[trigger] post.positions@[k2]).position.wf() by {
        if k2 != k {
            assert(post.positions@[k2] == pre.positions@[k2]);
        }
    }
    assert forall|k2: int|
        0 <= k2 < post.positions@.len() implies {
        &&& 0 <= #[trigger] post.created@[k2] < post.audit.events@.len()
        &&& post.audit.events@[post.created@[k2]].event_type == AuditEventType::PositionCreated
        &&& post.audit.events@[post.created@[k2]].position_ref == Some(
            record_key(post.positions@[k2]),
        )
    } by {
        assert(pre.created@[k2] < pre.audit.events@.len());
        assert(post.audit.events@[pre.created@[k2]] == pre.audit.events@[pre.created@[k2]]);
    }
    assert forall|i: int|
        0 <= i < post.audit.events@.len() && (#[trigger] post.audit.events@[i]).event_type
            == AuditEventType::PositionCreated implies exists|k2: int|
        0 <= k2 < post.positions@.len() && #[trigger] post.created@[k2] == i by {
        assert(i < pre.audit.events@.len());
        assert(post.audit.events@[i] == pre.audit.events@[i]);
        let k2 = choose|k2: int| 0 <= k2 < pre.positions@.len() && #[trigger] pre.created@[k2] == i;
        assert(post.created@[k2] == i);
    }
    assert forall|i: int|
        0 <= i < post.audit.events@.len() && (#[trigger] post.audit.events@[i]).event_type
            == AuditEventType::Rebalanced implies exists|k2: int|
        {
            &&& 0 <= k2 < post.positions@.len()
            &&& Some(record_key(#[trigger] post.positions@[k2]))
                == post.audit.events@[i].position_ref
            &&& post.created@[k2] < i
        } by {
        if i < pre.audit.events@.len() {
            assert(post.audit.events@[i] == pre.audit.events@[i]);
            let k2 = choose|k2: int|
                {
                    &&& 0 <= k2 < pre.positions@.len()
                    &&& Some(record_key(#[trigger] pre.positions@[k2]))
                        == pre.audit.events@[i].position_ref
                    &&& pre.created@[k2] < i
                };
            assert(record_key(post.positions@[k2]) == record_key(pre.positions@[k2]));
            assert(post.created@[k2] == pre.created@[k2]);
        } else {
            assert(Some(record_key(post.positions@[k])) == post.audit.events@[i].position_ref);
            assert(post.created@[k] == pre.created@[k]);
            assert(pre.created@[k] < pre.audit.events@.len());
        }
    }
}

/// For every `Rebalanced` event in a consistent registry's ledger there is
/// exactly one `PositionCreated` event with the same position reference,
/// and it comes strictly earlier in sequence order.
pub proof fn lemma_one_creation_precedes_rebalance(reg: Registry, i: int)
    requires
        reg.inv(),
        0 <= i < reg.audit.events@.len(),
        reg.audit.events@[i].event_type == AuditEventType::Rebalanced,
    ensures
        exists|j: int|
            {
                &&& 0 <= j < i
                &&& (#[trigger] reg.audit.events@[j]).event_type
                    == AuditEventType::PositionCreated
                &&& reg.audit.events@[j].position_ref == reg.audit.events@[i].position_ref
            },
        forall|j1: int, j2: int|
            (0 <= j1 < reg.audit.events@.len() && 0 <= j2 < reg.audit.events@.len()
                && (#[trigger] reg.audit.events@[j1]).event_type
                == AuditEventType::PositionCreated && (#[trigger] reg.audit.events@[j2]).event_type
                == AuditEventType::PositionCreated && reg.audit.events@[j1].position_ref
                == reg.audit.events@[i].position_ref && reg.audit.events@[j2].position_ref
                == reg.audit.events@[i].position_ref) ==> j1 == j2,
{
    let k = choose|k: int|
        {
            &&& 0 <= k < reg.positions@.len()
            &&& Some(record_key(#[trigger] reg.positions@[k])) == reg.audit.events@[i].position_ref
            &&& reg.created@[k] < i
        };
    let j = reg.created@[k];
    assert(0 <= j < i && reg.audit.events@[j].event_type == AuditEventType::PositionCreated
        && reg.audit.events@[j].position_ref == reg.audit.events@[i].position_ref);
    assert forall|j1: int, j2: int|
        (0 <= j1 < reg.audit.events@.len() && 0 <= j2 < reg.audit.events@.len()
            && (#[trigger] reg.audit.events@[j1]).event_type == AuditEventType::PositionCreated
            && (#[trigger] reg.audit.events@[j2]).event_type == AuditEventType::PositionCreated
            && reg.audit.events@[j1].position_ref == reg.audit.events@[i].position_ref
            && reg.audit.events@[j2].position_ref == reg.audit.events@[i].position_ref) implies j1
        == j2 by {
        let k1 = choose|k1: int|
            0 <= k1 < reg.positions@.len() && #[trigger] reg.created@[k1] == j1;
        let k2 = choose|k2: int|
            0 <= k2 < reg.positions@.len() && #[trigger] reg.created@[k2] == j2;
        assert(reg.audit.events@[j1].position_ref == Some(record_key(reg.positions@[k1])));
        assert(reg.audit.events@[j2].position_ref == Some(record_key(reg.positions@[k2])));
        if k1 < k2 {
            assert(record_key(reg.positions@[k1]) != record_key(reg.positions@[k2]));
        }
        if k2 < k1 {
            assert(record_key(reg.positions@[k2]) != record_key(reg.positions@[k1]));
        }
        assert(k1 == k2);
    }
}

} // verus!

