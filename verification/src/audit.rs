//! The append-only audit ledger: every state transition of a position or a
//! decision is recorded under a monotonically increasing sequence key and is
//! never mutated or deleted.

use vstd::prelude::*;
use crate::ids::{AccountId, PositionKey};

verus! {

/// The kind of transition an audit event documents.
#[derive(Clone, Copy, PartialEq, Eq, Structural, Debug)]
pub enum AuditEventType {
    PositionCreated,
    PositionClosed,
    DecisionProposed,
    Rebalanced,
    FeesCollected,
    PaymentReceived,
    PolicyViolation,
    HumanApprovalRequired,
    HumanApprovalGranted,
}

/// One immutable audit record.
#[derive(Clone, PartialEq, Debug)]
pub struct AuditEvent {
    /// Monotonically increasing key; equals the event's offset in the ledger.
    pub sequence: u64,
    pub event_type: AuditEventType,
    pub position_ref: Option<PositionKey>,
    pub actor: AccountId,
    pub payload: Vec<u8>,
    pub created_at: i64,
}

/// The ledger itself: a growing list of events.
#[derive(Clone, PartialEq, Debug)]
pub struct AuditLog {
    pub events: Vec<AuditEvent>,
}

impl AuditLog {
    /// Well-formedness: sequence keys are exactly the offsets, so they
    /// strictly increase, and creation timestamps never decrease.
    pub open spec fn wf(self) -> bool {
        &&& self.events@.len() <= u64::MAX
        &&& forall|i: int|
            0 <= i < self.events@.len() ==> (#[trigger] self.events@[i].sequence) == i as u64
        &&& forall|i: int, j: int|
            0 <= i < j < self.events@.len() ==> (#[trigger] self.events@[i].created_at)
                <= (#[trigger] self.events@[j].created_at)
    }

    /// A clock reading at which an event may still be appended: not before
    /// the latest recorded event.
    pub open spec fn can_append_at(self, now: i64) -> bool {
        self.events@.len() == 0 || self.events@.last().created_at <= now
    }

    pub fn new() -> (r: AuditLog)
        ensures
            r.wf(),
            r.events@.len() == 0,
    {
        AuditLog { events: Vec::new() }
    }

    /// Append one event. The ledger assigns the sequence key and stamps the
    /// caller's clock; the clock must not run backwards relative to the
    /// ledger, which is what makes the recorded timestamps monotone.
    pub fn append(
        &mut self,
        event_type: AuditEventType,
        position_ref: Option<PositionKey>,
        actor: AccountId,
        payload: Vec<u8>,
        now: i64,
    ) -> (id: u64)
        requires
            old(self).wf(),
            old(self).can_append_at(now),
            old(self).events@.len() < u64::MAX,
        ensures
            final(self).wf(),
            id == old(self).events@.len(),
            final(self).events@.len() == old(self).events@.len() + 1,
            forall|i: int|
                0 <= i < old(self).events@.len() ==> (#[trigger] final(self).events@[i]) == old(
                    self,
                ).events@[i],
            final(self).events@.last().sequence == id,
            final(self).events@.last().event_type == event_type,
            final(self).events@.last().position_ref == position_ref,
            final(self).events@.last().actor == actor,
            final(self).events@.last().payload == payload,
            final(self).events@.last().created_at == now,
            final(self).can_append_at(now),
    {
        let id: u64 = self.events.len() as u64;
        let event = AuditEvent { sequence: id, event_type, position_ref, actor, payload, created_at: now };
        self.events.push(event);
        id
    }
}

/// The ledger `post` is `pre` with exactly one event appended, of the given
/// type, reference, actor, payload and timestamp.
pub open spec fn audit_appended(
    post: AuditLog,
    pre: AuditLog,
    event_type: AuditEventType,
    position_ref: Option<PositionKey>,
    actor: AccountId,
    payload: Seq<u8>,
    now: i64,
) -> bool {
    &&& post.events@.len() == pre.events@.len() + 1
    &&& forall|i: int|
        0 <= i < pre.events@.len() ==> (#[trigger] post.events@[i]) == pre.events@[i]
    &&& post.events@.last().sequence == pre.events@.len()
    &&& post.events@.last().event_type == event_type
    &&& post.events@.last().position_ref == position_ref
    &&& post.events@.last().actor == actor
    &&& post.events@.last().payload@ == payload
    &&& post.events@.last().created_at == now
}

/// Audit events, read in sequence order, have strictly increasing sequence
/// keys and non-decreasing timestamps; the same therefore holds of the
/// events of any one position, since selecting them preserves the order.
pub proof fn lemma_audit_order(log: AuditLog, i: int, j: int)
    requires
        log.wf(),
        0 <= i < j < log.events@.len(),
    ensures
        log.events@[i].sequence < log.events@[j].sequence,
        log.events@[i].created_at <= log.events@[j].created_at,
{
    assert(log.events@[i].sequence == i as u64);
    assert(log.events@[j].sequence == j as u64);
}

} // verus!
