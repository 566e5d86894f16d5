//! Error taxonomy of the decision-and-execution gate.

use vstd::prelude::*;

verus! {

/// Every failure the engine reports. Precondition failures abort with no
/// mutation; none are swallowed.
#[derive(Clone, Copy, PartialEq, Eq, Structural, Debug)]
pub enum XLiquidityEngineError {
    /// A tick or price range whose lower bound is not below its upper bound.
    InvalidRange,
    /// A requested size cap above the protocol's global cap.
    CapExceeded,
    /// The position is paused, closed or liquidated.
    PositionNotActive,
    /// The record is not in the state the operation needs.
    InvalidState,
    /// The position's minimum rebalance interval has not elapsed since its
    /// last executed rebalance.
    RateLimited,
    /// An approver is already recorded; approval happens at most once.
    AlreadyApproved,
    /// The decision needs human sign-off that is missing or not presented.
    ApprovalRequired,
    /// Sign-off was offered for a decision that does not need it.
    ApprovalNotRequired,
    /// The presented credential does not match the recorded approver.
    UnauthorizedApprover,
    /// A slippage tolerance above twice the protocol default.
    SlippageBoundInvalid,
    /// The venue reported more slippage than the caller tolerated.
    SlippageExceeded,
    /// The rebalance counter would wrap.
    CounterOverflow,
    /// An opaque failure of the external venue, reported by the venue edge;
    /// the core never treats it as license to commit partial state.
    VenueError,
    /// A payment below the protocol's minimum.
    PaymentTooSmall,
    /// A facilitator other than the configured one.
    InvalidFacilitator,
    /// Fee collection with nothing accrued.
    NoFeesToCollect,
}

} // verus!
