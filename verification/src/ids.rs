//! Plain-value identities for owners, approvers, tokens, pools and records.
//!
//! An account identity is 32 bytes, held here as four 64-bit little-endian
//! words so that equality is structural and cheap to state in contracts.

use vstd::prelude::*;

verus! {

/// A 32-byte account identity, as four 64-bit words.
#[derive(Clone, Copy, PartialEq, Eq, Structural, Debug)]
pub struct AccountId {
    pub w0: u64,
    pub w1: u64,
    pub w2: u64,
    pub w3: u64,
}

impl AccountId {
    /// The all-zero identity, used where the reference protocol treats an
    /// unset key as the default.
    pub fn zero() -> (r: AccountId)
        ensures
            r == AccountId::zero_spec(),
    {
        AccountId { w0: 0, w1: 0, w2: 0, w3: 0 }
    }

    pub open spec fn zero_spec() -> AccountId {
        AccountId { w0: 0, w1: 0, w2: 0, w3: 0 }
    }

    pub fn from_words(w0: u64, w1: u64, w2: u64, w3: u64) -> (r: AccountId)
        ensures
            r == (AccountId { w0, w1, w2, w3 }),
    {
        AccountId { w0, w1, w2, w3 }
    }
}

/// The persistence key of a position record: its owner plus a small index,
/// so one owner can hold several positions.
#[derive(Clone, Copy, PartialEq, Eq, Structural, Debug)]
pub struct PositionKey {
    pub owner: AccountId,
    pub index: u8,
}

} // verus!
