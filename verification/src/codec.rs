//! Little-endian byte encodings for the audit ledger's payloads, so that
//! what an event documents — collected amounts, an adopted range — is
//! carried in the event itself and pinned by the contracts.

use vstd::prelude::*;

verus! {

/// The four little-endian bytes of a 32-bit value.
pub open spec fn u32_le_seq(x: u32) -> Seq<u8> {
    seq![x as u8, (x >> 8) as u8, (x >> 16) as u8, (x >> 24) as u8]
}

/// The eight little-endian bytes of a 64-bit value.
pub open spec fn u64_le_seq(x: u64) -> Seq<u8> {
    seq![
        x as u8,
        (x >> 8) as u8,
        (x >> 16) as u8,
        (x >> 24) as u8,
        (x >> 32) as u8,
        (x >> 40) as u8,
        (x >> 48) as u8,
        (x >> 56) as u8,
    ]
}

/// The sixteen little-endian bytes of a 128-bit value.
pub open spec fn u128_le_seq(x: u128) -> Seq<u8> {
    seq![
        x as u8,
        (x >> 8) as u8,
        (x >> 16) as u8,
        (x >> 24) as u8,
        (x >> 32) as u8,
        (x >> 40) as u8,
        (x >> 48) as u8,
        (x >> 56) as u8,
        (x >> 64) as u8,
        (x >> 72) as u8,
        (x >> 80) as u8,
        (x >> 88) as u8,
        (x >> 96) as u8,
        (x >> 104) as u8,
        (x >> 112) as u8,
        (x >> 120) as u8,
    ]
}

/// Encode a 32-bit value as its four little-endian bytes.
pub fn u32_le_bytes(x: u32) -> (r: Vec<u8>)
    ensures
        r@ == u32_le_seq(x),
{
    let mut r: Vec<u8> = Vec::new();
    r.push(#[verifier::truncate] (x as u8));
    r.push(#[verifier::truncate] ((x >> 8) as u8));
    r.push(#[verifier::truncate] ((x >> 16) as u8));
    r.push(#[verifier::truncate] ((x >> 24) as u8));
    proof {
        assert(r@ =~= u32_le_seq(x));
    }
    r
}

/// Encode a 64-bit value as its eight little-endian bytes.
pub fn u64_le_bytes(x: u64) -> (r: Vec<u8>)
    ensures
        r@ == u64_le_seq(x),
{
    let mut r: Vec<u8> = Vec::new();
    r.push(#[verifier::truncate] (x as u8));
    r.push(#[verifier::truncate] ((x >> 8) as u8));
    r.push(#[verifier::truncate] ((x >> 16) as u8));
    r.push(#[verifier::truncate] ((x >> 24) as u8));
    r.push(#[verifier::truncate] ((x >> 32) as u8));
    r.push(#[verifier::truncate] ((x >> 40) as u8));
    r.push(#[verifier::truncate] ((x >> 48) as u8));
    r.push(#[verifier::truncate] ((x >> 56) as u8));
    proof {
        assert(r@ =~= u64_le_seq(x));
    }
    r
}

/// Encode a 128-bit value as its sixteen little-endian bytes.
pub fn u128_le_bytes(x: u128) -> (r: Vec<u8>)
    ensures
        r@ == u128_le_seq(x),
{
    let mut r: Vec<u8> = Vec::new();
    r.push(#[verifier::truncate] (x as u8));
    r.push(#[verifier::truncate] ((x >> 8) as u8));
    r.push(#[verifier::truncate] ((x >> 16) as u8));
    r.push(#[verifier::truncate] ((x >> 24) as u8));
    r.push(#[verifier::truncate] ((x >> 32) as u8));
    r.push(#[verifier::truncate] ((x >> 40) as u8));
    r.push(#[verifier::truncate] ((x >> 48) as u8));
    r.push(#[verifier::truncate] ((x >> 56) as u8));
    r.push(#[verifier::truncate] ((x >> 64) as u8));
    r.push(#[verifier::truncate] ((x >> 72) as u8));
    r.push(#[verifier::truncate] ((x >> 80) as u8));
    r.push(#[verifier::truncate] ((x >> 88) as u8));
    r.push(#[verifier::truncate] ((x >> 96) as u8));
    r.push(#[verifier::truncate] ((x >> 104) as u8));
    r.push(#[verifier::truncate] ((x >> 112) as u8));
    r.push(#[verifier::truncate] ((x >> 120) as u8));
    proof {
        assert(r@ =~= u128_le_seq(x));
    }
    r
}

/// Payload of a `FeesCollected` event: both collected amounts,
/// little-endian, side A first.
pub open spec fn fees_collected_payload(fees_a: u64, fees_b: u64) -> Seq<u8> {
    u64_le_seq(fees_a) + u64_le_seq(fees_b)
}

/// Build a `FeesCollected` payload.
pub fn fees_collected_bytes(fees_a: u64, fees_b: u64) -> (r: Vec<u8>)
    ensures
        r@ == fees_collected_payload(fees_a, fees_b),
{
    let mut r = u64_le_bytes(fees_a);
    let mut b = u64_le_bytes(fees_b);
    r.append(&mut b);
    r
}

/// Payload of a `Rebalanced` event: the adopted range — both ticks (in
/// two's complement) then both price bounds, little-endian.
pub open spec fn rebalanced_payload(
    tick_lower: i32,
    tick_upper: i32,
    price_lower: u128,
    price_upper: u128,
) -> Seq<u8> {
    u32_le_seq(tick_lower as u32) + u32_le_seq(tick_upper as u32) + u128_le_seq(price_lower)
        + u128_le_seq(price_upper)
}

/// Build a `Rebalanced` payload.
pub fn rebalanced_bytes(
    tick_lower: i32,
    tick_upper: i32,
    price_lower: u128,
    price_upper: u128,
) -> (r: Vec<u8>)
    ensures
        r@ == rebalanced_payload(tick_lower, tick_upper, price_lower, price_upper),
{
    let mut r = u32_le_bytes(#[verifier::truncate] (tick_lower as u32));
    let mut tu = u32_le_bytes(#[verifier::truncate] (tick_upper as u32));
    let mut pl = u128_le_bytes(price_lower);
    let mut pu = u128_le_bytes(price_upper);
    r.append(&mut tu);
    r.append(&mut pl);
    r.append(&mut pu);
    r
}

} // verus!
