//! The pay-per-access gate: verification of a payment and the grant of
//! timed API access.

use vstd::prelude::*;
use crate::audit::{audit_appended, AuditEventType, AuditLog};
use crate::config::ProtocolConfig;
use crate::errors::XLiquidityEngineError;
use crate::ids::AccountId;

verus! {

/// Settlement state of a payment.
#[derive(Clone, Copy, PartialEq, Eq, Structural, Debug)]
pub enum PaymentStatus {
    Pending,
    Verified,
    Settled,
    Failed,
    Refunded,
}

/// Currency a payment was made in.
#[derive(Clone, Copy, PartialEq, Eq, Structural, Debug)]
pub enum PaymentCurrency {
    SOL,
    USDC,
    USDT,
}

/// A verified payment and the API access it grants.
#[derive(Clone, PartialEq, Debug)]
pub struct X402Payment {
    pub payment_id: [u8; 32],
    pub payer: AccountId,
    pub payer_wallet: AccountId,
    pub amount: u64,
    pub currency: PaymentCurrency,
    pub payment_status: PaymentStatus,
    pub facilitator: AccountId,
    pub facilitator_signature: Option<[u8; 64]>,
    pub payment_tx_signature: Option<String>,
    pub api_endpoint: String,
    pub api_version: String,
    pub access_granted: bool,
    pub access_expires_at: Option<i64>,
    pub requested_at: i64,
    pub verified_at: Option<i64>,
    pub settled_at: Option<i64>,
}

/// Seconds of API access one verified payment grants.
pub const ACCESS_GRANT_SECONDS: i64 = 3600;

/// The facilitator the configuration accepts: the configured one, or the
/// all-zero identity when none is configured.
pub open spec fn expected_facilitator(config: ProtocolConfig) -> AccountId {
    match config.x402_facilitator {
        Some(f) => f,
        None => AccountId::zero_spec(),
    }
}

/// The first verification failure of a payment, if any: the amount must
/// reach the configured minimum and the facilitator must be the expected
/// one.
pub open spec fn payment_check(
    amount: u64,
    facilitator: AccountId,
    config: ProtocolConfig,
) -> Option<XLiquidityEngineError> {
    if amount < config.x402_min_payment {
        Some(XLiquidityEngineError::PaymentTooSmall)
    } else if facilitator != expected_facilitator(config) {
        Some(XLiquidityEngineError::InvalidFacilitator)
    } else {
        None
    }
}

/// Verify a payment and grant API access for a fixed window, recording a
/// `PaymentReceived` audit event. A failure mutates nothing.
pub fn verify_x402_payment(
    payment_id: [u8; 32],
    payer: AccountId,
    payer_wallet: AccountId,
    amount: u64,
    currency: PaymentCurrency,
    api_endpoint: String,
    api_version: String,
    facilitator: AccountId,
    config: &ProtocolConfig,
    now: i64,
    audit: &mut AuditLog,
) -> (r: Result<X402Payment, XLiquidityEngineError>)
    requires
        0 <= now,
        now + ACCESS_GRANT_SECONDS <= i64::MAX,
        old(audit).wf(),
        old(audit).can_append_at(now),
        old(audit).events@.len() < u64::MAX,
    ensures
        final(audit).wf(),
        final(audit).can_append_at(now),
        r is Ok <==> payment_check(amount, facilitator, *config) is None,
        r matches Err(e) ==> {
            &&& Some(e) == payment_check(amount, facilitator, *config)
            &&& *final(audit) == *old(audit)
        },
        r matches Ok(p) ==> {
            &&& p.payment_id == payment_id
            &&& p.payer == payer
            &&& p.payer_wallet == payer_wallet
            &&& p.amount == amount
            &&& p.currency == currency
            &&& p.payment_status == PaymentStatus::Verified
            &&& p.facilitator == facilitator
            &&& p.facilitator_signature is None
            &&& p.payment_tx_signature is None
            &&& p.api_endpoint == api_endpoint
            &&& p.api_version == api_version
            &&& p.access_granted == true
            &&& p.access_expires_at == Some((now + ACCESS_GRANT_SECONDS) as i64)
            &&& p.requested_at == now
            &&& p.verified_at == Some(now)
            &&& p.settled_at is None
            &&& audit_appended(
                *final(audit),
                *old(audit),
                AuditEventType::PaymentReceived,
                None,
                payer,
                Seq::<u8>::empty(),
                now,
            )
        },
{
    if amount < config.x402_min_payment {
        return Err(XLiquidityEngineError::PaymentTooSmall);
    }
    let expected = match &config.x402_facilitator {
        Some(f) => *f,
        None => AccountId::zero(),
    };
    if facilitator != expected {
        return Err(XLiquidityEngineError::InvalidFacilitator);
    }

    let payment = X402Payment {
        payment_id,
        payer,
        payer_wallet,
        amount,
        currency,
        payment_status: PaymentStatus::Verified,
        facilitator,
        facilitator_signature: None,
        payment_tx_signature: None,
        api_endpoint,
        api_version,
        access_granted: true,
        access_expires_at: Some(now + ACCESS_GRANT_SECONDS),
        requested_at: now,
        verified_at: Some(now),
        settled_at: None,
    };

    audit.append(AuditEventType::PaymentReceived, None, payer, Vec::new(), now);

    Ok(payment)
}

} // verus!
