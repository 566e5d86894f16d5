//! Risk classification of a rebalance decision from its prediction metrics.

use vstd::prelude::*;

verus! {

/// Risk tier of a rebalance decision.
#[derive(Clone, Copy, PartialEq, Eq, Structural, Debug)]
pub enum RiskLevel {
    Low,
    Medium,
    High,
    Critical,
}

/// The fixed classification thresholds, as a total function of the metrics.
///
/// `confidence` and `volatility` range over 0..=10000 basis points and
/// `sentiment` over -10000..=10000, but the classification is total and
/// callers need not restrict the inputs.
pub open spec fn classify(confidence: u16, sentiment: i16, volatility: u16) -> RiskLevel {
    if confidence < 5000 || volatility > 8000 {
        RiskLevel::Critical
    } else if confidence < 7000 || volatility > 6000 || sentiment < -5000 {
        RiskLevel::High
    } else if confidence < 8500 || volatility > 4000 {
        RiskLevel::Medium
    } else {
        RiskLevel::Low
    }
}

/// Classify the risk of a prediction: low confidence or high volatility
/// raises the tier, strongly negative sentiment makes it at least High.
pub fn assess_risk(confidence: u16, sentiment: i16, volatility: u16) -> (r: RiskLevel)
    ensures
        r == classify(confidence, sentiment, volatility),
{
    if confidence < 5000 || volatility > 8000 {
        RiskLevel::Critical
    } else if confidence < 7000 || volatility > 6000 || sentiment < -5000 {
        RiskLevel::High
    } else if confidence < 8500 || volatility > 4000 {
        RiskLevel::Medium
    } else {
        RiskLevel::Low
    }
}

} // verus!
