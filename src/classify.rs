use vstd::prelude::*;
use crate::types::RiskLevel;

verus! {

/// Lowest score, in basis points, that counts as `Medium`.
pub const MEDIUM_FROM_BPS: u16 = 4000;

/// Lowest score, in basis points, that counts as `High`.
pub const HIGH_FROM_BPS: u16 = 6000;

/// Lowest score, in basis points, that counts as `Critical`.
pub const CRITICAL_FROM_BPS: u16 = 8000;

/// The level of a score in basis points, by half-open ranges.
pub open spec fn level_of(score_bps: int) -> RiskLevel {
    if score_bps < MEDIUM_FROM_BPS {
        RiskLevel::Low
    } else if score_bps < HIGH_FROM_BPS {
        RiskLevel::Medium
    } else if score_bps < CRITICAL_FROM_BPS {
        RiskLevel::High
    } else {
        RiskLevel::Critical
    }
}

/// Classifies a score in basis points: `0..=3999` is `Low`, `4000..=5999`
/// `Medium`, `6000..=7999` `High`, and everything from 8000 up `Critical`.
pub fn score_to_level(score_bps: u16) -> (r: RiskLevel)
    ensures
        r == level_of(score_bps as int),
{
    if score_bps < MEDIUM_FROM_BPS {
        RiskLevel::Low
    } else if score_bps < HIGH_FROM_BPS {
        RiskLevel::Medium
    } else if score_bps < CRITICAL_FROM_BPS {
        RiskLevel::High
    } else {
        RiskLevel::Critical
    }
}

} // verus!
