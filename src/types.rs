use vstd::prelude::*;

verus! {

/// A sub-score of exactly 1.0, in billionths.
pub const SCORE_ONE: i64 = 1_000_000_000;

/// One hundred percent, in basis points.
pub const BPS_ONE: u64 = 10_000;

/// What a reporter hands the engine. The three sub-scores are fixed-point
/// numbers in billionths and are meant to lie in `[0, SCORE_ONE]`;
/// `reporter_confidence_bps` is in basis points and is not range-checked.
#[derive(Clone, Copy, Debug, PartialEq, Eq, Structural)]
pub struct RiskSignal {
    pub graph_score: i64,
    pub timeseries_score: i64,
    pub cross_chain_score: i64,
    pub reporter_confidence_bps: u16,
}

/// The four risk levels, from least to most severe.
#[derive(Clone, Copy, Debug, PartialEq, Eq, Structural)]
pub enum RiskLevel {
    Low,
    Medium,
    High,
    Critical,
}

/// The result of scoring one signal.
#[derive(Clone, Copy, Debug, PartialEq, Eq, Structural)]
pub struct FraudAssessment {
    pub weighted_score_bps: u16,
    pub level: RiskLevel,
}

/// The one way scoring can fail: a sub-score outside `[0, SCORE_ONE]`.
#[derive(Clone, Copy, Debug, PartialEq, Eq, Structural)]
pub enum EngineError {
    InvalidScore,
}

} // verus!
