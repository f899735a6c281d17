use vstd::prelude::*;
use crate::classify::{level_of, score_to_level};
use crate::laws::lemma_valid_signal_scores_within_bps;
use crate::types::{EngineError, FraudAssessment, RiskSignal, BPS_ONE, SCORE_ONE};

verus! {

/// Weight of the graph sub-score, in hundredths.
pub const GRAPH_WEIGHT: i64 = 45;

/// Weight of the time-series sub-score, in hundredths.
pub const TIMESERIES_WEIGHT: i64 = 35;

/// Weight of the cross-chain sub-score, in hundredths.
pub const CROSS_CHAIN_WEIGHT: i64 = 20;

/// Sum of the three weights: the weights are hundredths of a whole.
pub const WEIGHT_TOTAL: i64 = 100;

/// Smallest confidence multiplier, in basis points (0.4).
pub const CONFIDENCE_FLOOR_BPS: u16 = 4000;

/// Largest confidence multiplier, in basis points (1.0).
pub const CONFIDENCE_CEILING_BPS: u16 = 10000;

/// A sub-score lies in `[0.0, 1.0]`.
pub open spec fn score_in_range(score: int) -> bool {
    0 <= score <= SCORE_ONE
}

/// All three sub-scores of the signal lie in `[0.0, 1.0]`.
pub open spec fn is_valid_signal(signal: RiskSignal) -> bool {
    &&& score_in_range(signal.graph_score as int)
    &&& score_in_range(signal.timeseries_score as int)
    &&& score_in_range(signal.cross_chain_score as int)
}

/// The weighted sum of the sub-scores, in units of one
/// `WEIGHT_TOTAL * SCORE_ONE`-th of a whole.
pub open spec fn base_score_of(signal: RiskSignal) -> int {
    GRAPH_WEIGHT * signal.graph_score + TIMESERIES_WEIGHT * signal.timeseries_score
        + CROSS_CHAIN_WEIGHT * signal.cross_chain_score
}

/// The reporter's confidence clamped into `[0.4, 1.0]`, in basis points.
pub open spec fn confidence_multiplier_of(confidence_bps: int) -> int {
    if confidence_bps < CONFIDENCE_FLOOR_BPS {
        CONFIDENCE_FLOOR_BPS as int
    } else if confidence_bps > CONFIDENCE_CEILING_BPS {
        CONFIDENCE_CEILING_BPS as int
    } else {
        confidence_bps
    }
}

/// The integer nearest to `n / d`, halves rounded away from zero
/// (meant for `n >= 0` and `d > 0`).
pub open spec fn round_div(n: int, d: int) -> int {
    (2 * n + d) / (2 * d)
}

/// The final score in basis points: base score times confidence multiplier,
/// rounded to the nearest basis point.
pub open spec fn weighted_score_of(signal: RiskSignal) -> int {
    round_div(
        base_score_of(signal) * confidence_multiplier_of(signal.reporter_confidence_bps as int),
        WEIGHT_TOTAL * SCORE_ONE,
    )
}

fn score_is_in_range(score: i64) -> (r: bool)
    ensures
        r == score_in_range(score as int),
{
    0 <= score && score <= SCORE_ONE
}

/// Checks that each of the three sub-scores lies in `[0.0, 1.0]`; the
/// reporter's confidence is not checked.
pub fn validate(signal: &RiskSignal) -> (r: Result<(), EngineError>)
    ensures
        r == (if is_valid_signal(*signal) {
            Ok::<(), EngineError>(())
        } else {
            Err(EngineError::InvalidScore)
        }),
{
    if score_is_in_range(signal.graph_score) && score_is_in_range(signal.timeseries_score)
        && score_is_in_range(signal.cross_chain_score) {
        Ok(())
    } else {
        Err(EngineError::InvalidScore)
    }
}

/// The weighted sum of the sub-scores of a valid signal.
pub fn base_score(signal: &RiskSignal) -> (r: u64)
    requires
        is_valid_signal(*signal),
    ensures
        r == base_score_of(*signal),
        r <= WEIGHT_TOTAL * SCORE_ONE,
{
    let sum = GRAPH_WEIGHT * signal.graph_score + TIMESERIES_WEIGHT * signal.timeseries_score
        + CROSS_CHAIN_WEIGHT * signal.cross_chain_score;
    sum as u64
}

/// The reporter's confidence clamped into `[0.4, 1.0]`, in basis points.
pub fn confidence_multiplier_bps(confidence_bps: u16) -> (r: u16)
    ensures
        r == confidence_multiplier_of(confidence_bps as int),
{
    if confidence_bps < CONFIDENCE_FLOOR_BPS {
        CONFIDENCE_FLOOR_BPS
    } else if confidence_bps > CONFIDENCE_CEILING_BPS {
        CONFIDENCE_CEILING_BPS
    } else {
        confidence_bps
    }
}

/// Scores a signal: validates it, takes the weighted sum of its sub-scores,
/// dampens it by the clamped confidence, rounds it to basis points and
/// classifies it. Fails with `InvalidScore` exactly when a sub-score lies
/// outside `[0.0, 1.0]`.
pub fn aggregate_signal(signal: &RiskSignal) -> (r: Result<FraudAssessment, EngineError>)
    ensures
        r is Ok <==> is_valid_signal(*signal),
        r is Err ==> r == Err::<FraudAssessment, EngineError>(EngineError::InvalidScore),
        r is Ok ==> ({
            let a = r->Ok_0;
            &&& a.weighted_score_bps == weighted_score_of(*signal)
            &&& a.weighted_score_bps <= BPS_ONE
            &&& a.level == level_of(a.weighted_score_bps as int)
        }),
{
    match validate(signal) {
        Err(e) => {
            return Err(e);
        },
        Ok(()) => {},
    }
    let base = base_score(signal);
    let multiplier = confidence_multiplier_bps(signal.reporter_confidence_bps) as u64;
    proof {
        lemma_valid_signal_scores_within_bps(*signal);
    }
    let product = base * multiplier;
    let scale = (WEIGHT_TOTAL * SCORE_ONE) as u64;
    let weighted = (2 * product + scale) / (2 * scale);
    let weighted_bps = weighted as u16;
    Ok(FraudAssessment { weighted_score_bps: weighted_bps, level: score_to_level(weighted_bps) })
}

} // verus!
