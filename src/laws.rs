use vstd::prelude::*;
use vstd::arithmetic::div_mod::lemma_div_is_ordered;
use crate::classify::level_of;
use crate::engine::{
    base_score_of, confidence_multiplier_of, is_valid_signal, round_div, weighted_score_of,
    WEIGHT_TOTAL,
};
use crate::types::{RiskLevel, RiskSignal, BPS_ONE, SCORE_ONE};

verus! {

/// A valid signal's base score times its multiplier fits the ranges that
/// make its weighted score a basis-point value between 0 and 10000.
pub proof fn lemma_valid_signal_scores_within_bps(signal: RiskSignal)
    requires
        is_valid_signal(signal),
    ensures
        0 <= base_score_of(signal) <= WEIGHT_TOTAL * SCORE_ONE,
        0 <= base_score_of(signal) * confidence_multiplier_of(signal.reporter_confidence_bps as int)
            <= WEIGHT_TOTAL * SCORE_ONE * BPS_ONE,
        0 <= weighted_score_of(signal) <= BPS_ONE,
{
    let b = base_score_of(signal);
    let m = confidence_multiplier_of(signal.reporter_confidence_bps as int);
    assert(0 <= b * m <= 100_000_000_000 * 10_000) by (nonlinear_arith)
        requires
            0 <= b <= 100_000_000_000,
            0 <= m <= 10_000,
    ;
}

/// Classification is total over `0..=65535` and splits it into four ranges
/// without gaps or overlaps: `0..=3999` is `Low`, `4000..=5999` `Medium`,
/// `6000..=7999` `High` and `8000..=65535` `Critical`.
pub proof fn lemma_levels_partition(score_bps: u16)
    ensures
        (level_of(score_bps as int) == RiskLevel::Low) <==> score_bps <= 3999,
        (level_of(score_bps as int) == RiskLevel::Medium) <==> 4000 <= score_bps <= 5999,
        (level_of(score_bps as int) == RiskLevel::High) <==> 6000 <= score_bps <= 7999,
        (level_of(score_bps as int) == RiskLevel::Critical) <==> 8000 <= score_bps,
{
}

/// Raising sub-scores of a valid signal, within the valid range and with the
/// reporter's confidence unchanged, never lowers the weighted score.
pub proof fn lemma_weighted_score_monotone(lower: RiskSignal, higher: RiskSignal)
    requires
        is_valid_signal(lower),
        is_valid_signal(higher),
        lower.graph_score <= higher.graph_score,
        lower.timeseries_score <= higher.timeseries_score,
        lower.cross_chain_score <= higher.cross_chain_score,
        lower.reporter_confidence_bps == higher.reporter_confidence_bps,
    ensures
        weighted_score_of(lower) <= weighted_score_of(higher),
{
    let lo = base_score_of(lower);
    let hi = base_score_of(higher);
    let m = confidence_multiplier_of(lower.reporter_confidence_bps as int);
    assert(lo * m <= hi * m) by (nonlinear_arith)
        requires
            lo <= hi,
            0 <= m,
    ;
    let d = WEIGHT_TOTAL * SCORE_ONE;
    lemma_div_is_ordered(2 * (lo * m) + d, 2 * (hi * m) + d, 2 * d);
}

/// With zero reporter confidence the multiplier is its floor of 0.4, so the
/// weighted score is 40% of the base score in basis points, rounded.
pub proof fn lemma_zero_confidence_floor(signal: RiskSignal)
    requires
        signal.reporter_confidence_bps == 0,
    ensures
        confidence_multiplier_of(signal.reporter_confidence_bps as int) == 4000,
        weighted_score_of(signal) == round_div(base_score_of(signal) * 4000, WEIGHT_TOTAL * SCORE_ONE),
{
}

} // verus!
