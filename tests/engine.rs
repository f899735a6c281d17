use rust_risk_engine::engine::{base_score, confidence_multiplier_bps};
use rust_risk_engine::types::SCORE_ONE;
use rust_risk_engine::{
    aggregate_signal, score_to_level, validate, EngineError, RiskLevel, RiskSignal,
};

/// A sub-score written as a decimal fraction, in the library's billionths.
fn billionths(x: f64) -> i64 {
    (x * SCORE_ONE as f64).round() as i64
}

fn signal(graph: f64, timeseries: f64, cross_chain: f64, confidence_bps: u16) -> RiskSignal {
    RiskSignal {
        graph_score: billionths(graph),
        timeseries_score: billionths(timeseries),
        cross_chain_score: billionths(cross_chain),
        reporter_confidence_bps: confidence_bps,
    }
}

#[test]
fn computes_weighted_score() {
    let signal = signal(0.9, 0.8, 0.7, 9000);
    let out = aggregate_signal(&signal).expect("valid");
    assert!(out.weighted_score_bps > 7000);
    assert_eq!(out.level, RiskLevel::High);
}

#[test]
fn rejects_invalid_score() {
    let signal = signal(1.1, 0.5, 0.1, 5000);
    assert!(aggregate_signal(&signal).is_err());
}

#[test]
fn critical_path_example() {
    let signal = signal(1.0, 0.95, 0.9, 10_000);
    let out = aggregate_signal(&signal).expect("should aggregate");
    assert_eq!(out.level, RiskLevel::Critical);
    assert!(out.weighted_score_bps >= 9000);
}

#[test]
fn high_scenario_exact_score() {
    let out = aggregate_signal(&signal(0.9, 0.8, 0.7, 9000)).unwrap();
    assert_eq!(out.weighted_score_bps, 7425);
    assert_eq!(out.level, RiskLevel::High);
}

#[test]
fn critical_scenario_exact_score() {
    let out = aggregate_signal(&signal(1.0, 0.95, 0.9, 10_000)).unwrap();
    assert_eq!(out.weighted_score_bps, 9625);
    assert_eq!(out.level, RiskLevel::Critical);
}

#[test]
fn graph_above_one_is_invalid_score() {
    assert_eq!(aggregate_signal(&signal(1.1, 0.5, 0.1, 5000)), Err(EngineError::InvalidScore));
}

#[test]
fn each_sub_score_out_of_range_is_rejected() {
    let cases = [
        signal(-0.1, 0.5, 0.5, 5000),
        signal(0.5, -0.1, 0.5, 5000),
        signal(0.5, 0.5, -0.1, 5000),
        signal(0.5, 1.2, 0.5, 5000),
        signal(0.5, 0.5, 1.2, 5000),
    ];
    for s in cases.iter() {
        assert_eq!(validate(s), Err(EngineError::InvalidScore));
        assert_eq!(aggregate_signal(s), Err(EngineError::InvalidScore));
    }
    let just_above = RiskSignal {
        graph_score: SCORE_ONE + 1,
        timeseries_score: 0,
        cross_chain_score: 0,
        reporter_confidence_bps: 0,
    };
    assert_eq!(aggregate_signal(&just_above), Err(EngineError::InvalidScore));
}

#[test]
fn bounds_of_the_range_are_valid() {
    assert_eq!(validate(&signal(0.0, 0.0, 0.0, 0)), Ok(()));
    let top = aggregate_signal(&signal(1.0, 1.0, 1.0, 10_000)).unwrap();
    assert_eq!(top.weighted_score_bps, 10_000);
    assert_eq!(top.level, RiskLevel::Critical);
    let bottom = aggregate_signal(&signal(0.0, 0.0, 0.0, 10_000)).unwrap();
    assert_eq!(bottom.weighted_score_bps, 0);
    assert_eq!(bottom.level, RiskLevel::Low);
}

#[test]
fn confidence_is_not_range_checked() {
    let over = aggregate_signal(&signal(1.0, 1.0, 1.0, u16::MAX)).unwrap();
    assert_eq!(over.weighted_score_bps, 10_000);
}

#[test]
fn zero_confidence_keeps_forty_percent() {
    assert_eq!(confidence_multiplier_bps(0), 4000);
    let out = aggregate_signal(&signal(0.5, 0.5, 0.5, 0)).unwrap();
    assert_eq!(out.weighted_score_bps, 2000);
    assert_eq!(out.level, RiskLevel::Low);
}

#[test]
fn confidence_multiplier_is_clamped() {
    assert_eq!(confidence_multiplier_bps(3999), 4000);
    assert_eq!(confidence_multiplier_bps(4000), 4000);
    assert_eq!(confidence_multiplier_bps(7321), 7321);
    assert_eq!(confidence_multiplier_bps(10_000), 10_000);
    assert_eq!(confidence_multiplier_bps(10_001), 10_000);
}

#[test]
fn base_score_weights_the_sub_scores() {
    let s = signal(0.9, 0.8, 0.7, 9000);
    assert_eq!(base_score(&s), 82_500_000_000);
    let only_graph = signal(1.0, 0.0, 0.0, 0);
    assert_eq!(base_score(&only_graph), 45 * SCORE_ONE as u64);
}

#[test]
fn half_basis_point_rounds_up() {
    // base 0.00005 at full confidence is exactly half a basis point
    let s = RiskSignal {
        graph_score: 0,
        timeseries_score: 0,
        cross_chain_score: 250_000,
        reporter_confidence_bps: 10_000,
    };
    assert_eq!(aggregate_signal(&s).unwrap().weighted_score_bps, 1);
    let below = RiskSignal { cross_chain_score: 249_999, ..s };
    assert_eq!(aggregate_signal(&below).unwrap().weighted_score_bps, 0);
}

#[test]
fn raising_a_sub_score_never_lowers_the_score() {
    let mut previous = 0;
    for step in 0..=10 {
        let g = step as f64 / 10.0;
        let out = aggregate_signal(&signal(g, 0.3, 0.6, 6500)).unwrap();
        assert!(out.weighted_score_bps >= previous);
        previous = out.weighted_score_bps;
    }
}

#[test]
fn level_boundaries() {
    assert_eq!(score_to_level(0), RiskLevel::Low);
    assert_eq!(score_to_level(3999), RiskLevel::Low);
    assert_eq!(score_to_level(4000), RiskLevel::Medium);
    assert_eq!(score_to_level(5999), RiskLevel::Medium);
    assert_eq!(score_to_level(6000), RiskLevel::High);
    assert_eq!(score_to_level(7999), RiskLevel::High);
    assert_eq!(score_to_level(8000), RiskLevel::Critical);
    assert_eq!(score_to_level(u16::MAX), RiskLevel::Critical);
}
