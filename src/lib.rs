//! Fraud-risk scoring: validates a reporter's signal, folds its three
//! sub-scores into one confidence-dampened score in basis points, and
//! classifies that score into a risk level.
//!
//! Sub-scores are fixed-point numbers in billionths (`SCORE_ONE` stands for
//! 1.0), so every step of the computation is exact integer arithmetic.

pub mod classify;
pub mod engine;
pub mod laws;
pub mod types;

pub use classify::score_to_level;
pub use engine::{aggregate_signal, validate};
pub use types::{EngineError, FraudAssessment, RiskLevel, RiskSignal};
