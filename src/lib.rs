//! Closed-loop insulin dosing decisions: insulin curves, insulin and carbs on
//! board, sensitivity drift and the per-cycle basal / bolus decision.
//!
//! Quantities are fixed-point integers: insulin in milliunits (mU), rates in
//! milliunits per hour, glucose in mg/dL, times in minutes, ratios in
//! thousandths.
pub mod autosens;
pub mod cob;
pub mod curve_model;
pub mod curves;
pub mod determine;
pub mod deviation;
pub mod error;
pub mod iob;
pub mod output;
pub mod treatment;

pub use curves::InsulinCurve;
pub use determine::{determine_basal, CurrentTemp, CycleInput, Profile};
pub use deviation::DeviationSample;
pub use error::OrefError;
pub use iob::{calculate_iob, IobResult};
pub use output::{DetermineBasalResult, TempBasalRecommendation};
pub use treatment::{CobResult, GlucoseReading, Treatment};
