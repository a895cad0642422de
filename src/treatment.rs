//! Recorded treatments and glucose readings.
use vstd::prelude::*;

verus! {

/// One recorded treatment. Times are in minutes on the caller's clock.
#[derive(Debug, Clone, Copy, PartialEq, Eq, Structural)]
pub enum Treatment {
    /// A bolus of `amount` mU.
    Bolus { amount: u32, date: i64 },
    /// A temporary basal of `rate` mU/h running for `duration` minutes.
    TempBasal { rate: u32, duration: u16, date: i64 },
    /// A carbohydrate entry of `grams`.
    Carbs { grams: u16, date: i64 },
}

/// One glucose reading, in mg/dL.
#[derive(Debug, Clone, Copy, PartialEq, Eq, Structural)]
pub struct GlucoseReading {
    pub glucose: u32,
    pub date: i64,
}

/// Carbs on board at one instant.
#[derive(Debug, Clone, Copy, PartialEq, Eq, Structural)]
pub struct CobResult {
    /// Carbs not yet absorbed (grams).
    pub cob: u16,
    /// Glucose rise attributed to carbs over the last interval (mg/dL per 5 minutes).
    pub carb_impact: u16,
}

} // verus!
