//! What one decision cycle hands back.
use vstd::prelude::*;
use vstd::string::*;

verus! {

/// Result of one decision cycle. Rates are in mU/h, insulin in mU, glucose in
/// mg/dL, durations in minutes, ratios in thousandths.
#[derive(Debug, Clone)]
pub struct DetermineBasalResult {
    /// Recommended temp basal rate (mU/h).
    pub rate: Option<u32>,
    /// Recommended temp basal duration (minutes).
    pub duration: Option<u32>,
    /// Why the decision was taken.
    pub reason: String,
    /// Carbs on board (grams).
    pub cob: u32,
    /// Insulin on board (mU).
    pub iob: i64,
    /// Predicted eventual glucose (mg/dL).
    pub eventual_bg: i64,
    /// Insulin needed to reach target (mU).
    pub insulin_req: Option<i64>,
    /// Supplemental bolus to deliver (mU).
    pub units: Option<u32>,
    /// Glucose change since the previous reading, signed ("+3", "-2").
    pub tick: Option<String>,
    /// Error message when the cycle failed.
    pub error: Option<String>,
    /// Delivery time of the temp basal.
    pub deliver_at: Option<String>,
    /// Sensitivity ratio used (thousandths).
    pub sensitivity_ratio: Option<u32>,
    /// Sensitivity after the ratio (mg/dL per unit).
    pub variable_sens: Option<u32>,
    /// Predicted glucose (mg/dL, every 5 minutes).
    pub predicted_bg: Option<Vec<i64>>,
    /// Prediction with unannounced meals.
    pub pred_bgs_uam: Option<Vec<i64>>,
    /// Prediction from insulin alone.
    pub pred_bgs_iob: Option<Vec<i64>>,
    /// Prediction under a zero temp basal.
    pub pred_bgs_zt: Option<Vec<i64>>,
    /// Prediction with carbs on board.
    pub pred_bgs_cob: Option<Vec<i64>>,
    /// Age of the current glucose reading (minutes).
    pub bg_mins_ago: Option<i64>,
    /// Target glucose used.
    pub target_bg: Option<u32>,
    /// Whether supplemental boluses were enabled.
    pub smb_enabled: Option<bool>,
    /// Carbs required (grams).
    pub carbs_req: Option<u32>,
    /// Low-glucose threshold used.
    pub threshold: Option<u32>,
}

impl DetermineBasalResult {
    /// No dosing field is set.
    pub open spec fn no_dosing(&self) -> bool {
        &&& self.rate.is_none()
        &&& self.duration.is_none()
        &&& self.units.is_none()
        &&& self.insulin_req.is_none()
    }

    /// An error result carries no recommendation.
    pub open spec fn well_formed(&self) -> bool {
        self.error.is_some() ==> self.no_dosing()
    }

    /// Every field but the dosing ones, the reason and the error is unset.
    pub open spec fn context_unset(&self) -> bool {
        &&& self.cob == 0
        &&& self.iob == 0
        &&& self.eventual_bg == 0
        &&& self.tick.is_none()
        &&& self.deliver_at.is_none()
        &&& self.sensitivity_ratio.is_none()
        &&& self.variable_sens.is_none()
        &&& self.predicted_bg.is_none()
        &&& self.pred_bgs_uam.is_none()
        &&& self.pred_bgs_iob.is_none()
        &&& self.pred_bgs_zt.is_none()
        &&& self.pred_bgs_cob.is_none()
        &&& self.bg_mins_ago.is_none()
        &&& self.target_bg.is_none()
        &&& self.smb_enabled.is_none()
        &&& self.carbs_req.is_none()
        &&& self.threshold.is_none()
    }

    /// An error-tagged result with every other field at its default.
    pub fn error(message: &str) -> (r: DetermineBasalResult)
        ensures
            r.error is Some,
            r.error->Some_0@ == message@,
            r.reason@.len() == 0,
            r.no_dosing(),
            r.context_unset(),
            r.well_formed(),
    {
        let mut r = DetermineBasalResult::default();
        r.error = Some(String::from_str(message));
        r
    }

    /// A temp basal recommendation.
    pub fn temp_basal(rate: u32, duration: u32, reason: &str) -> (r: DetermineBasalResult)
        ensures
            r.rate == Some(rate),
            r.duration == Some(duration),
            r.units.is_none(),
            r.insulin_req.is_none(),
            r.error.is_none(),
            r.reason@ == reason@,
            r.context_unset(),
            r.well_formed(),
    {
        let mut r = DetermineBasalResult::default();
        r.rate = Some(rate);
        r.duration = Some(duration);
        r.reason = String::from_str(reason);
        r
    }

    /// A supplemental bolus together with a temp basal.
    pub fn smb(units: u32, rate: u32, duration: u32, reason: &str) -> (r: DetermineBasalResult)
        ensures
            r.units == Some(units),
            r.rate == Some(rate),
            r.duration == Some(duration),
            r.insulin_req.is_none(),
            r.error.is_none(),
            r.reason@ == reason@,
            r.context_unset(),
            r.well_formed(),
    {
        let mut r = DetermineBasalResult::default();
        r.units = Some(units);
        r.rate = Some(rate);
        r.duration = Some(duration);
        r.reason = String::from_str(reason);
        r
    }

    /// No change this cycle.
    pub fn no_action(reason: &str) -> (r: DetermineBasalResult)
        ensures
            r.no_dosing(),
            r.error.is_none(),
            r.reason@ == reason@,
            r.context_unset(),
            r.well_formed(),
    {
        let mut r = DetermineBasalResult::default();
        r.reason = String::from_str(reason);
        r
    }

    /// Whether a positive supplemental bolus is recommended.
    pub fn has_smb(&self) -> (r: bool)
        ensures
            r == (self.units is Some && self.units->Some_0 > 0),
    {
        match self.units {
            Some(u) => u > 0,
            None => false,
        }
    }

    /// Whether a temp basal is recommended.
    pub fn has_temp(&self) -> (r: bool)
        ensures
            r == (self.rate is Some && self.duration is Some),
    {
        self.rate.is_some() && self.duration.is_some()
    }

    /// Whether the cycle failed.
    pub fn has_error(&self) -> (r: bool)
        ensures
            r == self.error is Some,
    {
        self.error.is_some()
    }
}

impl Default for DetermineBasalResult {
    fn default() -> (r: DetermineBasalResult)
        ensures
            r.reason@.len() == 0,
            r.error.is_none(),
            r.no_dosing(),
            r.context_unset(),
    {
        DetermineBasalResult {
            rate: None,
            duration: None,
            reason: String::new(),
            cob: 0,
            iob: 0,
            eventual_bg: 0,
            insulin_req: None,
            units: None,
            tick: None,
            error: None,
            deliver_at: None,
            sensitivity_ratio: None,
            variable_sens: None,
            predicted_bg: None,
            pred_bgs_uam: None,
            pred_bgs_iob: None,
            pred_bgs_zt: None,
            pred_bgs_cob: None,
            bg_mins_ago: None,
            target_bg: None,
            smb_enabled: None,
            carbs_req: None,
            threshold: None,
        }
    }
}

/// A temp basal recommendation on its own.
#[derive(Debug, Clone)]
pub struct TempBasalRecommendation {
    /// Rate (mU/h).
    pub rate: u32,
    /// Duration (minutes).
    pub duration: u32,
    /// Why it is recommended.
    pub reason: String,
}

impl TempBasalRecommendation {
    /// A recommendation of `rate` for `duration` minutes.
    pub fn new(rate: u32, duration: u32, reason: &str) -> (r: TempBasalRecommendation)
        ensures
            r.rate == rate,
            r.duration == duration,
            r.reason@ == reason@,
    {
        TempBasalRecommendation { rate, duration, reason: String::from_str(reason) }
    }

    /// A zero temp basal for `duration` minutes.
    pub fn zero(duration: u32, reason: &str) -> (r: TempBasalRecommendation)
        ensures
            r.rate == 0,
            r.duration == duration,
            r.reason@ == reason@,
    {
        TempBasalRecommendation::new(0, duration, reason)
    }
}

} // verus!
