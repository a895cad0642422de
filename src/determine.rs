//! The per-cycle decision: predictions, safety gate, temp basal and
//! supplemental bolus sizing, and the reason trace.
use vstd::prelude::*;
use vstd::string::*;
use crate::curve_model::{lemma_remaining_bounds, remaining, remaining_fraction, ONE};
use crate::curves::InsulinCurve;
use crate::deviation::lemma_div_le;
use crate::error::OrefError;
use crate::output::DetermineBasalResult;
use crate::treatment::{CobResult, GlucoseReading};

verus! {

/// A reading older than this many minutes is stale.
pub const FRESHNESS: i64 = 9;
/// Duration of every recommended temp basal (minutes).
pub const TEMP_DURATION: u32 = 30;
/// Rate differences (mU/h) below this keep the running temp.
pub const HYSTERESIS: u64 = 50;
/// Smallest supplemental bolus worth delivering (mU).
pub const SMB_MIN: u32 = 50;
/// Minutes over which carbs on board are predicted to be absorbed.
pub const CARB_HORIZON: u64 = 180;
/// Five-minute steps for which an unexplained rise is predicted to continue.
pub const UAM_STEPS: u64 = 12;

/// The profile values in force for this cycle; schedules have already been
/// looked up by the caller.
#[derive(Debug, Clone, Copy, PartialEq, Eq, Structural)]
pub struct Profile {
    /// Duration of insulin action (minutes).
    pub dia: u16,
    pub curve: InsulinCurve,
    pub use_custom_peak: bool,
    pub insulin_peak_time: u32,
    /// Insulin sensitivity (mg/dL per unit).
    pub sens: u16,
    /// Carb ratio (grams per unit).
    pub carb_ratio: u16,
    /// Scheduled basal (mU/h).
    pub current_basal: u32,
    /// Highest temp basal allowed (mU/h).
    pub max_basal: u32,
    /// Highest scheduled basal of the day (mU/h).
    pub max_daily_basal: u32,
    pub max_daily_safety_multiplier: u32,
    pub current_basal_safety_multiplier: u32,
    /// Highest insulin on board allowed (mU).
    pub max_iob: u32,
    pub enable_smb: bool,
    /// Largest supplemental bolus per cycle (mU).
    pub max_smb: u32,
    pub enable_uam: bool,
    /// Low-glucose threshold (mg/dL).
    pub threshold: u32,
    /// Target glucose (mg/dL).
    pub target_bg: u32,
    /// Bounds of the sensitivity ratio (thousandths).
    pub autosens_min: u32,
    pub autosens_max: u32,
}

/// The constraints a profile must meet.
pub open spec fn profile_valid(p: Profile) -> bool {
    &&& p.dia >= 60 * p.curve.spec_min_dia()
    &&& p.sens > 0
    &&& p.carb_ratio > 0
    &&& p.autosens_min <= p.autosens_max
}

impl Profile {
    /// Checks the profile: the duration of action must reach the curve's
    /// minimum, sensitivity and carb ratio must be positive, and the ratio
    /// bounds must be ordered. A custom peak is never an error: it is
    /// clamped where it is used.
    pub fn validate(&self) -> (r: Result<(), OrefError>)
        ensures
            r is Ok <==> profile_valid(*self),
            self.dia < 60 * self.curve.spec_min_dia() ==> (r->Err_0 matches OrefError::OutOfRange {
                field: f,
                value: v,
                min: lo,
                max: hi,
            } && f@ == "dia"@ && v == self.dia && lo == 60 * self.curve.spec_min_dia() && hi
                == 65535),
            self.dia >= 60 * self.curve.spec_min_dia() && (self.sens == 0 || self.carb_ratio == 0)
                ==> r->Err_0 is InvalidProfile,
            self.dia >= 60 * self.curve.spec_min_dia() && self.sens > 0 && self.carb_ratio > 0
                && self.autosens_min > self.autosens_max ==> (r->Err_0 matches OrefError::OutOfRange {
                field: f,
                value: v,
                min: lo,
                max: hi,
            } && f@ == "autosens_min"@ && v == self.autosens_min && lo == 0 && hi
                == self.autosens_max),
    {
        let least = 60 * self.curve.min_dia();
        if (self.dia as u32) < least {
            return Err(OrefError::out_of_range("dia", self.dia as i64, least as i64, 65535));
        }
        if self.sens == 0 || self.carb_ratio == 0 {
            return Err(
                OrefError::InvalidProfile(String::from_str("sensitivity and carb ratio must be positive")),
            );
        }
        if self.autosens_min > self.autosens_max {
            return Err(
                OrefError::out_of_range(
                    "autosens_min",
                    self.autosens_min as i64,
                    0,
                    self.autosens_max as i64,
                ),
            );
        }
        Ok(())
    }
}

/// The temp basal running now.
#[derive(Debug, Clone, Copy, PartialEq, Eq, Structural)]
pub struct CurrentTemp {
    /// Rate (mU/h).
    pub rate: u32,
    /// Minutes left.
    pub duration: u32,
}

/// What one cycle decides on.
#[derive(Debug, Clone)]
pub struct CycleInput {
    /// Glucose history, oldest first.
    pub glucose: Vec<GlucoseReading>,
    pub current_temp: Option<CurrentTemp>,
    /// Insulin on board (mU).
    pub iob: u32,
    pub meal: CobResult,
    /// Sensitivity ratio (thousandths).
    pub autosens_ratio: u32,
    /// Current time (minutes).
    pub now: i64,
}

/// What `i64`'s `to_string` makes of a number.
pub uninterp spec fn decimal_of(n: int) -> Seq<char>;

/// Relies on `i64`'s `to_string`: the decimal text depends on the number alone.
#[verifier::external_body]
fn decimal(n: i64) -> (r: String)
    ensures
        r@ == decimal_of(n as int),
{
    n.to_string()
}

pub open spec fn min2(a: int, b: int) -> int {
    if a <= b {
        a
    } else {
        b
    }
}

pub open spec fn clamp(x: int, lo: int, hi: int) -> int {
    if x < lo {
        lo
    } else if x > hi {
        hi
    } else {
        x
    }
}

/// Sensitivity after the ratio (mg/dL per unit).
pub open spec fn spec_variable_sens(sens: int, ratio: int) -> int {
    sens * 1000 / ratio
}

/// Insulin (mU) that brings `eventual` to `target`, rounded toward zero.
pub open spec fn spec_insulin_req(eventual: int, target: int, vs: int) -> int {
    if eventual >= target {
        (eventual - target) * 1000 / vs
    } else {
        -((target - eventual) * 1000 / vs)
    }
}

/// Highest rate any recommendation may have (mU/h).
pub open spec fn spec_max_rate(p: Profile) -> int {
    min2(
        p.max_basal as int,
        min2(
            p.max_daily_basal * p.max_daily_safety_multiplier,
            p.current_basal * p.current_basal_safety_multiplier,
        ),
    )
}

/// Scheduled basal with the requirement spread over half an hour, clamped.
pub open spec fn spec_temp_rate(basal: int, req: int, max_rate: int) -> int {
    clamp(basal + 2 * req, 0, max_rate)
}

/// Supplemental bolus for a requirement of `req` mU with `iob` mU on board.
pub open spec fn spec_smb(req: int, iob: int, p: Profile) -> Option<u32> {
    if p.enable_smb && req > 0 && iob < p.max_iob {
        let s = min2(req / 2, min2(p.max_smb as int, p.max_iob - iob));
        if s >= SMB_MIN {
            Some(s as u32)
        } else {
            None
        }
    } else {
        None
    }
}

pub open spec fn steps(p: Profile) -> int {
    p.dia as int / 5
}

pub open spec fn current_bg(inp: CycleInput) -> int {
    inp.glucose@.last().glucose as int
}

pub open spec fn vs_of(inp: CycleInput, p: Profile) -> int {
    spec_variable_sens(p.sens as int, inp.autosens_ratio as int)
}

/// Glucose drop (mg/dL) from insulin on board after `k` steps.
pub open spec fn insulin_effect(inp: CycleInput, p: Profile, k: int) -> int {
    inp.iob * vs_of(inp, p) * (ONE - remaining(5 * k, p.dia as int)) / (1000 * ONE)
}

/// Glucose rise (mg/dL) from carbs on board after `k` steps.
pub open spec fn carb_effect(inp: CycleInput, p: Profile, k: int) -> int {
    inp.meal.cob * vs_of(inp, p) * min2(5 * k, CARB_HORIZON as int) / (p.carb_ratio
        * CARB_HORIZON)
}

/// Glucose rise (mg/dL) from an unexplained rise going on after `k` steps.
pub open spec fn uam_effect(inp: CycleInput, p: Profile, k: int) -> int {
    if p.enable_uam {
        inp.meal.carb_impact * min2(k, UAM_STEPS as int)
    } else {
        0
    }
}

/// Glucose rise (mg/dL) from withholding the scheduled basal for `k` steps.
pub open spec fn zero_temp_effect(inp: CycleInput, p: Profile, k: int) -> int {
    p.current_basal * (5 * k) * vs_of(inp, p) / 60_000
}

pub open spec fn pred_iob(inp: CycleInput, p: Profile, k: int) -> int {
    current_bg(inp) - insulin_effect(inp, p, k)
}

pub open spec fn pred_cob(inp: CycleInput, p: Profile, k: int) -> int {
    pred_iob(inp, p, k) + carb_effect(inp, p, k)
}

pub open spec fn pred_uam(inp: CycleInput, p: Profile, k: int) -> int {
    pred_iob(inp, p, k) + uam_effect(inp, p, k)
}

pub open spec fn pred_zt(inp: CycleInput, p: Profile, k: int) -> int {
    pred_iob(inp, p, k) + zero_temp_effect(inp, p, k)
}

/// Lowest of the four predictions at step `k`.
pub open spec fn guard_at(inp: CycleInput, p: Profile, k: int) -> int {
    min2(
        min2(pred_iob(inp, p, k), pred_cob(inp, p, k)),
        min2(pred_uam(inp, p, k), pred_zt(inp, p, k)),
    )
}

/// Lowest predicted glucose over steps `0..=k`.
pub open spec fn min_guard_upto(inp: CycleInput, p: Profile, k: nat) -> int
    decreases k,
{
    if k == 0 {
        guard_at(inp, p, 0)
    } else {
        min2(min_guard_upto(inp, p, (k - 1) as nat), guard_at(inp, p, k as int))
    }
}

pub open spec fn min_guard(inp: CycleInput, p: Profile) -> int {
    min_guard_upto(inp, p, steps(p) as nat)
}

pub open spec fn eventual_bg(inp: CycleInput, p: Profile) -> int {
    if inp.meal.cob > 0 {
        pred_cob(inp, p, steps(p))
    } else {
        pred_iob(inp, p, steps(p))
    }
}

pub open spec fn insulin_req(inp: CycleInput, p: Profile) -> int {
    spec_insulin_req(eventual_bg(inp, p), p.target_bg as int, vs_of(inp, p))
}

/// Whether current or predicted glucose breaks the low threshold.
pub open spec fn below_threshold(inp: CycleInput, p: Profile) -> bool {
    current_bg(inp) < p.threshold || min_guard(inp, p) < p.threshold
}

pub open spec fn candidate_rate(inp: CycleInput, p: Profile) -> int {
    spec_temp_rate(p.current_basal as int, insulin_req(inp, p), spec_max_rate(p))
}

pub open spec fn running_rate(inp: CycleInput, p: Profile) -> int {
    match inp.current_temp {
        Some(t) => t.rate as int,
        None => p.current_basal as int,
    }
}

pub open spec fn smb_of(inp: CycleInput, p: Profile) -> Option<u32> {
    spec_smb(insulin_req(inp, p), inp.iob as int, p)
}

/// The message of the error the cycle ends in, if any.
pub open spec fn input_error(inp: CycleInput, p: Profile) -> Option<Seq<char>> {
    if inp.glucose@.len() == 0 {
        Some("missing glucose data"@)
    } else if inp.now - inp.glucose@.last().date > FRESHNESS {
        Some("stale glucose"@)
    } else if p.sens == 0 || p.carb_ratio == 0 || p.dia < 60 * p.curve.spec_min_dia() {
        Some("invalid profile"@)
    } else if inp.autosens_ratio == 0 || vs_of(inp, p) == 0 {
        Some("invalid sensitivity ratio"@)
    } else {
        None
    }
}

/// The dosing branch taken: 0 threshold breach, 1 supplemental bolus,
/// 2 no change, 3 new temp basal.
pub open spec fn branch(inp: CycleInput, p: Profile) -> int {
    if below_threshold(inp, p) {
        0
    } else if smb_of(inp, p) is Some {
        1
    } else if -(HYSTERESIS as int) < candidate_rate(inp, p) - running_rate(inp, p) < HYSTERESIS {
        2
    } else {
        3
    }
}

pub open spec fn branch_label(b: int) -> Seq<char> {
    if b == 0 {
        "BG below threshold: zero temp. "@
    } else if b == 1 {
        "SMB with temp basal. "@
    } else if b == 2 {
        "no change. "@
    } else {
        "temp basal. "@
    }
}

/// The ordered reason trace.
pub open spec fn trace(
    label: Seq<char>,
    iob: int,
    cob: int,
    ev: int,
    target: int,
    ratio: int,
) -> Seq<char> {
    label + "IOB "@ + decimal_of(iob) + ", COB "@ + decimal_of(cob) + ", eventual BG "@
        + decimal_of(ev) + ", target "@ + decimal_of(target) + ", ratio "@ + decimal_of(ratio)
}

pub open spec fn spec_tick(g: Seq<GlucoseReading>) -> Option<Seq<char>> {
    if g.len() < 2 {
        None
    } else {
        let d = g.last().glucose - g[g.len() - 2].glucose;
        if d >= 0 {
            Some("+"@ + decimal_of(d))
        } else {
            Some(decimal_of(d))
        }
    }
}

pub open spec fn pred_seq(inp: CycleInput, p: Profile, which: int) -> Seq<i64> {
    Seq::new(
        (steps(p) + 1) as nat,
        |k: int|
            (if which == 0 {
                pred_iob(inp, p, k)
            } else if which == 1 {
                pred_cob(inp, p, k)
            } else if which == 2 {
                pred_uam(inp, p, k)
            } else {
                pred_zt(inp, p, k)
            }) as i64,
    )
}

pub open spec fn holds_seq(v: Option<Vec<i64>>, s: Seq<i64>) -> bool {
    v is Some && v->Some_0@ == s
}

/// The complete result of a cycle on `inp` under profile `p`.
pub open spec fn decided(inp: CycleInput, p: Profile, r: DetermineBasalResult) -> bool {
    match input_error(inp, p) {
        Some(m) => {
            &&& r.error is Some
            &&& r.error->Some_0@ == m
            &&& r.reason@.len() == 0
            &&& r.no_dosing()
            &&& r.context_unset()
        },
        None => {
            let b = branch(inp, p);
            let ev = eventual_bg(inp, p);
            &&& r.error is None
            &&& r.rate == (if b == 0 {
                Some(0u32)
            } else if b == 2 {
                None
            } else {
                Some(candidate_rate(inp, p) as u32)
            })
            &&& r.duration == (if b == 2 {
                None
            } else {
                Some(TEMP_DURATION)
            })
            &&& r.units == (if b == 1 {
                smb_of(inp, p)
            } else {
                None
            })
            &&& r.insulin_req == (if b == 0 {
                None
            } else {
                Some(insulin_req(inp, p) as i64)
            })
            &&& r.reason@ == trace(
                branch_label(b),
                inp.iob as int,
                inp.meal.cob as int,
                ev,
                p.target_bg as int,
                inp.autosens_ratio as int,
            )
            &&& r.cob == inp.meal.cob
            &&& r.iob == inp.iob
            &&& r.eventual_bg == ev
            &&& r.tick.is_some() == spec_tick(inp.glucose@).is_some()
            &&& (r.tick is Some ==> r.tick->Some_0@ == spec_tick(inp.glucose@)->Some_0)
            &&& r.deliver_at is None
            &&& r.sensitivity_ratio == Some(inp.autosens_ratio)
            &&& r.variable_sens == Some(vs_of(inp, p) as u32)
            &&& holds_seq(r.predicted_bg, pred_seq(inp, p, 1))
            &&& holds_seq(r.pred_bgs_iob, pred_seq(inp, p, 0))
            &&& holds_seq(r.pred_bgs_cob, pred_seq(inp, p, 1))
            &&& holds_seq(r.pred_bgs_uam, pred_seq(inp, p, 2))
            &&& holds_seq(r.pred_bgs_zt, pred_seq(inp, p, 3))
            &&& r.bg_mins_ago == Some((inp.now - inp.glucose@.last().date) as i64)
            &&& r.target_bg == Some(p.target_bg)
            &&& r.smb_enabled == Some(p.enable_smb)
            &&& r.carbs_req is None
            &&& r.threshold == Some(p.threshold)
        },
    }
}

/// Sensitivity after the ratio (mg/dL per unit).
pub fn variable_sens(sens: u16, ratio: u32) -> (r: u32)
    requires
        ratio > 0,
    ensures
        r == spec_variable_sens(sens as int, ratio as int),
        r <= 65_535_000,
{
    proof {
        assert(sens * 1000 <= 65_535_000 * ratio) by (nonlinear_arith)
            requires
                sens <= 65535,
                ratio >= 1,
        ;
        lemma_div_le(sens * 1000, ratio as int, 65_535_000);
    }
    (sens as u32 * 1000) / ratio
}

/// Insulin (mU) that brings `eventual` to `target` at sensitivity `vs`,
/// rounded toward zero; negative when glucose is heading below target.
pub fn insulin_required(eventual: i64, target: u32, vs: u32) -> (r: i64)
    requires
        vs > 0,
        -0x4_0000_0000_0000 <= eventual <= 0x4_0000_0000_0000,
    ensures
        r == spec_insulin_req(eventual as int, target as int, vs as int),
        -0x2000_0000_0000_0000 <= r <= 0x2000_0000_0000_0000,
{
    if eventual >= target as i64 {
        let x = (eventual - target as i64) as u64 * 1000;
        proof {
            assert(x <= 0x2000_0000_0000_0000 * vs) by (nonlinear_arith)
                requires
                    x <= 0x2000_0000_0000_0000,
                    vs >= 1,
            ;
            lemma_div_le(x as int, vs as int, 0x2000_0000_0000_0000);
        }
        (x / vs as u64) as i64
    } else {
        let x = (target as i64 - eventual) as u64 * 1000;
        proof {
            assert(x <= 0x2000_0000_0000_0000 * vs) by (nonlinear_arith)
                requires
                    x <= 0x2000_0000_0000_0000,
                    vs >= 1,
            ;
            lemma_div_le(x as int, vs as int, 0x2000_0000_0000_0000);
        }
        -((x / vs as u64) as i64)
    }
}

/// Highest rate any recommendation may have (mU/h).
pub fn max_safe_rate(p: &Profile) -> (r: u32)
    ensures
        r == spec_max_rate(*p),
        r <= p.max_basal,
{
    assert(p.max_daily_basal * p.max_daily_safety_multiplier <= 0xFFFF_FFFF * 0xFFFF_FFFF)
        by (nonlinear_arith)
        requires
            p.max_daily_basal <= 0xFFFF_FFFF,
            p.max_daily_safety_multiplier <= 0xFFFF_FFFF,
    ;
    assert(p.current_basal * p.current_basal_safety_multiplier <= 0xFFFF_FFFF * 0xFFFF_FFFF)
        by (nonlinear_arith)
        requires
            p.current_basal <= 0xFFFF_FFFF,
            p.current_basal_safety_multiplier <= 0xFFFF_FFFF,
    ;
    let daily = p.max_daily_basal as u64 * p.max_daily_safety_multiplier as u64;
    let current = p.current_basal as u64 * p.current_basal_safety_multiplier as u64;
    let m = if daily <= current {
        daily
    } else {
        current
    };
    if (p.max_basal as u64) <= m {
        p.max_basal
    } else {
        m as u32
    }
}

/// Temp basal rate (mU/h): `basal` plus `req` spread over half an hour,
/// clamped to `[0, max_rate]`.
pub fn temp_rate(basal: u32, req: i64, max_rate: u32) -> (r: u32)
    ensures
        r == spec_temp_rate(basal as int, req as int, max_rate as int),
        r <= max_rate,
{
    let c = basal as i128 + 2 * req as i128;
    if c < 0 {
        0
    } else if c > max_rate as i128 {
        max_rate
    } else {
        c as u32
    }
}

/// Supplemental bolus (mU) for a requirement of `req` mU with `iob` mU on
/// board: half the requirement, within the per-cycle maximum and the room
/// left under the maximum insulin on board; none when disabled, when nothing
/// is required, or when it comes out under the smallest worthwhile dose.
pub fn smb_size(req: i64, iob: u32, p: &Profile) -> (r: Option<u32>)
    ensures
        r == spec_smb(req as int, iob as int, *p),
        r is Some ==> r->Some_0 <= p.max_smb && r->Some_0 + iob <= p.max_iob,
{
    if p.enable_smb && req > 0 && iob < p.max_iob {
        let half = (req as u64) / 2;
        let room = p.max_iob - iob;
        let lim = if p.max_smb <= room {
            p.max_smb
        } else {
            room
        };
        let s = if half <= lim as u64 {
            half as u32
        } else {
            lim
        };
        if s >= SMB_MIN {
            Some(s)
        } else {
            None
        }
    } else {
        None
    }
}

/// The four predictions at step `k`.
fn predict_at(inp: &CycleInput, p: &Profile, vs: u32, k: u16) -> (r: (i64, i64, i64, i64))
    requires
        inp.glucose@.len() > 0,
        p.dia >= 180,
        p.carb_ratio > 0,
        vs == vs_of(*inp, *p),
        vs <= 65_535_000,
        k as int <= steps(*p),
    ensures
        r.0 == pred_iob(*inp, *p, k as int),
        r.1 == pred_cob(*inp, *p, k as int),
        r.2 == pred_uam(*inp, *p, k as int),
        r.3 == pred_zt(*inp, *p, k as int),
        -0x1_0000_0000_0000 <= r.0 <= 0x1_0000_0000,
        -0x1_0000_0000_0000 <= r.1 <= 0x1000_0000_0000,
{
    let bg = inp.glucose[inp.glucose.len() - 1].glucose;
    let t: i64 = 5 * k as i64;
    let rem = remaining_fraction(t, p.dia as u32);
    let iob = inp.iob;
    let cob = inp.meal.cob;
    let ci = inp.meal.carb_impact;
    assert(iob as u128 * vs as u128 <= 0x1_0000_0000 * 65_535_000) by (nonlinear_arith)
        requires
            iob < 0x1_0000_0000,
            vs <= 65_535_000,
    ;
    let a_ins = iob as u128 * vs as u128;
    let f_ins = (ONE - rem) as u128;
    assert(a_ins * f_ins <= 0x1_0000_0000 * 65_535_000 * 1_000_000) by (nonlinear_arith)
        requires
            a_ins <= 0x1_0000_0000 * 65_535_000,
            0 <= f_ins <= 1_000_000,
    ;
    let x_ins = a_ins * f_ins;
    proof {
        assert(x_ins <= 0x1_0000_0000_0000 * (1000 * ONE)) by (nonlinear_arith)
            requires
                iob < 0x1_0000_0000,
                vs <= 65_535_000,
                ONE - rem <= ONE,
                x_ins == iob * vs * (ONE - rem),
                x_ins == a_ins * f_ins,
                a_ins == iob * vs,
                f_ins == ONE - rem,
                ONE == 1_000_000,
        ;
        lemma_div_le(x_ins as int, (1000 * ONE) as int, 0x1_0000_0000_0000);
    }
    let ins = (x_ins / (1000 * ONE as u128)) as i64;
    let tc: u64 = if (t as u64) < CARB_HORIZON {
        t as u64
    } else {
        CARB_HORIZON
    };
    assert(cob as u128 * vs as u128 <= 65535 * 65_535_000) by (nonlinear_arith)
        requires
            cob <= 65535,
            vs <= 65_535_000,
    ;
    let a_carb = cob as u128 * vs as u128;
    assert(a_carb * tc as u128 <= 65535 * 65_535_000 * 180) by (nonlinear_arith)
        requires
            a_carb <= 65535 * 65_535_000,
            tc <= 180,
    ;
    let x_carb = a_carb * tc as u128;
    let d_carb = p.carb_ratio as u128 * CARB_HORIZON as u128;
    proof {
        assert(x_carb <= 4_294_836_225_000 * d_carb) by (nonlinear_arith)
            requires
                cob <= 65535,
                vs <= 65_535_000,
                tc <= 180,
                x_carb == a_carb * tc,
                a_carb <= 65535 * 65_535_000,
                d_carb == p.carb_ratio * 180,
                p.carb_ratio >= 1,
        ;
        lemma_div_le(x_carb as int, d_carb as int, 4_294_836_225_000);
    }
    let carb = (x_carb / d_carb) as i64;
    let uam: i64 = if p.enable_uam {
        let kc: i64 = if (k as u64) < UAM_STEPS {
            k as i64
        } else {
            UAM_STEPS as i64
        };
        assert(ci as i64 * kc <= 65535 * 12) by (nonlinear_arith)
            requires
                0 <= ci <= 65535,
                0 <= kc <= 12,
        ;
        ci as i64 * kc
    } else {
        0
    };
    assert(p.current_basal as u128 * t as u128 <= 0xFFFF_FFFF * 65535) by (nonlinear_arith)
        requires
            p.current_basal <= 0xFFFF_FFFF,
            0 <= t <= 65535,
    ;
    let a_zt = p.current_basal as u128 * t as u128;
    assert(a_zt * vs as u128 <= 0xFFFF_FFFF * 65535 * 65_535_000) by (nonlinear_arith)
        requires
            a_zt <= 0xFFFF_FFFF * 65535,
            vs <= 65_535_000,
    ;
    let x_zt = a_zt * vs as u128;
    proof {
        assert(x_zt <= 0x800_0000_0000_0000 * 60_000) by (nonlinear_arith)
            requires
                p.current_basal < 0x1_0000_0000,
                0 <= t <= 65535,
                vs <= 65_535_000,
                x_zt == a_zt * vs,
                a_zt == p.current_basal * t,
        ;
        lemma_div_le(x_zt as int, 60_000, 0x800_0000_0000_0000);
    }
    let zt = (x_zt / 60_000) as i64;
    let pi = bg as i64 - ins;
    (pi, pi + carb, pi + uam, pi + zt)
}

fn min_i64(a: i64, b: i64) -> (r: i64)
    ensures
        r == min2(a as int, b as int),
{
    if a <= b {
        a
    } else {
        b
    }
}

/// Appends the decimal text of `n` to `s`.
fn push_decimal(s: &mut String, n: i64)
    ensures
        final(s)@ == old(s)@ + decimal_of(n as int),
{
    let d = decimal(n);
    s.append(d.as_str());
}

/// The ordered reason trace.
pub fn trace_text(label: &str, iob: i64, cob: i64, ev: i64, target: i64, ratio: i64) -> (r:
    String)
    ensures
        r@ == trace(label@, iob as int, cob as int, ev as int, target as int, ratio as int),
{
    let mut s = String::from_str(label);
    s.append("IOB ");
    push_decimal(&mut s, iob);
    s.append(", COB ");
    push_decimal(&mut s, cob);
    s.append(", eventual BG ");
    push_decimal(&mut s, ev);
    s.append(", target ");
    push_decimal(&mut s, target);
    s.append(", ratio ");
    push_decimal(&mut s, ratio);
    s
}

/// Glucose change since the previous reading, with its sign.
pub fn tick_of(g: &Vec<GlucoseReading>) -> (r: Option<String>)
    ensures
        r.is_some() == spec_tick(g@).is_some(),
        r is Some ==> r->Some_0@ == spec_tick(g@)->Some_0,
{
    let n = g.len();
    if n < 2 {
        None
    } else {
        let d = g[n - 1].glucose as i64 - g[n - 2].glucose as i64;
        if d >= 0 {
            let mut s = String::from_str("+");
            push_decimal(&mut s, d);
            Some(s)
        } else {
            Some(decimal(d))
        }
    }
}

/// Runs one decision cycle.
///
/// Fails, with every dosing field unset, when there is no glucose reading,
/// when the newest is more than `FRESHNESS` minutes old, when the profile is
/// invalid or when the sensitivity ratio leaves no usable sensitivity.
/// Otherwise it predicts four glucose trajectories every five minutes over the
/// duration of action; recommends a zero temp when current or predicted
/// glucose is under the threshold; else a supplemental bolus with a temp
/// basal, no change when the new rate is within `HYSTERESIS` of the running
/// one, or a new temp basal.
pub fn determine_basal(inp: &CycleInput, p: &Profile) -> (r: DetermineBasalResult)
    ensures
        decided(*inp, *p, r),
        r.well_formed(),
{
    let n = inp.glucose.len();
    if n == 0 {
        return DetermineBasalResult::error("missing glucose data");
    }
    let last = inp.glucose[n - 1];
    let age: i128 = inp.now as i128 - last.date as i128;
    if age > FRESHNESS as i128 {
        return DetermineBasalResult::error("stale glucose");
    }
    if p.sens == 0 || p.carb_ratio == 0 || (p.dia as u32) < 60 * p.curve.min_dia() {
        return DetermineBasalResult::error("invalid profile");
    }
    if inp.autosens_ratio == 0 {
        return DetermineBasalResult::error("invalid sensitivity ratio");
    }
    let vs = variable_sens(p.sens, inp.autosens_ratio);
    if vs == 0 {
        return DetermineBasalResult::error("invalid sensitivity ratio");
    }
    let ghost gi = *inp;
    let ghost gp = *p;
    let steps_n: u16 = p.dia / 5;
    let mut v_iob: Vec<i64> = Vec::new();
    let mut v_cob: Vec<i64> = Vec::new();
    let mut v_uam: Vec<i64> = Vec::new();
    let mut v_zt: Vec<i64> = Vec::new();
    let mut v_pred: Vec<i64> = Vec::new();
    let mut mg: i64 = 0;
    let mut k: u16 = 0;
    while k <= steps_n
        invariant
            gi == *inp,
            gp == *p,
            inp.glucose@.len() > 0,
            p.dia >= 180,
            p.carb_ratio > 0,
            vs == vs_of(gi, gp),
            vs <= 65_535_000,
            steps_n == steps(gp),
            k <= steps_n + 1,
            v_iob@ == pred_seq(gi, gp, 0).take(k as int),
            v_cob@ == pred_seq(gi, gp, 1).take(k as int),
            v_uam@ == pred_seq(gi, gp, 2).take(k as int),
            v_zt@ == pred_seq(gi, gp, 3).take(k as int),
            v_pred@ == pred_seq(gi, gp, 1).take(k as int),
            k > 0 ==> mg == min_guard_upto(gi, gp, (k - 1) as nat),
        decreases steps_n + 1 - k,
    {
        let (a, b, c, d) = predict_at(inp, p, vs, k);
        proof {
            assert(pred_seq(gi, gp, 0).take(k + 1) =~= pred_seq(gi, gp, 0).take(k as int).push(a));
            assert(pred_seq(gi, gp, 1).take(k + 1) =~= pred_seq(gi, gp, 1).take(k as int).push(b));
            assert(pred_seq(gi, gp, 2).take(k + 1) =~= pred_seq(gi, gp, 2).take(k as int).push(c));
            assert(pred_seq(gi, gp, 3).take(k + 1) =~= pred_seq(gi, gp, 3).take(k as int).push(d));
        }
        v_iob.push(a);
        v_cob.push(b);
        v_uam.push(c);
        v_zt.push(d);
        v_pred.push(b);
        let g = min_i64(min_i64(a, b), min_i64(c, d));
        if k == 0 {
            mg = g;
        } else {
            mg = min_i64(mg, g);
        }
        k = k + 1;
    }
    proof {
        assert(pred_seq(gi, gp, 0).take(k as int) =~= pred_seq(gi, gp, 0));
        assert(pred_seq(gi, gp, 1).take(k as int) =~= pred_seq(gi, gp, 1));
        assert(pred_seq(gi, gp, 2).take(k as int) =~= pred_seq(gi, gp, 2));
        assert(pred_seq(gi, gp, 3).take(k as int) =~= pred_seq(gi, gp, 3));
    }
    let (e_iob, e_cob, _, _) = predict_at(inp, p, vs, steps_n);
    let ev = if inp.meal.cob > 0 {
        e_cob
    } else {
        e_iob
    };
    let req = insulin_required(ev, p.target_bg, vs);
    let max_rate = max_safe_rate(p);
    let cand = temp_rate(p.current_basal, req, max_rate);
    let running: u32 = match inp.current_temp {
        Some(t) => t.rate,
        None => p.current_basal,
    };
    let smb = smb_size(req, inp.iob, p);
    let diff = cand as i64 - running as i64;
    let mut res = DetermineBasalResult::default();
    let label: &str;
    if last.glucose < p.threshold || mg < p.threshold as i64 {
        label = "BG below threshold: zero temp. ";
        res.rate = Some(0);
        res.duration = Some(TEMP_DURATION);
    } else {
        res.insulin_req = Some(req);
        if smb.is_some() {
            label = "SMB with temp basal. ";
            res.units = smb;
            res.rate = Some(cand);
            res.duration = Some(TEMP_DURATION);
        } else if -(HYSTERESIS as i64) < diff && diff < HYSTERESIS as i64 {
            label = "no change. ";
        } else {
            label = "temp basal. ";
            res.rate = Some(cand);
            res.duration = Some(TEMP_DURATION);
        }
    }
    res.reason = trace_text(
        label,
        inp.iob as i64,
        inp.meal.cob as i64,
        ev,
        p.target_bg as i64,
        inp.autosens_ratio as i64,
    );
    res.cob = inp.meal.cob as u32;
    res.iob = inp.iob as i64;
    res.eventual_bg = ev;
    res.tick = tick_of(&inp.glucose);
    res.sensitivity_ratio = Some(inp.autosens_ratio);
    res.variable_sens = Some(vs);
    res.predicted_bg = Some(v_pred);
    res.pred_bgs_iob = Some(v_iob);
    res.pred_bgs_cob = Some(v_cob);
    res.pred_bgs_uam = Some(v_uam);
    res.pred_bgs_zt = Some(v_zt);
    res.bg_mins_ago = Some(age as i64);
    res.target_bg = Some(p.target_bg);
    res.smb_enabled = Some(p.enable_smb);
    res.threshold = Some(p.threshold);
    res
}

/// A cycle is deterministic: two results of the same inputs agree field for
/// field.
pub proof fn lemma_deterministic(
    inp: CycleInput,
    p: Profile,
    r1: DetermineBasalResult,
    r2: DetermineBasalResult,
)
    requires
        decided(inp, p, r1),
        decided(inp, p, r2),
    ensures
        r1.rate == r2.rate,
        r1.duration == r2.duration,
        r1.units == r2.units,
        r1.insulin_req == r2.insulin_req,
        r1.reason@ == r2.reason@,
        r1.error.is_some() == r2.error.is_some(),
        r1.error is Some ==> r1.error->Some_0@ == r2.error->Some_0@,
        r1.cob == r2.cob,
        r1.iob == r2.iob,
        r1.eventual_bg == r2.eventual_bg,
        r1.tick.is_some() == r2.tick.is_some(),
        r1.tick is Some ==> r1.tick->Some_0@ == r2.tick->Some_0@,
        r1.deliver_at.is_some() == r2.deliver_at.is_some(),
        r1.sensitivity_ratio == r2.sensitivity_ratio,
        r1.variable_sens == r2.variable_sens,
        r1.predicted_bg.is_some() == r2.predicted_bg.is_some(),
        r1.predicted_bg is Some ==> r1.predicted_bg->Some_0@ == r2.predicted_bg->Some_0@,
        r1.pred_bgs_iob.is_some() == r2.pred_bgs_iob.is_some(),
        r1.pred_bgs_iob is Some ==> r1.pred_bgs_iob->Some_0@ == r2.pred_bgs_iob->Some_0@,
        r1.pred_bgs_cob.is_some() == r2.pred_bgs_cob.is_some(),
        r1.pred_bgs_cob is Some ==> r1.pred_bgs_cob->Some_0@ == r2.pred_bgs_cob->Some_0@,
        r1.pred_bgs_uam.is_some() == r2.pred_bgs_uam.is_some(),
        r1.pred_bgs_uam is Some ==> r1.pred_bgs_uam->Some_0@ == r2.pred_bgs_uam->Some_0@,
        r1.pred_bgs_zt.is_some() == r2.pred_bgs_zt.is_some(),
        r1.pred_bgs_zt is Some ==> r1.pred_bgs_zt->Some_0@ == r2.pred_bgs_zt->Some_0@,
        r1.bg_mins_ago == r2.bg_mins_ago,
        r1.target_bg == r2.target_bg,
        r1.smb_enabled == r2.smb_enabled,
        r1.carbs_req == r2.carbs_req,
        r1.threshold == r2.threshold,
{
}

/// While current glucose is under the threshold, no cycle recommends a
/// positive rate or a supplemental bolus.
pub proof fn lemma_low_glucose_no_insulin(inp: CycleInput, p: Profile, r: DetermineBasalResult)
    requires
        decided(inp, p, r),
        inp.glucose@.len() > 0,
        current_bg(inp) < p.threshold,
    ensures
        r.rate is None || r.rate == Some(0u32),
        r.units is None,
{
}

/// A recommended rate never exceeds the maximum basal nor the safety
/// multiples of the daily and current basal; a supplemental bolus never
/// exceeds its per-cycle maximum nor the room left under the maximum insulin
/// on board.
pub proof fn lemma_dosing_bounds(inp: CycleInput, p: Profile, r: DetermineBasalResult)
    requires
        decided(inp, p, r),
    ensures
        r.rate is Some ==> r.rate->Some_0 <= spec_max_rate(p),
        r.rate is Some ==> r.rate->Some_0 <= p.max_basal,
        r.units is Some ==> r.units->Some_0 <= p.max_smb,
        r.units is Some ==> r.units->Some_0 <= p.max_iob - inp.iob,
{
}

} // verus!
