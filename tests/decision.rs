use oref::determine::{
    insulin_required, max_safe_rate, smb_size, temp_rate, tick_of, trace_text, variable_sens,
};
use oref::{
    determine_basal, CobResult, CurrentTemp, CycleInput, DetermineBasalResult, GlucoseReading,
    InsulinCurve, Profile,
};

fn profile() -> Profile {
    Profile {
        dia: 300,
        curve: InsulinCurve::RapidActing,
        use_custom_peak: false,
        insulin_peak_time: 75,
        sens: 50,
        carb_ratio: 10,
        current_basal: 1000,
        max_basal: 3000,
        max_daily_basal: 1000,
        max_daily_safety_multiplier: 3,
        current_basal_safety_multiplier: 4,
        max_iob: 3000,
        enable_smb: false,
        max_smb: 1000,
        enable_uam: false,
        threshold: 70,
        target_bg: 100,
        autosens_min: 700,
        autosens_max: 1200,
    }
}

fn input(bg: u32, iob: u32, cob: u16) -> CycleInput {
    CycleInput {
        glucose: vec![
            GlucoseReading { glucose: bg, date: 990 },
            GlucoseReading { glucose: bg, date: 995 },
        ],
        current_temp: None,
        iob,
        meal: CobResult { cob, carb_impact: 0 },
        autosens_ratio: 1000,
        now: 1000,
    }
}

#[test]
fn flat_glucose_at_target_changes_nothing() {
    let r = determine_basal(&input(100, 0, 0), &profile());
    assert_eq!(r.rate, None);
    assert_eq!(r.duration, None);
    assert_eq!(r.units, None);
    assert!(!r.has_temp());
    assert!(!r.has_error());
    assert_eq!(r.eventual_bg, 100);
    assert_eq!(r.insulin_req, Some(0));
    assert_eq!(r.pred_bgs_iob.as_ref().unwrap().len(), 61);
    assert!(r.pred_bgs_iob.as_ref().unwrap().iter().all(|&g| g == 100));
    assert_eq!(r.tick.as_deref(), Some("+0"));
    assert_eq!(r.bg_mins_ago, Some(5));
    assert_eq!(
        r.reason,
        "no change. IOB 0, COB 0, eventual BG 100, target 100, ratio 1000"
    );
}

#[test]
fn low_glucose_gets_zero_temp() {
    let r = determine_basal(&input(60, 0, 0), &profile());
    assert_eq!(r.rate, Some(0));
    assert_eq!(r.duration, Some(30));
    assert_eq!(r.units, None);
    assert!(!r.has_smb());
    assert!(r.reason.contains("threshold"));
}

#[test]
fn low_glucose_never_doses_even_with_requirement() {
    let mut p = profile();
    p.enable_smb = true;
    let mut inp = input(60, 0, 200);
    inp.meal.carb_impact = 50;
    let r = determine_basal(&inp, &p);
    assert!(r.rate.unwrap_or(0) == 0);
    assert_eq!(r.units, None);
}

#[test]
fn smb_is_limited_by_iob_headroom() {
    let mut p = profile();
    p.enable_smb = true;
    assert_eq!(smb_size(1000, 2900, &p), Some(100));
    let r = determine_basal(&input(295, 2900, 0), &p);
    assert_eq!(r.eventual_bg, 150);
    assert_eq!(r.insulin_req, Some(1000));
    assert_eq!(r.units, Some(100));
    assert_eq!(r.rate, Some(3000));
    assert_eq!(r.duration, Some(30));
    assert!(r.has_smb());
}

#[test]
fn smb_sizing_rules() {
    let mut p = profile();
    assert_eq!(smb_size(1000, 0, &p), None);
    p.enable_smb = true;
    assert_eq!(smb_size(1000, 0, &p), Some(500));
    assert_eq!(smb_size(4000, 0, &p), Some(1000));
    assert_eq!(smb_size(-500, 0, &p), None);
    assert_eq!(smb_size(80, 0, &p), None);
    assert_eq!(smb_size(1000, 3000, &p), None);
}

#[test]
fn rate_never_exceeds_maximum() {
    let p = profile();
    let r = determine_basal(&input(400, 0, 0), &p);
    assert_eq!(r.rate, Some(3000));
    assert!(r.rate.unwrap() <= p.max_basal);
    let mut q = profile();
    q.max_basal = 1500;
    let r2 = determine_basal(&input(400, 0, 0), &q);
    assert_eq!(r2.rate, Some(1500));
}

#[test]
fn high_iob_lowers_rate() {
    let r = determine_basal(&input(120, 2000, 0), &profile());
    // eventual 120 - 100 = 20; requirement -400 mU; rate 1000 - 800
    assert_eq!(r.eventual_bg, 20);
    assert_eq!(r.rate, Some(0));
    assert_eq!(r.units, None);
}

#[test]
fn carbs_raise_eventual_glucose() {
    let r = determine_basal(&input(100, 0, 20), &profile());
    // 20 g at 50 / 10 mg/dL per gram
    assert_eq!(r.eventual_bg, 200);
    assert_eq!(r.insulin_req, Some(2000));
    assert_eq!(r.rate, Some(3000));
    assert_eq!(r.pred_bgs_cob.as_ref().unwrap()[36], 200);
    assert_eq!(r.pred_bgs_cob.as_ref().unwrap()[6], 116);
}

#[test]
fn running_temp_within_hysteresis_is_kept() {
    let mut inp = input(110, 0, 0);
    inp.current_temp = Some(CurrentTemp { rate: 1390, duration: 20 });
    let r = determine_basal(&inp, &profile());
    assert_eq!(r.rate, None);
    inp.current_temp = Some(CurrentTemp { rate: 1000, duration: 20 });
    let r2 = determine_basal(&inp, &profile());
    assert_eq!(r2.rate, Some(1400));
}

#[test]
fn stale_or_missing_glucose_is_an_error() {
    let mut inp = input(100, 0, 0);
    inp.now = 1005;
    let r = determine_basal(&inp, &profile());
    assert_eq!(r.error.as_deref(), Some("stale glucose"));
    assert_eq!(r.rate, None);
    assert_eq!(r.units, None);
    inp.glucose.clear();
    let r2 = determine_basal(&inp, &profile());
    assert_eq!(r2.error.as_deref(), Some("missing glucose data"));
}

#[test]
fn invalid_profile_is_an_error() {
    let mut p = profile();
    p.dia = 240;
    let r = determine_basal(&input(100, 0, 0), &p);
    assert_eq!(r.error.as_deref(), Some("invalid profile"));
    let mut inp = input(100, 0, 0);
    inp.autosens_ratio = 0;
    let r2 = determine_basal(&inp, &profile());
    assert_eq!(r2.error.as_deref(), Some("invalid sensitivity ratio"));
}

#[test]
fn decisions_are_deterministic() {
    let mut p = profile();
    p.enable_smb = true;
    p.enable_uam = true;
    let mut inp = input(180, 500, 10);
    inp.meal.carb_impact = 3;
    let a = determine_basal(&inp, &p);
    let b = determine_basal(&inp, &p);
    assert_eq!(format!("{:?}", a), format!("{:?}", b));
}

#[test]
fn sensitivity_ratio_scales_isf() {
    assert_eq!(variable_sens(50, 1000), 50);
    assert_eq!(variable_sens(50, 1250), 40);
    assert_eq!(variable_sens(50, 800), 62);
    let mut inp = input(100, 0, 0);
    inp.autosens_ratio = 1250;
    assert_eq!(determine_basal(&inp, &profile()).variable_sens, Some(40));
}

#[test]
fn requirement_and_rate_formulas() {
    assert_eq!(insulin_required(150, 100, 50), 1000);
    assert_eq!(insulin_required(50, 100, 50), -1000);
    assert_eq!(insulin_required(101, 100, 3), 333);
    assert_eq!(insulin_required(99, 100, 3), -333);
    assert_eq!(temp_rate(1000, -1000, 3000), 0);
    assert_eq!(temp_rate(1000, 200, 3000), 1400);
    assert_eq!(temp_rate(1000, 5000, 3000), 3000);
    assert_eq!(max_safe_rate(&profile()), 3000);
}

#[test]
fn trace_and_tick_texts() {
    assert_eq!(trace_text("x. ", 1, 2, -3, 4, 5), "x. IOB 1, COB 2, eventual BG -3, target 4, ratio 5");
    let g = vec![
        GlucoseReading { glucose: 103, date: 0 },
        GlucoseReading { glucose: 100, date: 5 },
    ];
    assert_eq!(tick_of(&g).as_deref(), Some("-3"));
    assert_eq!(tick_of(&g[..1].to_vec()), None);
}

#[test]
fn result_constructors() {
    let e = DetermineBasalResult::error("boom");
    assert!(e.has_error());
    assert!(!e.has_temp());
    let t = DetermineBasalResult::temp_basal(1000, 30, "r");
    assert!(t.has_temp());
    assert!(!t.has_smb());
    assert_eq!(t.reason, "r");
    let s = DetermineBasalResult::smb(100, 1000, 30, "s");
    assert!(s.has_smb());
    let n = DetermineBasalResult::no_action("n");
    assert!(!n.has_temp() && !n.has_error());
    let z = oref::TempBasalRecommendation::zero(30, "low");
    assert_eq!((z.rate, z.duration, z.reason.as_str()), (0, 30, "low"));
    let o = oref::OrefError::out_of_range("dia", 2, 3, 8);
    assert_eq!(
        o,
        oref::OrefError::OutOfRange { field: "dia".to_string(), value: 2, min: 3, max: 8 }
    );
}

#[test]
fn profile_validation() {
    assert!(profile().validate().is_ok());
    let mut p = profile();
    p.dia = 240;
    assert_eq!(
        p.validate(),
        Err(oref::OrefError::OutOfRange { field: "dia".to_string(), value: 240, min: 300, max: 65535 })
    );
    p.curve = InsulinCurve::Bilinear;
    assert!(p.validate().is_ok());
    let mut q = profile();
    q.sens = 0;
    assert!(matches!(q.validate(), Err(oref::OrefError::InvalidProfile(_))));
    let mut b = profile();
    b.autosens_min = 1300;
    assert_eq!(
        b.validate(),
        Err(oref::OrefError::OutOfRange {
            field: "autosens_min".to_string(),
            value: 1300,
            min: 0,
            max: 1200
        })
    );
    let mut c = profile();
    c.use_custom_peak = true;
    c.insulin_peak_time = 500;
    assert!(c.validate().is_ok());
}
