use oref::autosens::detect_sensitivity;
use oref::cob::calculate_cob;
use oref::{DeviationSample, OrefError};

fn sample(glucose: u32, activity: u32, meal_affected: bool) -> DeviationSample {
    DeviationSample { glucose, activity, meal_affected }
}

#[test]
fn autosens_ratio_formula() {
    let s = vec![sample(100, 0, false), sample(101, 0, false)];
    assert_eq!(detect_sensitivity(&s, 50, 10_000, 700, 1200).unwrap(), 1024);
    let d = vec![sample(101, 0, false), sample(100, 0, false)];
    assert_eq!(detect_sensitivity(&d, 50, 10_000, 700, 1200).unwrap(), 976);
}

#[test]
fn autosens_ratio_stays_within_bounds() {
    let up = vec![sample(40, 0, false), sample(400, 0, false), sample(4_000_000, 0, false)];
    assert_eq!(detect_sensitivity(&up, 50, 1000, 700, 1200).unwrap(), 1200);
    let down = vec![sample(u32::MAX, 0, false), sample(0, 0, false)];
    assert_eq!(detect_sensitivity(&down, 50, 1000, 700, 1200).unwrap(), 700);
    assert_eq!(detect_sensitivity(&Vec::new(), 50, 1000, 700, 1200).unwrap(), 1000);
    assert_eq!(detect_sensitivity(&Vec::new(), 50, 1000, 1100, 1200).unwrap(), 1100);
}

#[test]
fn autosens_skips_meals_and_credits_insulin() {
    let s = vec![sample(100, 0, false), sample(200, 0, true), sample(200, 0, false)];
    assert_eq!(detect_sensitivity(&s, 50, 10_000, 700, 1200).unwrap(), 1000);
    // 5 minutes of activity 4000 at 50 mg/dL per unit explains a 1 mg/dL drop
    let i = vec![sample(100, 0, false), sample(99, 4000, false)];
    assert_eq!(detect_sensitivity(&i, 50, 10_000, 700, 1200).unwrap(), 1000);
}

#[test]
fn autosens_rejects_bad_bounds() {
    let s = vec![sample(100, 0, false)];
    assert!(matches!(detect_sensitivity(&s, 50, 1000, 1300, 1200), Err(OrefError::InvalidProfile(_))));
    assert!(detect_sensitivity(&s, 0, 1000, 700, 1200).is_err());
}

#[test]
fn cob_absorbs_from_positive_deviations() {
    let s = vec![sample(100, 0, false), sample(110, 0, false)];
    let r = calculate_cob(50, &s, 5, 50, 10, 360).unwrap();
    assert_eq!(r.cob, 48);
    assert_eq!(r.carb_impact, 10);
    let fall = vec![sample(110, 0, false), sample(100, 0, false)];
    let f = calculate_cob(50, &fall, 5, 50, 10, 360).unwrap();
    assert_eq!(f.cob, 50);
    assert_eq!(f.carb_impact, 0);
}

#[test]
fn cob_stays_within_entered_carbs() {
    let s = vec![sample(100, 0, false), sample(1000, 0, false)];
    assert_eq!(calculate_cob(50, &s, 5, 50, 10, 360).unwrap().cob, 0);
    assert_eq!(calculate_cob(50, &Vec::new(), 0, 50, 10, 360).unwrap().cob, 50);
    assert_eq!(calculate_cob(50, &Vec::new(), 360, 50, 10, 360).unwrap().cob, 0);
    assert!(calculate_cob(50, &Vec::new(), 0, 0, 10, 360).is_err());
}
