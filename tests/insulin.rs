use oref::curve_model::{activity_rate, remaining_fraction, ONE};
use oref::{calculate_iob, OrefError, Treatment};

#[test]
fn remaining_fraction_values() {
    assert_eq!(remaining_fraction(0, 300), ONE);
    assert_eq!(remaining_fraction(-10, 300), ONE);
    assert_eq!(remaining_fraction(75, 300), 750_000);
    assert_eq!(remaining_fraction(150, 300), 333_333);
    assert_eq!(remaining_fraction(300, 300), 0);
    assert_eq!(remaining_fraction(400, 300), 0);
}

#[test]
fn remaining_fraction_never_rises() {
    let mut prev = remaining_fraction(0, 300);
    for t in 1..=320 {
        let cur = remaining_fraction(t, 300);
        assert!(cur <= prev, "rose at {}", t);
        prev = cur;
    }
}

#[test]
fn activity_values() {
    assert_eq!(activity_rate(0, 300), 0);
    assert_eq!(activity_rate(75, 300), 6_666);
    assert_eq!(activity_rate(300, 300), 0);
    for t in -5..320 {
        assert!(activity_rate(t, 300) <= 2 * ONE);
    }
}

#[test]
fn single_bolus_iob() {
    let h = vec![Treatment::Bolus { amount: 5000, date: 0 }];
    let at0 = calculate_iob(&h, 300, 0).unwrap();
    assert_eq!(at0.iob, 5000);
    assert_eq!(at0.bolus_iob, 5000);
    assert_eq!(at0.basal_iob, 0);
    assert_eq!(calculate_iob(&h, 300, 150).unwrap().iob, 1666);
    assert_eq!(calculate_iob(&h, 300, 300).unwrap().iob, 0);
    assert_eq!(calculate_iob(&h, 300, 1000).unwrap().iob, 0);
    let mut prev = at0.iob;
    for now in 1..=300 {
        let cur = calculate_iob(&h, 300, now).unwrap().iob;
        assert!(cur <= prev);
        prev = cur;
    }
}

#[test]
fn temp_basal_counts_delivered_doses() {
    let h = vec![Treatment::TempBasal { rate: 1200, duration: 10, date: 0 }];
    let r = calculate_iob(&h, 300, 5).unwrap();
    assert_eq!(r.basal_iob, 199);
    assert_eq!(r.bolus_iob, 0);
    assert_eq!(r.iob, 199);
    let before = calculate_iob(&h, 300, -1).unwrap();
    assert_eq!(before.iob, 0);
}

#[test]
fn empty_history_has_no_iob() {
    let r = calculate_iob(&Vec::new(), 300, 0).unwrap();
    assert_eq!((r.iob, r.bolus_iob, r.basal_iob, r.activity), (0, 0, 0, 0));
}

#[test]
fn short_duration_is_rejected() {
    let h = vec![Treatment::Carbs { grams: 20, date: 0 }];
    assert!(matches!(calculate_iob(&h, 120, 0), Err(OrefError::InvalidProfile(_))));
    assert_eq!(calculate_iob(&h, 180, 0).unwrap().iob, 0);
}
