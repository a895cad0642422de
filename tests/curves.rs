use oref::InsulinCurve;

#[test]
fn test_default_peaks() {
    assert_eq!(InsulinCurve::Bilinear.default_peak(), 75);
    assert_eq!(InsulinCurve::RapidActing.default_peak(), 75);
    assert_eq!(InsulinCurve::UltraRapid.default_peak(), 55);
}

#[test]
fn test_min_dia() {
    assert_eq!(InsulinCurve::Bilinear.min_dia() as f64, 3.0);
    assert_eq!(InsulinCurve::RapidActing.min_dia() as f64, 5.0);
    assert_eq!(InsulinCurve::UltraRapid.min_dia() as f64, 5.0);
}

#[test]
fn test_parse() {
    assert_eq!("bilinear".parse::<InsulinCurve>().unwrap(), InsulinCurve::Bilinear);
    assert_eq!("rapid-acting".parse::<InsulinCurve>().unwrap(), InsulinCurve::RapidActing);
    assert_eq!("ultra-rapid".parse::<InsulinCurve>().unwrap(), InsulinCurve::UltraRapid);
}

#[test]
fn parse_ignores_letter_case_and_separators() {
    assert_eq!(InsulinCurve::parse("ULTRA_RAPID"), Ok(InsulinCurve::UltraRapid));
    assert_eq!(InsulinCurve::parse("RapidActing"), Ok(InsulinCurve::RapidActing));
    assert_eq!(InsulinCurve::parse("BiLinear"), Ok(InsulinCurve::Bilinear));
}

#[test]
fn parse_rejects_unknown_names() {
    assert_eq!(
        InsulinCurve::parse("Fast"),
        Err("Unknown insulin curve: Fast".to_string())
    );
    assert!("".parse::<InsulinCurve>().is_err());
}

#[test]
fn from_lowercase_reads_exact_names() {
    assert_eq!(
        InsulinCurve::from_lowercase("rapid_acting", "Rapid_Acting"),
        Ok(InsulinCurve::RapidActing)
    );
    assert_eq!(
        InsulinCurve::from_lowercase("Bilinear", "Bilinear"),
        Err("Unknown insulin curve: Bilinear".to_string())
    );
}

#[test]
fn names_round_trip() {
    for c in [InsulinCurve::Bilinear, InsulinCurve::RapidActing, InsulinCurve::UltraRapid] {
        assert_eq!(InsulinCurve::parse(&c.to_string()), Ok(c));
    }
    assert_eq!(InsulinCurve::RapidActing.to_string(), "rapid-acting");
}

#[test]
fn peaks_and_durations_are_clamped() {
    assert_eq!(InsulinCurve::RapidActing.effective_peak(200, true), 120);
    assert_eq!(InsulinCurve::RapidActing.effective_peak(30, true), 50);
    assert_eq!(InsulinCurve::UltraRapid.effective_peak(60, true), 60);
    assert_eq!(InsulinCurve::UltraRapid.effective_peak(60, false), 55);
    assert_eq!(InsulinCurve::Bilinear.effective_peak(100, true), 75);
    assert_eq!(InsulinCurve::Bilinear.effective_dia(120), 180);
    assert_eq!(InsulinCurve::RapidActing.effective_dia(360), 360);
    assert_eq!(InsulinCurve::RapidActing.min_peak(), 50);
    assert_eq!(InsulinCurve::UltraRapid.max_peak(), 100);
    assert!(!InsulinCurve::Bilinear.requires_long_dia());
    assert!(InsulinCurve::UltraRapid.requires_long_dia());
    assert_eq!(InsulinCurve::default(), InsulinCurve::RapidActing);
}
