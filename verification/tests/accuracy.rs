use rreq::curve::{BandReject, Filter, FiveBandEQ, BANDS};
use rreq::fixed::UNITY;

fn shelf(filter: &Filter, f: u32) -> f64 {
    if !filter.enabled {
        1.0
    } else if filter.low {
        filter.cutoff as f64 / (filter.cutoff as f64 + f as f64)
    } else {
        f as f64 / (filter.cutoff as f64 + f as f64)
    }
}

fn inside(band: &BandReject, f: u32) -> bool {
    let low = band.center as f64 - band.bandwidth as f64 / 2.0;
    let high = band.center as f64 + band.bandwidth as f64 / 2.0;
    low <= f as f64 && f as f64 <= high
}

/// The curve in floating point, in units of `1 / UNITY`, and the slack
/// that rounding may have cost.
fn exact_and_slack(eq: &FiveBandEQ, f: u32) -> (f64, f64) {
    let mut exact = UNITY as f64 * shelf(&eq.highpass, f) * shelf(&eq.lowpass, f);
    let mut slack = 4.0;
    for band in &eq.bands {
        let gain = if inside(band, f) { band.gain as u64 } else { UNITY };
        exact *= gain as f64 / UNITY as f64;
        slack = slack * ((gain + UNITY - 1) / UNITY) as f64 + 1.0;
    }
    (exact, slack)
}

fn frequencies() -> Vec<u32> {
    let mut all = vec![0, 1, 999, 59_999, 60_000, 1_000_000, 24_000_000, u32::MAX];
    for i in 0..200u32 {
        all.push(i * 123_457);
    }
    all
}

#[test]
fn fixed_point_curve_never_exceeds_the_exact_curve() {
    let mut eq = FiveBandEQ::new();
    eq.highpass = Filter::new(false, 333_333, true);
    eq.lowpass = Filter::new(true, 7_777_777, true);
    eq.bands[0] = BandReject::new(1_000_000, 2_000_000, 43_691);
    eq.bands[1] = BandReject::new(5_000_000, 9_000_000, 150_001);
    eq.bands[2] = BandReject::new(9_000_000, 3_000_000, 65_535);
    eq.bands[3] = BandReject::new(12_000_000, 24_000_000, 70_000);
    eq.bands[4] = BandReject::new(20_000_000, 1_000_000, 4_194_304);
    assert_eq!(eq.validate(), Ok(()));
    for f in frequencies() {
        let (exact, slack) = exact_and_slack(&eq, f);
        let fixed = eq.evaluate(f) as f64;
        let tolerance = 1e-9 * exact + 1e-9;
        assert!(fixed <= exact + tolerance, "at {}: {} above {}", f, fixed, exact);
        assert!(exact < fixed + slack + tolerance, "at {}: {} far below {}", f, fixed, exact);
    }
}

#[test]
fn without_boost_rounding_costs_less_than_nine_units() {
    let mut eq = FiveBandEQ::new();
    eq.highpass = Filter::new(false, 123_456, true);
    eq.lowpass = Filter::new(true, 9_876_543, true);
    for i in 0..BANDS {
        eq.bands[i] = BandReject::new(3_000_000 * (i as u32 + 1), 7_000_001, 65_536 - 7_919 * i as u32);
    }
    assert_eq!(eq.validate(), Ok(()));
    for f in frequencies() {
        let (exact, slack) = exact_and_slack(&eq, f);
        assert!(slack <= 9.0);
        let fixed = eq.evaluate(f) as f64;
        assert!(fixed <= exact + 1e-6);
        assert!(exact < fixed + 9.0);
    }
}

#[test]
fn identity_curve_is_exact() {
    let eq = FiveBandEQ::new();
    for f in frequencies() {
        let (exact, _) = exact_and_slack(&eq, f);
        assert_eq!(exact, UNITY as f64);
        assert_eq!(eq.evaluate(f), UNITY);
    }
}
