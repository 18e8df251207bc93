use animated_value::fixed::Fixed;
use animated_value::timing::{pow5, Timing};
use animated_value::trig::{cos_quarter_turns, sin_quarter_turns};

const CURVES: [Timing; 8] = [
    Timing::Linear,
    Timing::EaseIn,
    Timing::EaseOut,
    Timing::EaseInOut,
    Timing::EaseInQuint,
    Timing::EaseOutQuint,
    Timing::EaseInOutQuint,
    Timing::Custom,
];

fn raw(value: i64) -> Fixed {
    Fixed::from_raw(value)
}

fn as_float(value: Fixed) -> f64 {
    value.raw as f64 / 1_000_000.0
}

fn formula(curve: Timing, x: f64) -> f64 {
    let pi = std::f64::consts::PI;
    match curve {
        Timing::Linear => x,
        Timing::EaseIn => 1.0 - f64::cos((x * pi) / 2.0),
        Timing::EaseOut => f64::sin((x * pi) / 2.0),
        Timing::EaseInOut => -(f64::cos(pi * x) - 1.0) / 2.0,
        Timing::EaseInQuint => x * x * x * x * x,
        Timing::EaseOutQuint => 1.0 - f64::powf(1.0 - x, 5.0),
        Timing::EaseInOutQuint => {
            if x < 0.5 {
                16.0 * x * x * x * x * x
            } else {
                1.0 - f64::powf(-2.0 * x + 2.0, 5.0) / 2.0
            }
        }
        Timing::Custom => x,
    }
}

#[test]
fn default_curve_is_linear() {
    assert_eq!(Timing::default(), Timing::Linear);
}

#[test]
fn every_curve_starts_at_zero_and_ends_at_one() {
    for curve in CURVES {
        assert_eq!(curve.timing(Fixed::zero()), Fixed::zero(), "{:?}", curve);
        assert_eq!(curve.timing(Fixed::one()), Fixed::one(), "{:?}", curve);
    }
}

#[test]
fn every_curve_stays_between_zero_and_one() {
    for curve in CURVES {
        for step in 0..=10_000 {
            let eased = curve.timing(raw(step * 100));
            assert!(0 <= eased.raw && eased.raw <= 1_000_000, "{:?} at {}", curve, step);
        }
    }
}

#[test]
fn every_curve_follows_its_formula() {
    for curve in CURVES {
        for step in 0..=10_000 {
            let x = raw(step * 100);
            let eased = as_float(curve.timing(x));
            let expected = formula(curve, as_float(x));
            assert!(
                (eased - expected).abs() < 0.000_006,
                "{:?} at {}: {} against {}",
                curve,
                step,
                eased,
                expected
            );
        }
    }
}

#[test]
fn linear_and_custom_are_the_identity() {
    for value in [-3_000_000, -1, 0, 1, 250_000, 1_000_000, 42_000_000, i64::MAX, i64::MIN] {
        assert_eq!(Timing::Linear.timing(raw(value)).raw, value);
        assert_eq!(Timing::Custom.timing(raw(value)).raw, value);
    }
}

#[test]
fn sine_curves_at_chosen_points() {
    assert_eq!(Timing::EaseIn.timing(raw(100_000)).raw, 12_312);
    assert_eq!(Timing::EaseIn.timing(raw(500_000)).raw, 292_893);
    assert_eq!(Timing::EaseIn.timing(raw(750_000)).raw, 617_317);
    assert_eq!(Timing::EaseOut.timing(raw(100_000)).raw, 156_434);
    assert_eq!(Timing::EaseOut.timing(raw(500_000)).raw, 707_107);
    assert_eq!(Timing::EaseOut.timing(raw(750_000)).raw, 923_880);
    assert_eq!(Timing::EaseInOut.timing(raw(100_000)).raw, 24_471);
    assert_eq!(Timing::EaseInOut.timing(raw(250_000)).raw, 146_446);
    assert_eq!(Timing::EaseInOut.timing(raw(500_000)).raw, 500_000);
    assert_eq!(Timing::EaseInOut.timing(raw(750_000)).raw, 853_553);
}

#[test]
fn quintic_curves_at_chosen_points() {
    assert_eq!(Timing::EaseInQuint.timing(raw(500_000)).raw, 31_250);
    assert_eq!(Timing::EaseInQuint.timing(raw(100_000)).raw, 10);
    assert_eq!(Timing::EaseInQuint.timing(raw(750_000)).raw, 237_304);
    assert_eq!(Timing::EaseOutQuint.timing(raw(500_000)).raw, 968_750);
    assert_eq!(Timing::EaseOutQuint.timing(raw(100_000)).raw, 409_510);
    assert_eq!(Timing::EaseInOutQuint.timing(raw(250_000)).raw, 15_625);
    assert_eq!(Timing::EaseInOutQuint.timing(raw(100_000)).raw, 160);
    assert_eq!(Timing::EaseInOutQuint.timing(raw(500_000)).raw, 500_000);
    assert_eq!(Timing::EaseInOutQuint.timing(raw(750_000)).raw, 984_375);
}

#[test]
fn curves_do_not_clamp() {
    assert_eq!(Timing::EaseInQuint.timing(raw(1_500_000)).raw, 7_593_750);
    assert_eq!(Timing::EaseInQuint.timing(raw(-250_000)).raw, -976);
    assert_eq!(Timing::EaseOutQuint.timing(raw(1_500_000)).raw, 1_031_250);
    assert_eq!(Timing::EaseInOutQuint.timing(raw(1_500_000)).raw, 1_500_000);
    assert_eq!(Timing::EaseInOutQuint.timing(raw(-250_000)).raw, -15_625);
    assert_eq!(Timing::EaseIn.timing(raw(1_500_000)).raw, 1_707_107);
    assert_eq!(Timing::EaseOut.timing(raw(1_500_000)).raw, 707_107);
    assert_eq!(Timing::EaseOut.timing(raw(-250_000)).raw, -382_683);
    assert_eq!(Timing::EaseInOut.timing(raw(1_500_000)).raw, 500_000);
}

#[test]
fn fifth_power_multiplies_out_from_the_left() {
    assert_eq!(pow5(raw(2_000_000)).raw, 32_000_000);
    assert_eq!(pow5(raw(-2_000_000)).raw, -32_000_000);
    assert_eq!(pow5(raw(500_000)).raw, 31_250);
    assert_eq!(pow5(raw(750_000)).raw, 237_304);
    assert_eq!(pow5(raw(i64::MAX)).raw, i64::MAX);
}

#[test]
fn sine_and_cosine_at_the_quarter_turns() {
    assert_eq!(sin_quarter_turns(raw(0)).raw, 0);
    assert_eq!(sin_quarter_turns(raw(1_000_000)).raw, 1_000_000);
    assert_eq!(sin_quarter_turns(raw(2_000_000)).raw, 0);
    assert_eq!(sin_quarter_turns(raw(3_000_000)).raw, -1_000_000);
    assert_eq!(sin_quarter_turns(raw(4_000_000)).raw, 0);
    assert_eq!(sin_quarter_turns(raw(-1_000_000)).raw, -1_000_000);
    assert_eq!(cos_quarter_turns(raw(0)).raw, 1_000_000);
    assert_eq!(cos_quarter_turns(raw(1_000_000)).raw, 0);
    assert_eq!(cos_quarter_turns(raw(2_000_000)).raw, -1_000_000);
    assert_eq!(cos_quarter_turns(raw(3_000_000)).raw, 0);
    assert_eq!(cos_quarter_turns(raw(-1_000_000)).raw, 0);
}

#[test]
fn sine_and_cosine_at_chosen_angles() {
    assert_eq!(sin_quarter_turns(raw(333_333)).raw, 500_000);
    assert_eq!(sin_quarter_turns(raw(500_000)).raw, 707_107);
    assert_eq!(sin_quarter_turns(raw(5_500_000)).raw, 707_107);
    assert_eq!(cos_quarter_turns(raw(333_333)).raw, 866_026);
    assert_eq!(cos_quarter_turns(raw(500_000)).raw, 707_107);
}

#[test]
fn sine_and_cosine_track_the_true_wave() {
    let quarter = std::f64::consts::FRAC_PI_2;
    let mut angle: i64 = -8_000_000;
    while angle <= 8_000_000 {
        let turns = angle as f64 / 1_000_000.0;
        let sine = as_float(sin_quarter_turns(raw(angle)));
        let cosine = as_float(cos_quarter_turns(raw(angle)));
        assert!((sine - (turns * quarter).sin()).abs() < 0.000_001, "sin at {}", angle);
        assert!((cosine - (turns * quarter).cos()).abs() < 0.000_001, "cos at {}", angle);
        angle += 137;
    }
}

#[test]
fn sine_is_defined_on_the_whole_range() {
    for angle in [i64::MAX, i64::MIN, i64::MAX - 1, i64::MIN + 1] {
        let sine = sin_quarter_turns(raw(angle)).raw;
        let cosine = cos_quarter_turns(raw(angle)).raw;
        assert!(-1_000_000 <= sine && sine <= 1_000_000);
        assert!(-1_000_000 <= cosine && cosine <= 1_000_000);
    }
}
