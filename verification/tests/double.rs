use gyroflow_ffi::double::Double;

fn d(x: f64) -> Double {
    Double::from_bits(x.to_bits())
}

const SAMPLES: [f64; 16] = [
    0.0,
    -0.0,
    1.0,
    -1.0,
    0.01,
    0.55,
    90.0,
    -90.0,
    270.0,
    5e-324,
    -5e-324,
    f64::MIN_POSITIVE,
    f64::MAX,
    f64::MIN,
    f64::INFINITY,
    f64::NEG_INFINITY,
];

#[test]
fn comparisons_agree_with_the_machine() {
    for a in SAMPLES {
        for b in SAMPLES {
            assert_eq!(d(a).at_most(d(b)), a <= b, "{} <= {}", a, b);
            assert_eq!(f64::from_bits(d(a).larger(d(b)).bits), a.max(b), "{} max {}", a, b);
            assert_eq!(f64::from_bits(d(a).smaller(d(b)).bits), a.min(b), "{} min {}", a, b);
        }
    }
}

#[test]
fn nan_gives_way() {
    let nan = d(f64::NAN);
    for a in SAMPLES {
        assert_eq!(nan.larger(d(a)), d(a));
        assert_eq!(d(a).larger(nan), d(a));
        assert_eq!(nan.smaller(d(a)), d(a));
        assert_eq!(d(a).smaller(nan), d(a));
        assert!(!nan.at_most(d(a)));
        assert!(!d(a).at_most(nan));
        assert!(!d(a).is_nan());
    }
    assert!(nan.is_nan());
    assert!(d(-f64::NAN).is_nan());
    assert!(nan.larger(nan).is_nan());
}

#[test]
fn quarter_turns() {
    for turn in [90.0, -90.0, 270.0, -270.0] {
        assert!(d(turn).is_quarter_turn(), "{}", turn);
    }
    for other in [0.0, 180.0, 360.0, 450.0, 89.99999999999999, 90.00000000000001, 45.0] {
        assert!(!d(other).is_quarter_turn(), "{}", other);
        assert!(!d(-other).is_quarter_turn(), "{}", -other);
    }
    assert!(!d(f64::NAN).is_quarter_turn());
    assert!(!d(f64::INFINITY).is_quarter_turn());
}
