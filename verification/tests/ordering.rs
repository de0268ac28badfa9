use plotscript::Scalar;

fn num(x: f64) -> Scalar {
    Scalar::from_bits(x.to_bits())
}

fn samples() -> Vec<f64> {
    vec![
        0.0,
        -0.0,
        5e-324,
        -5e-324,
        f64::MIN_POSITIVE,
        -f64::MIN_POSITIVE,
        0.3,
        0.5,
        1.0,
        -1.0,
        2.0,
        -2.0,
        1e300,
        -1e300,
        f64::MAX,
        f64::MIN,
        f64::INFINITY,
        f64::NEG_INFINITY,
        f64::NAN,
        -f64::NAN,
        f64::from_bits(0x7ff0_0000_0000_0001),
        f64::from_bits(0xffff_ffff_ffff_ffff),
    ]
}

#[test]
fn less_than_agrees_with_doubles() {
    for a in samples() {
        for b in samples() {
            assert_eq!(num(a).less_than(&num(b)), a < b, "{:?} < {:?}", a, b);
        }
    }
}

#[test]
fn at_most_agrees_with_doubles() {
    for a in samples() {
        for b in samples() {
            assert_eq!(num(a).at_most(&num(b)), a <= b, "{:?} <= {:?}", a, b);
        }
    }
}

#[test]
fn sign_checks_agree_with_doubles() {
    for a in samples() {
        assert_eq!(num(a).check_positive(), a > 0.0, "{:?} > 0", a);
        assert_eq!(num(a).check_non_negative(), a >= 0.0, "{:?} >= 0", a);
        assert_eq!(num(a).check_non_positive(), a <= 0.0, "{:?} <= 0", a);
        assert_eq!(num(a).check_nan(), a.is_nan(), "{:?} is nan", a);
    }
}

#[test]
fn bits_pass_through() {
    assert_eq!(Scalar::from_bits(0x1234).to_bits(), 0x1234);
    assert_eq!(num(1.0).to_bits(), 0x3ff0_0000_0000_0000);
    assert_eq!(num(1.0), Scalar { bits: 0x3ff0_0000_0000_0000 });
}
