use trading_fractals::scalar::Scalar;
use trading_fractals::scalar::INFINITY_BITS;
use trading_fractals::scalar::ONE_BITS;
use trading_fractals::scalar::SIGN_BIT;

fn scalar(x: f64) -> Scalar {
    Scalar::from_bits(x.to_bits())
}

fn samples() -> Vec<f64> {
    vec![
        f64::NAN,
        -f64::NAN,
        f64::from_bits(0x7ff0_0000_0000_0001),
        f64::from_bits(0xfff8_0000_0000_1234),
        f64::NEG_INFINITY,
        f64::MIN,
        -1.0e300,
        -60.0,
        -2.5,
        -1.0,
        -f64::MIN_POSITIVE,
        -f64::from_bits(1),
        -0.0,
        0.0,
        f64::from_bits(1),
        f64::from_bits(2),
        f64::MIN_POSITIVE,
        0.1,
        0.5,
        1.0,
        1.0 + f64::EPSILON,
        2.5,
        30.0,
        60.0,
        1.0e300,
        f64::MAX,
        f64::INFINITY,
    ]
}

#[test]
fn lt_agrees_with_the_floating_point_order() {
    for a in samples() {
        for b in samples() {
            assert_eq!(scalar(a).lt(&scalar(b)), a < b, "{a:?} < {b:?}");
        }
    }
}

#[test]
fn gt_agrees_with_the_floating_point_order() {
    for a in samples() {
        for b in samples() {
            assert_eq!(scalar(a).gt(&scalar(b)), a > b, "{a:?} > {b:?}");
        }
    }
}

#[test]
fn eq_agrees_with_floating_point_equality() {
    for a in samples() {
        for b in samples() {
            assert_eq!(scalar(a) == scalar(b), a == b, "{a:?} == {b:?}");
        }
    }
}

#[test]
fn is_nan_agrees_with_floating_point() {
    for a in samples() {
        assert_eq!(scalar(a).is_nan(), a.is_nan(), "{a:?}");
    }
}

#[test]
fn bits_round_trip() {
    for a in samples() {
        assert_eq!(scalar(a).to_bits(), a.to_bits());
        assert_eq!(Scalar::from_bits(a.to_bits()).bits, a.to_bits());
    }
}

#[test]
fn one_is_the_number_one() {
    assert_eq!(Scalar::one().to_bits(), 1.0f64.to_bits());
    assert_eq!(ONE_BITS, 1.0f64.to_bits());
    assert_eq!(f64::from_bits(Scalar::one().to_bits()), 1.0);
}

#[test]
fn constants_are_the_binary64_ones() {
    assert_eq!(SIGN_BIT, (-0.0f64).to_bits());
    assert_eq!(INFINITY_BITS, f64::INFINITY.to_bits());
}

#[test]
fn zeros_are_equal_and_unordered() {
    let plus = scalar(0.0);
    let minus = scalar(-0.0);
    assert!(plus == minus);
    assert!(!plus.lt(&minus));
    assert!(!minus.lt(&plus));
    assert!(!plus.gt(&minus));
}

#[test]
fn nan_is_below_and_above_nothing() {
    let nan = scalar(f64::NAN);
    let one = scalar(1.0);
    assert!(!nan.lt(&one));
    assert!(!nan.gt(&one));
    assert!(!one.lt(&nan));
    assert!(!one.gt(&nan));
    assert!(!(nan == nan));
}

#[test]
fn partial_cmp_agrees_with_floating_point() {
    for a in samples() {
        for b in samples() {
            assert_eq!(scalar(a).partial_cmp(&scalar(b)), a.partial_cmp(&b), "{a:?} ? {b:?}");
            assert_eq!(scalar(a) < scalar(b), a < b);
            assert_eq!(scalar(a) <= scalar(b), a <= b);
            assert_eq!(scalar(a) > scalar(b), a > b);
            assert_eq!(scalar(a) >= scalar(b), a >= b);
        }
    }
}
