use ray_tracer::scalar::Scalar;
use std::f64::consts::{FRAC_PI_2, FRAC_PI_3, FRAC_PI_4, PI};

fn s(x: f64) -> Scalar {
    Scalar::from_bits(x.to_bits())
}

fn f(x: Scalar) -> f64 {
    f64::from_bits(x.to_bits())
}

const SAMPLES: [f64; 16] = [
    0.0,
    -0.0,
    1.0,
    -1.0,
    0.1,
    -0.45,
    2.5,
    1e-6,
    3.141592653589793,
    1e300,
    -1e300,
    5e-324,
    -7.25,
    200.0,
    f64::INFINITY,
    f64::NEG_INFINITY,
];

#[test]
fn arithmetic_agrees_with_the_machine() {
    for &a in SAMPLES.iter() {
        for &b in SAMPLES.iter() {
            let sum = f(s(a).add(s(b)));
            let difference = f(s(a).sub(s(b)));
            let product = f(s(a).mul(s(b)));
            let quotient = f(s(a).div(s(b)));
            assert!(sum == a + b || (sum.is_nan() && (a + b).is_nan()));
            assert!(difference == a - b || (difference.is_nan() && (a - b).is_nan()));
            assert!(product == a * b || (product.is_nan() && (a * b).is_nan()));
            assert!(quotient == a / b || (quotient.is_nan() && (a / b).is_nan()));
        }
    }
}

#[test]
fn fused_multiply_add_rounds_once() {
    for &a in SAMPLES.iter() {
        for &b in SAMPLES.iter() {
            for &c in SAMPLES.iter() {
                let got = f(s(a).mul_add(s(b), s(c)));
                let want = a.mul_add(b, c);
                assert!(got == want || (got.is_nan() && want.is_nan()));
            }
        }
    }
    let a = 1.0 + 1.0 / 134217728.0;
    assert_eq!(f(s(a).mul_add(s(a), s(-1.0))), a.mul_add(a, -1.0));
    assert_ne!(f(s(a).mul_add(s(a), s(-1.0))), a * a - 1.0);
}

#[test]
fn remainder_has_the_sign_of_the_dividend() {
    assert_eq!(f(s(5.5).rem(s(2.0))), 1.5);
    assert_eq!(f(s(-5.5).rem(s(2.0))), -1.5);
    assert_eq!(f(s(1.1).rem(s(2.0))), 1.1 % 2.0);
    assert_eq!(f(s(4.0).rem(s(2.0))), 0.0);
    assert!(f(s(1.0).rem(s(0.0))).is_nan());
}

#[test]
fn roots_and_roundings_agree_with_the_machine() {
    for &a in SAMPLES.iter() {
        let root = f(s(a).sqrt());
        assert!(root == a.sqrt() || (root.is_nan() && a.sqrt().is_nan()));
        assert_eq!(f(s(a).floor()), a.floor());
        assert_eq!(f(s(a).trunc()), a.trunc());
        assert_eq!(f(s(a).round()), a.round());
        if a.is_finite() {
            assert_eq!(f(s(a).fract()), a.fract());
        }
    }
    assert_eq!(f(s(14.0).sqrt()), 14.0_f64.sqrt());
    assert_eq!(f(s(2.0).sqrt()), 2.0_f64.sqrt());
    assert_eq!(f(s(0.5).round()), 1.0);
    assert_eq!(f(s(-0.5).round()), -1.0);
    assert_eq!(f(s(127.5).round()), 128.0);
    assert_eq!(f(s(-0.1).floor()), -1.0);
}

#[test]
fn sine_and_cosine_of_the_usual_angles() {
    for &a in [0.0, FRAC_PI_4, FRAC_PI_2, PI, PI / 5.0, -FRAC_PI_4].iter() {
        assert_eq!(f(s(a).sin()), a.sin());
        assert_eq!(f(s(a).cos()), a.cos());
    }
    assert!((f(s(FRAC_PI_3).sin()) - FRAC_PI_3.sin()).abs() <= f64::EPSILON);
    assert!((f(s(FRAC_PI_3).cos()) - 0.5).abs() <= f64::EPSILON);
    let half = (std::f32::consts::FRAC_PI_2 as f64) / 2.0;
    assert_eq!(f(s(half).tan()), half.tan());
}

#[test]
fn integer_powers() {
    assert_eq!(f(s(2.0).power(10)), 1024.0);
    assert_eq!(f(s(1.0).power(200)), 1.0);
    assert_eq!(f(s(0.5).power(2)), 0.25);
    assert_eq!(f(s(3.0).power(0)), 1.0);
    assert_eq!(f(s(3.0).power(5)), 243.0);
    assert_eq!(f(s(-2.0).power(3)), -8.0);
    assert!((f(s(0.9).power(200)) - 0.9_f64.powf(200.0)).abs() < 1e-22);
}

#[test]
fn integers_convert_both_ways() {
    assert_eq!(f(Scalar::from_int(0)), 0.0);
    assert_eq!(f(Scalar::from_int(255)), 255.0);
    assert_eq!(f(Scalar::from_int(10000)), 10000.0);
    assert_eq!(f(Scalar::from_int(u64::MAX)), u64::MAX as f64);
    assert_eq!(s(255.0).to_int(), 255);
    assert_eq!(s(127.9).to_int(), 127);
    assert_eq!(s(-3.0).to_int(), 0);
    assert_eq!(s(f64::NAN).to_int(), 0);
    assert_eq!(s(1e300).to_int(), u64::MAX);
}

#[test]
fn ratios_are_the_decimal_constants() {
    assert_eq!(f(Scalar::ratio(1, 10)), 0.1);
    assert_eq!(f(Scalar::ratio(7, 10)), 0.7);
    assert_eq!(f(Scalar::ratio(9, 10)), 0.9);
    assert_eq!(f(Scalar::ratio(33, 100)), 0.33);
    assert_eq!(f(Scalar::ratio(45, 100)), 0.45);
    assert_eq!(f(Scalar::ratio(1, 1000000)), 0.000001);
}

#[test]
fn named_constants() {
    assert_eq!(f(Scalar::zero()), 0.0);
    assert_eq!(f(Scalar::one()), 1.0);
    assert_eq!(f(Scalar::two()), 2.0);
    assert_eq!(f(Scalar::four()), 4.0);
    assert_eq!(f(Scalar::half()), 0.5);
    assert_eq!(f(Scalar::epsilon()), 0.000001);
    assert_eq!(f(Scalar::machine_epsilon()), f64::EPSILON);
}

#[test]
fn order_agrees_with_the_machine() {
    let mut all: Vec<f64> = SAMPLES.to_vec();
    all.push(f64::NAN);
    all.push(f64::MIN_POSITIVE);
    all.push(-f64::MIN_POSITIVE);
    for &a in all.iter() {
        for &b in all.iter() {
            assert_eq!(s(a).lt(s(b)), a < b);
            assert_eq!(s(a).le(s(b)), a <= b);
            assert_eq!(s(a).gt(s(b)), a > b);
            assert_eq!(s(a).ge(s(b)), a >= b);
            assert_eq!(s(a).same(s(b)), a == b);
            assert_eq!(s(a) == s(b), a == b);
        }
        assert_eq!(s(a).is_nan(), a.is_nan());
        assert_eq!(s(a).is_zero(), a == 0.0);
        assert_eq!(s(a).is_positive(), a > 0.0);
    }
}

#[test]
fn negation_and_absolute_value_touch_the_sign_only() {
    for &a in SAMPLES.iter() {
        assert_eq!(s(a).neg().to_bits(), (-a).to_bits());
        assert_eq!(s(a).abs().to_bits(), a.abs().to_bits());
    }
    assert_eq!(s(0.0).neg().to_bits(), (-0.0_f64).to_bits());
}

#[test]
fn fractions_of_pi() {
    assert_eq!(f(Scalar::frac_pi_2()), FRAC_PI_2);
    assert_eq!(f(Scalar::frac_pi_3()), FRAC_PI_3);
    assert_eq!(f(Scalar::frac_pi_4()), FRAC_PI_4);
}

fn next_pattern(state: &mut u64) -> u64 {
    *state ^= *state << 13;
    *state ^= *state >> 7;
    *state ^= *state << 17;
    *state
}

fn next_moderate(state: &mut u64) -> f64 {
    let bits = next_pattern(state);
    let exponent = 1023 - 40 + (bits >> 52) % 80;
    f64::from_bits((bits & 0x800F_FFFF_FFFF_FFFF) | (exponent << 52))
}

fn agree(got: Scalar, want: f64) -> bool {
    got.to_bits() == want.to_bits() || (f(got).is_nan() && want.is_nan())
}

#[test]
fn arithmetic_agrees_with_the_machine_on_any_encoding() {
    let mut state: u64 = 0x2545_F491_4F6C_DD1D;
    for _ in 0..20000 {
        let a = f64::from_bits(next_pattern(&mut state));
        let b = f64::from_bits(next_pattern(&mut state));
        let c = f64::from_bits(next_pattern(&mut state));
        assert!(agree(s(a).add(s(b)), a + b));
        assert!(agree(s(a).sub(s(b)), a - b));
        assert!(agree(s(a).mul(s(b)), a * b));
        assert!(agree(s(a).div(s(b)), a / b));
        assert!(agree(s(a).mul_add(s(b), s(c)), a.mul_add(b, c)));
        assert!(agree(s(a).rem(s(b)), a % b));
        assert!(agree(s(a).sqrt(), a.sqrt()));
        assert!(agree(s(a).floor(), a.floor()));
        assert!(agree(s(a).trunc(), a.trunc()));
        assert!(agree(s(a).round(), a.round()));
        assert_eq!(s(a).to_int(), a as u64);
        assert_eq!(s(a).lt(s(b)), a < b);
        assert_eq!(s(a).le(s(b)), a <= b);
        assert_eq!(s(a).same(s(b)), a == b);
        let n = next_pattern(&mut state);
        assert!(agree(Scalar::from_int(n), n as f64));
        let _ = s(a).sin();
        let _ = s(a).cos();
        let _ = s(a).power(n % 512);
    }
}

#[test]
fn arithmetic_agrees_with_the_machine_on_moderate_numbers() {
    let mut state: u64 = 0x9E37_79B9_7F4A_7C15;
    for _ in 0..20000 {
        let a = next_moderate(&mut state);
        let b = next_moderate(&mut state);
        let c = next_moderate(&mut state);
        assert!(agree(s(a).add(s(b)), a + b));
        assert!(agree(s(a).sub(s(b)), a - b));
        assert!(agree(s(a).mul(s(b)), a * b));
        assert!(agree(s(a).div(s(b)), a / b));
        assert!(agree(s(a).mul_add(s(b), s(c)), a.mul_add(b, c)));
        assert!(agree(s(a).rem(s(b)), a % b));
        assert!(agree(s(a).sqrt(), a.sqrt()));
        assert!(agree(s(a).floor(), a.floor()));
        assert!(agree(s(a).trunc(), a.trunc()));
        assert!(agree(s(a).round(), a.round()));
        assert!(agree(s(a).fract(), a.fract()));
        assert_eq!(s(a).to_int(), a as u64);
        assert!(agree(s(a).mul(s(a)), a.powi(2)));
        assert!(agree(Scalar::one().mul(s(a).mul(s(a))), a.powi(2)));
        let sine = f(s(a).sin());
        let cosine = f(s(a).cos());
        assert!((sine - a.sin()).abs() <= 2.0 * f64::EPSILON);
        assert!((cosine - a.cos()).abs() <= 2.0 * f64::EPSILON);
    }
}

#[test]
fn powers_with_any_exponent() {
    assert_eq!(f(s(0.25).powf(s(0.5))), 0.5);
    assert_eq!(f(s(2.0).powf(s(0.5))), 2.0_f64.sqrt());
    assert_eq!(f(s(16.0).powf(s(0.25))), 2.0);
    assert_eq!(f(s(16.0).powf(s(0.75))), 8.0);
    assert_eq!(f(s(2.0).powf(s(10.0))), 1024.0);
    assert_eq!(f(s(2.0).powf(s(-1.0))), 0.5);
    assert_eq!(f(s(4.0).powf(s(-0.5))), 0.5);
    assert_eq!(f(s(4.0).powf(s(2.5))), 32.0);
    assert_eq!(f(s(3.0).powf(s(0.0))), 1.0);
    assert_eq!(f(s(3.0).powf(s(-0.0))), 1.0);
    assert_eq!(f(s(0.0).powf(s(0.5))), 0.0);
    assert_eq!(f(s(1.0).powf(s(200.0))), 1.0);
    assert_eq!(f(s(0.5).powf(s(f64::INFINITY))), 0.0);
    assert_eq!(f(s(2.0).powf(s(f64::INFINITY))), f64::INFINITY);
    assert!(f(s(2.0).powf(s(f64::NAN))).is_nan());
    assert_eq!(s(0.9).powf(s(200.0)).to_bits(), s(0.9).power(200).to_bits());
    for &(base, exponent) in [
        (0.9, 0.3),
        (0.7071067811865476, 0.5),
        (0.3, 12.75),
        (0.999, 200.5),
        (2.0, 2.5),
        (7.0, 1.0 / 3.0),
        (0.5369, 3.1415926),
    ]
    .iter()
    {
        let got = f(s(base).powf(s(exponent)));
        let want = (base as f64).powf(exponent);
        assert!((got - want).abs() <= 1e-13 * want.abs());
    }
}

#[test]
fn powers_with_an_exponent_below_one() {
    assert_eq!(f(s(16.0).root_power(s(0.5), 64)), 4.0);
    assert_eq!(f(s(16.0).root_power(s(0.25), 64)), 2.0);
    assert_eq!(f(s(16.0).root_power(s(0.75), 64)), 8.0);
    assert_eq!(f(s(16.0).root_power(s(0.75), 1)), 4.0);
    assert_eq!(f(s(16.0).root_power(s(0.75), 0)), 1.0);
    assert_eq!(f(s(16.0).root_power(s(0.0), 64)), 1.0);
    assert_eq!(f(s(16.0).root_power(s(-0.5), 64)), 1.0);
}

#[test]
fn the_integral_part_is_read_off_the_encoding() {
    for &(x, whole) in [
        (0.0, 0.0),
        (0.999, 0.0),
        (1.0, 1.0),
        (1.5, 1.0),
        (2.999, 2.0),
        (-2.999, -2.0),
        (-0.5, -0.0),
        (4503599627370495.5, 4503599627370495.0),
        (4503599627370496.0, 4503599627370496.0),
        (1e300, 1e300),
        (5e-324, 0.0),
        (f64::INFINITY, f64::INFINITY),
        (f64::NEG_INFINITY, f64::NEG_INFINITY),
    ]
    .iter()
    {
        assert_eq!(s(x).trunc().to_bits(), (whole as f64).to_bits());
        assert_eq!(s(x).trunc().to_bits(), (x as f64).trunc().to_bits());
        assert_eq!(s(x).trunc().trunc().to_bits(), s(x).trunc().to_bits());
    }
    assert!(s(f64::NAN).trunc().is_nan());
    assert_eq!(s(-0.5).trunc().to_bits(), (-0.0_f64).to_bits());
}
