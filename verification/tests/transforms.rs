//! The Clarke and Park transforms and their inverses.

use fixed::types::I16F16;
use foc::park_clarke::{
    clarke, inverse_clarke, inverse_park, park, RotatingReferenceFrame,
    ThreePhaseBalancedReferenceFrame, ThreePhaseReferenceFrame, TwoPhaseReferenceFrame,
    ROUND_TRIP_SUM_MAX, ROUND_TRIP_SUM_MIN, SQRT_3_NEAREST_BITS,
};
use foc::scalar::Fixed;

fn fixed_of(value: I16F16) -> Fixed {
    Fixed::from_bits(value.to_bits())
}

fn as_f64(value: Fixed) -> f64 {
    value.to_bits() as f64 / 65536.0
}

fn clark_e_round_trip(a: f32, b: f32) {
    let input = ThreePhaseBalancedReferenceFrame {
        a: fixed_of(I16F16::from_num(a)),
        b: fixed_of(I16F16::from_num(b)),
    };
    let two_phase = clarke(input.clone());
    let result = inverse_clarke(two_phase);

    assert!(as_f64(result.a.abs_diff(input.a)) < 0.0001);
    assert!(as_f64(result.b.abs_diff(input.b)) < 0.0001);
}

#[test]
fn clarke_round_trip_zero() {
    clark_e_round_trip(0., 0.);
}

#[test]
fn clarke_round_trip_two_inputs() {
    clark_e_round_trip(0., 1.);
    clark_e_round_trip(1., 0.);
    clark_e_round_trip(-0.5, -0.5);
    clark_e_round_trip(-0.1, -0.2);
    clark_e_round_trip(13., 21.);
}

#[test]
fn park_round_trip() {
    let angle = I16F16::from_num(0.82);
    let (sin_angle, cos_angle) = cordic::sin_cos(angle);
    let (sin_angle, cos_angle) = (fixed_of(sin_angle), fixed_of(cos_angle));

    let input = TwoPhaseReferenceFrame {
        alpha: fixed_of(I16F16::from_num(2)),
        beta: fixed_of(I16F16::from_num(3)),
    };
    let moving_reference = park(cos_angle, sin_angle, input.clone());
    let result = inverse_park(cos_angle, sin_angle, moving_reference);

    assert!(as_f64(result.alpha.abs_diff(input.alpha)) < 0.001);
    assert!(as_f64(result.beta.abs_diff(input.beta)) < 0.001);
}

#[test]
fn clarke_exact_values() {
    // a = 1, b = 0: beta = 1 / sqrt(3).
    let r = clarke(ThreePhaseBalancedReferenceFrame { a: Fixed::from_int(1), b: Fixed::zero() });
    assert_eq!(r, TwoPhaseReferenceFrame { alpha: Fixed::from_int(1), beta: Fixed::from_bits(37837) });
    // a = 0, b = 1: beta = 2 / sqrt(3).
    let r = clarke(ThreePhaseBalancedReferenceFrame { a: Fixed::zero(), b: Fixed::from_int(1) });
    assert_eq!(r, TwoPhaseReferenceFrame { alpha: Fixed::zero(), beta: Fixed::from_bits(75674) });
    // a = -0.5, b = -0.5: beta = -1.5 / sqrt(3), rounded down.
    let r = clarke(ThreePhaseBalancedReferenceFrame {
        a: Fixed::from_bits(-32768),
        b: Fixed::from_bits(-32768),
    });
    assert_eq!(r.alpha.to_bits(), -32768);
    assert_eq!(r.beta.to_bits(), -56756);
}

#[test]
fn inverse_clarke_exact_values() {
    // alpha = 0, beta = 1: b = sqrt(3) / 2, c = -sqrt(3) / 2.
    let r = inverse_clarke(TwoPhaseReferenceFrame { alpha: Fixed::zero(), beta: Fixed::from_int(1) });
    assert_eq!(
        r,
        ThreePhaseReferenceFrame {
            a: Fixed::zero(),
            b: Fixed::from_bits(56756),
            c: Fixed::from_bits(-56756),
        }
    );
    assert_eq!(SQRT_3_NEAREST_BITS, 2 * 56756);
    // alpha = 1, beta = 0: b = c = -1/2.
    let r = inverse_clarke(TwoPhaseReferenceFrame { alpha: Fixed::from_int(1), beta: Fixed::zero() });
    assert_eq!((r.a.to_bits(), r.b.to_bits(), r.c.to_bits()), (65536, -32768, -32768));
    // Halving rounds toward zero: alpha = 1 raw unit gives b = c = 0, not -1.
    let r = inverse_clarke(TwoPhaseReferenceFrame { alpha: Fixed::from_bits(1), beta: Fixed::zero() });
    assert_eq!((r.a.to_bits(), r.b.to_bits(), r.c.to_bits()), (1, 0, 0));
}

fn sample_values() -> Vec<i32> {
    let mut state: u64 = 0x00c0_ffee;
    let mut out = vec![0, 1, -1, 65536, -65536, 32768, -32768, 6553600, -6553600, 123456, -98765];
    for i in 0..40 {
        state = state.wrapping_mul(6364136223846793005).wrapping_add(1442695040888963407);
        let raw = (state >> 32) as u32 as i32;
        out.push(if i % 2 == 0 { raw >> 8 } else { raw >> 14 });
    }
    out
}

#[test]
fn clarke_matches_the_formula_in_fixed_arithmetic() {
    let frac_1_sqrt_3 = I16F16::lit("0.57735027");
    for a in sample_values() {
        for b in sample_values() {
            let (fa, fb) = (I16F16::from_bits(a), I16F16::from_bits(b));
            let expected_beta =
                frac_1_sqrt_3.saturating_mul(fa.saturating_add(fb.saturating_mul_int(2)));
            let r = clarke(ThreePhaseBalancedReferenceFrame {
                a: Fixed::from_bits(a),
                b: Fixed::from_bits(b),
            });
            assert_eq!(r.alpha.to_bits(), a);
            assert_eq!(r.beta.to_bits(), expected_beta.to_bits());
        }
    }
}

#[test]
fn inverse_clarke_matches_the_formula_in_fixed_arithmetic() {
    let sqrt_3 = I16F16::lit("1.7320508");
    for alpha in sample_values() {
        for beta in sample_values() {
            let (fa, fb) = (I16F16::from_bits(alpha), I16F16::from_bits(beta));
            let expected_b = (-fa + sqrt_3 * fb) / 2;
            let expected_c = (-fa - sqrt_3 * fb) / 2;
            let r = inverse_clarke(TwoPhaseReferenceFrame {
                alpha: Fixed::from_bits(alpha),
                beta: Fixed::from_bits(beta),
            });
            assert_eq!(r.a.to_bits(), alpha);
            assert_eq!(r.b.to_bits(), expected_b.to_bits());
            assert_eq!(r.c.to_bits(), expected_c.to_bits());
        }
    }
}

#[test]
fn park_and_inverse_park_match_the_formulas_in_fixed_arithmetic() {
    let angles = [0.0f64, 0.82, 1.0, 2.5, -1.3, 3.1, -3.1];
    for angle in angles {
        let (sin, cos) = cordic::sin_cos(I16F16::from_num(angle));
        for x in sample_values() {
            for y in [0i32, 65536, -40000, 6553600, -6553600, 777] {
                let (fx, fy) = (I16F16::from_bits(x), I16F16::from_bits(y));
                let r = park(
                    fixed_of(cos),
                    fixed_of(sin),
                    TwoPhaseReferenceFrame { alpha: Fixed::from_bits(x), beta: Fixed::from_bits(y) },
                );
                assert_eq!(r.d.to_bits(), (cos * fx + sin * fy).to_bits());
                assert_eq!(r.q.to_bits(), (cos * fy - sin * fx).to_bits());
                let r = inverse_park(
                    fixed_of(cos),
                    fixed_of(sin),
                    RotatingReferenceFrame { d: Fixed::from_bits(x), q: Fixed::from_bits(y) },
                );
                assert_eq!(r.alpha.to_bits(), (cos * fx - sin * fy).to_bits());
                assert_eq!(r.beta.to_bits(), (sin * fx + cos * fy).to_bits());
            }
        }
    }
}

#[test]
fn park_at_zero_and_quarter_turn() {
    let v = TwoPhaseReferenceFrame { alpha: Fixed::from_int(2), beta: Fixed::from_int(3) };
    // cos = 1, sin = 0: nothing moves.
    let r = park(Fixed::one(), Fixed::zero(), v);
    assert_eq!(r, RotatingReferenceFrame { d: Fixed::from_int(2), q: Fixed::from_int(3) });
    // cos = 0, sin = 1: d = beta, q = -alpha.
    let r = park(Fixed::zero(), Fixed::one(), v);
    assert_eq!(r, RotatingReferenceFrame { d: Fixed::from_int(3), q: Fixed::from_int(-2) });
    // And back.
    let back = inverse_park(Fixed::zero(), Fixed::one(), r);
    assert_eq!(back, v);
    // cos = sin = 0.5: d = 2.5, q = 0.5.
    let half = Fixed::from_bits(32768);
    let r = park(half, half, v);
    assert_eq!((r.d.to_bits(), r.q.to_bits()), (163840, 32768));
    let r = inverse_park(half, half, RotatingReferenceFrame { d: Fixed::from_int(2), q: Fixed::from_int(3) });
    assert_eq!((r.alpha.to_bits(), r.beta.to_bits()), (-32768, 163840));
}

#[test]
fn transforms_saturate_instead_of_wrapping() {
    let big = Fixed::from_int(30000);
    let r = clarke(ThreePhaseBalancedReferenceFrame { a: big, b: big });
    // a + 2 b saturates at the top of the range, about 32768; times 0.57735.
    assert_eq!(r.beta.to_bits(), I16F16::lit("0.57735027").saturating_mul(I16F16::MAX).to_bits());
    let r = inverse_clarke(TwoPhaseReferenceFrame { alpha: Fixed::from_int(-30000), beta: big });
    assert_eq!((r.a.to_bits(), r.b.to_bits(), r.c.to_bits()), (-1966080000, 1073741823, -90701823));
    let r = park(Fixed::one(), Fixed::one(), TwoPhaseReferenceFrame { alpha: big, beta: big });
    assert_eq!(r.d, Fixed::max_value());
    assert_eq!(r.q, Fixed::zero());
    let r = inverse_park(
        Fixed::one(),
        Fixed::from_int(-1),
        RotatingReferenceFrame { d: Fixed::min_value(), q: Fixed::min_value() },
    );
    assert_eq!(r.alpha, Fixed::min_value());
    assert_eq!(r.beta, Fixed::from_bits(-1));
}

#[test]
fn inverse_clarke_sums_to_zero_within_one_unit() {
    for alpha in sample_values() {
        for beta in sample_values() {
            if alpha.abs() > 10000 * 65536 || beta.abs() > 10000 * 65536 {
                continue;
            }
            let r = inverse_clarke(TwoPhaseReferenceFrame {
                alpha: Fixed::from_bits(alpha),
                beta: Fixed::from_bits(beta),
            });
            let sum = r.a.to_bits() as i64 + r.b.to_bits() as i64 + r.c.to_bits() as i64;
            assert!(sum.abs() <= 1, "alpha {} beta {} sum {}", alpha, beta, sum);
        }
    }
    // Both halves lose half a unit in the same direction.
    let r = inverse_clarke(TwoPhaseReferenceFrame { alpha: Fixed::from_bits(1), beta: Fixed::zero() });
    assert_eq!(r.a.to_bits() + r.b.to_bits() + r.c.to_bits(), 1);
    let r = inverse_clarke(TwoPhaseReferenceFrame { alpha: Fixed::from_bits(-1), beta: Fixed::zero() });
    assert_eq!(r.a.to_bits() + r.b.to_bits() + r.c.to_bits(), -1);
}

#[test]
fn clarke_round_trip_stays_within_six_units_for_moderate_sums() {
    let values = [
        0i32, 1, -1, 65536, -65536, 1000000, -1000000, 1572864, -1998848, 851968, 33333, 1603424,
        -2030052, 3206849, -4060105, 6553600, -6553600,
    ];
    for a in values {
        for b in values {
            let sum = a as i64 + 2 * b as i64;
            if sum < ROUND_TRIP_SUM_MIN as i64 || sum > ROUND_TRIP_SUM_MAX as i64 {
                continue;
            }
            let back = inverse_clarke(clarke(ThreePhaseBalancedReferenceFrame {
                a: Fixed::from_bits(a),
                b: Fixed::from_bits(b),
            }));
            assert_eq!(back.a.to_bits(), a);
            assert!((back.b.to_bits() - b).abs() <= 6, "a {} b {}", a, b);
        }
    }
}

#[test]
fn clarke_round_trip_error_grows_with_the_sum() {
    // 13 and 21: six raw units short.
    let back = inverse_clarke(clarke(ThreePhaseBalancedReferenceFrame {
        a: Fixed::from_int(13),
        b: Fixed::from_int(21),
    }));
    assert_eq!(back.b.to_bits() - Fixed::from_int(21).to_bits(), -6);
    // A little past the largest sum: seven raw units short.
    assert!(2 * 1603544 > ROUND_TRIP_SUM_MAX);
    assert_eq!(2 * 1603544, 3207088);
    let back = inverse_clarke(clarke(ThreePhaseBalancedReferenceFrame {
        a: Fixed::zero(),
        b: Fixed::from_bits(1603544),
    }));
    assert_eq!(back.b.to_bits() - 1603544, -7);
    // A little past the smallest sum: seven raw units over.
    assert!(-1 + 2 * -2030662 < ROUND_TRIP_SUM_MIN);
    assert_eq!(-1 + 2 * -2030662, -4061325);
    let back = inverse_clarke(clarke(ThreePhaseBalancedReferenceFrame {
        a: Fixed::from_bits(-1),
        b: Fixed::from_bits(-2030662),
    }));
    assert_eq!(back.b.to_bits() + 2030662, 7);
    // One raw unit nearer to zero: six.
    let back = inverse_clarke(clarke(ThreePhaseBalancedReferenceFrame {
        a: Fixed::from_bits(1),
        b: Fixed::from_bits(1603543),
    }));
    assert_eq!(back.b.to_bits() - 1603543, -6);
    let back = inverse_clarke(clarke(ThreePhaseBalancedReferenceFrame {
        a: Fixed::zero(),
        b: Fixed::from_bits(-2030662),
    }));
    assert_eq!(back.b.to_bits() + 2030662, 6);
    // 100 and 100: 32 raw units short, about 0.00049.
    let back = inverse_clarke(clarke(ThreePhaseBalancedReferenceFrame {
        a: Fixed::from_int(100),
        b: Fixed::from_int(100),
    }));
    assert_eq!(back.a, Fixed::from_int(100));
    assert_eq!(back.b.to_bits() - Fixed::from_int(100).to_bits(), -32);
}

#[test]
fn park_round_trip_with_a_pair_near_the_unit_circle() {
    // 46341 / 65536 is the nearest value to the sine and cosine of 45 degrees.
    let c = Fixed::from_bits(46341);
    let s = Fixed::from_bits(46341);
    let defect = 2 * 46341i64 * 46341 - (1i64 << 32);
    assert_eq!(defect, 9266);
    for (alpha, beta) in [(100, 100), (-100, 37), (1, -1), (0, 0), (-100, -100)] {
        let v = TwoPhaseReferenceFrame { alpha: Fixed::from_int(alpha), beta: Fixed::from_int(beta) };
        let back = inverse_park(c, s, park(c, s, v));
        assert!((back.alpha.to_bits() - v.alpha.to_bits()).abs() <= 65);
        assert!((back.beta.to_bits() - v.beta.to_bits()).abs() <= 65);
    }
}

#[test]
fn park_round_trip_scales_by_the_squared_length() {
    // The sine and cosine of zero as the iteration gives them: 2 and 65535
    // raw units.  Their squared length is short of one by 0.00003, which
    // moves 100 by 200 raw units, about 0.003.
    let (sin, cos) = cordic::sin_cos(I16F16::ZERO);
    assert_eq!((sin.to_bits(), cos.to_bits()), (2, 65535));
    let (sin, cos) = (fixed_of(sin), fixed_of(cos));
    let v = TwoPhaseReferenceFrame { alpha: Fixed::from_int(100), beta: Fixed::from_int(100) };
    let back = inverse_park(cos, sin, park(cos, sin, v));
    assert_eq!(back.alpha.to_bits() - v.alpha.to_bits(), -200);
}
