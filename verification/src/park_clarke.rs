//! The Clarke and Park transforms and their inverses.
//!
//! The Clarke transform takes the currents of a balanced three-phase system
//! to two orthogonal components in the stationary frame; the Park transform
//! rotates those into the frame that turns with the rotor.  Every step is a
//! saturating fixed-point operation, and the contracts give the result of
//! each transform bit for bit.

use vstd::prelude::*;
use crate::scalar::{fixed, Fixed};
use crate::scalar::{FRAC_1_SQRT_3_BITS, MAX_BITS, MIN_BITS};
use crate::scalar::{sat_add, sat_sub, sat_neg, sat_mul, sat_mul_int, sat_div_int};

verus! {

/// Raw units of the square root of three, rounded to the nearest
/// representable value.
///
/// The inverse Clarke transform uses this constant rather than the one
/// rounded down, because its product with one over the square root of three
/// is then closer to one.
pub const SQRT_3_NEAREST_BITS: i32 = 113512;

/// A value in the frame that turns with the electrical angle of the rotor.
/// The two axes are orthogonal.
#[derive(Clone, Copy, Debug, PartialEq, Eq, Structural)]
pub struct RotatingReferenceFrame {
    pub d: Fixed,
    pub q: Fixed,
}

/// A value in the stationary frame with two orthogonal axes.
#[derive(Clone, Copy, Debug, PartialEq, Eq, Structural)]
pub struct TwoPhaseReferenceFrame {
    pub alpha: Fixed,
    pub beta: Fixed,
}

/// A three-phase value in the stationary frame. The three components need
/// not sum to zero.
#[derive(Clone, Copy, Debug, PartialEq, Eq, Structural)]
pub struct ThreePhaseReferenceFrame {
    pub a: Fixed,
    pub b: Fixed,
    pub c: Fixed,
}

/// A three-phase value in the stationary frame whose components sum to zero,
/// so that the third is left out.
#[derive(Clone, Copy, Debug, PartialEq, Eq, Structural)]
pub struct ThreePhaseBalancedReferenceFrame {
    pub a: Fixed,
    pub b: Fixed,
}

/// Raw units of the beta component of the Clarke transform:
/// `(a + 2 b) / sqrt(3)`.
pub open spec fn clarke_beta(a: int, b: int) -> int {
    sat_mul(FRAC_1_SQRT_3_BITS as int, sat_add(a, sat_mul_int(b, 2)))
}

/// Raw units of the second phase of the inverse Clarke transform:
/// `(-alpha + sqrt(3) beta) / 2`.
pub open spec fn inverse_clarke_b(alpha: int, beta: int) -> int {
    sat_div_int(sat_add(sat_neg(alpha), sat_mul(SQRT_3_NEAREST_BITS as int, beta)), 2)
}

/// Raw units of the third phase of the inverse Clarke transform:
/// `(-alpha - sqrt(3) beta) / 2`.
pub open spec fn inverse_clarke_c(alpha: int, beta: int) -> int {
    sat_div_int(sat_sub(sat_neg(alpha), sat_mul(SQRT_3_NEAREST_BITS as int, beta)), 2)
}

/// Raw units of the direct component of the Park transform:
/// `cos alpha + sin beta`.
pub open spec fn park_d(cos: int, sin: int, alpha: int, beta: int) -> int {
    sat_add(sat_mul(cos, alpha), sat_mul(sin, beta))
}

/// Raw units of the quadrature component of the Park transform:
/// `cos beta - sin alpha`.
pub open spec fn park_q(cos: int, sin: int, alpha: int, beta: int) -> int {
    sat_sub(sat_mul(cos, beta), sat_mul(sin, alpha))
}

/// Raw units of the alpha component of the inverse Park transform:
/// `cos d - sin q`.
pub open spec fn inverse_park_alpha(cos: int, sin: int, d: int, q: int) -> int {
    sat_sub(sat_mul(cos, d), sat_mul(sin, q))
}

/// Raw units of the beta component of the inverse Park transform:
/// `sin d + cos q`.
pub open spec fn inverse_park_beta(cos: int, sin: int, d: int, q: int) -> int {
    sat_add(sat_mul(sin, d), sat_mul(cos, q))
}

/// The Clarke transform of a balanced three-phase value:
/// `alpha = a`, `beta = (a + 2 b) / sqrt(3)`.
pub open spec fn clarke_spec(inputs: ThreePhaseBalancedReferenceFrame) -> TwoPhaseReferenceFrame {
    TwoPhaseReferenceFrame { alpha: inputs.a, beta: fixed(clarke_beta(inputs.a@, inputs.b@)) }
}

/// The inverse Clarke transform: `a = alpha`,
/// `b = (-alpha + sqrt(3) beta) / 2`, `c = (-alpha - sqrt(3) beta) / 2`.
pub open spec fn inverse_clarke_spec(inputs: TwoPhaseReferenceFrame) -> ThreePhaseReferenceFrame {
    ThreePhaseReferenceFrame {
        a: inputs.alpha,
        b: fixed(inverse_clarke_b(inputs.alpha@, inputs.beta@)),
        c: fixed(inverse_clarke_c(inputs.alpha@, inputs.beta@)),
    }
}

/// The Park transform at the angle with the given cosine and sine:
/// `d = cos alpha + sin beta`, `q = cos beta - sin alpha`.
pub open spec fn park_spec(
    cos_angle: Fixed,
    sin_angle: Fixed,
    inputs: TwoPhaseReferenceFrame,
) -> RotatingReferenceFrame {
    RotatingReferenceFrame {
        d: fixed(park_d(cos_angle@, sin_angle@, inputs.alpha@, inputs.beta@)),
        q: fixed(park_q(cos_angle@, sin_angle@, inputs.alpha@, inputs.beta@)),
    }
}

/// The inverse Park transform at the angle with the given cosine and sine:
/// `alpha = cos d - sin q`, `beta = sin d + cos q`.
pub open spec fn inverse_park_spec(
    cos_angle: Fixed,
    sin_angle: Fixed,
    inputs: RotatingReferenceFrame,
) -> TwoPhaseReferenceFrame {
    TwoPhaseReferenceFrame {
        alpha: fixed(inverse_park_alpha(cos_angle@, sin_angle@, inputs.d@, inputs.q@)),
        beta: fixed(inverse_park_beta(cos_angle@, sin_angle@, inputs.d@, inputs.q@)),
    }
}

/// Clarke transform of a balanced three-phase value.
pub fn clarke(inputs: ThreePhaseBalancedReferenceFrame) -> (r: TwoPhaseReferenceFrame)
    ensures
        r == clarke_spec(inputs),
{
    let sum = inputs.a.saturating_add(inputs.b.saturating_mul_int(2));
    TwoPhaseReferenceFrame { alpha: inputs.a, beta: Fixed::frac_1_sqrt_3().saturating_mul(sum) }
}

/// Inverse Clarke transform.
pub fn inverse_clarke(inputs: TwoPhaseReferenceFrame) -> (r: ThreePhaseReferenceFrame)
    ensures
        r == inverse_clarke_spec(inputs),
{
    let sqrt_3_beta = Fixed::from_bits(SQRT_3_NEAREST_BITS).saturating_mul(inputs.beta);
    let minus_alpha = inputs.alpha.saturating_neg();
    ThreePhaseReferenceFrame {
        a: inputs.alpha,
        b: minus_alpha.saturating_add(sqrt_3_beta).saturating_div_int(2),
        c: minus_alpha.saturating_sub(sqrt_3_beta).saturating_div_int(2),
    }
}

/// Park transform: rotates a stationary value into the rotor's frame, given
/// the cosine and sine of the electrical angle.
pub fn park(cos_angle: Fixed, sin_angle: Fixed, inputs: TwoPhaseReferenceFrame) -> (r:
    RotatingReferenceFrame)
    ensures
        r == park_spec(cos_angle, sin_angle, inputs),
{
    RotatingReferenceFrame {
        d: cos_angle.saturating_mul(inputs.alpha).saturating_add(
            sin_angle.saturating_mul(inputs.beta),
        ),
        q: cos_angle.saturating_mul(inputs.beta).saturating_sub(
            sin_angle.saturating_mul(inputs.alpha),
        ),
    }
}

/// Inverse Park transform: rotates a value in the rotor's frame back into the
/// stationary frame, given the cosine and sine of the electrical angle.
pub fn inverse_park(cos_angle: Fixed, sin_angle: Fixed, inputs: RotatingReferenceFrame) -> (r:
    TwoPhaseReferenceFrame)
    ensures
        r == inverse_park_spec(cos_angle, sin_angle, inputs),
{
    TwoPhaseReferenceFrame {
        alpha: cos_angle.saturating_mul(inputs.d).saturating_sub(
            sin_angle.saturating_mul(inputs.q),
        ),
        beta: sin_angle.saturating_mul(inputs.d).saturating_add(
            cos_angle.saturating_mul(inputs.q),
        ),
    }
}

/// Smallest weighted sum `a + 2 b`, in raw units, for which the bounds on the
/// rounding alone keep the Clarke round trip within six raw units; about
/// -61.95.
pub const ROUND_TRIP_SUM_MIN: i32 = -4060105;

/// Largest weighted sum `a + 2 b`, in raw units, for which the bounds on the
/// rounding alone keep the Clarke round trip within six raw units; about
/// 48.93.
pub const ROUND_TRIP_SUM_MAX: i32 = 3206849;

/// The Clarke transform followed by its inverse gives back the first phase
/// exactly and the second within six raw units, which is less than 0.0001.
///
/// This holds for phase values of magnitude at most 100 whose weighted sum
/// `a + 2 b` lies between [`ROUND_TRIP_SUM_MIN`] and [`ROUND_TRIP_SUM_MAX`].
/// The product of the two constants that stand for the square root of three
/// and its inverse is a little less than one, so the error grows with that
/// sum.  The nearest sums at which a phase comes back seven raw units off are
/// -4061325 and 3207088 raw units.  [`lemma_clarke_round_trip_bound`] covers
/// the rest of the range.
pub proof fn lemma_clarke_round_trip(inputs: ThreePhaseBalancedReferenceFrame)
    requires
        -100 * 65536 <= inputs.a@ <= 100 * 65536,
        -100 * 65536 <= inputs.b@ <= 100 * 65536,
        ROUND_TRIP_SUM_MIN <= inputs.a@ + 2 * inputs.b@ <= ROUND_TRIP_SUM_MAX,
    ensures
        inverse_clarke_spec(clarke_spec(inputs)).a == inputs.a,
        -6 <= inverse_clarke_spec(clarke_spec(inputs)).b@ - inputs.b@ <= 6,
{
    lemma_clarke_round_trip_error(inputs.a@, inputs.b@);
}

/// The Clarke transform followed by its inverse, for all phase values of
/// magnitude at most 100: the first phase comes back exactly and the second
/// within 33 raw units, which is less than 0.00051.
pub proof fn lemma_clarke_round_trip_bound(inputs: ThreePhaseBalancedReferenceFrame)
    requires
        -100 * 65536 <= inputs.a@ <= 100 * 65536,
        -100 * 65536 <= inputs.b@ <= 100 * 65536,
    ensures
        inverse_clarke_spec(clarke_spec(inputs)).a == inputs.a,
        -33 <= inverse_clarke_spec(clarke_spec(inputs)).b@ - inputs.b@ <= 31,
{
    lemma_clarke_round_trip_error(inputs.a@, inputs.b@);
}

/// How far the Clarke round trip is from the second phase.
///
/// With `t = a + 2 b` and `beta` the Clarke beta component, the square root
/// of three times `beta` falls short of `t` by
/// `(13752 t + 113512 (37837 t - 65536 beta)) / 2^32`, rounded up, where
/// 13752 is what the product of the two constants lacks to 2^32 and the
/// second term is what the first product lost in rounding.  Halving toward
/// zero then gives the error of the second phase.
proof fn lemma_clarke_round_trip_error(a: int, b: int)
    requires
        -100 * 65536 <= a <= 100 * 65536,
        -100 * 65536 <= b <= 100 * 65536,
    ensures
        ({
            let t = a + 2 * b;
            let beta = (37837 * t) / 65536;
            let lost = 13752 * t + 113512 * (37837 * t - 65536 * beta);
            let back = inverse_clarke_b(a, clarke_beta(a, b));
            &&& 0 <= 37837 * t - 65536 * beta < 65536
            &&& 0x1_0000_0000 * (2 * (back - b) - 1) <= -lost
            &&& 0x1_0000_0000 * (2 * (back - b) + 1) > -lost - 0x1_0000_0000
        }),
{
    let t = a + 2 * b;
    let beta = (37837 * t) / 65536;
    let p = (113512 * beta) / 65536;
    assert(clarke_beta(a, b) == beta);
    assert(sat_mul(SQRT_3_NEAREST_BITS as int, beta) == p);
    assert(65536 * beta <= 37837 * t < 65536 * beta + 65536);
    assert(65536 * p <= 113512 * beta < 65536 * p + 65536);
    assert(inverse_clarke_b(a, beta) == crate::scalar::div_toward_zero(p - a, 2));
}

/// Whether the negation, the sum and the difference in the inverse Clarke
/// transform of a voltage of `alpha` and `beta` raw units all stay inside the
/// range of the format.  The product of the square root of three and `beta`
/// may be cut off: that moves the last two phases by opposite amounts.
pub open spec fn inverse_clarke_in_range(alpha: int, beta: int) -> bool {
    let p = sat_mul(SQRT_3_NEAREST_BITS as int, beta);
    &&& MIN_BITS <= -alpha <= MAX_BITS
    &&& MIN_BITS <= -alpha + p <= MAX_BITS
    &&& MIN_BITS <= -alpha - p <= MAX_BITS
}

/// The three phases of the inverse Clarke transform sum to zero within one
/// raw unit, wherever its negation, sum and difference are not cut off at an
/// end of the range.
///
/// In exact arithmetic the sum is zero; the two halvings each lose at most
/// half a raw unit.
pub proof fn lemma_inverse_clarke_sum(inputs: TwoPhaseReferenceFrame)
    requires
        inverse_clarke_in_range(inputs.alpha@, inputs.beta@),
    ensures
        ({
            let phases = inverse_clarke_spec(inputs);
            -1 <= phases.a@ + phases.b@ + phases.c@ <= 1
        }),
{
}

/// Voltages of magnitude at most 10000 in both components are transformed
/// without anything being cut off.
pub proof fn lemma_inverse_clarke_in_range(inputs: TwoPhaseReferenceFrame)
    requires
        -10000 * 65536 <= inputs.alpha@ <= 10000 * 65536,
        -10000 * 65536 <= inputs.beta@ <= 10000 * 65536,
    ensures
        inverse_clarke_in_range(inputs.alpha@, inputs.beta@),
{
}

/// How far the point `(cos, sin)`, in raw units, is from the unit circle: its
/// squared length less one, in units of 2 to the power -32.
pub open spec fn unit_circle_defect(cos: int, sin: int) -> int {
    cos * cos + sin * sin - 0x1_0000_0000
}

/// A product is bounded by the product of the bounds of its factors.
proof fn lemma_product_bound(x: int, y: int, bound_x: int, bound_y: int)
    by (nonlinear_arith)
    requires
        -bound_x <= x <= bound_x,
        -bound_y <= y <= bound_y,
    ensures
        -(bound_x * bound_y) <= x * y <= bound_x * bound_y,
{
}

/// The algebra of a rotation followed by the opposite rotation, when each of
/// the two intermediate components is short of its exact value by `e1` and
/// `e2`.
proof fn lemma_rotation_identity(
    c: int,
    s: int,
    al: int,
    be: int,
    e1: int,
    e2: int,
    d: int,
    q: int,
)
    by (nonlinear_arith)
    requires
        65536 * d == c * al + s * be - e1,
        65536 * q == c * be - s * al - e2,
    ensures
        65536 * (c * d - s * q) == (c * c + s * s) * al - c * e1 + s * e2,
        65536 * (s * d + c * q) == (c * c + s * s) * be - s * e1 - c * e2,
{
    assert(c * (65536 * d) == c * (c * al + s * be - e1));
    assert(s * (65536 * q) == s * (c * be - s * al - e2));
    assert(s * (65536 * d) == s * (c * al + s * be - e1));
    assert(c * (65536 * q) == c * (c * be - s * al - e2));
}

/// The error of the Park transform followed by its inverse, for a cosine and
/// sine of magnitude at most one and a voltage of magnitude at most 100 in
/// both components.
///
/// Each component comes back as itself, times the squared length of
/// `(cos, sin)`, plus a rounding error: less than four raw units for alpha
/// and less than five for beta.
pub proof fn lemma_park_round_trip_error(cos: Fixed, sin: Fixed, v: TwoPhaseReferenceFrame)
    requires
        -65536 <= cos@ <= 65536,
        -65536 <= sin@ <= 65536,
        -100 * 65536 <= v.alpha@ <= 100 * 65536,
        -100 * 65536 <= v.beta@ <= 100 * 65536,
    ensures
        ({
            let back = inverse_park_spec(cos, sin, park_spec(cos, sin, v));
            let defect = unit_circle_defect(cos@, sin@);
            let one: int = 0x1_0000_0000;
            &&& -4 * one < one * (back.alpha@ - v.alpha@) - defect * v.alpha@ < 4 * one
            &&& -5 * one < one * (back.beta@ - v.beta@) - defect * v.beta@ < 5 * one
        }),
{
    let c = cos@;
    let s = sin@;
    let al = v.alpha@;
    let be = v.beta@;
    lemma_product_bound(c, al, 65536, 6553600);
    lemma_product_bound(s, be, 65536, 6553600);
    lemma_product_bound(c, be, 65536, 6553600);
    lemma_product_bound(s, al, 65536, 6553600);
    let m1 = (c * al) / 65536;
    let m2 = (s * be) / 65536;
    let m3 = (c * be) / 65536;
    let m4 = (s * al) / 65536;
    let r1 = c * al - 65536 * m1;
    let r2 = s * be - 65536 * m2;
    let r3 = c * be - 65536 * m3;
    let r4 = s * al - 65536 * m4;
    let d = m1 + m2;
    let q = m3 - m4;
    assert(d == park_d(c, s, al, be));
    assert(q == park_q(c, s, al, be));
    let e1 = r1 + r2;
    let e2 = r3 - r4;
    lemma_rotation_identity(c, s, al, be, e1, e2, d, q);
    lemma_product_bound(c, d, 65536, 13107200);
    lemma_product_bound(s, q, 65536, 13107200);
    lemma_product_bound(s, d, 65536, 13107200);
    lemma_product_bound(c, q, 65536, 13107200);
    let m5 = (c * d) / 65536;
    let m6 = (s * q) / 65536;
    let m7 = (s * d) / 65536;
    let m8 = (c * q) / 65536;
    assert(m5 - m6 == inverse_park_alpha(c, s, d, q));
    assert(m7 + m8 == inverse_park_beta(c, s, d, q));
    lemma_product_bound(c, e1, 65536, 131070);
    lemma_product_bound(s, e2, 65536, 65535);
    lemma_product_bound(s, e1, 65536, 131070);
    lemma_product_bound(c, e2, 65536, 65535);
    let n = c * c + s * s;
    assert((n - 0x1_0000_0000) * al == n * al - 0x1_0000_0000 * al) by (nonlinear_arith);
    assert((n - 0x1_0000_0000) * be == n * be - 0x1_0000_0000 * be) by (nonlinear_arith);
}

/// The Park transform followed by its inverse gives back each component of a
/// voltage within 65 raw units, which is less than 0.001.
///
/// This holds for a cosine and sine of magnitude at most one and a voltage of
/// magnitude at most 100 in both components, provided that the distance of
/// `(cos, sin)` from the unit circle, times either component of the voltage,
/// is at most 61 raw units.  The round trip multiplies the voltage by the
/// squared length of `(cos, sin)`, so a pair further from the unit circle
/// moves a long voltage by more than this:
/// [`lemma_park_round_trip_error`] gives the error for any pair.
pub proof fn lemma_park_round_trip(cos: Fixed, sin: Fixed, v: TwoPhaseReferenceFrame)
    requires
        -65536 <= cos@ <= 65536,
        -65536 <= sin@ <= 65536,
        -100 * 65536 <= v.alpha@ <= 100 * 65536,
        -100 * 65536 <= v.beta@ <= 100 * 65536,
        -61 * 0x1_0000_0000 <= unit_circle_defect(cos@, sin@) * v.alpha@ <= 61 * 0x1_0000_0000,
        -61 * 0x1_0000_0000 <= unit_circle_defect(cos@, sin@) * v.beta@ <= 61 * 0x1_0000_0000,
    ensures
        ({
            let back = inverse_park_spec(cos, sin, park_spec(cos, sin, v));
            &&& -65 <= back.alpha@ - v.alpha@ <= 65
            &&& -65 <= back.beta@ - v.beta@ <= 65
        }),
{
    lemma_park_round_trip_error(cos, sin, v);
}

/// The algebra of a rotation back followed by the rotation forward, when the
/// two intermediate components are short of their exact values by `e1` and
/// `e2`.
proof fn lemma_counter_rotation_identity(
    c: int,
    s: int,
    d: int,
    q: int,
    e1: int,
    e2: int,
    al: int,
    be: int,
)
    by (nonlinear_arith)
    requires
        65536 * al == c * d - s * q - e1,
        65536 * be == s * d + c * q - e2,
    ensures
        65536 * (c * al + s * be) == (c * c + s * s) * d - c * e1 - s * e2,
        65536 * (c * be - s * al) == (c * c + s * s) * q - c * e2 + s * e1,
{
    assert(c * (65536 * al) == c * (c * d - s * q - e1));
    assert(s * (65536 * be) == s * (s * d + c * q - e2));
    assert(c * (65536 * be) == c * (s * d + c * q - e2));
    assert(s * (65536 * al) == s * (c * d - s * q - e1));
}

/// The error of the inverse Park transform followed by the Park transform,
/// for a cosine and sine of magnitude at most one and a value of magnitude at
/// most 100 in both components.
///
/// Each component comes back as itself, times the squared length of
/// `(cos, sin)`, plus a rounding error: less than five raw units for the
/// direct component and less than four for the quadrature component.
pub proof fn lemma_inverse_park_round_trip_error(cos: Fixed, sin: Fixed, v: RotatingReferenceFrame)
    requires
        -65536 <= cos@ <= 65536,
        -65536 <= sin@ <= 65536,
        -100 * 65536 <= v.d@ <= 100 * 65536,
        -100 * 65536 <= v.q@ <= 100 * 65536,
    ensures
        ({
            let back = park_spec(cos, sin, inverse_park_spec(cos, sin, v));
            let defect = unit_circle_defect(cos@, sin@);
            let one: int = 0x1_0000_0000;
            &&& -5 * one < one * (back.d@ - v.d@) - defect * v.d@ < 5 * one
            &&& -4 * one < one * (back.q@ - v.q@) - defect * v.q@ < 4 * one
        }),
{
    let c = cos@;
    let s = sin@;
    let d = v.d@;
    let q = v.q@;
    lemma_product_bound(c, d, 65536, 6553600);
    lemma_product_bound(s, q, 65536, 6553600);
    lemma_product_bound(s, d, 65536, 6553600);
    lemma_product_bound(c, q, 65536, 6553600);
    let m1 = (c * d) / 65536;
    let m2 = (s * q) / 65536;
    let m3 = (s * d) / 65536;
    let m4 = (c * q) / 65536;
    let r1 = c * d - 65536 * m1;
    let r2 = s * q - 65536 * m2;
    let r3 = s * d - 65536 * m3;
    let r4 = c * q - 65536 * m4;
    let al = m1 - m2;
    let be = m3 + m4;
    assert(al == inverse_park_alpha(c, s, d, q));
    assert(be == inverse_park_beta(c, s, d, q));
    let e1 = r1 - r2;
    let e2 = r3 + r4;
    lemma_counter_rotation_identity(c, s, d, q, e1, e2, al, be);
    lemma_product_bound(c, al, 65536, 13107200);
    lemma_product_bound(s, be, 65536, 13107200);
    lemma_product_bound(c, be, 65536, 13107200);
    lemma_product_bound(s, al, 65536, 13107200);
    let m5 = (c * al) / 65536;
    let m6 = (s * be) / 65536;
    let m7 = (c * be) / 65536;
    let m8 = (s * al) / 65536;
    assert(m5 + m6 == park_d(c, s, al, be));
    assert(m7 - m8 == park_q(c, s, al, be));
    lemma_product_bound(c, e1, 65536, 65535);
    lemma_product_bound(s, e2, 65536, 131070);
    lemma_product_bound(s, e1, 65536, 65535);
    lemma_product_bound(c, e2, 65536, 131070);
    let n = c * c + s * s;
    assert((n - 0x1_0000_0000) * d == n * d - 0x1_0000_0000 * d) by (nonlinear_arith);
    assert((n - 0x1_0000_0000) * q == n * q - 0x1_0000_0000 * q) by (nonlinear_arith);
}

/// The inverse Park transform followed by the Park transform gives back each
/// component of a value within 65 raw units, under the conditions of
/// [`lemma_park_round_trip`].
pub proof fn lemma_inverse_park_round_trip(cos: Fixed, sin: Fixed, v: RotatingReferenceFrame)
    requires
        -65536 <= cos@ <= 65536,
        -65536 <= sin@ <= 65536,
        -100 * 65536 <= v.d@ <= 100 * 65536,
        -100 * 65536 <= v.q@ <= 100 * 65536,
        -61 * 0x1_0000_0000 <= unit_circle_defect(cos@, sin@) * v.d@ <= 61 * 0x1_0000_0000,
        -61 * 0x1_0000_0000 <= unit_circle_defect(cos@, sin@) * v.q@ <= 61 * 0x1_0000_0000,
    ensures
        ({
            let back = park_spec(cos, sin, inverse_park_spec(cos, sin, v));
            &&& -65 <= back.d@ - v.d@ <= 65
            &&& -65 <= back.q@ - v.q@ <= 65
        }),
{
    lemma_inverse_park_round_trip_error(cos, sin, v);
}

} // verus!
