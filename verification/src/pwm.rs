//! Modulators: from a voltage in the two-phase stationary frame to three
//! duty values, and from duty values to the compare counts of a PWM timer.
//!
//! A modulator is a pure function of the voltage it is given.  Its three
//! duties are nominally between minus one and one; a duty outside that range
//! is limited when it is turned into a count.

use vstd::prelude::*;
use crate::park_clarke::{inverse_clarke, inverse_clarke_b, inverse_clarke_c};
use crate::park_clarke::TwoPhaseReferenceFrame;
use crate::scalar::{Fixed, MAX_BITS, MIN_BITS, SQRT_3_BITS};
use crate::scalar::{clamp, signum_bits};
use crate::scalar::{sat_add, sat_div_int, sat_mul, sat_neg, sat_sub};

verus! {

/// The integer nearest to `n / d`, for `d > 0`; a quotient halfway between
/// two integers goes to the even one.
pub open spec fn round_half_even(n: int, d: int) -> int {
    let q = n / d;
    let r = n % d;
    if 2 * r < d {
        q
    } else if 2 * r > d {
        q + 1
    } else if q % 2 == 0 {
        q
    } else {
        q + 1
    }
}

/// The compare count for a duty of `duty` raw units on a timer whose largest
/// count is `max`: `(duty + 1) (max + 1) / 2`, computed exactly, rounded to
/// the nearest integer with ties to even, and limited to `0 ..= max`.
pub open spec fn compare_value(duty: int, max: int) -> int {
    clamp(round_half_even((duty + 65536) * (max + 1), 131072), 0, max)
}

/// The compare counts for three duties, each as [`compare_value`] gives it.
pub open spec fn compare_values(duties: (int, int, int), max: int) -> (int, int, int) {
    (compare_value(duties.0, max), compare_value(duties.1, max), compare_value(duties.2, max))
}

/// Turns a duty into the compare count of a timer whose largest count is
/// `max`.
///
/// Minus one gives 0, one gives `max`, and a duty outside that range gives
/// the nearer of the two.
pub fn duty_to_compare(duty: Fixed, max: u16) -> (count: u16)
    ensures
        count == compare_value(duty@, max as int),
        count <= max,
{
    assert(-0x1_0000_0000_0000 <= (duty.bits + 65536) * (max + 1) <= 0x1_0000_0000_0000)
        by (nonlinear_arith)
        requires
            -0x8000_0000 <= duty.bits <= 0x7fff_ffff,
            0 <= max <= 0xffff,
    ;
    let scaled: i64 = (duty.bits as i64 + 65536) * (max as i64 + 1);
    if scaled <= 0 {
        return 0;
    }
    let quotient: i64 = scaled / 131072;
    let rest: i64 = scaled % 131072;
    let rounded: i64 = if rest < 65536 {
        quotient
    } else if rest > 65536 {
        quotient + 1
    } else if quotient % 2 == 0 {
        quotient
    } else {
        quotient + 1
    };
    if rounded > max as i64 {
        max
    } else {
        rounded as u16
    }
}

/// A way to turn a voltage in the stationary frame into three duties.
pub trait Modulation {
    /// Raw units of the three duties for a voltage of `alpha` and `beta` raw
    /// units.
    spec fn duties(alpha: int, beta: int) -> (int, int, int);

    /// The three duties for `value`.
    fn modulate(value: TwoPhaseReferenceFrame) -> (r: [Fixed; 3])
        ensures
            (r[0]@, r[1]@, r[2]@) == Self::duties(value.alpha@, value.beta@),
    ;

    /// The three compare counts for `value` on a timer whose largest count
    /// is `MAX`: each between 0 and `MAX` inclusive.
    fn as_compare_value<const MAX: u16>(value: TwoPhaseReferenceFrame) -> (r: [u16; 3])
        ensures
            (r[0] as int, r[1] as int, r[2] as int) == compare_values(
                Self::duties(value.alpha@, value.beta@),
                MAX as int,
            ),
            r[0] <= MAX && r[1] <= MAX && r[2] <= MAX,
    {
        let duty = Self::modulate(value);
        [
            duty_to_compare(duty[0], MAX),
            duty_to_compare(duty[1], MAX),
            duty_to_compare(duty[2], MAX),
        ]
    }
}

/// Raw units of the second auxiliary value of space-vector modulation:
/// `(beta + sqrt(3) alpha) / 2`.
pub open spec fn space_vector_y(alpha: int, beta: int) -> int {
    sat_div_int(sat_add(beta, sat_mul(SQRT_3_BITS as int, alpha)), 2)
}

/// Raw units of the third auxiliary value of space-vector modulation:
/// `(beta - sqrt(3) alpha) / 2`.
pub open spec fn space_vector_z(alpha: int, beta: int) -> int {
    sat_div_int(sat_sub(beta, sat_mul(SQRT_3_BITS as int, alpha)), 2)
}

/// The sector, from 1 to 6, that the signs of the three auxiliary values
/// select.  A value counts as positive only if it is greater than zero, and
/// the first row that fits decides.
pub open spec fn space_vector_sector(x: int, y: int, z: int) -> int {
    if x > 0 && y > 0 && z <= 0 {
        1
    } else if y > 0 && z > 0 {
        2
    } else if x > 0 && y <= 0 && z > 0 {
        3
    } else if x <= 0 && y <= 0 && z > 0 {
        4
    } else if y <= 0 && z <= 0 {
        5
    } else {
        6
    }
}

/// Raw units of the three duties of space-vector modulation.
pub open spec fn space_vector_duties(alpha: int, beta: int) -> (int, int, int) {
    let x = beta;
    let y = space_vector_y(alpha, beta);
    let z = space_vector_z(alpha, beta);
    let sector = space_vector_sector(x, y, z);
    if sector == 1 || sector == 4 {
        (sat_sub(x, z), sat_add(x, z), sat_add(sat_neg(x), z))
    } else if sector == 2 || sector == 5 {
        (sat_sub(y, z), sat_add(y, z), sat_sub(sat_neg(y), z))
    } else {
        (sat_sub(y, x), sat_add(sat_neg(y), x), sat_sub(sat_neg(y), x))
    }
}

/// Raw units of the three duties of sinusoidal modulation: the inverse
/// Clarke transform of the voltage.
pub open spec fn sinusoidal_duties(alpha: int, beta: int) -> (int, int, int) {
    (alpha, inverse_clarke_b(alpha, beta), inverse_clarke_c(alpha, beta))
}

/// Raw units of one duty of trapezoidal modulation: one for a phase voltage
/// of one half or more, minus one for minus one half or less, and otherwise
/// zero.
pub open spec fn trapezoidal_level(phase: int) -> int {
    if phase >= 32768 {
        65536
    } else if phase <= -32768 {
        -65536
    } else {
        0
    }
}

/// Raw units of the three duties of trapezoidal modulation.
pub open spec fn trapezoidal_duties(alpha: int, beta: int) -> (int, int, int) {
    (
        trapezoidal_level(alpha),
        trapezoidal_level(inverse_clarke_b(alpha, beta)),
        trapezoidal_level(inverse_clarke_c(alpha, beta)),
    )
}

/// Raw units of the three duties of square-wave modulation: the signs of the
/// phase voltages.
pub open spec fn square_duties(alpha: int, beta: int) -> (int, int, int) {
    (
        signum_bits(alpha),
        signum_bits(inverse_clarke_b(alpha, beta)),
        signum_bits(inverse_clarke_c(alpha, beta)),
    )
}

/// The sector that the three auxiliary values of space-vector modulation
/// fall in.
pub fn sector_of(x: Fixed, y: Fixed, z: Fixed) -> (sector: u8)
    ensures
        sector == space_vector_sector(x@, y@, z@),
        1 <= sector <= 6,
{
    match (x.is_positive(), y.is_positive(), z.is_positive()) {
        (true, true, false) => 1,
        (_, true, true) => 2,
        (true, false, true) => 3,
        (false, false, true) => 4,
        (_, false, false) => 5,
        (false, true, false) => 6,
    }
}

/// Space-vector modulation.
///
/// It uses the bus voltage better than sinusoidal modulation and has less
/// current ripple than the trapezoidal and square waves, at the price of more
/// computation.
pub struct SpaceVector;

impl Modulation for SpaceVector {
    open spec fn duties(alpha: int, beta: int) -> (int, int, int) {
        space_vector_duties(alpha, beta)
    }

    fn modulate(value: TwoPhaseReferenceFrame) -> (r: [Fixed; 3]) {
        let sqrt_3_alpha = Fixed::sqrt_3().saturating_mul(value.alpha);
        let beta = value.beta;
        let x = beta;
        let y = beta.saturating_add(sqrt_3_alpha).saturating_div_int(2);
        let z = beta.saturating_sub(sqrt_3_alpha).saturating_div_int(2);

        let sector = sector_of(x, y, z);

        if sector == 1 || sector == 4 {
            [x.saturating_sub(z), x.saturating_add(z), x.saturating_neg().saturating_add(z)]
        } else if sector == 2 || sector == 5 {
            [y.saturating_sub(z), y.saturating_add(z), y.saturating_neg().saturating_sub(z)]
        } else {
            [
                y.saturating_sub(x),
                y.saturating_neg().saturating_add(x),
                y.saturating_neg().saturating_sub(x),
            ]
        }
    }
}

/// Sinusoidal modulation.
///
/// Simple and fast, but it does not use the bus voltage as well as
/// space-vector modulation.
pub struct Sinusoidal;

impl Modulation for Sinusoidal {
    open spec fn duties(alpha: int, beta: int) -> (int, int, int) {
        sinusoidal_duties(alpha, beta)
    }

    fn modulate(value: TwoPhaseReferenceFrame) -> (r: [Fixed; 3]) {
        let voltages = inverse_clarke(value);
        [voltages.a, voltages.b, voltages.c]
    }
}

/// Trapezoidal modulation.
///
/// A duty of zero means that the channel is to be switched off (left at high
/// impedance), not driven at its midpoint.
pub struct Trapezoidal;

impl Modulation for Trapezoidal {
    open spec fn duties(alpha: int, beta: int) -> (int, int, int) {
        trapezoidal_duties(alpha, beta)
    }

    fn modulate(value: TwoPhaseReferenceFrame) -> (r: [Fixed; 3]) {
        let voltages = inverse_clarke(value);
        [
            voltages.a.saturating_mul_int(2).round_to_zero().signum(),
            voltages.b.saturating_mul_int(2).round_to_zero().signum(),
            voltages.c.saturating_mul_int(2).round_to_zero().signum(),
        ]
    }
}

/// Square-wave modulation.
pub struct Square;

impl Modulation for Square {
    open spec fn duties(alpha: int, beta: int) -> (int, int, int) {
        square_duties(alpha, beta)
    }

    fn modulate(value: TwoPhaseReferenceFrame) -> (r: [Fixed; 3]) {
        let voltages = inverse_clarke(value);
        [voltages.a.signum(), voltages.b.signum(), voltages.c.signum()]
    }
}

/// The four modulators as values, for choosing one while the program runs.
#[derive(Clone, Copy, Debug, PartialEq, Eq, Structural)]
pub enum ModulationKind {
    Square,
    Trapezoidal,
    Sinusoidal,
    SpaceVector,
}

impl ModulationKind {
    /// Raw units of the three duties that the chosen modulator gives for a
    /// voltage of `alpha` and `beta` raw units.
    pub open spec fn duties(self, alpha: int, beta: int) -> (int, int, int) {
        match self {
            ModulationKind::Square => Square::duties(alpha, beta),
            ModulationKind::Trapezoidal => Trapezoidal::duties(alpha, beta),
            ModulationKind::Sinusoidal => Sinusoidal::duties(alpha, beta),
            ModulationKind::SpaceVector => SpaceVector::duties(alpha, beta),
        }
    }

    /// The three duties that the chosen modulator gives for `value`.
    pub fn modulate(self, value: TwoPhaseReferenceFrame) -> (r: [Fixed; 3])
        ensures
            (r[0]@, r[1]@, r[2]@) == self.duties(value.alpha@, value.beta@),
    {
        match self {
            ModulationKind::Square => Square::modulate(value),
            ModulationKind::Trapezoidal => Trapezoidal::modulate(value),
            ModulationKind::Sinusoidal => Sinusoidal::modulate(value),
            ModulationKind::SpaceVector => SpaceVector::modulate(value),
        }
    }

    /// The three compare counts that the chosen modulator gives for `value`
    /// on a timer whose largest count is `max`.
    pub fn as_compare_value(self, value: TwoPhaseReferenceFrame, max: u16) -> (r: [u16; 3])
        ensures
            (r[0] as int, r[1] as int, r[2] as int) == compare_values(
                self.duties(value.alpha@, value.beta@),
                max as int,
            ),
            r[0] <= max && r[1] <= max && r[2] <= max,
    {
        let duty = self.modulate(value);
        [
            duty_to_compare(duty[0], max),
            duty_to_compare(duty[1], max),
            duty_to_compare(duty[2], max),
        ]
    }
}

/// The ends and the middle of the compare mapping, for every timer.
///
/// A duty of minus one gives the count 0, a duty of one gives the largest
/// count, and a duty of zero gives half of `max + 1`, rounded to the nearest
/// integer with ties to even.
pub proof fn lemma_compare_value_marks(max: u16)
    ensures
        compare_value(-65536, max as int) == 0,
        compare_value(65536, max as int) == max,
        compare_value(0, max as int) == round_half_even(max + 1, 2),
{
}

/// Every compare count lies between 0 and the largest count of the timer,
/// and a larger duty never gives a smaller count.
pub proof fn lemma_compare_value_monotonic(low: int, high: int, max: u16)
    requires
        low <= high,
    ensures
        0 <= compare_value(low, max as int) <= compare_value(high, max as int) <= max,
{
    let d = 131072int;
    let a = (low + 65536) * (max + 1);
    let b = (high + 65536) * (max + 1);
    assert(a <= b) by (nonlinear_arith)
        requires
            low <= high,
            a == (low + 65536) * (max + 1),
            b == (high + 65536) * (max + 1),
            max >= 0,
    ;
}

/// Whether each of three duties, in raw units, has a magnitude of at most
/// `bound`.
pub open spec fn duties_within(duties: (int, int, int), bound: int) -> bool {
    &&& -bound <= duties.0 <= bound
    &&& -bound <= duties.1 <= bound
    &&& -bound <= duties.2 <= bound
}

/// A square that is at most the square of a bound has a root that is at most
/// the bound.
proof fn lemma_square_bound(x: int, m: int)
    requires
        m >= 0,
        x * x <= m * m,
    ensures
        -m <= x <= m,
{
    assert(-m <= x <= m) by (nonlinear_arith)
        requires
            m >= 0,
            x * x <= m * m,
    ;
}

/// A vector of length at most `radius`, turned and stretched by `(65536, k)`
/// where `k` stands for 65536 times the square root of three, has components
/// of at most 131073 times `radius`.
proof fn lemma_rotated_components(u: int, v: int, k: int, radius: int)
    requires
        radius >= 0,
        113511 <= k <= 113512,
        u * u + v * v <= radius * radius,
    ensures
        -131073 * radius <= k * u - 65536 * v <= 131073 * radius,
        -131073 * radius <= k * u + 65536 * v <= 131073 * radius,
        -radius <= u <= radius,
        -radius <= v <= radius,
{
    let x = k * u - 65536 * v;
    let y = 65536 * u + k * v;
    let x2 = k * u + 65536 * v;
    let y2 = 65536 * u - k * v;
    let m = 131073 * radius;
    let n = u * u + v * v;
    assert(x * x + y * y == (k * k + 65536 * 65536) * n) by (nonlinear_arith)
        requires
            x == k * u - 65536 * v,
            y == 65536 * u + k * v,
            n == u * u + v * v,
    ;
    assert(x2 * x2 + y2 * y2 == (k * k + 65536 * 65536) * n) by (nonlinear_arith)
        requires
            x2 == k * u + 65536 * v,
            y2 == 65536 * u - k * v,
            n == u * u + v * v,
    ;
    assert(k * k + 65536 * 65536 <= 131073 * 131073) by (nonlinear_arith)
        requires
            113511 <= k <= 113512,
    ;
    assert(n >= 0) by (nonlinear_arith)
        requires
            n == u * u + v * v,
    ;
    assert((k * k + 65536 * 65536) * n <= m * m) by (nonlinear_arith)
        requires
            0 <= k * k + 65536 * 65536 <= 131073 * 131073,
            0 <= n <= radius * radius,
            m == 131073 * radius,
    ;
    assert(y * y >= 0 && y2 * y2 >= 0) by (nonlinear_arith);
    assert(m >= 0);
    lemma_square_bound(x, m);
    lemma_square_bound(x2, m);
    assert(u * u <= radius * radius && v * v <= radius * radius) by (nonlinear_arith)
        requires
            u * u + v * v <= radius * radius,
    ;
    lemma_square_bound(u, radius);
    lemma_square_bound(v, radius);
}

/// The sinusoidal duties of a voltage whose turned and stretched components
/// are bounded as in [`lemma_rotated_components`].
proof fn lemma_sinusoidal_within(a: int, b: int, radius: int)
    requires
        0 <= radius <= 131072,
        -radius <= a <= radius,
        -radius <= b <= radius,
        -131073 * radius <= 113512 * b - 65536 * a <= 131073 * radius,
        -131073 * radius <= 113512 * b + 65536 * a <= 131073 * radius,
    ensures
        duties_within(sinusoidal_duties(a, b), radius + 2),
{
    let p = (113512 * b) / 65536;
    assert(65536 * p <= 113512 * b < 65536 * p + 65536);
    assert(-2 * radius - 3 <= p - a <= 2 * radius + 2);
    assert(-2 * radius - 3 <= -a - p <= 2 * radius + 3);
    assert(sat_mul(crate::park_clarke::SQRT_3_NEAREST_BITS as int, b) == p);
}

/// The auxiliary values of space-vector modulation for a voltage whose
/// turned and stretched components are bounded as in
/// [`lemma_rotated_components`]: nothing is cut off, and the second and third
/// are at most one raw unit longer than the voltage.
proof fn lemma_space_vector_auxiliaries(a: int, b: int, radius: int)
    requires
        0 <= radius <= 131072,
        -radius <= a <= radius,
        -radius <= b <= radius,
        -131073 * radius <= 113511 * a - 65536 * b <= 131073 * radius,
        -131073 * radius <= 113511 * a + 65536 * b <= 131073 * radius,
    ensures
        space_vector_in_range(a, b),
        -radius - 1 <= space_vector_y(a, b) <= radius + 1,
        -radius - 1 <= space_vector_z(a, b) <= radius + 1,
{
    let q = (113511 * a) / 65536;
    assert(65536 * q <= 113511 * a < 65536 * q + 65536);
    assert(sat_mul(SQRT_3_BITS as int, a) == q);
    assert(-2 * radius - 3 <= b + q <= 2 * radius + 3);
    assert(-2 * radius - 3 <= b - q <= 2 * radius + 3);
}

/// Whether the sum and the difference that give the second and third
/// auxiliary values of space-vector modulation stay inside the range of the
/// format.
pub open spec fn space_vector_in_range(alpha: int, beta: int) -> bool {
    let p = sat_mul(SQRT_3_BITS as int, alpha);
    &&& MIN_BITS <= beta + p <= MAX_BITS
    &&& MIN_BITS <= beta - p <= MAX_BITS
}

/// No duty of space-vector modulation exceeds the largest of its three
/// auxiliary values by more than one raw unit, wherever the sum and the
/// difference that give those values are not cut off.
///
/// The second and third auxiliary values then sum to the first within one
/// raw unit, which bounds the duties sector by sector.
pub proof fn lemma_space_vector_bound(alpha: Fixed, beta: Fixed, bound: int)
    requires
        0 <= bound <= 0x3fff_ffff,
        space_vector_in_range(alpha@, beta@),
        -bound <= beta@ <= bound,
        -bound <= space_vector_y(alpha@, beta@) <= bound,
        -bound <= space_vector_z(alpha@, beta@) <= bound,
    ensures
        duties_within(space_vector_duties(alpha@, beta@), bound + 1),
{
    let x = beta@;
    let y = space_vector_y(alpha@, beta@);
    let z = space_vector_z(alpha@, beta@);
    assert(-1 <= x - y - z <= 1);
    let sector = space_vector_sector(x, y, z);
    if sector == 1 || sector == 4 {
        assert(space_vector_duties(alpha@, beta@) == (
            sat_sub(x, z),
            sat_add(x, z),
            sat_add(sat_neg(x), z),
        ));
    } else if sector == 2 || sector == 5 {
        assert(space_vector_duties(alpha@, beta@) == (
            sat_sub(y, z),
            sat_add(y, z),
            sat_sub(sat_neg(y), z),
        ));
    } else {
        assert(space_vector_duties(alpha@, beta@) == (
            sat_sub(y, x),
            sat_add(sat_neg(y), x),
            sat_sub(sat_neg(y), x),
        ));
    }
}

/// No duty of the sinusoidal or the space-vector modulator exceeds the
/// length of the voltage by more than two raw units, for voltages of length
/// at most two; the duties of the trapezoidal and the square modulator are
/// minus one, zero or one for every voltage.
pub proof fn lemma_duties_within_radius(alpha: Fixed, beta: Fixed, radius: int)
    requires
        0 <= radius <= 131072,
        alpha@ * alpha@ + beta@ * beta@ <= radius * radius,
    ensures
        duties_within(Sinusoidal::duties(alpha@, beta@), radius + 2),
        duties_within(SpaceVector::duties(alpha@, beta@), radius + 2),
        duties_within(Trapezoidal::duties(alpha@, beta@), 65536),
        duties_within(Square::duties(alpha@, beta@), 65536),
{
    lemma_rotated_components(beta@, alpha@, 113512, radius);
    lemma_sinusoidal_within(alpha@, beta@, radius);
    lemma_rotated_components(alpha@, beta@, 113511, radius);
    lemma_space_vector_auxiliaries(alpha@, beta@, radius);
    lemma_space_vector_bound(alpha, beta, radius + 1);
}

/// Every duty of every modulator lies between -1.1 and 1.1, for voltages of
/// length at most 72087 raw units, which is just under 1.1, and so for every
/// voltage of length at most one.
///
/// A voltage with both components at most one in magnitude can be longer
/// than that, and then a duty can be larger: the voltage `(-1, 1)` has the
/// sinusoidal duty 1.366.
pub proof fn lemma_modulator_range(kind: ModulationKind, alpha: Fixed, beta: Fixed)
    requires
        alpha@ * alpha@ + beta@ * beta@ <= 72087 * 72087,
    ensures
        duties_within(kind.duties(alpha@, beta@), 72089),
{
    lemma_duties_within_radius(alpha, beta, 72087);
}

} // verus!
