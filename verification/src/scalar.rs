//! The signed 16.16 fixed-point scalar that every quantity of the controller
//! is expressed in.
//!
//! A [`Fixed`] holds a 32-bit two's complement integer `bits` and stands for
//! the rational number `bits / 65536`.  Its view is that integer, so all
//! contracts in this crate are statements about mathematical integers in
//! units of 1/65536.
//!
//! No operation here panics or wraps: a result that does not fit is replaced
//! by the nearest representable value.

use vstd::prelude::*;
use vstd::std_specs::ops::{AddSpecImpl, DivSpecImpl, MulSpecImpl, NegSpecImpl, SubSpecImpl};

verus! {

/// Raw units in the value one.
pub const ONE_BITS: i32 = 65536;

/// Raw units of the largest representable value, just below 32768.
pub const MAX_BITS: i32 = 0x7fff_ffff;

/// Raw units of the smallest representable value, -32768.
pub const MIN_BITS: i32 = -0x8000_0000;

/// Raw units of the square root of three, rounded down.
pub const SQRT_3_BITS: i32 = 113511;

/// Raw units of one over the square root of three, rounded down.
pub const FRAC_1_SQRT_3_BITS: i32 = 37837;

/// Raw units of one over a full turn in radians, 1/(2*pi), rounded down.
pub const FRAC_1_TAU_BITS: i32 = 10430;

/// The representable raw value nearest to `x`.
pub open spec fn saturate(x: int) -> int {
    if x < MIN_BITS {
        MIN_BITS as int
    } else if x > MAX_BITS {
        MAX_BITS as int
    } else {
        x
    }
}

/// The quotient `n / d` rounded toward zero, for `d != 0`.
pub open spec fn div_toward_zero(n: int, d: int) -> int {
    if n >= 0 {
        if d > 0 {
            n / d
        } else {
            -(n / (-d))
        }
    } else {
        if d > 0 {
            -((-n) / d)
        } else {
            (-n) / (-d)
        }
    }
}

/// Raw units of the saturating sum of two fixed-point numbers.
pub open spec fn sat_add(a: int, b: int) -> int {
    saturate(a + b)
}

/// Raw units of the saturating difference of two fixed-point numbers.
pub open spec fn sat_sub(a: int, b: int) -> int {
    saturate(a - b)
}

/// Raw units of the saturating negation of a fixed-point number.
pub open spec fn sat_neg(a: int) -> int {
    saturate(-a)
}

/// Raw units of the saturating product of two fixed-point numbers: the exact
/// product is rounded down to a multiple of 1/65536 before saturation.
pub open spec fn sat_mul(a: int, b: int) -> int {
    saturate((a * b) / 65536)
}

/// Raw units of the saturating quotient of two fixed-point numbers, for
/// `b != 0`: the exact quotient is rounded toward zero before saturation.
pub open spec fn sat_div(a: int, b: int) -> int {
    saturate(div_toward_zero(a * 65536, b))
}

/// Raw units of a fixed-point number times an integer, saturating.
pub open spec fn sat_mul_int(a: int, n: int) -> int {
    saturate(a * n)
}

/// Raw units of a fixed-point number divided by a non-zero integer: rounded
/// toward zero, saturating.
pub open spec fn sat_div_int(a: int, n: int) -> int {
    saturate(div_toward_zero(a, n))
}

/// Raw units of the sign of a fixed-point number: one, zero or minus one.
pub open spec fn signum_bits(a: int) -> int {
    if a > 0 {
        65536
    } else if a < 0 {
        -65536
    } else {
        0
    }
}

/// Raw units of a fixed-point number with its fractional part dropped.
pub open spec fn round_to_zero_bits(a: int) -> int {
    div_toward_zero(a, 65536) * 65536
}

/// Raw units of the distance between two fixed-point numbers, saturating.
pub open spec fn abs_diff_bits(a: int, b: int) -> int {
    if a >= b {
        saturate(a - b)
    } else {
        saturate(b - a)
    }
}

/// The integer `x` limited to the range from `lo` to `hi`.
pub open spec fn clamp(x: int, lo: int, hi: int) -> int {
    if x < lo {
        lo
    } else if x > hi {
        hi
    } else {
        x
    }
}

/// A signed fixed-point number with 16 integer and 16 fractional bits.
///
/// The number stands for `bits / 65536`; its range is from -32768 to just
/// below 32768 in steps of 1/65536.
#[derive(Clone, Copy, Debug, PartialEq, Eq, PartialOrd, Ord, Hash, Structural)]
pub struct Fixed {
    pub bits: i32,
}

impl View for Fixed {
    type V = int;

    /// The raw units of the number: its value times 65536.
    open spec fn view(&self) -> int {
        self.bits as int
    }
}

/// The number of `x` raw units, for `x` in the range of the format.
pub open spec fn fixed(x: int) -> Fixed {
    Fixed { bits: x as i32 }
}

/// Narrows a 64-bit raw value to the representable range.
fn saturate_i64(wide: i64) -> (r: Fixed)
    ensures
        r@ == saturate(wide as int),
{
    if wide > MAX_BITS as i64 {
        Fixed { bits: MAX_BITS }
    } else if wide < MIN_BITS as i64 {
        Fixed { bits: MIN_BITS }
    } else {
        Fixed { bits: wide as i32 }
    }
}

/// Divides rounding toward zero, as a total function on the stated range.
fn div_i64(n: i64, d: i64) -> (q: i64)
    requires
        d != 0,
        -0x8000_0000_0000 <= n <= 0x8000_0000_0000,
        -0x8000_0000 <= d <= 0x7fff_ffff,
    ensures
        q == div_toward_zero(n as int, d as int),
{
    if n >= 0 {
        if d > 0 {
            n / d
        } else {
            let m: i64 = -d;
            let q: i64 = n / m;
            -q
        }
    } else {
        let p: i64 = -n;
        if d > 0 {
            let q: i64 = p / d;
            -q
        } else {
            let m: i64 = -d;
            p / m
        }
    }
}

impl Fixed {
    /// The number with the given raw units.
    pub fn from_bits(bits: i32) -> (r: Fixed)
        ensures
            r@ == bits,
    {
        Fixed { bits }
    }

    /// The raw units of the number.
    pub fn to_bits(self) -> (r: i32)
        ensures
            r == self@,
    {
        self.bits
    }

    /// The integer `n` as a fixed-point number, exactly.
    pub fn from_int(n: i16) -> (r: Fixed)
        ensures
            r@ == n * 65536,
    {
        Fixed { bits: n as i32 * ONE_BITS }
    }

    /// The integer `n` as a fixed-point number, saturating where `n` is
    /// outside the representable range.
    pub fn saturating_from_int(n: i32) -> (r: Fixed)
        ensures
            r@ == saturate(n * 65536),
    {
        saturate_i64(n as i64 * 65536)
    }

    /// Zero.
    pub fn zero() -> (r: Fixed)
        ensures
            r@ == 0,
    {
        Fixed { bits: 0 }
    }

    /// One.
    pub fn one() -> (r: Fixed)
        ensures
            r@ == ONE_BITS,
    {
        Fixed { bits: ONE_BITS }
    }

    /// The largest representable number.
    pub fn max_value() -> (r: Fixed)
        ensures
            r@ == MAX_BITS,
    {
        Fixed { bits: MAX_BITS }
    }

    /// The smallest representable number.
    pub fn min_value() -> (r: Fixed)
        ensures
            r@ == MIN_BITS,
    {
        Fixed { bits: MIN_BITS }
    }

    /// The square root of three, rounded down to a representable number.
    pub fn sqrt_3() -> (r: Fixed)
        ensures
            r@ == SQRT_3_BITS,
    {
        Fixed { bits: SQRT_3_BITS }
    }

    /// One over the square root of three, rounded down to a representable
    /// number.
    pub fn frac_1_sqrt_3() -> (r: Fixed)
        ensures
            r@ == FRAC_1_SQRT_3_BITS,
    {
        Fixed { bits: FRAC_1_SQRT_3_BITS }
    }

    /// One over a full turn in radians, rounded down to a representable
    /// number.
    pub fn frac_1_tau() -> (r: Fixed)
        ensures
            r@ == FRAC_1_TAU_BITS,
    {
        Fixed { bits: FRAC_1_TAU_BITS }
    }

    /// Sum, saturating at the ends of the range.
    pub fn saturating_add(self, rhs: Fixed) -> (r: Fixed)
        ensures
            r@ == sat_add(self@, rhs@),
    {
        saturate_i64(self.bits as i64 + rhs.bits as i64)
    }

    /// Difference, saturating at the ends of the range.
    pub fn saturating_sub(self, rhs: Fixed) -> (r: Fixed)
        ensures
            r@ == sat_sub(self@, rhs@),
    {
        saturate_i64(self.bits as i64 - rhs.bits as i64)
    }

    /// Negation; the smallest number, which has no opposite, gives the
    /// largest.
    pub fn saturating_neg(self) -> (r: Fixed)
        ensures
            r@ == sat_neg(self@),
    {
        saturate_i64(-(self.bits as i64))
    }

    /// Product, computed exactly in 64 bits, rounded down to a multiple of
    /// 1/65536 and then saturated.
    pub fn saturating_mul(self, rhs: Fixed) -> (r: Fixed)
        ensures
            r@ == sat_mul(self@, rhs@),
    {
        assert(-0x4000_0000_0000_0000 <= self.bits * rhs.bits <= 0x4000_0000_0000_0000)
            by (nonlinear_arith)
            requires
                -0x8000_0000 <= self.bits <= 0x7fff_ffff,
                -0x8000_0000 <= rhs.bits <= 0x7fff_ffff,
        ;
        let product: i64 = self.bits as i64 * rhs.bits as i64;
        let quotient: i64 = product / 65536;
        let floor: i64 = if product % 65536 < 0 {
            quotient - 1
        } else {
            quotient
        };
        saturate_i64(floor)
    }

    /// Quotient, rounded toward zero and then saturated.
    pub fn saturating_div(self, rhs: Fixed) -> (r: Fixed)
        requires
            rhs@ != 0,
        ensures
            r@ == sat_div(self@, rhs@),
    {
        saturate_i64(div_i64(self.bits as i64 * 65536, rhs.bits as i64))
    }

    /// Product with an integer, saturating.
    pub fn saturating_mul_int(self, rhs: i32) -> (r: Fixed)
        ensures
            r@ == sat_mul_int(self@, rhs as int),
    {
        assert(-0x4000_0000_0000_0000 <= self.bits * rhs <= 0x4000_0000_0000_0000)
            by (nonlinear_arith)
            requires
                -0x8000_0000 <= self.bits <= 0x7fff_ffff,
                -0x8000_0000 <= rhs <= 0x7fff_ffff,
        ;
        saturate_i64(self.bits as i64 * rhs as i64)
    }

    /// Quotient by a non-zero integer, rounded toward zero and then saturated.
    pub fn saturating_div_int(self, rhs: i32) -> (r: Fixed)
        requires
            rhs != 0,
        ensures
            r@ == sat_div_int(self@, rhs as int),
    {
        saturate_i64(div_i64(self.bits as i64, rhs as i64))
    }

    /// One for a positive number, minus one for a negative number, zero for
    /// zero.
    pub fn signum(self) -> (r: Fixed)
        ensures
            r@ == signum_bits(self@),
    {
        if self.bits > 0 {
            Fixed { bits: ONE_BITS }
        } else if self.bits < 0 {
            Fixed { bits: -ONE_BITS }
        } else {
            Fixed { bits: 0 }
        }
    }

    /// Whether the number is strictly greater than zero.
    pub fn is_positive(self) -> (r: bool)
        ensures
            r == (self@ > 0),
    {
        self.bits > 0
    }

    /// Whether the number is strictly less than zero.
    pub fn is_negative(self) -> (r: bool)
        ensures
            r == (self@ < 0),
    {
        self.bits < 0
    }

    /// The number with its fractional part dropped: the nearest integer in
    /// the direction of zero.
    pub fn round_to_zero(self) -> (r: Fixed)
        ensures
            r@ == round_to_zero_bits(self@),
    {
        let whole: i64 = div_i64(self.bits as i64, 65536);
        Fixed { bits: (whole * 65536) as i32 }
    }

    /// The distance between two numbers, saturating where it exceeds the
    /// largest representable number.
    pub fn abs_diff(self, other: Fixed) -> (r: Fixed)
        ensures
            r@ == abs_diff_bits(self@, other@),
    {
        if self.bits >= other.bits {
            self.saturating_sub(other)
        } else {
            other.saturating_sub(self)
        }
    }

    /// The integer part of the number, rounded down, limited to the range of
    /// `u8`.
    pub fn saturating_to_u8(self) -> (r: u8)
        ensures
            r == clamp(self@ / 65536, 0, 255),
    {
        if self.bits < 0 {
            0
        } else {
            let whole: i32 = self.bits / ONE_BITS;
            if whole > 255 {
                255
            } else {
                whole as u8
            }
        }
    }
}

// The operators are the saturating operations under their usual signs.
impl core::ops::Add for Fixed {
    type Output = Fixed;

    /// `self + rhs`, saturating at the ends of the range.
    fn add(self, rhs: Fixed) -> (r: Fixed) {
        self.saturating_add(rhs)
    }
}

impl AddSpecImpl for Fixed {
    open spec fn obeys_add_spec() -> bool {
        true
    }

    open spec fn add_req(self, rhs: Fixed) -> bool {
        true
    }

    open spec fn add_spec(self, rhs: Fixed) -> Fixed {
        fixed(sat_add(self@, rhs@))
    }
}

impl core::ops::Sub for Fixed {
    type Output = Fixed;

    /// `self - rhs`, saturating at the ends of the range.
    fn sub(self, rhs: Fixed) -> (r: Fixed) {
        self.saturating_sub(rhs)
    }
}

impl SubSpecImpl for Fixed {
    open spec fn obeys_sub_spec() -> bool {
        true
    }

    open spec fn sub_req(self, rhs: Fixed) -> bool {
        true
    }

    open spec fn sub_spec(self, rhs: Fixed) -> Fixed {
        fixed(sat_sub(self@, rhs@))
    }
}

impl core::ops::Mul for Fixed {
    type Output = Fixed;

    /// `self * rhs`, rounded down and saturating.
    fn mul(self, rhs: Fixed) -> (r: Fixed) {
        self.saturating_mul(rhs)
    }
}

impl MulSpecImpl for Fixed {
    open spec fn obeys_mul_spec() -> bool {
        true
    }

    open spec fn mul_req(self, rhs: Fixed) -> bool {
        true
    }

    open spec fn mul_spec(self, rhs: Fixed) -> Fixed {
        fixed(sat_mul(self@, rhs@))
    }
}

impl core::ops::Div for Fixed {
    type Output = Fixed;

    /// `self / rhs` for a divisor other than zero, rounded toward zero and
    /// saturating.
    fn div(self, rhs: Fixed) -> (r: Fixed) {
        self.saturating_div(rhs)
    }
}

impl DivSpecImpl for Fixed {
    open spec fn obeys_div_spec() -> bool {
        true
    }

    open spec fn div_req(self, rhs: Fixed) -> bool {
        rhs@ != 0
    }

    open spec fn div_spec(self, rhs: Fixed) -> Fixed {
        fixed(sat_div(self@, rhs@))
    }
}

impl core::ops::Mul<i32> for Fixed {
    type Output = Fixed;

    /// `self * rhs` for an integer `rhs`, saturating.
    fn mul(self, rhs: i32) -> (r: Fixed) {
        self.saturating_mul_int(rhs)
    }
}

impl MulSpecImpl<i32> for Fixed {
    open spec fn obeys_mul_spec() -> bool {
        true
    }

    open spec fn mul_req(self, rhs: i32) -> bool {
        true
    }

    open spec fn mul_spec(self, rhs: i32) -> Fixed {
        fixed(sat_mul_int(self@, rhs as int))
    }
}

impl core::ops::Div<i32> for Fixed {
    type Output = Fixed;

    /// `self / rhs` for an integer `rhs` other than zero, rounded toward
    /// zero and saturating.
    fn div(self, rhs: i32) -> (r: Fixed) {
        self.saturating_div_int(rhs)
    }
}

impl DivSpecImpl<i32> for Fixed {
    open spec fn obeys_div_spec() -> bool {
        true
    }

    open spec fn div_req(self, rhs: i32) -> bool {
        rhs != 0
    }

    open spec fn div_spec(self, rhs: i32) -> Fixed {
        fixed(sat_div_int(self@, rhs as int))
    }
}

impl core::ops::Neg for Fixed {
    type Output = Fixed;

    /// `-self`, saturating: the smallest number gives the largest.
    fn neg(self) -> (r: Fixed) {
        self.saturating_neg()
    }
}

impl NegSpecImpl for Fixed {
    open spec fn obeys_neg_spec() -> bool {
        true
    }

    open spec fn neg_req(self) -> bool {
        true
    }

    open spec fn neg_spec(self) -> Fixed {
        fixed(sat_neg(self@))
    }
}

} // verus!
