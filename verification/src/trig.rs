//! Sine and cosine of a fixed-point angle.

use vstd::prelude::*;
use crate::scalar::Fixed;

verus! {

/// Raw units of the sine and the cosine, in this order, that the CORDIC
/// iteration gives for an angle of `angle` raw units of a radian.
///
/// The pair is a function of the angle alone.  Nothing is said here of how
/// close it comes to the true sine and cosine.
pub uninterp spec fn cordic_sin_cos(angle: int) -> (int, int);

/// The sine and the cosine, in this order, of an angle in radians.
///
/// Calls `cordic::sin_cos` on the angle as an `I16F16` of the `fixed` crate
/// with the same raw units, and hands back the raw units of its two results.
///
/// The contract only gives the result a name.  It rests on `cordic::sin_cos`
/// being a function of its argument that returns for every angle, which its
/// source shows: it brings the angle into a half turn by steps of pi, and
/// then runs sixteen shift-and-add steps on values that stay far inside the
/// range of the format.
#[verifier::external_body]
pub(crate) fn sin_cos(angle: Fixed) -> (r: (Fixed, Fixed))
    ensures
        (r.0@, r.1@) == cordic_sin_cos(angle@),
{
    let (sin, cos) = ::cordic::sin_cos(::fixed::types::I16F16::from_bits(angle.bits));
    (Fixed { bits: sin.to_bits() }, Fixed { bits: cos.to_bits() })
}

} // verus!
