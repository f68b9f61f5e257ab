//! The sixth of a turn that an angle lies in.

use vstd::prelude::*;
use crate::scalar::{clamp, Fixed, FRAC_1_TAU_BITS};

verus! {

/// The sector of the angle of `angle` raw units of a radian: the number of
/// whole sixths of a turn in it, limited to `0 ..= 5`.
///
/// The angle is first multiplied by one over a full turn, rounding down to a
/// multiple of 1/65536, and then by six.
pub open spec fn sector_of_angle(angle: int) -> int {
    clamp((6 * ((FRAC_1_TAU_BITS * angle) / 65536)) / 65536, 0, 5)
}

/// The zero-based sector of an angle in radians.
///
/// The angle is meant to be at least zero and less than a full turn; a
/// negative angle gives 0 and an angle of a full turn or more gives 5.
pub fn sector(angle: Fixed) -> (r: u8)
    ensures
        r == sector_of_angle(angle@),
        r <= 5,
{
    let turns = Fixed::frac_1_tau().saturating_mul(angle);
    let sixths = turns.saturating_mul_int(6);
    let whole = sixths.saturating_to_u8();
    if whole < 5 {
        whole
    } else {
        5
    }
}

} // verus!
