//! The sector of an angle.

use fixed::types::I16F16;
use foc::scalar::Fixed;
use foc::svpwm::sector;

fn angle(value: f32) -> Fixed {
    Fixed::from_bits(I16F16::from_num(value).to_bits())
}

#[test]
fn sector_calculations() {
    assert_eq!(sector(angle(0f32.to_radians())), 0);
    assert_eq!(sector(angle(10f32.to_radians())), 0);
    assert_eq!(sector(angle(45f32.to_radians())), 0);
    assert_eq!(sector(angle(60.1f32.to_radians())), 1);
    assert_eq!(sector(angle(90f32.to_radians())), 1);
    assert_eq!(sector(angle(110f32.to_radians())), 1);
    assert_eq!(sector(angle(120.1f32.to_radians())), 2);
    assert_eq!(sector(angle(179f32.to_radians())), 2);
    assert_eq!(sector(angle(180.1f32.to_radians())), 3);
    assert_eq!(sector(angle(210f32.to_radians())), 3);
    assert_eq!(sector(angle(235f32.to_radians())), 3);
    assert_eq!(sector(angle(240.1f32.to_radians())), 4);
    assert_eq!(sector(angle(270f32.to_radians())), 4);
    assert_eq!(sector(angle(299f32.to_radians())), 4);
    assert_eq!(sector(angle(300.1f32.to_radians())), 5);
    assert_eq!(sector(angle(340f32.to_radians())), 5);
    assert_eq!(sector(angle(359.9f32.to_radians())), 5);
}

#[test]
fn sector_clamp() {
    assert_eq!(sector(angle(-10f32.to_radians())), 0);
    assert_eq!(sector(angle(-200f32.to_radians())), 0);
    assert_eq!(sector(angle(-600f32.to_radians())), 0);
    assert_eq!(sector(angle(360f32.to_radians())), 5);
    assert_eq!(sector(angle(400f32.to_radians())), 5);
    assert_eq!(sector(angle(1000f32.to_radians())), 5);
}

#[test]
fn sector_matches_the_fixed_crate_over_the_range() {
    let mut bits: i64 = i32::MIN as i64;
    while bits <= i32::MAX as i64 {
        let reference = I16F16::FRAC_1_TAU
            .saturating_mul(I16F16::from_bits(bits as i32))
            .saturating_mul_int(6)
            .saturating_to_num::<u8>()
            .min(5);
        assert_eq!(sector(Fixed::from_bits(bits as i32)), reference, "bits {}", bits);
        bits += 1_000_003;
    }
    // Around one turn in fine steps.
    for bits in -70000..480000 {
        if bits % 7 != 0 {
            continue;
        }
        let reference = I16F16::FRAC_1_TAU
            .saturating_mul(I16F16::from_bits(bits))
            .saturating_mul_int(6)
            .saturating_to_num::<u8>()
            .min(5);
        assert_eq!(sector(Fixed::from_bits(bits)), reference, "bits {}", bits);
    }
}

#[test]
fn sector_edges() {
    assert_eq!(sector(Fixed::min_value()), 0);
    assert_eq!(sector(Fixed::max_value()), 5);
    assert_eq!(sector(Fixed::zero()), 0);
    // One sixth of a turn is 1.0472 radians, 68629.9 raw units; the constant
    // for one over a turn is rounded down, so sector 1 begins a little later.
    assert_eq!(sector(Fixed::from_bits(68630)), 0);
    assert_eq!(sector(Fixed::from_bits(68640)), 1);
}
