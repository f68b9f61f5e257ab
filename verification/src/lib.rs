//! Field-oriented control for three-phase permanent-magnet motors, in
//! signed 16.16 fixed-point arithmetic.
//!
//! One control step takes two measured phase currents, the electrical angle
//! of the rotor, the torque asked for and the time since the previous step,
//! and gives the three compare counts for the PWM timer of the inverter:
//!
//! 1. the Clarke and Park transforms turn the phase currents into a direct
//!    and a quadrature current in the frame of the rotor;
//! 2. one PI controller holds the direct current at zero, another holds the
//!    quadrature current at the torque asked for;
//! 3. the inverse Park transform turns the two controller outputs into a
//!    voltage in the stationary frame;
//! 4. a modulator turns that voltage into three duties, and those into
//!    compare counts.
//!
//! The parts are available on their own in [`park_clarke`], [`pid`] and
//! [`pwm`]; the numbers they work on are in [`scalar`].
//!
//! Every contract is stated in raw units: a number of the format stands for
//! its raw units divided by 65536.  No function of this crate panics; where
//! a result does not fit the format, it is the nearest number that does.

use std::marker::PhantomData;
use vstd::prelude::*;
use crate::park_clarke::{clarke, inverse_park, park};
use crate::park_clarke::{clarke_beta, inverse_park_alpha, inverse_park_beta, park_d, park_q};
use crate::park_clarke::{RotatingReferenceFrame, ThreePhaseBalancedReferenceFrame};
use crate::pid::{pi_next, pi_output, PIController, PIState};
use crate::pwm::{compare_values, Modulation};
use crate::scalar::Fixed;
use crate::trig::cordic_sin_cos;

pub mod park_clarke;
pub mod pid;
pub mod pwm;
pub mod scalar;
pub mod svpwm;
pub mod trig;

verus! {

/// What a field-oriented controller is: the states of its two current
/// controllers.
pub struct FocState {
    pub flux: PIState,
    pub torque: PIState,
}

/// Raw units of the direct and the quadrature current, in this order, for
/// phase currents `a` and `b` at an angle with the given sine and cosine.
pub open spec fn rotating_current(sin: int, cos: int, a: int, b: int) -> (int, int) {
    let beta = clarke_beta(a, b);
    (park_d(cos, sin, a, beta), park_q(cos, sin, a, beta))
}

/// The controller after one step.
pub open spec fn foc_next(
    s: FocState,
    sin: int,
    cos: int,
    a: int,
    b: int,
    desired_torque: int,
    dt: int,
) -> FocState {
    let (d, q) = rotating_current(sin, cos, a, b);
    FocState { flux: pi_next(s.flux, d, 0, dt), torque: pi_next(s.torque, q, desired_torque, dt) }
}

/// Raw units of the alpha and beta components, in this order, of the voltage
/// that one step asks for.
pub open spec fn foc_voltage(
    s: FocState,
    sin: int,
    cos: int,
    a: int,
    b: int,
    desired_torque: int,
    dt: int,
) -> (int, int) {
    let (d, q) = rotating_current(sin, cos, a, b);
    let v_d = pi_output(s.flux, d, 0, dt);
    let v_q = pi_output(s.torque, q, desired_torque, dt);
    (inverse_park_alpha(cos, sin, v_d, v_q), inverse_park_beta(cos, sin, v_d, v_q))
}

/// The three compare counts that one step gives with the modulator `M` on a
/// timer whose largest count is `max`.
pub open spec fn foc_counts<M: Modulation>(
    s: FocState,
    sin: int,
    cos: int,
    a: int,
    b: int,
    desired_torque: int,
    dt: int,
    max: int,
) -> (int, int, int) {
    let (alpha, beta) = foc_voltage(s, sin, cos, a, b, desired_torque, dt);
    compare_values(M::duties(alpha, beta), max)
}

/// The field-oriented controller.
///
/// `Modulator` chooses how a voltage becomes three duties, and
/// `PWM_RESOLUTION` is the largest compare count of the timer.
pub struct Foc<Modulator: Modulation, const PWM_RESOLUTION: u16> {
    flux_current_controller: PIController,
    torque_current_controller: PIController,
    _phantom: PhantomData<Modulator>,
}

impl<Modulator: Modulation, const PWM_RESOLUTION: u16> View for Foc<Modulator, PWM_RESOLUTION> {
    type V = FocState;

    closed spec fn view(&self) -> FocState {
        FocState { flux: self.flux_current_controller@, torque: self.torque_current_controller@ }
    }
}

impl<Modulator: Modulation, const PWM_RESOLUTION: u16> Foc<Modulator, PWM_RESOLUTION> {
    /// A controller made of the given PI controllers for the flux (direct)
    /// and torque (quadrature) currents.
    pub fn new(
        flux_current_controller: PIController,
        torque_current_controller: PIController,
    ) -> (r: Self)
        ensures
            r@ == (FocState { flux: flux_current_controller@, torque: torque_current_controller@ }),
    {
        Self { flux_current_controller, torque_current_controller, _phantom: PhantomData }
    }

    /// One control step, given the sine and cosine of the electrical angle.
    ///
    /// `currents` are the two measured phase currents in amperes,
    /// `desired_torque` is the quadrature current asked for in amperes, and
    /// `dt` is the time since the previous step in the unit that the gains of
    /// the PI controllers are in.  The result is the three compare counts,
    /// each between 0 and `PWM_RESOLUTION` inclusive.
    pub fn update_with_sin_cos(
        &mut self,
        currents: [Fixed; 2],
        sin_angle: Fixed,
        cos_angle: Fixed,
        desired_torque: Fixed,
        dt: Fixed,
    ) -> (r: [u16; 3])
        ensures
            final(self)@ == foc_next(
                old(self)@,
                sin_angle@,
                cos_angle@,
                currents[0]@,
                currents[1]@,
                desired_torque@,
                dt@,
            ),
            (r[0] as int, r[1] as int, r[2] as int) == foc_counts::<Modulator>(
                old(self)@,
                sin_angle@,
                cos_angle@,
                currents[0]@,
                currents[1]@,
                desired_torque@,
                dt@,
                PWM_RESOLUTION as int,
            ),
            r[0] <= PWM_RESOLUTION && r[1] <= PWM_RESOLUTION && r[2] <= PWM_RESOLUTION,
    {
        let orthogonal_current = clarke(
            ThreePhaseBalancedReferenceFrame { a: currents[0], b: currents[1] },
        );
        let rotating_current = park(cos_angle, sin_angle, orthogonal_current);

        let v_d = self.flux_current_controller.update(rotating_current.d, Fixed::zero(), dt);
        let v_q = self.torque_current_controller.update(rotating_current.q, desired_torque, dt);

        let orthogonal_voltage = inverse_park(
            cos_angle,
            sin_angle,
            RotatingReferenceFrame { d: v_d, q: v_q },
        );

        Modulator::as_compare_value::<PWM_RESOLUTION>(orthogonal_voltage)
    }

    /// One control step at the electrical angle `angle`, in radians.
    ///
    /// The sine and cosine of the angle come from the CORDIC iteration, which
    /// accepts any angle; the rest is [`Foc::update_with_sin_cos`].
    pub fn update(
        &mut self,
        currents: [Fixed; 2],
        angle: Fixed,
        desired_torque: Fixed,
        dt: Fixed,
    ) -> (r: [u16; 3])
        ensures
            final(self)@ == foc_next(
                old(self)@,
                cordic_sin_cos(angle@).0,
                cordic_sin_cos(angle@).1,
                currents[0]@,
                currents[1]@,
                desired_torque@,
                dt@,
            ),
            (r[0] as int, r[1] as int, r[2] as int) == foc_counts::<Modulator>(
                old(self)@,
                cordic_sin_cos(angle@).0,
                cordic_sin_cos(angle@).1,
                currents[0]@,
                currents[1]@,
                desired_torque@,
                dt@,
                PWM_RESOLUTION as int,
            ),
            r[0] <= PWM_RESOLUTION && r[1] <= PWM_RESOLUTION && r[2] <= PWM_RESOLUTION,
    {
        let (sin_angle, cos_angle) = crate::trig::sin_cos(angle);
        self.update_with_sin_cos(currents, sin_angle, cos_angle, desired_torque, dt)
    }
}

} // verus!
