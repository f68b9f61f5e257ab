//! Fixed-point PI and PID controllers.
//!
//! The error of both controllers is `measurement - setpoint`.  The integral
//! accumulates `k_i * error * dt` and is never limited other than by the
//! range of the number format: there is no guard against wind-up.

use vstd::prelude::*;
use crate::scalar::Fixed;
use crate::scalar::{sat_add, sat_div, sat_mul, sat_sub, saturate};

verus! {

/// What a PI controller is, in raw units: its two gains and the integral it
/// has accumulated.
pub struct PIState {
    pub k_p: int,
    pub k_i: int,
    pub integral: int,
}

/// What a PID controller is, in raw units: its three gains, the integral it
/// has accumulated, and the measurement of the previous update, if there was
/// one.
pub struct PIDState {
    pub k_p: int,
    pub k_i: int,
    pub k_d: int,
    pub integral: int,
    pub last_measurement: Option<int>,
}

/// Raw units of the integral after one more step with the given error.
pub open spec fn integral_step(k_i: int, integral: int, error: int, dt: int) -> int {
    sat_add(integral, sat_mul(sat_mul(k_i, error), dt))
}

/// Raw units of the derivative term: the gain times the rate of change of the
/// measurement since the previous update, or zero at the first update.
pub open spec fn derivative_term(k_d: int, last: Option<int>, measurement: int, dt: int) -> int {
    match last {
        Some(previous) => sat_mul(k_d, sat_div(sat_sub(measurement, previous), dt)),
        None => sat_mul(k_d, 0),
    }
}

/// The PI controller after an update.
pub open spec fn pi_next(s: PIState, measurement: int, setpoint: int, dt: int) -> PIState {
    PIState {
        k_p: s.k_p,
        k_i: s.k_i,
        integral: integral_step(s.k_i, s.integral, sat_sub(measurement, setpoint), dt),
    }
}

/// Raw units of the output of a PI update: the proportional term plus the
/// integral after the step.
pub open spec fn pi_output(s: PIState, measurement: int, setpoint: int, dt: int) -> int {
    sat_add(
        sat_mul(s.k_p, sat_sub(measurement, setpoint)),
        pi_next(s, measurement, setpoint, dt).integral,
    )
}

/// The PID controller after an update.
pub open spec fn pid_next(s: PIDState, measurement: int, setpoint: int, dt: int) -> PIDState {
    PIDState {
        k_p: s.k_p,
        k_i: s.k_i,
        k_d: s.k_d,
        integral: integral_step(s.k_i, s.integral, sat_sub(measurement, setpoint), dt),
        last_measurement: Some(measurement),
    }
}

/// Raw units of the output of a PID update: proportional term, integral after
/// the step, and derivative term, added in this order.
pub open spec fn pid_output(s: PIDState, measurement: int, setpoint: int, dt: int) -> int {
    sat_add(
        sat_add(
            sat_mul(s.k_p, sat_sub(measurement, setpoint)),
            pid_next(s, measurement, setpoint, dt).integral,
        ),
        derivative_term(s.k_d, s.last_measurement, measurement, dt),
    )
}

/// The PI controller after `n` updates that all had the same measurement,
/// setpoint and time step.
pub open spec fn pi_after(s: PIState, measurement: int, setpoint: int, dt: int, n: nat) -> PIState
    decreases n,
{
    if n == 0 {
        s
    } else {
        pi_next(pi_after(s, measurement, setpoint, dt, (n - 1) as nat), measurement, setpoint, dt)
    }
}

/// The integral part of a controller: its gain and what it has accumulated.
struct IntegralComponent {
    k_i: Fixed,
    integral: Fixed,
}

impl IntegralComponent {
    /// Adds `k_i * error * dt` to the integral and returns the new integral.
    fn update(&mut self, error: Fixed, dt: Fixed) -> (r: Fixed)
        ensures
            final(self).k_i == old(self).k_i,
            final(self).integral@ == integral_step(
                old(self).k_i@,
                old(self).integral@,
                error@,
                dt@,
            ),
            r == final(self).integral,
    {
        let increment = self.k_i.saturating_mul(error).saturating_mul(dt);
        self.integral = self.integral.saturating_add(increment);
        self.integral
    }
}

/// The derivative part of a controller: its gain and the measurement of the
/// previous update, if there was one.
struct DerivativeComponent {
    k_d: Fixed,
    last_measurement: Option<Fixed>,
}

impl DerivativeComponent {
    /// Raw units of the previous measurement.
    spec fn last(self) -> Option<int> {
        match self.last_measurement {
            Some(previous) => Some(previous@),
            None => None,
        }
    }

    /// Returns `k_d` times the rate of change of the measurement since the
    /// previous update, or zero at the first update, and remembers the
    /// measurement.
    fn update(&mut self, measurement: Fixed, dt: Fixed) -> (r: Fixed)
        requires
            dt@ != 0,
        ensures
            final(self).k_d == old(self).k_d,
            final(self).last_measurement == Some(measurement),
            r@ == derivative_term(old(self).k_d@, old(self).last(), measurement@, dt@),
    {
        let derivative = match self.last_measurement {
            Some(previous) => measurement.saturating_sub(previous).saturating_div(dt),
            None => Fixed::zero(),
        };
        self.last_measurement = Some(measurement);
        self.k_d.saturating_mul(derivative)
    }
}

/// A fixed-point PI controller.
pub struct PIController {
    k_p: Fixed,
    integral: IntegralComponent,
}

impl View for PIController {
    type V = PIState;

    closed spec fn view(&self) -> PIState {
        PIState { k_p: self.k_p@, k_i: self.integral.k_i@, integral: self.integral.integral@ }
    }
}

impl PIController {
    /// A PI controller with the given gains and an empty integral.
    pub fn new(k_p: Fixed, k_i: Fixed) -> (r: PIController)
        ensures
            r@ == (PIState { k_p: k_p@, k_i: k_i@, integral: 0 }),
    {
        PIController { k_p, integral: IntegralComponent { k_i, integral: Fixed::zero() } }
    }

    /// Advances the controller by one time step and returns its output:
    /// `k_p * error` plus the integral, which has grown by `k_i * error * dt`,
    /// where the error is `measurement - setpoint`.
    pub fn update(&mut self, measurement: Fixed, setpoint: Fixed, dt: Fixed) -> (r: Fixed)
        ensures
            final(self)@ == pi_next(old(self)@, measurement@, setpoint@, dt@),
            r@ == pi_output(old(self)@, measurement@, setpoint@, dt@),
    {
        let error = measurement.saturating_sub(setpoint);
        let proportional = self.k_p.saturating_mul(error);
        proportional.saturating_add(self.integral.update(error, dt))
    }
}

/// Repeated steps of the integral with one increment add up: from an
/// integral in range, `n` steps give the integral plus `n` increments,
/// limited to the range.
proof fn lemma_integral_accumulates(start: int, increment: int, n: nat)
    requires
        saturate(start) == start,
    ensures
        saturate(saturate(start + n * increment) + increment) == saturate(
            start + (n + 1) * increment,
        ),
{
    assert((n + 1) * increment == n * increment + increment) by (nonlinear_arith);
    if increment >= 0 {
        assert(n * increment >= 0) by (nonlinear_arith)
            requires
                increment >= 0,
        ;
    } else {
        assert(n * increment <= 0) by (nonlinear_arith)
            requires
                increment < 0,
        ;
    }
}

/// The PI law for constant input.
///
/// When a controller is updated `n` times with the same measurement, setpoint
/// and time step, its integral grows by `n` times `k_i * error * dt`, and the
/// `n`-th update returns `k_p * error` plus that integral.  Each product is
/// rounded as the fixed-point multiplication rounds it, and each sum is
/// limited to the range of the format.  A controller fresh from
/// [`PIController::new`] starts with an integral of zero.
pub proof fn lemma_pi_constant_input(
    c: PIController,
    measurement: Fixed,
    setpoint: Fixed,
    dt: Fixed,
    n: nat,
)
    ensures
        ({
            let error = sat_sub(measurement@, setpoint@);
            let increment = sat_mul(sat_mul(c@.k_i, error), dt@);
            let integral = saturate(c@.integral + n * increment);
            let before = pi_after(c@, measurement@, setpoint@, dt@, (n - 1) as nat);
            &&& pi_after(c@, measurement@, setpoint@, dt@, n).k_p == c@.k_p
            &&& pi_after(c@, measurement@, setpoint@, dt@, n).k_i == c@.k_i
            &&& pi_after(c@, measurement@, setpoint@, dt@, n).integral == integral
            &&& n >= 1 ==> pi_output(before, measurement@, setpoint@, dt@) == saturate(
                sat_mul(c@.k_p, error) + integral,
            )
        }),
    decreases n,
{
    let error = sat_sub(measurement@, setpoint@);
    let increment = sat_mul(sat_mul(c@.k_i, error), dt@);
    if n == 0 {
        assert(0 * increment == 0) by (nonlinear_arith);
    } else {
        let m = (n - 1) as nat;
        lemma_pi_constant_input(c, measurement, setpoint, dt, m);
        lemma_integral_accumulates(c@.integral, increment, m);
    }
}

/// A fixed-point PID controller.
///
/// The derivative acts on the measurement, not on the error, so that a step
/// in the setpoint does not kick the output.
pub struct PIDController {
    k_p: Fixed,
    integral: IntegralComponent,
    derivative: DerivativeComponent,
}

impl View for PIDController {
    type V = PIDState;

    closed spec fn view(&self) -> PIDState {
        PIDState {
            k_p: self.k_p@,
            k_i: self.integral.k_i@,
            k_d: self.derivative.k_d@,
            integral: self.integral.integral@,
            last_measurement: self.derivative.last(),
        }
    }
}

impl PIDController {
    /// A PID controller with the given gains, an empty integral and no
    /// previous measurement.
    pub fn new(k_p: Fixed, k_i: Fixed, k_d: Fixed) -> (r: PIDController)
        ensures
            r@ == (PIDState {
                k_p: k_p@,
                k_i: k_i@,
                k_d: k_d@,
                integral: 0,
                last_measurement: None,
            }),
    {
        PIDController {
            k_p,
            integral: IntegralComponent { k_i, integral: Fixed::zero() },
            derivative: DerivativeComponent { k_d, last_measurement: None },
        }
    }

    /// Advances the controller by one time step of positive length and
    /// returns its output: that of a PI controller plus `k_d` times the rate
    /// of change of the measurement since the previous update.
    pub fn update(&mut self, measurement: Fixed, setpoint: Fixed, dt: Fixed) -> (r: Fixed)
        requires
            dt@ > 0,
        ensures
            final(self)@ == pid_next(old(self)@, measurement@, setpoint@, dt@),
            r@ == pid_output(old(self)@, measurement@, setpoint@, dt@),
    {
        let error = measurement.saturating_sub(setpoint);
        let proportional = self.k_p.saturating_mul(error);
        let with_integral = proportional.saturating_add(self.integral.update(error, dt));
        with_integral.saturating_add(self.derivative.update(measurement, dt))
    }
}

} // verus!
