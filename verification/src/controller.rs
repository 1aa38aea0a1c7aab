//! The heading controller: its state, its control law, and the check on the
//! clock that guards each iteration.

use vstd::prelude::*;
use crate::arithmetic::Op;
use crate::arithmetic::functional;
use crate::arithmetic::gives;
use crate::arithmetic::total;
use crate::link::Fault;
use crate::link::LoopAction;
use crate::single::Single;

verus! {

/// The three gains of the control law.
#[derive(Clone, Copy, Debug, PartialEq, Eq, Structural)]
pub struct Gains {
    pub kp: Single,
    pub ki: Single,
    pub kd: Single,
}

/// What the heading controller carries from one iteration to the next.
///
/// Gains, setpoint and tolerance are fixed when the state is made. The
/// accumulator starts at zero, grows by [`ControllerState::integrate`] once in
/// each iteration, and is never set back.
#[derive(Clone, Copy, Debug, PartialEq, Eq)]
pub struct ControllerState {
    integral_accumulator: Single,
    gains: Gains,
    setpoint: Single,
    error_tolerance: Single,
}

impl ControllerState {
    /// Running sum of error times elapsed time.
    pub closed spec fn accumulator_spec(&self) -> Single {
        self.integral_accumulator
    }

    pub closed spec fn gains_spec(&self) -> Gains {
        self.gains
    }

    /// Target yaw, in degrees.
    pub closed spec fn setpoint_spec(&self) -> Single {
        self.setpoint
    }

    /// Radius of the deadband round the setpoint, in degrees.
    pub closed spec fn tolerance_spec(&self) -> Single {
        self.error_tolerance
    }

    /// A controller at the start of a run: the accumulator is zero.
    pub fn new(gains: Gains, setpoint: Single, error_tolerance: Single) -> (state: ControllerState)
        ensures
            state.accumulator() == Single::zero(),
            state.gains() == gains,
            state.setpoint() == setpoint,
            state.tolerance() == error_tolerance,
    {
        ControllerState {
            integral_accumulator: Single { bits: 0 },
            gains,
            setpoint,
            error_tolerance,
        }
    }

    /// Adds `error * dt` to the accumulator. Nothing else changes.
    pub fn integrate<F: Fn(Op, Single, Single) -> Single>(
        &mut self,
        error: Single,
        dt: Single,
        unit: &F,
    )
        requires
            total(unit),
        ensures
            is_accumulated(
                unit,
                old(self).accumulator(),
                error,
                dt,
                final(self).accumulator(),
            ),
            final(self).gains() == old(self).gains(),
            final(self).setpoint() == old(self).setpoint(),
            final(self).tolerance() == old(self).tolerance(),
    {
        let growth = unit(Op::Mul, error, dt);
        self.integral_accumulator = unit(Op::Add, self.integral_accumulator, growth);
    }

    #[verifier::when_used_as_spec(accumulator_spec)]
    pub fn accumulator(&self) -> (r: Single)
        ensures
            r == self.accumulator_spec(),
    {
        self.integral_accumulator
    }

    #[verifier::when_used_as_spec(gains_spec)]
    pub fn gains(&self) -> (r: Gains)
        ensures
            r == self.gains_spec(),
    {
        self.gains
    }

    #[verifier::when_used_as_spec(setpoint_spec)]
    pub fn setpoint(&self) -> (r: Single)
        ensures
            r == self.setpoint_spec(),
    {
        self.setpoint
    }

    #[verifier::when_used_as_spec(tolerance_spec)]
    pub fn tolerance(&self) -> (r: Single)
        ensures
            r == self.tolerance_spec(),
    {
        self.error_tolerance
    }
}

/// `error` is `|setpoint - yaw|`, as `unit` computes the difference.
pub open spec fn is_error<F: Fn(Op, Single, Single) -> Single>(
    unit: &F,
    setpoint: Single,
    yaw: Single,
    error: Single,
) -> bool {
    exists|difference: Single|
        gives(unit, Op::Sub, setpoint, yaw, difference) && error == difference.absolute()
}

/// `after` is `before + error * dt`, as `unit` computes it.
pub open spec fn is_accumulated<F: Fn(Op, Single, Single) -> Single>(
    unit: &F,
    before: Single,
    error: Single,
    dt: Single,
    after: Single,
) -> bool {
    exists|growth: Single|
        gives(unit, Op::Mul, error, dt, growth) && gives(unit, Op::Add, before, growth, after)
}

/// `strength` is `kp * error + ki * accumulator + kd * (yawspeed / dt)`, as
/// `unit` computes it: the three terms first, then their sum from left to
/// right.
pub open spec fn is_strength<F: Fn(Op, Single, Single) -> Single>(
    unit: &F,
    gains: Gains,
    error: Single,
    accumulator: Single,
    yawspeed: Single,
    dt: Single,
    strength: Single,
) -> bool {
    exists|proportional: Single, integral: Single, rate: Single, derivative: Single, partial: Single|
        {
            &&& gives(unit, Op::Mul, gains.kp, error, proportional)
            &&& gives(unit, Op::Mul, gains.ki, accumulator, integral)
            &&& gives(unit, Op::Div, yawspeed, dt, rate)
            &&& gives(unit, Op::Mul, gains.kd, rate, derivative)
            &&& gives(unit, Op::Add, proportional, integral, partial)
            &&& gives(unit, Op::Add, partial, derivative, strength)
        }
}

/// The distance of the yaw from the setpoint. It carries no sign: on which
/// side the yaw lies is decided apart from it.
pub fn heading_error<F: Fn(Op, Single, Single) -> Single>(
    setpoint: Single,
    yaw: Single,
    unit: &F,
) -> (error: Single)
    requires
        total(unit),
    ensures
        is_error(unit, setpoint, yaw, error),
        !error.negative(),
{
    unit(Op::Sub, setpoint, yaw).abs()
}

/// The control law: the strength of the correction from the error, the
/// accumulator, the yaw rate and the elapsed time.
pub fn yaw_strength<F: Fn(Op, Single, Single) -> Single>(
    gains: Gains,
    error: Single,
    accumulator: Single,
    yawspeed: Single,
    dt: Single,
    unit: &F,
) -> (strength: Single)
    requires
        total(unit),
    ensures
        is_strength(unit, gains, error, accumulator, yawspeed, dt, strength),
{
    let proportional = unit(Op::Mul, gains.kp, error);
    let integral = unit(Op::Mul, gains.ki, accumulator);
    let rate = unit(Op::Div, yawspeed, dt);
    let derivative = unit(Op::Mul, gains.kd, rate);
    let partial = unit(Op::Add, proportional, integral);
    unit(Op::Add, partial, derivative)
}

/// With a unit that answers the same request the same way each time, the
/// strength is fixed by the gains, the error, the accumulator, the yaw rate
/// and the elapsed time: computed twice, it comes out the same.
pub proof fn strength_is_reproducible<F: Fn(Op, Single, Single) -> Single>(
    unit: &F,
    gains: Gains,
    error: Single,
    accumulator: Single,
    yawspeed: Single,
    dt: Single,
    once: Single,
    again: Single,
)
    requires
        functional(unit),
        is_strength(unit, gains, error, accumulator, yawspeed, dt, once),
        is_strength(unit, gains, error, accumulator, yawspeed, dt, again),
    ensures
        once == again,
{
}

/// Guards a control iteration by the time since the previous one, in
/// seconds. Where no time has passed the loop ends, whatever else holds;
/// otherwise the iteration goes on.
pub fn check_timing(dt: Single) -> (action: LoopAction)
    ensures
        dt.zero_valued() ==> action == LoopAction::Terminate(Fault::TimingFault),
        !dt.zero_valued() ==> action == LoopAction::Proceed,
{
    if dt.is_zero() {
        LoopAction::Terminate(Fault::TimingFault)
    } else {
        LoopAction::Proceed
    }
}

} // verus!
