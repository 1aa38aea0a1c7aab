//! One iteration of the control task, from the snapshot and the elapsed time
//! to the command.

use vstd::prelude::*;
use crate::arithmetic::Op;
use crate::arithmetic::total;
use crate::attitude::Attitude;
use crate::controller::ControllerState;
use crate::controller::check_timing;
use crate::controller::heading_error;
use crate::controller::is_accumulated;
use crate::controller::is_error;
use crate::controller::is_strength;
use crate::controller::yaw_strength;
use crate::dispatch::Profile;
use crate::dispatch::command_of;
use crate::dispatch::correction;
use crate::dispatch::is_command;
use crate::dispatch::is_correction;
use crate::dispatch::profile_of;
use crate::dispatch::select_profile;
use crate::link::Fault;
use crate::link::LoopAction;
use crate::message::Message;
use crate::single::Single;

verus! {

/// What one iteration computed, for the status line and for the link.
#[derive(Clone, Copy, Debug, PartialEq, Eq, Structural)]
pub struct Iteration {
    /// Distance of the yaw from the setpoint.
    pub error: Single,
    /// The accumulator after this iteration.
    pub accumulator: Single,
    /// Strength of the correction.
    pub strength: Single,
    /// The strength divided by the scale.
    pub correction: Single,
    /// The chosen profile.
    pub profile: Profile,
    /// The command to send.
    pub command: Message,
}

/// `it` is the iteration that a controller in state `before` makes of
/// `attitude` after `dt` seconds: the error, then the accumulator, then the
/// strength on the new accumulator, then the correction, the profile and the
/// command.
pub open spec fn is_iteration<F: Fn(Op, Single, Single) -> Single>(
    unit: &F,
    before: ControllerState,
    attitude: Attitude,
    dt: Single,
    it: Iteration,
) -> bool {
    &&& is_error(unit, before.setpoint(), attitude.yaw, it.error)
    &&& is_accumulated(unit, before.accumulator(), it.error, dt, it.accumulator)
    &&& is_strength(
        unit,
        before.gains(),
        it.error,
        it.accumulator,
        attitude.yawspeed,
        dt,
        it.strength,
    )
    &&& is_correction(unit, it.strength, it.correction)
    &&& it.profile == profile_of(
        it.error,
        before.tolerance(),
        attitude.yaw,
        before.setpoint(),
        it.correction,
    )
    &&& is_command(unit, it.profile, it.command)
}

/// Runs one iteration of the controller and the dispatcher.
///
/// Where no time has passed since the previous iteration, the result is the
/// timing fault, whatever the other arguments hold: nothing is computed and
/// the controller is left as it was. Otherwise the accumulator grows by
/// `error * dt`, and the result holds the command to send.
pub fn iterate<F: Fn(Op, Single, Single) -> Single>(
    controller: &mut ControllerState,
    attitude: &Attitude,
    dt: Single,
    unit: &F,
) -> (outcome: Result<Iteration, Fault>)
    requires
        total(unit),
    ensures
        dt.zero_valued() ==> outcome == Err::<Iteration, Fault>(Fault::TimingFault)
            && *final(controller) == *old(controller),
        !dt.zero_valued() ==> outcome is Ok && is_iteration(
            unit,
            *old(controller),
            *attitude,
            dt,
            outcome->Ok_0,
        ) && final(controller).accumulator() == outcome->Ok_0.accumulator,
        final(controller).gains() == old(controller).gains(),
        final(controller).setpoint() == old(controller).setpoint(),
        final(controller).tolerance() == old(controller).tolerance(),
{
    match check_timing(dt) {
        LoopAction::Terminate(fault) => {
            return Err(fault);
        },
        _ => {},
    }
    let error = heading_error(controller.setpoint(), attitude.yaw, unit);
    controller.integrate(error, dt, unit);
    let accumulator = controller.accumulator();
    let strength = yaw_strength(
        controller.gains(),
        error,
        accumulator,
        attitude.yawspeed,
        dt,
        unit,
    );
    let scaled = correction(strength, unit);
    let profile = select_profile(controller, attitude, error, scaled);
    let command = command_of(profile, unit);
    Ok(Iteration { error, accumulator, strength, correction: scaled, profile, command })
}

} // verus!
