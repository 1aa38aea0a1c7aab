//! The command dispatcher: from the error and the side of the setpoint to one
//! of four manual-control profiles, and from the profile to the command that
//! travels.

use vstd::prelude::*;
use crate::arithmetic::Op;
use crate::arithmetic::functional;
use crate::arithmetic::gives;
use crate::arithmetic::total;
use crate::message::Message;
use crate::message::is_manual_control;
use crate::message::manual_control;
use crate::attitude::Attitude;
use crate::controller::ControllerState;
use crate::single::Single;

verus! {

/// Bit pattern of 3.5, the forward thrust inside the deadband.
pub const FORWARD_BIAS_BITS: u32 = 0x4060_0000;

/// Bit pattern of 6.2, the vertical thrust of every profile.
pub const VERTICAL_BITS: u32 = 0x40C6_6666;

/// Bit pattern of 100.0: the strength of the controller is divided by it to
/// give the correction.
pub const STRENGTH_SCALE_BITS: u32 = 0x42C8_0000;

/// Button mask of every dispatched command: no button pressed.
pub const BUTTONS: u16 = 0;

/// Target of every dispatched command.
pub const TARGET: u8 = 0;

/// The four axes of a manual-control command before they are scaled to
/// hundredths.
#[derive(Clone, Copy, Debug, PartialEq, Eq, Structural)]
pub struct Profile {
    pub forward: Single,
    pub lateral: Single,
    pub vertical: Single,
    pub rotation: Single,
}

/// The yaw is off the setpoint by less than the tolerance, to one side or
/// the other.
pub open spec fn in_deadband(error: Single, tolerance: Single, yaw: Single, setpoint: Single) -> bool {
    error.less(tolerance) && (yaw.less(setpoint) || setpoint.less(yaw))
}

/// The profile for an error, a yaw and a correction.
///
/// Forward thrust is the bias inside the deadband and zero outside. The
/// rotation is the correction where the yaw is below the setpoint, and the
/// negated correction in every other case, which takes in a yaw equal to the
/// setpoint and one that is not a number. Lateral and vertical thrust never
/// change.
pub open spec fn profile_of(
    error: Single,
    tolerance: Single,
    yaw: Single,
    setpoint: Single,
    correction: Single,
) -> Profile {
    Profile {
        forward: if in_deadband(error, tolerance, yaw, setpoint) {
            Single { bits: FORWARD_BIAS_BITS }
        } else {
            Single::zero()
        },
        lateral: Single::zero(),
        vertical: Single { bits: VERTICAL_BITS },
        rotation: if yaw.less(setpoint) {
            correction
        } else {
            correction.negated()
        },
    }
}

/// `correction` is `strength / 100`, as `unit` computes it.
pub open spec fn is_correction<F: Fn(Op, Single, Single) -> Single>(
    unit: &F,
    strength: Single,
    correction: Single,
) -> bool {
    gives(unit, Op::Div, strength, Single { bits: STRENGTH_SCALE_BITS }, correction)
}

/// `command` carries the four axes of `profile` in hundredths, no button and
/// target 0.
pub open spec fn is_command<F: Fn(Op, Single, Single) -> Single>(
    unit: &F,
    profile: Profile,
    command: Message,
) -> bool {
    is_manual_control(
        unit,
        profile.forward,
        profile.lateral,
        profile.vertical,
        profile.rotation,
        BUTTONS,
        TARGET,
        command,
    )
}

/// The magnitude of the yaw correction: the strength of the controller
/// divided by the scale.
pub fn correction<F: Fn(Op, Single, Single) -> Single>(strength: Single, unit: &F) -> (c: Single)
    requires
        total(unit),
    ensures
        is_correction(unit, strength, c),
{
    unit(Op::Div, strength, Single { bits: STRENGTH_SCALE_BITS })
}

/// The manual-control command of a profile.
pub fn command_of<F: Fn(Op, Single, Single) -> Single>(profile: Profile, unit: &F) -> (command:
    Message)
    requires
        total(unit),
    ensures
        is_command(unit, profile, command),
{
    manual_control(
        profile.forward,
        profile.lateral,
        profile.vertical,
        profile.rotation,
        BUTTONS,
        TARGET,
        unit,
    )
}

/// Chooses the profile of this iteration. `error` is the distance of the yaw
/// from the setpoint and `correction` the strength of the controller divided
/// by the scale.
pub fn select_profile(
    controller: &ControllerState,
    attitude: &Attitude,
    error: Single,
    correction: Single,
) -> (profile: Profile)
    ensures
        profile == profile_of(
            error,
            controller.tolerance(),
            attitude.yaw,
            controller.setpoint(),
            correction,
        ),
{
    let setpoint = controller.setpoint();
    let below = attitude.yaw.lt(setpoint);
    let above = attitude.yaw.gt(setpoint);
    let near = error.lt(controller.tolerance());
    let forward = if near && (below || above) {
        Single { bits: FORWARD_BIAS_BITS }
    } else {
        Single { bits: 0 }
    };
    let rotation = if below {
        correction
    } else {
        correction.neg()
    };
    Profile { forward, lateral: Single { bits: 0 }, vertical: Single { bits: VERTICAL_BITS }, rotation }
}

/// Inside the deadband and below the setpoint the profile has the forward
/// bias, which is not zero, and the correction itself as rotation. A yaw on
/// the other side of the setpoint, everything else alike, gives the same
/// three thrusts and the negated rotation.
pub proof fn mirrored_yaw_flips_rotation_only(
    error: Single,
    tolerance: Single,
    yaw: Single,
    mirrored: Single,
    setpoint: Single,
    correction: Single,
)
    requires
        yaw.less(setpoint),
        setpoint.less(mirrored),
    ensures
        ({
            let below = profile_of(error, tolerance, yaw, setpoint, correction);
            let above = profile_of(error, tolerance, mirrored, setpoint, correction);
            &&& below.rotation == correction
            &&& above.rotation == correction.negated()
            &&& above.forward == below.forward
            &&& above.lateral == below.lateral
            &&& above.vertical == below.vertical
            &&& error.less(tolerance) ==> below.forward == Single { bits: FORWARD_BIAS_BITS }
            &&& !error.less(tolerance) ==> below.forward == Single::zero()
            &&& !Single { bits: FORWARD_BIAS_BITS }.zero_valued()
        }),
{
}

/// With a unit that answers the same request the same way each time, the
/// commands of two yaws on either side of the setpoint, everything else
/// alike, carry the same forward, lateral and vertical thrust, the same
/// buttons and the same target. They differ in the rotation at most.
pub proof fn mirrored_commands_share_the_thrusts<F: Fn(Op, Single, Single) -> Single>(
    unit: &F,
    error: Single,
    tolerance: Single,
    yaw: Single,
    mirrored: Single,
    setpoint: Single,
    correction: Single,
    below: Message,
    above: Message,
)
    requires
        functional(unit),
        yaw.less(setpoint),
        setpoint.less(mirrored),
        is_command(unit, profile_of(error, tolerance, yaw, setpoint, correction), below),
        is_command(unit, profile_of(error, tolerance, mirrored, setpoint, correction), above),
    ensures
        above->ManualControl_0.x == below->ManualControl_0.x,
        above->ManualControl_0.y == below->ManualControl_0.y,
        above->ManualControl_0.z == below->ManualControl_0.z,
        above->ManualControl_0.buttons == below->ManualControl_0.buttons,
        above->ManualControl_0.target == below->ManualControl_0.target,
{
}

} // verus!
