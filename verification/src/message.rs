//! The messages that the station sends, as plain values.

use vstd::prelude::*;
use crate::arithmetic::Op;
use crate::arithmetic::gives;
use crate::arithmetic::total;
use crate::single::Single;

verus! {

/// Kind of vehicle that a heartbeat announces.
#[derive(Clone, Copy, Debug, PartialEq, Eq, Structural)]
pub enum VehicleType {
    Generic,
    Quadrotor,
}

/// Autopilot that a heartbeat announces.
#[derive(Clone, Copy, Debug, PartialEq, Eq, Structural)]
pub enum Autopilot {
    Generic,
    ArduPilotMega,
}

/// System status that a heartbeat announces.
#[derive(Clone, Copy, Debug, PartialEq, Eq, Structural)]
pub enum SystemStatus {
    Uninitialized,
    Standby,
    Active,
}

/// Command that a long command carries.
#[derive(Clone, Copy, Debug, PartialEq, Eq, Structural)]
pub enum Command {
    ComponentArmDisarm,
}

/// Liveness message.
#[derive(Clone, Copy, Debug, PartialEq, Eq, Structural)]
pub struct Heartbeat {
    pub custom_mode: u32,
    pub vehicle: VehicleType,
    pub autopilot: Autopilot,
    /// Bitmask of the mode flags.
    pub base_mode: u8,
    pub system_status: SystemStatus,
    pub mavlink_version: u8,
}

/// Request for the list of all parameters.
#[derive(Clone, Copy, Debug, PartialEq, Eq, Structural)]
pub struct ParamRequestList {
    pub target_system: u8,
    pub target_component: u8,
}

/// Request to start or stop a data stream.
#[derive(Clone, Copy, Debug, PartialEq, Eq, Structural)]
pub struct RequestDataStream {
    pub target_system: u8,
    pub target_component: u8,
    pub req_stream_id: u8,
    /// Messages per second.
    pub req_message_rate: u16,
    /// 1 to start sending, 0 to stop.
    pub start_stop: u8,
}

/// Command with seven parameters.
#[derive(Clone, Copy, Debug, PartialEq, Eq, Structural)]
pub struct CommandLong {
    pub param1: Single,
    pub param2: Single,
    pub param3: Single,
    pub param4: Single,
    pub param5: Single,
    pub param6: Single,
    pub param7: Single,
    pub command: Command,
    pub target_system: u8,
    pub target_component: u8,
    pub confirmation: u8,
}

/// Manual-control command. The four axes are in hundredths, as they travel.
#[derive(Clone, Copy, Debug, PartialEq, Eq, Structural)]
pub struct ManualControl {
    /// Forward thrust.
    pub x: i16,
    /// Lateral thrust.
    pub y: i16,
    /// Vertical thrust.
    pub z: i16,
    /// Rotation.
    pub r: i16,
    /// Bitmask of the pressed buttons.
    pub buttons: u16,
    /// System to be controlled.
    pub target: u8,
}

/// A message that the station sends.
#[derive(Clone, Copy, Debug, PartialEq, Eq, Structural)]
pub enum Message {
    Heartbeat(Heartbeat),
    ParamRequestList(ParamRequestList),
    RequestDataStream(RequestDataStream),
    CommandLong(CommandLong),
    ManualControl(ManualControl),
}

/// Bit pattern of 1.0.
pub const ONE_BITS: u32 = 0x3F80_0000;

/// Bit pattern of 400.0.
pub const FOUR_HUNDRED_BITS: u32 = 0x43C8_0000;

/// Bit pattern of 100.0: each axis of a manual-control command is multiplied
/// by it before it travels.
pub const AXIS_SCALE_BITS: u32 = 0x42C8_0000;

/// Protocol-version tag of the heartbeat.
pub const HEARTBEAT_VERSION_TAG: u8 = 3;

/// Rate, in messages per second, at which the data stream is requested.
pub const STREAM_RATE: u16 = 10;

/// The heartbeat of this station.
pub open spec fn heartbeat() -> Message {
    Message::Heartbeat(
        Heartbeat {
            custom_mode: 0,
            vehicle: VehicleType::Quadrotor,
            autopilot: Autopilot::ArduPilotMega,
            base_mode: 0,
            system_status: SystemStatus::Standby,
            mavlink_version: HEARTBEAT_VERSION_TAG,
        },
    )
}

/// The request for the parameter list.
pub open spec fn parameter_request() -> Message {
    Message::ParamRequestList(ParamRequestList { target_system: 0, target_component: 0 })
}

/// The request that starts the data stream.
pub open spec fn stream_request() -> Message {
    Message::RequestDataStream(
        RequestDataStream {
            target_system: 0,
            target_component: 0,
            req_stream_id: 0,
            req_message_rate: STREAM_RATE,
            start_stop: 1,
        },
    )
}

/// The command that arms the vehicle for manual control.
pub open spec fn arming_command() -> Message {
    Message::CommandLong(
        CommandLong {
            param1: Single { bits: ONE_BITS },
            param2: Single { bits: ONE_BITS },
            param3: Single { bits: FOUR_HUNDRED_BITS },
            param4: Single { bits: 0 },
            param5: Single { bits: ONE_BITS },
            param6: Single { bits: 0 },
            param7: Single { bits: 0 },
            command: Command::ComponentArmDisarm,
            target_system: 0,
            target_component: 0,
            confirmation: 0,
        },
    )
}

/// The heartbeat: a quadrotor under ArduPilotMega, no mode flag set, on
/// standby, with the fixed version tag.
pub fn heartbeat_message() -> (m: Message)
    ensures
        m == heartbeat(),
{
    Message::Heartbeat(
        Heartbeat {
            custom_mode: 0,
            vehicle: VehicleType::Quadrotor,
            autopilot: Autopilot::ArduPilotMega,
            base_mode: 0,
            system_status: SystemStatus::Standby,
            mavlink_version: HEARTBEAT_VERSION_TAG,
        },
    )
}

/// The request for the parameter list, addressed to every system and
/// component.
pub fn request_parameters() -> (m: Message)
    ensures
        m == parameter_request(),
{
    Message::ParamRequestList(ParamRequestList { target_system: 0, target_component: 0 })
}

/// The request that starts stream 0 at ten messages per second.
pub fn request_stream() -> (m: Message)
    ensures
        m == stream_request(),
{
    Message::RequestDataStream(
        RequestDataStream {
            target_system: 0,
            target_component: 0,
            req_stream_id: 0,
            req_message_rate: STREAM_RATE,
            start_stop: 1,
        },
    )
}

/// The arm/disarm command with the parameters 1, 1, 400, 0, 1, 0, 0.
pub fn set_manual_control() -> (m: Message)
    ensures
        m == arming_command(),
{
    let one = Single { bits: ONE_BITS };
    let zero = Single { bits: 0 };
    Message::CommandLong(
        CommandLong {
            param1: one,
            param2: one,
            param3: Single { bits: FOUR_HUNDRED_BITS },
            param4: zero,
            param5: one,
            param6: zero,
            param7: zero,
            command: Command::ComponentArmDisarm,
            target_system: 0,
            target_component: 0,
            confirmation: 0,
        },
    )
}

/// `hundredths` is `axis * 100`, as `unit` computes it, cut to a 16-bit
/// integer.
pub open spec fn is_quantized<F: Fn(Op, Single, Single) -> Single>(
    unit: &F,
    axis: Single,
    hundredths: i16,
) -> bool {
    exists|scaled: Single|
        gives(unit, Op::Mul, axis, Single { bits: AXIS_SCALE_BITS }, scaled) && hundredths
            == scaled.truncated()
}

/// `command` is the manual-control command with these four axes in
/// hundredths, this button mask and this target.
pub open spec fn is_manual_control<F: Fn(Op, Single, Single) -> Single>(
    unit: &F,
    x: Single,
    y: Single,
    z: Single,
    r: Single,
    buttons: u16,
    target: u8,
    command: Message,
) -> bool {
    &&& command is ManualControl
    &&& is_quantized(unit, x, command->ManualControl_0.x)
    &&& is_quantized(unit, y, command->ManualControl_0.y)
    &&& is_quantized(unit, z, command->ManualControl_0.z)
    &&& is_quantized(unit, r, command->ManualControl_0.r)
    &&& command->ManualControl_0.buttons == buttons
    &&& command->ManualControl_0.target == target
}

/// Scales an axis to hundredths and cuts it to the 16-bit integer that
/// travels: towards zero, held at the ends of the range, and 0 for a NaN.
pub fn quantize<F: Fn(Op, Single, Single) -> Single>(axis: Single, unit: &F) -> (hundredths: i16)
    requires
        total(unit),
    ensures
        is_quantized(unit, axis, hundredths),
{
    unit(Op::Mul, axis, Single { bits: AXIS_SCALE_BITS }).to_i16()
}

/// A manual-control command from its four axes, the button mask and the
/// target. Each axis travels in hundredths.
pub fn manual_control<F: Fn(Op, Single, Single) -> Single>(
    x: Single,
    y: Single,
    z: Single,
    r: Single,
    buttons: u16,
    target: u8,
    unit: &F,
) -> (m: Message)
    requires
        total(unit),
    ensures
        is_manual_control(unit, x, y, z, r, buttons, target, m),
{
    Message::ManualControl(
        ManualControl {
            x: quantize(x, unit),
            y: quantize(y, unit),
            z: quantize(z, unit),
            r: quantize(r, unit),
            buttons,
            target,
        },
    )
}

/// What the station sends once when the link is up, in this order: the
/// request for the parameter list, the request for the data stream, the
/// arming command.
pub fn handshake() -> (sequence: Vec<Message>)
    ensures
        sequence@ == seq![parameter_request(), stream_request(), arming_command()],
{
    let sequence = vec![request_parameters(), request_stream(), set_manual_control()];
    assert(sequence@ =~= seq![parameter_request(), stream_request(), arming_command()]);
    sequence
}

} // verus!
