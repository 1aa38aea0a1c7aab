use heading_control::heartbeat::{after_send, EmitterAction, HEARTBEAT_INTERVAL_SECS};
use heading_control::message::{
    Autopilot, Command, CommandLong, Heartbeat, ManualControl, ParamRequestList,
    RequestDataStream, SystemStatus, VehicleType, FOUR_HUNDRED_BITS, ONE_BITS,
};
use heading_control::{
    handshake, heartbeat_message, manual_control, request_parameters, request_stream,
    set_manual_control, Message, Op, Single,
};

fn single(value: f32) -> Single {
    Single::from_bits(value.to_bits())
}

fn unit(op: Op, a: Single, b: Single) -> Single {
    let (a, b) = (f32::from_bits(a.to_bits()), f32::from_bits(b.to_bits()));
    single(match op {
        Op::Add => a + b,
        Op::Sub => a - b,
        Op::Mul => a * b,
        Op::Div => a / b,
    })
}

#[test]
fn heartbeat_carries_the_fixed_fields() {
    assert_eq!(
        heartbeat_message(),
        Message::Heartbeat(Heartbeat {
            custom_mode: 0,
            vehicle: VehicleType::Quadrotor,
            autopilot: Autopilot::ArduPilotMega,
            base_mode: 0,
            system_status: SystemStatus::Standby,
            mavlink_version: 3,
        })
    );
}

#[test]
fn parameter_request_addresses_everyone() {
    assert_eq!(
        request_parameters(),
        Message::ParamRequestList(ParamRequestList { target_system: 0, target_component: 0 })
    );
}

#[test]
fn stream_request_starts_stream_zero_at_rate_ten() {
    assert_eq!(
        request_stream(),
        Message::RequestDataStream(RequestDataStream {
            target_system: 0,
            target_component: 0,
            req_stream_id: 0,
            req_message_rate: 10,
            start_stop: 1,
        })
    );
}

#[test]
fn arming_command_carries_the_fixed_parameters() {
    assert_eq!(
        set_manual_control(),
        Message::CommandLong(CommandLong {
            param1: single(1.0),
            param2: single(1.0),
            param3: single(400.0),
            param4: single(0.0),
            param5: single(1.0),
            param6: single(0.0),
            param7: single(0.0),
            command: Command::ComponentArmDisarm,
            target_system: 0,
            target_component: 0,
            confirmation: 0,
        })
    );
}

#[test]
fn manual_control_scales_each_axis_to_hundredths() {
    assert_eq!(
        manual_control(single(3.5), single(0.0), single(6.2), single(-0.1233), 0, 0, &unit),
        Message::ManualControl(ManualControl { x: 350, y: 0, z: 620, r: -12, buttons: 0, target: 0 })
    );
    assert_eq!(
        manual_control(single(7.0), single(0.0), single(6.5), single(0.0), 0, 0, &unit),
        Message::ManualControl(ManualControl { x: 700, y: 0, z: 650, r: 0, buttons: 0, target: 0 })
    );
}

#[test]
fn manual_control_keeps_each_axis_in_its_place() {
    assert_eq!(
        manual_control(single(0.01), single(0.02), single(0.03), single(0.04), 5, 6, &unit),
        Message::ManualControl(ManualControl {
            x: (0.01f32 * 100.0) as i16,
            y: (0.02f32 * 100.0) as i16,
            z: (0.03f32 * 100.0) as i16,
            r: (0.04f32 * 100.0) as i16,
            buttons: 5,
            target: 6,
        })
    );
    assert_eq!(
        manual_control(single(1.0), single(2.0), single(3.0), single(4.0), u16::MAX, u8::MAX, &unit),
        Message::ManualControl(ManualControl {
            x: 100,
            y: 200,
            z: 300,
            r: 400,
            buttons: u16::MAX,
            target: u8::MAX,
        })
    );
}

#[test]
fn manual_control_holds_an_axis_at_the_ends_of_the_range() {
    assert_eq!(
        manual_control(
            single(1000.0),
            single(-1000.0),
            single(f32::NAN),
            single(f32::INFINITY),
            0,
            0,
            &unit
        ),
        Message::ManualControl(ManualControl {
            x: i16::MAX,
            y: i16::MIN,
            z: 0,
            r: i16::MAX,
            buttons: 0,
            target: 0,
        })
    );
}

#[test]
fn handshake_sends_three_messages_in_order() {
    assert_eq!(
        handshake(),
        vec![request_parameters(), request_stream(), set_manual_control()]
    );
}

#[test]
fn emitter_sleeps_after_a_success_only() {
    assert_eq!(after_send(true), EmitterAction::Sleep(1));
    assert_eq!(after_send(false), EmitterAction::Report);
    assert_eq!(HEARTBEAT_INTERVAL_SECS, 1);
}

#[test]
fn emitter_sleeps_once_for_each_success() {
    let sends = [true, false, false, true, true, false, true];
    let mut slept: u64 = 0;
    let mut successes: u64 = 0;
    for sent in sends {
        if sent {
            successes += 1;
            assert!(slept >= (successes - 1) * HEARTBEAT_INTERVAL_SECS);
        }
        let before = slept;
        match after_send(sent) {
            EmitterAction::Sleep(secs) => slept += secs,
            EmitterAction::Report => {}
        }
        if !sent {
            assert_eq!(slept, before);
        }
    }
    assert_eq!(successes, 4);
    assert_eq!(slept, 4 * HEARTBEAT_INTERVAL_SECS);
}

#[test]
fn parameter_constants_are_one_and_four_hundred() {
    assert_eq!(f32::from_bits(ONE_BITS), 1.0);
    assert_eq!(f32::from_bits(FOUR_HUNDRED_BITS), 400.0);
}
