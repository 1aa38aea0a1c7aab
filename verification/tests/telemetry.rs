use heading_control::attitude::AttitudeReport;
use heading_control::codec::Decoded;
use heading_control::link::{Fault, LoopAction};
use heading_control::telemetry::{
    after_ingest, ingest, ingest_message, route, settle, to_degrees, Ingest, Route,
    ATTITUDE_REPORT_ID, HALF_TURN_BITS, PI_BITS,
};
use heading_control::{Attitude, ControlTask, Op, Single};
use heading_control::controller::Gains;
use mavlink::dialects::common::{MavMessage, ATTITUDE_DATA, HEARTBEAT_DATA, SYS_STATUS_DATA};

fn single(value: f32) -> Single {
    Single::from_bits(value.to_bits())
}

fn value(single: Single) -> f32 {
    f32::from_bits(single.to_bits())
}

fn unit(op: Op, a: Single, b: Single) -> Single {
    let (a, b) = (value(a), value(b));
    single(match op {
        Op::Add => a + b,
        Op::Sub => a - b,
        Op::Mul => a * b,
        Op::Div => a / b,
    })
}

fn never(_: Op, _: Single, _: Single) -> Single {
    panic!("nothing is to be computed")
}

fn degrees(radians: f32) -> Single {
    single(radians * 180.0 / std::f32::consts::PI)
}

fn earlier() -> Attitude {
    Attitude::new(
        single(0.1),
        single(0.2),
        single(10.0),
        single(0.3),
        single(0.4),
        single(20.0),
    )
}

fn payload(fields: [f32; 6]) -> Vec<u8> {
    let mut bytes: Vec<u8> = vec![0xEF, 0xBE, 0xAD, 0xDE];
    for field in fields {
        bytes.extend_from_slice(&field.to_le_bytes());
    }
    bytes
}

#[test]
fn only_identifier_thirty_is_decoded() {
    assert_eq!(ATTITUDE_REPORT_ID, 30);
    assert_eq!(route(30), Route::Decode);
    assert_eq!(route(0), Route::Ignore);
    assert_eq!(route(29), Route::Ignore);
    assert_eq!(route(31), Route::Ignore);
    assert_eq!(route(u32::MAX), Route::Ignore);
}

#[test]
fn attitude_payload_replaces_the_snapshot() {
    let mut snapshot = Attitude::neutral();
    let bytes = payload([0.25, -0.5, 1.0, 0.125, -0.75, 2.0]);
    let outcome = ingest(&mut snapshot, 30, &bytes, &unit);
    assert_eq!(outcome, Ingest::Updated);
    assert_eq!(snapshot.roll, single(0.25));
    assert_eq!(snapshot.pitch, single(-0.5));
    assert_eq!(snapshot.rollspeed, single(0.125));
    assert_eq!(snapshot.pitchspeed, single(-0.75));
    assert_eq!(snapshot.yaw, degrees(1.0));
    assert_eq!(snapshot.yawspeed, degrees(2.0));
}

#[test]
fn yaw_of_the_snapshot_is_in_degrees() {
    for radians in [0.0f32, 1.0, -1.0, 1.4835298, 3.1415927, -3.1415927, 0.001] {
        let mut snapshot = earlier();
        let bytes = payload([0.0, 0.0, radians, 0.0, 0.0, radians / 2.0]);
        assert_eq!(ingest(&mut snapshot, 30, &bytes, &unit), Ingest::Updated);
        let expected = f64::from(radians) * 180.0 / std::f64::consts::PI;
        let yaw = f64::from(value(snapshot.yaw));
        assert!((yaw - expected).abs() <= 1.0e-4, "{yaw} against {expected}");
        let yawspeed = f64::from(value(snapshot.yawspeed));
        assert!((yawspeed - expected / 2.0).abs() <= 1.0e-4);
    }
}

#[test]
fn one_radian_is_fifty_seven_degrees_and_a_bit() {
    let mut snapshot = Attitude::neutral();
    let bytes = payload([0.0, 0.0, 1.0, 0.0, 0.0, 0.0]);
    ingest(&mut snapshot, 30, &bytes, &unit);
    assert!((value(snapshot.yaw) - 57.29578).abs() < 1.0e-4);
    assert_eq!(value(snapshot.yawspeed), 0.0);
}

#[test]
fn short_attitude_payload_is_padded_with_zeros() {
    let mut snapshot = earlier();
    let mut bytes: Vec<u8> = vec![0, 0, 0, 0];
    bytes.extend_from_slice(&0.5f32.to_le_bytes());
    let outcome = ingest(&mut snapshot, 30, &bytes, &unit);
    assert_eq!(outcome, Ingest::Updated);
    assert_eq!(snapshot.roll, single(0.5));
    assert_eq!(snapshot.pitch.to_bits(), 0);
    assert_eq!(value(snapshot.yaw), 0.0);
    assert_eq!(snapshot.rollspeed.to_bits(), 0);
    assert_eq!(snapshot.pitchspeed.to_bits(), 0);
    assert_eq!(value(snapshot.yawspeed), 0.0);
}

#[test]
fn other_identifiers_change_nothing_and_decode_nothing() {
    let bytes = payload([0.25, -0.5, 1.0, 0.125, -0.75, 2.0]);
    for id in [0u32, 1, 29, 31, 33, 76, 300, u32::MAX] {
        let mut snapshot = earlier();
        assert_eq!(ingest(&mut snapshot, id, &bytes, &never), Ingest::Ignored);
        assert_eq!(snapshot, earlier());
    }
}

#[test]
fn received_attitude_report_replaces_the_snapshot() {
    let report = MavMessage::ATTITUDE(ATTITUDE_DATA {
        time_boot_ms: 1234,
        roll: 0.25,
        pitch: -0.5,
        yaw: 1.0,
        rollspeed: 0.125,
        pitchspeed: -0.75,
        yawspeed: 2.0,
    });
    let mut snapshot = earlier();
    let received = ingest_message(&mut snapshot, &report, &unit);
    assert_eq!(received.id, 30);
    assert_eq!(received.outcome, Ingest::Updated);
    assert_eq!(
        snapshot,
        Attitude::new(
            single(0.25),
            single(-0.5),
            degrees(1.0),
            single(0.125),
            single(-0.75),
            degrees(2.0),
        )
    );
}

#[test]
fn received_messages_of_other_kinds_are_ignored() {
    let others = [
        (0u32, MavMessage::HEARTBEAT(HEARTBEAT_DATA::default())),
        (1u32, MavMessage::SYS_STATUS(SYS_STATUS_DATA::default())),
    ];
    for (id, other) in others {
        let mut snapshot = earlier();
        let received = ingest_message(&mut snapshot, &other, &never);
        assert_eq!(received.id, id);
        assert_eq!(received.outcome, Ingest::Ignored);
        assert_eq!(snapshot, earlier());
    }
}

#[test]
fn settle_installs_a_report_as_a_whole() {
    let report = AttitudeReport {
        roll: single(1.0),
        pitch: single(2.0),
        yaw: single(3.0),
        rollspeed: single(4.0),
        pitchspeed: single(5.0),
        yawspeed: single(6.0),
    };
    let mut snapshot = earlier();
    let outcome = settle(&mut snapshot, Decoded::Attitude(report), &unit);
    assert_eq!(outcome, Ingest::Updated);
    assert_eq!(
        snapshot,
        Attitude::new(
            single(1.0),
            single(2.0),
            degrees(3.0),
            single(4.0),
            single(5.0),
            degrees(6.0),
        )
    );
}

#[test]
fn settle_reports_a_mismatch_and_keeps_the_snapshot() {
    for decoded in [Decoded::Other, Decoded::Malformed] {
        let mut snapshot = earlier();
        assert_eq!(settle(&mut snapshot, decoded, &never), Ingest::Mismatch);
        assert_eq!(snapshot, earlier());
    }
}

#[test]
fn a_mismatch_ends_the_loop() {
    assert_eq!(
        after_ingest(Ingest::Mismatch),
        LoopAction::Terminate(Fault::DecodeMismatch)
    );
    assert_eq!(after_ingest(Ingest::Ignored), LoopAction::Proceed);
    assert_eq!(after_ingest(Ingest::Updated), LoopAction::Proceed);
}

#[test]
fn snapshot_starts_neutral() {
    let neutral = Attitude::neutral();
    assert_eq!(
        neutral,
        Attitude::new(
            single(0.0),
            single(0.0),
            single(0.0),
            single(0.0),
            single(0.0),
            single(0.0),
        )
    );
    assert_eq!(neutral.yaw.to_bits(), 0);
}

#[test]
fn new_keeps_each_field_in_its_place() {
    let attitude = earlier();
    assert_eq!(value(attitude.roll), 0.1);
    assert_eq!(value(attitude.pitch), 0.2);
    assert_eq!(value(attitude.yaw), 10.0);
    assert_eq!(value(attitude.rollspeed), 0.3);
    assert_eq!(value(attitude.pitchspeed), 0.4);
    assert_eq!(value(attitude.yawspeed), 20.0);
}

#[test]
fn to_degrees_multiplies_by_half_a_turn_and_divides_by_pi() {
    assert_eq!(f32::from_bits(HALF_TURN_BITS), 180.0);
    assert_eq!(f32::from_bits(PI_BITS), std::f32::consts::PI);
    for radians in [0.0f32, 1.0, -1.0, 0.5, 1.4835298, 3.1415927, -2.5, 1.0e-3, 100.0] {
        assert_eq!(to_degrees(single(radians), &unit), degrees(radians));
    }
    assert_eq!(value(to_degrees(single(std::f32::consts::PI), &unit)), 180.0);
}

#[test]
fn task_receives_an_attitude_report() {
    let gains = Gains { kp: single(1.2), ki: single(0.3), kd: single(0.0015) };
    let mut task = ControlTask::new(gains, single(85.0), single(5.0));
    let report = MavMessage::ATTITUDE(ATTITUDE_DATA {
        time_boot_ms: 9,
        roll: 0.5,
        pitch: 0.25,
        yaw: 1.5,
        rollspeed: -0.5,
        pitchspeed: -0.25,
        yawspeed: 0.125,
    });
    let received = task.receive(&report, &unit);
    assert_eq!(received.id, 30);
    assert_eq!(received.outcome, Ingest::Updated);
    assert_eq!(after_ingest(received.outcome), LoopAction::Proceed);
    assert_eq!(
        task.attitude(),
        Attitude::new(
            single(0.5),
            single(0.25),
            degrees(1.5),
            single(-0.5),
            single(-0.25),
            degrees(0.125),
        )
    );
    let heartbeat = MavMessage::HEARTBEAT(HEARTBEAT_DATA::default());
    let before = task.attitude();
    let received = task.receive(&heartbeat, &never);
    assert_eq!(received.id, 0);
    assert_eq!(received.outcome, Ingest::Ignored);
    assert_eq!(task.attitude(), before);
    assert_eq!(task.controller().accumulator().to_bits(), 0);
}
