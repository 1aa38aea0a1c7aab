//! The telemetry demultiplexer: picks the attitude reports out of the inbound
//! messages and replaces the snapshot.

use vstd::prelude::*;
use mavlink::dialects::common::MavMessage;
use crate::arithmetic::Op;
use crate::arithmetic::functional;
use crate::arithmetic::gives;
use crate::arithmetic::total;
use crate::attitude::Attitude;
use crate::attitude::AttitudeReport;
use crate::codec::Decoded;
use crate::codec::decoding;
use crate::codec::decode_v1;
use crate::codec::identifier_of;
use crate::codec::message_id;
use crate::codec::payload_of;
use crate::codec::payload_v1;
use crate::link::Fault;
use crate::link::LoopAction;
use crate::single::Single;

verus! {

/// Identifier of the attitude report.
pub const ATTITUDE_REPORT_ID: u32 = 30;

/// Bit pattern of 180.0, the degrees of half a turn.
pub const HALF_TURN_BITS: u32 = 0x4334_0000;

/// Bit pattern of the single-precision number nearest to pi, the radians of
/// half a turn.
pub const PI_BITS: u32 = 0x4049_0FDB;

/// What the demultiplexer does with a message, going by its identifier.
#[derive(Clone, Copy, Debug, PartialEq, Eq, Structural)]
pub enum Route {
    /// Hand the payload to the codec.
    Decode,
    /// Drop the message.
    Ignore,
}

/// How one inbound message ended.
#[derive(Clone, Copy, Debug, PartialEq, Eq, Structural)]
pub enum Ingest {
    /// Not an attitude report: dropped, nothing decoded, nothing changed.
    Ignored,
    /// An attitude report: the snapshot was replaced.
    Updated,
    /// Announced as an attitude report, but the payload did not decode as
    /// one. The snapshot is unchanged.
    Mismatch,
}

/// A received message after the demultiplexer has dealt with it.
#[derive(Clone, Copy, Debug, PartialEq, Eq, Structural)]
pub struct Received {
    /// The identifier that the codec reported of the message.
    pub id: u32,
    /// How the message ended.
    pub outcome: Ingest,
}

/// Only the attitude report is decoded.
pub open spec fn route_of(id: u32) -> Route {
    if id == ATTITUDE_REPORT_ID {
        Route::Decode
    } else {
        Route::Ignore
    }
}

/// Where a message with this identifier goes.
pub fn route(id: u32) -> (r: Route)
    ensures
        r == route_of(id),
{
    if id == ATTITUDE_REPORT_ID {
        Route::Decode
    } else {
        Route::Ignore
    }
}

/// `degrees` is `radians * 180 / pi`, as `unit` computes it: the product
/// first, then the quotient.
pub open spec fn is_degrees<F: Fn(Op, Single, Single) -> Single>(
    unit: &F,
    radians: Single,
    degrees: Single,
) -> bool {
    exists|product: Single|
        gives(unit, Op::Mul, radians, Single { bits: HALF_TURN_BITS }, product) && gives(
            unit,
            Op::Div,
            product,
            Single { bits: PI_BITS },
            degrees,
        )
}

/// Converts an angle, or a rate, from radians to degrees.
pub fn to_degrees<F: Fn(Op, Single, Single) -> Single>(radians: Single, unit: &F) -> (degrees:
    Single)
    requires
        total(unit),
    ensures
        is_degrees(unit, radians, degrees),
{
    let product = unit(Op::Mul, radians, Single { bits: HALF_TURN_BITS });
    unit(Op::Div, product, Single { bits: PI_BITS })
}

/// `next` is the snapshot that `report` gives: yaw and yaw rate in degrees,
/// the other four fields as reported.
pub open spec fn installs<F: Fn(Op, Single, Single) -> Single>(
    unit: &F,
    report: AttitudeReport,
    next: Attitude,
) -> bool {
    &&& next.roll == report.roll
    &&& next.pitch == report.pitch
    &&& next.rollspeed == report.rollspeed
    &&& next.pitchspeed == report.pitchspeed
    &&& is_degrees(unit, report.yaw, next.yaw)
    &&& is_degrees(unit, report.yawspeed, next.yawspeed)
}

/// With a unit that answers the same request the same way each time, a
/// report gives one snapshot and no other.
pub proof fn snapshot_is_reproducible<F: Fn(Op, Single, Single) -> Single>(
    unit: &F,
    report: AttitudeReport,
    once: Attitude,
    again: Attitude,
)
    requires
        functional(unit),
        installs(unit, report, once),
        installs(unit, report, again),
    ensures
        once == again,
{
}

/// How a decoded payload ends.
pub open spec fn settled(decoded: Decoded) -> Ingest {
    match decoded {
        Decoded::Attitude(_) => Ingest::Updated,
        _ => Ingest::Mismatch,
    }
}

/// How a message with this identifier and payload ends.
pub open spec fn ingested(id: u32, payload: Seq<u8>) -> Ingest {
    match route_of(id) {
        Route::Ignore => Ingest::Ignored,
        Route::Decode => settled(decoding(id, payload)),
    }
}

/// Takes what the codec made of a payload. An attitude report replaces the
/// snapshot, all six fields at once, with yaw and yaw rate converted to
/// degrees. Anything else leaves the snapshot as it was.
pub fn settle<F: Fn(Op, Single, Single) -> Single>(
    snapshot: &mut Attitude,
    decoded: Decoded,
    unit: &F,
) -> (outcome: Ingest)
    requires
        total(unit),
    ensures
        outcome == settled(decoded),
        match decoded {
            Decoded::Attitude(report) => installs(unit, report, *final(snapshot)),
            _ => *final(snapshot) == *old(snapshot),
        },
{
    match decoded {
        Decoded::Attitude(report) => {
            let yaw = to_degrees(report.yaw, unit);
            let yawspeed = to_degrees(report.yawspeed, unit);
            *snapshot = Attitude::new(
                report.roll,
                report.pitch,
                yaw,
                report.rollspeed,
                report.pitchspeed,
                yawspeed,
            );
            Ingest::Updated
        },
        _ => Ingest::Mismatch,
    }
}

/// One step of the demultiplexer on an identifier and a payload. The payload
/// goes to the codec only under the identifier of the attitude report; under
/// any other the message is dropped and the snapshot stays as it was.
pub fn ingest<F: Fn(Op, Single, Single) -> Single>(
    snapshot: &mut Attitude,
    id: u32,
    payload: &[u8],
    unit: &F,
) -> (outcome: Ingest)
    requires
        total(unit),
    ensures
        outcome == ingested(id, payload@),
        id != ATTITUDE_REPORT_ID ==> outcome == Ingest::Ignored,
        match outcome {
            Ingest::Updated => decoding(id, payload@) is Attitude && installs(
                unit,
                decoding(id, payload@)->Attitude_0,
                *final(snapshot),
            ),
            _ => *final(snapshot) == *old(snapshot),
        },
{
    match route(id) {
        Route::Ignore => Ingest::Ignored,
        Route::Decode => {
            let decoded = decode_v1(id, payload);
            settle(snapshot, decoded, unit)
        },
    }
}

/// One step of the demultiplexer on a received message: [`ingest`] on the
/// identifier that the message carries and the payload that it holds. Under
/// any identifier but that of the attitude report the message is dropped,
/// nothing is decoded and the snapshot stays as it was. An attitude report
/// replaces the snapshot; one whose payload does not decode leaves it as it
/// was.
pub fn ingest_message<F: Fn(Op, Single, Single) -> Single>(
    snapshot: &mut Attitude,
    msg: &MavMessage,
    unit: &F,
) -> (received: Received)
    requires
        total(unit),
    ensures
        received.id == identifier_of(*msg),
        received.outcome == ingested(identifier_of(*msg), payload_of(*msg)),
        identifier_of(*msg) != ATTITUDE_REPORT_ID ==> received.outcome == Ingest::Ignored,
        match received.outcome {
            Ingest::Updated => installs(
                unit,
                decoding(identifier_of(*msg), payload_of(*msg))->Attitude_0,
                *final(snapshot),
            ),
            _ => *final(snapshot) == *old(snapshot),
        },
{
    let id = message_id(msg);
    match route(id) {
        Route::Ignore => Received { id, outcome: Ingest::Ignored },
        Route::Decode => {
            let payload = payload_v1(msg);
            let outcome = ingest(snapshot, id, payload.as_slice(), unit);
            Received { id, outcome }
        },
    }
}

/// The move of the control task after a demultiplexer step: a mismatch ends
/// the loop, anything else lets the iteration go on.
pub fn after_ingest(outcome: Ingest) -> (action: LoopAction)
    ensures
        outcome == Ingest::Mismatch ==> action == LoopAction::Terminate(Fault::DecodeMismatch),
        outcome != Ingest::Mismatch ==> action == LoopAction::Proceed,
{
    match outcome {
        Ingest::Mismatch => LoopAction::Terminate(Fault::DecodeMismatch),
        _ => LoopAction::Proceed,
    }
}

} // verus!
