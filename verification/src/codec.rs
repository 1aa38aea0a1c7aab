//! The message codec, as far as the control task calls it. Nothing in this
//! file is proved: each contract says what is taken on trust from the codec.
//! A decoded message is opaque to the proofs; what it holds is named here,
//! its identifier and its payload, and the calls are stated over the names.

use vstd::prelude::*;
use mavlink::dialects::common::MavMessage;
use mavlink::MavlinkVersion;
use mavlink::Message;
use crate::attitude::AttitudeReport;
use crate::single::Single;
use crate::telemetry::ATTITUDE_REPORT_ID;

verus! {

/// A decoded message of the common dialect. Its contents are not visible to
/// the proofs.
#[verifier::external_type_specification]
#[verifier::external_body]
pub struct ExMavMessage(mavlink::dialects::common::MavMessage);

/// What the codec made of a payload.
#[derive(Clone, Copy, Debug, PartialEq, Eq, Structural)]
pub enum Decoded {
    /// An attitude report, with the fields it carries.
    Attitude(AttitudeReport),
    /// A message of another kind.
    Other,
    /// The codec rejected the payload.
    Malformed,
}

/// What `Message::parse` of the common dialect returns for an identifier and
/// a payload under protocol version 1, seen as a [`Decoded`].
pub uninterp spec fn decoding(id: u32, payload: Seq<u8>) -> Decoded;

/// The identifier that a decoded message carries: what `Message::message_id`
/// returns for it.
pub uninterp spec fn identifier_of(msg: MavMessage) -> u32;

/// The payload that a decoded message holds: the bytes that `Message::ser`
/// writes for it under protocol version 1.
pub uninterp spec fn payload_of(msg: MavMessage) -> Seq<u8>;

/// `Message::message_id`. The contract claims only that the identifier is a
/// function of the message.
#[verifier::external_body]
pub(crate) fn message_id(msg: &MavMessage) -> (id: u32)
    ensures
        id == identifier_of(*msg),
{
    msg.message_id()
}

/// `Message::ser` under protocol version 1, with what it wrote handed out as
/// a vector. The buffer handed to the codec has the largest payload length,
/// so the call cannot run out of room. The contract claims only that the
/// bytes are a function of the message.
#[verifier::external_body]
pub(crate) fn payload_v1(msg: &MavMessage) -> (payload: Vec<u8>)
    ensures
        payload@ == payload_of(*msg),
{
    let mut buffer = [0u8; mavlink::consts::MAX_PAYLOAD_LEN];
    let written = msg.ser(MavlinkVersion::V1, &mut buffer);
    buffer[..written].to_vec()
}

/// `Message::parse` under protocol version 1. The contract claims only that
/// the outcome is a function of the identifier and the payload bytes. Callers
/// must have established that the identifier is that of the attitude report:
/// no other payload is ever handed to the codec.
#[verifier::external_body]
pub(crate) fn decode_v1(id: u32, payload: &[u8]) -> (decoded: Decoded)
    requires
        id == ATTITUDE_REPORT_ID,
    ensures
        decoded == decoding(id, payload@),
{
    match MavMessage::parse(MavlinkVersion::V1, id, payload) {
        Ok(MavMessage::ATTITUDE(a)) => Decoded::Attitude(AttitudeReport {
            roll: Single { bits: a.roll.to_bits() },
            pitch: Single { bits: a.pitch.to_bits() },
            yaw: Single { bits: a.yaw.to_bits() },
            rollspeed: Single { bits: a.rollspeed.to_bits() },
            pitchspeed: Single { bits: a.pitchspeed.to_bits() },
            yawspeed: Single { bits: a.yawspeed.to_bits() },
        }),
        Ok(_) => Decoded::Other,
        Err(_) => Decoded::Malformed,
    }
}

} // verus!
