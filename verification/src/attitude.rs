//! The attitude of the vehicle: what a report carries, and the snapshot that
//! the control task keeps of it.

use vstd::prelude::*;
use crate::single::Single;

verus! {

/// An attitude report as it travels: angles in radians, rates in radians per
/// second.
#[derive(Clone, Copy, Debug, PartialEq, Eq, Structural)]
pub struct AttitudeReport {
    pub roll: Single,
    pub pitch: Single,
    pub yaw: Single,
    pub rollspeed: Single,
    pub pitchspeed: Single,
    pub yawspeed: Single,
}

/// Snapshot of the vehicle's orientation and angular rates. Yaw is in
/// degrees and yaw rate in degrees per second; the other four fields are as
/// reported.
///
/// A snapshot is only ever replaced as a whole.
#[derive(Clone, Copy, Debug, PartialEq, Eq, Structural)]
pub struct Attitude {
    pub roll: Single,
    pub pitch: Single,
    pub yaw: Single,
    pub rollspeed: Single,
    pub pitchspeed: Single,
    pub yawspeed: Single,
}

impl Attitude {
    pub fn new(
        roll: Single,
        pitch: Single,
        yaw: Single,
        rollspeed: Single,
        pitchspeed: Single,
        yawspeed: Single,
    ) -> (a: Attitude)
        ensures
            a == (Attitude { roll, pitch, yaw, rollspeed, pitchspeed, yawspeed }),
    {
        Attitude { roll, pitch, yaw, rollspeed, pitchspeed, yawspeed }
    }

    /// The snapshot before any report has arrived: every field is zero.
    pub open spec fn neutral_spec() -> Attitude {
        Attitude {
            roll: Single::zero(),
            pitch: Single::zero(),
            yaw: Single::zero(),
            rollspeed: Single::zero(),
            pitchspeed: Single::zero(),
            yawspeed: Single::zero(),
        }
    }

    /// The snapshot before any report has arrived: every field is zero.
    #[verifier::when_used_as_spec(neutral_spec)]
    pub fn neutral() -> (a: Attitude)
        ensures
            a == Attitude::neutral_spec(),
    {
        let zero = Single { bits: 0 };
        Attitude::new(zero, zero, zero, zero, zero, zero)
    }
}

} // verus!
