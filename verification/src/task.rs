//! The control task: the snapshot and the controller in one place, and the
//! two things that happen to them.

use vstd::prelude::*;
use mavlink::dialects::common::MavMessage;
use crate::arithmetic::Op;
use crate::arithmetic::total;
use crate::attitude::Attitude;
use crate::controller::ControllerState;
use crate::controller::Gains;
use crate::iteration::Iteration;
use crate::iteration::is_iteration;
use crate::iteration::iterate;
use crate::link::Fault;
use crate::single::Single;
use crate::telemetry::ATTITUDE_REPORT_ID;
use crate::telemetry::Ingest;
use crate::telemetry::Received;
use crate::telemetry::ingest;
use crate::telemetry::ingest_message;
use crate::telemetry::ingested;
use crate::telemetry::installs;
use crate::codec::decoding;
use crate::codec::identifier_of;
use crate::codec::payload_of;

verus! {

/// What the control task owns. Nothing else reads or writes it.
///
/// The snapshot changes only when an attitude report comes in, and then as a
/// whole. The controller changes only in a control iteration, and then only
/// in its accumulator.
#[derive(Clone, Copy, Debug, PartialEq, Eq)]
pub struct ControlTask {
    attitude: Attitude,
    controller: ControllerState,
}

impl ControlTask {
    /// The current snapshot.
    pub closed spec fn attitude_spec(&self) -> Attitude {
        self.attitude
    }

    /// The current state of the controller.
    pub closed spec fn controller_spec(&self) -> ControllerState {
        self.controller
    }

    /// The task at the start of the loop: a neutral snapshot and an empty
    /// accumulator.
    pub fn new(gains: Gains, setpoint: Single, error_tolerance: Single) -> (task: ControlTask)
        ensures
            task.attitude() == Attitude::neutral(),
            task.controller().accumulator() == Single::zero(),
            task.controller().gains() == gains,
            task.controller().setpoint() == setpoint,
            task.controller().tolerance() == error_tolerance,
    {
        ControlTask {
            attitude: Attitude::neutral(),
            controller: ControllerState::new(gains, setpoint, error_tolerance),
        }
    }

    #[verifier::when_used_as_spec(attitude_spec)]
    pub fn attitude(&self) -> (r: Attitude)
        ensures
            r == self.attitude_spec(),
    {
        self.attitude
    }

    #[verifier::when_used_as_spec(controller_spec)]
    pub fn controller(&self) -> (r: ControllerState)
        ensures
            r == self.controller_spec(),
    {
        self.controller
    }

    /// Takes an inbound message by its identifier and payload. Under any
    /// identifier but that of the attitude report nothing is decoded and
    /// nothing changes. An attitude report replaces the snapshot, and a
    /// payload that does not decode as one leaves it as it was. The
    /// controller is never touched.
    pub fn receive_payload<F: Fn(Op, Single, Single) -> Single>(
        &mut self,
        id: u32,
        payload: &[u8],
        unit: &F,
    ) -> (outcome: Ingest)
        requires
            total(unit),
        ensures
            outcome == ingested(id, payload@),
            id != ATTITUDE_REPORT_ID ==> outcome == Ingest::Ignored,
            final(self).controller() == old(self).controller(),
            match outcome {
                Ingest::Updated => installs(
                    unit,
                    decoding(id, payload@)->Attitude_0,
                    final(self).attitude(),
                ),
                _ => final(self).attitude() == old(self).attitude(),
            },
    {
        ingest(&mut self.attitude, id, payload, unit)
    }

    /// Takes a received message: [`ControlTask::receive_payload`] on the
    /// identifier that the message carries and the payload that it holds.
    /// The controller is never touched.
    pub fn receive<F: Fn(Op, Single, Single) -> Single>(
        &mut self,
        msg: &MavMessage,
        unit: &F,
    ) -> (received: Received)
        requires
            total(unit),
        ensures
            received.id == identifier_of(*msg),
            received.outcome == ingested(identifier_of(*msg), payload_of(*msg)),
            identifier_of(*msg) != ATTITUDE_REPORT_ID ==> received.outcome == Ingest::Ignored,
            final(self).controller() == old(self).controller(),
            match received.outcome {
                Ingest::Updated => installs(
                    unit,
                    decoding(identifier_of(*msg), payload_of(*msg))->Attitude_0,
                    final(self).attitude(),
                ),
                _ => final(self).attitude() == old(self).attitude(),
            },
    {
        ingest_message(&mut self.attitude, msg, unit)
    }

    /// Runs one control iteration on the current snapshot, `dt` seconds after
    /// the previous one. Where `dt` is zero the result is the timing fault
    /// and nothing changes. The snapshot is never touched.
    pub fn control<F: Fn(Op, Single, Single) -> Single>(&mut self, dt: Single, unit: &F) -> (outcome:
        Result<Iteration, Fault>)
        requires
            total(unit),
        ensures
            final(self).attitude() == old(self).attitude(),
            dt.zero_valued() ==> outcome == Err::<Iteration, Fault>(Fault::TimingFault)
                && final(self).controller() == old(self).controller(),
            !dt.zero_valued() ==> outcome is Ok && is_iteration(
                unit,
                old(self).controller(),
                old(self).attitude(),
                dt,
                outcome->Ok_0,
            ) && final(self).controller().accumulator() == outcome->Ok_0.accumulator,
            final(self).controller().gains() == old(self).controller().gains(),
            final(self).controller().setpoint() == old(self).controller().setpoint(),
            final(self).controller().tolerance() == old(self).controller().tolerance(),
    {
        let attitude = self.attitude;
        iterate(&mut self.controller, &attitude, dt, unit)
    }
}

} // verus!
