//! The heartbeat emitter: one liveness message per interval, for as long as
//! the process lives.

use vstd::prelude::*;

verus! {

/// Seconds between two heartbeats.
pub const HEARTBEAT_INTERVAL_SECS: u64 = 1;

/// What the emitter does after a send.
#[derive(Clone, Copy, Debug, PartialEq, Eq, Structural)]
pub enum EmitterAction {
    /// Sleep for this many seconds, then send again.
    Sleep(u64),
    /// Report the failure and send again at once.
    Report,
}

/// The action after a send: a sleep of one interval after a success, none
/// after a failure.
pub open spec fn emitter_action(sent: bool) -> EmitterAction {
    if sent {
        EmitterAction::Sleep(HEARTBEAT_INTERVAL_SECS)
    } else {
        EmitterAction::Report
    }
}

/// Seconds of sleep that an action brings.
pub open spec fn pause(action: EmitterAction) -> nat {
    match action {
        EmitterAction::Sleep(secs) => secs as nat,
        EmitterAction::Report => 0,
    }
}

/// Seconds that the emitter has slept once it has answered each of these
/// sends, given oldest first (`true` for a send that succeeded).
pub open spec fn slept(sends: Seq<bool>) -> nat
    decreases sends.len(),
{
    if sends.len() == 0 {
        0
    } else {
        slept(sends.drop_last()) + pause(emitter_action(sends.last()))
    }
}

/// Number of sends that succeeded.
pub open spec fn successes(sends: Seq<bool>) -> nat
    decreases sends.len(),
{
    if sends.len() == 0 {
        0
    } else {
        successes(sends.drop_last()) + if sends.last() {
            1nat
        } else {
            0nat
        }
    }
}

/// Decides what follows a send.
pub fn after_send(sent: bool) -> (action: EmitterAction)
    ensures
        action == emitter_action(sent),
{
    if sent {
        EmitterAction::Sleep(HEARTBEAT_INTERVAL_SECS)
    } else {
        EmitterAction::Report
    }
}

/// The emitter sleeps one interval for each send that succeeded, and not at
/// all for one that failed.
pub proof fn sleeps_once_per_success(sends: Seq<bool>)
    ensures
        slept(sends) == successes(sends) * HEARTBEAT_INTERVAL_SECS,
    decreases sends.len(),
{
    if sends.len() > 0 {
        sleeps_once_per_success(sends.drop_last());
    }
}

/// When the last of these sends is made, the emitter has slept a full
/// interval for each success before it: with `n` successes in all, at least
/// `n - 1` intervals.
pub proof fn intervals_before_last_send(sends: Seq<bool>)
    requires
        sends.len() > 0,
    ensures
        slept(sends.drop_last()) >= (successes(sends) - 1) * HEARTBEAT_INTERVAL_SECS,
{
    sleeps_once_per_success(sends.drop_last());
}

/// A failed send adds no sleep.
pub proof fn failure_adds_no_sleep(sends: Seq<bool>)
    ensures
        slept(sends.push(false)) == slept(sends),
        pause(emitter_action(false)) == 0,
{
    assert(sends.push(false).drop_last() =~= sends);
}

} // verus!
