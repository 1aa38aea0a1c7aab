//! What the control task does next: go on, back off, or end.

use vstd::prelude::*;

verus! {

/// Seconds that the control task waits when the link has nothing to read.
pub const BACKOFF_SECS: u64 = 1;

/// A condition that ends the task it occurs in.
#[derive(Clone, Copy, Debug, PartialEq, Eq, Structural)]
pub enum Fault {
    /// The link could not be opened, or a send or receive failed for good.
    TransportFatal,
    /// A message announced as an attitude report did not decode as one.
    DecodeMismatch,
    /// No time passed between two control iterations.
    TimingFault,
}

/// How one non-blocking receive on the link ended.
#[derive(Clone, Copy, Debug, PartialEq, Eq, Structural)]
pub enum Reception {
    /// A message arrived.
    Delivered,
    /// Nothing is there to read yet. This is no failure.
    WouldBlock,
    /// The receive failed.
    Failed,
}

/// The next move of the control task.
#[derive(Clone, Copy, Debug, PartialEq, Eq, Structural)]
pub enum LoopAction {
    /// Go on with the current iteration.
    Proceed,
    /// Sleep for this many seconds, then start the iteration afresh.
    Backoff(u64),
    /// Leave the loop.
    Terminate(Fault),
}

/// The move that follows a receive.
pub open spec fn reception_action(reception: Reception) -> LoopAction {
    match reception {
        Reception::Delivered => LoopAction::Proceed,
        Reception::WouldBlock => LoopAction::Backoff(BACKOFF_SECS),
        Reception::Failed => LoopAction::Terminate(Fault::TransportFatal),
    }
}

/// The move that follows a receive: a message is processed, an empty link is
/// retried after the backoff, a failure ends the loop.
pub fn on_reception(reception: Reception) -> (action: LoopAction)
    ensures
        action == reception_action(reception),
{
    match reception {
        Reception::Delivered => LoopAction::Proceed,
        Reception::WouldBlock => LoopAction::Backoff(BACKOFF_SECS),
        Reception::Failed => LoopAction::Terminate(Fault::TransportFatal),
    }
}

/// The move that follows the dispatch of a command: a command that could not
/// be sent ends the loop.
pub fn on_dispatch(sent: bool) -> (action: LoopAction)
    ensures
        sent ==> action == LoopAction::Proceed,
        !sent ==> action == LoopAction::Terminate(Fault::TransportFatal),
{
    if sent {
        LoopAction::Proceed
    } else {
        LoopAction::Terminate(Fault::TransportFatal)
    }
}

} // verus!
