//! What a send or a receive can fail with.

use vstd::prelude::*;

verus! {

/// Why a value was not enqueued.
#[derive(Debug, Clone, Copy, PartialEq, Eq, Structural)]
pub enum SendError {
    /// No permit was free at the time of a non-suspending send. The caller may
    /// try again, or send in the suspending way.
    Full,
    /// The consumer is gone or has closed the channel. No later send on this
    /// channel succeeds.
    RxClosed,
}

/// Why a non-suspending receive returned no value.
#[derive(Debug, Clone, Copy, PartialEq, Eq, Structural)]
pub enum TryRecvError {
    /// Nothing is queued, but the channel is open: a value may still come.
    Empty,
    /// Nothing is queued and the channel is closed: no value will come.
    Disconnected,
}

} // verus!
