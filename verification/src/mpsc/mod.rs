//! A multi-producer, single-consumer queue with a pluggable flow-control policy.
//!
//! * [`semaphore`] holds the flow-control capability and its policies.
//! * [`chan`] holds the state that all handles of one channel share, as a plain
//!   value whose every step has an exact contract.
//! * [`laws`] states what holds of every run of a channel.
//! * [`handle`] holds the producer and consumer handles, which share one such
//!   state.
//! * [`unbounded`] is the channel that never holds a producer back.
//! * [`task`] names what the channel needs of the scheduler.

use vstd::prelude::*;

pub mod chan;
pub mod error;
pub mod handle;
pub mod laws;
pub mod semaphore;
pub mod task;
pub mod unbounded;

pub use error::{SendError, TryRecvError};

use chan::{Chan, RxState};
use handle::{Rx, Tx};
use semaphore::Policy;

verus! {

/// Makes a channel: without limit for `None`, with `n` permits for `Some(n)`.
/// The channel is open and empty, and has one producer handle.
pub fn channel<T>(capacity: Option<usize>) -> (pair: (Tx<T, Policy>, Rx<T, Policy>))
    ensures
        pair.1.receives_from(&pair.0),
        pair.1.state() == RxState::Open,
{
    handle::split(Chan::new(Policy::new(capacity)))
}

} // verus!
