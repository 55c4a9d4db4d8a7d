//! The scheduler's side of a suspension: the types of `std::task`, which the
//! channel stores, hands on and fires, but never looks into.

use futures_util::future::PollFn;
use std::collections::VecDeque;
use std::task::{Context, Poll, Waker};
use vstd::prelude::*;

verus! {

/// `std::task::Waker`: the wake target of one suspended task. Nothing is known
/// of what is inside.
#[verifier::external_type_specification]
#[verifier::external_body]
pub struct ExWaker(Waker);

/// `std::task::Context`: what a poll is handed by the scheduler. Nothing is
/// known of what is inside.
#[verifier::external_type_specification]
#[verifier::external_body]
pub struct ExContext<'a>(Context<'a>);

/// `std::task::Poll`, with its two variants `Ready` and `Pending`.
#[verifier::external_type_specification]
pub struct ExPoll<T>(Poll<T>);

/// `Context::waker` returns the wake target of the task that is being polled.
/// Nothing is claimed of it.
pub assume_specification<'a>[ Context::<'a>::waker ](cx: &Context<'a>) -> (waker: &'a Waker);

/// `Waker::clone` returns another wake target for the same task. Nothing is
/// claimed of it.
pub assume_specification[ <Waker as Clone>::clone ](waker: &Waker) -> (copy: Waker);

/// `Waker::wake` tells the scheduler to poll the task again. It returns nothing,
/// and nothing is claimed of its effect.
pub assume_specification[ Waker::wake ](waker: Waker);

/// `futures_util::future::PollFn`: the future that `poll_fn` makes of a closure.
/// Nothing is known of what is inside.
#[verifier::external_type_specification]
#[verifier::external_body]
#[verifier::reject_recursive_types(F)]
pub struct ExPollFn<F>(PollFn<F>);

/// `futures_util::future::poll_fn` wraps a closure into a future: each poll of
/// the future is one call of the closure. Nothing is claimed of the future.
pub assume_specification<T, F>[ futures_util::future::poll_fn::<T, F> ](f: F) -> (future: PollFn<F>)
    where
        F: FnMut(&mut Context<'_>) -> Poll<T>,
;

/// Fires the wake target, if there is one.
pub fn fire(waker: Option<Waker>) {
    match waker {
        Some(w) => w.wake(),
        None => {},
    }
}

/// Fires every wake target of the queue, first to last.
pub fn fire_all(wakers: VecDeque<Waker>) {
    let mut wakers = wakers;
    while wakers.len() > 0
        decreases wakers.len(),
    {
        fire(wakers.pop_front());
    }
}

} // verus!
