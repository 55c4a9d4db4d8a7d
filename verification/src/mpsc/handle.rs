//! The producer and consumer handles of a channel.
//!
//! All handles of one channel hold the same reference-counted cell, and the
//! cell holds the channel's state, a [`Chan`]. Every method of a handle takes
//! the state out of the cell, makes one step of [`Chan`] on it, puts it back,
//! and only then fires the wake targets that the step handed out and drops
//! what it refused. What the step does is stated, exactly, in the contract of
//! the method of [`Chan`] that makes it.
//!
//! A handle cannot say which state it will find: another handle may have
//! changed it since the last call. So the contracts here state what holds
//! whatever state is found. The consumer handle adds what it has seen itself:
//! a channel that it has seen closed stays closed, and the end of the stream,
//! once seen, is final.
//!
//! While a step is made the cell is empty. A step fires no wake target and
//! drops no value that was sent, so no call on a handle is made from inside a
//! step and no handle finds the cell empty; one that did would treat the
//! channel as closed.

use super::chan::{Chan, RxState};
use super::error::{SendError, TryRecvError};
use super::semaphore::Semaphore;
use super::task::fire;
use futures_util::future::poll_fn;
use std::cell::Cell;
use std::future::Future;
use std::rc::Rc;
use std::task::{Context, Poll};
use vstd::prelude::*;

verus! {

/// `std::cell::Cell`: a place whose content can be exchanged through a shared
/// reference. Nothing is known of what is inside; as a value, a cell stands for
/// the place itself.
#[verifier::external_type_specification]
#[verifier::external_body]
#[verifier::reject_recursive_types(T)]
pub struct ExCell<T: ?Sized>(Cell<T>);

/// `Cell::new` makes a cell that holds `value`. Nothing is claimed of it.
pub assume_specification<T>[ Cell::<T>::new ](value: T) -> (cell: Cell<T>);

/// `Cell::replace` puts `value` into the cell and returns what was there.
/// Nothing is claimed of what comes out.
pub assume_specification<T>[ Cell::<T>::replace ](cell: &Cell<T>, value: T) -> (previous: T);

/// `Rc::clone` returns another pointer to the same allocation, so to the same
/// cell.
#[verifier::external_body]
fn same_cell_again<X>(cell: &Rc<Cell<X>>) -> (again: Rc<Cell<X>>)
    ensures
        again == *cell,
{
    Rc::clone(cell)
}

/// `Rc::ptr_eq` tells whether two pointers lead to the same allocation. A cell
/// lies in one allocation and is never copied, so the two pointers lead to the
/// same allocation exactly when they lead to the same cell.
#[verifier::external_body]
fn is_same_cell<X>(a: &Rc<Cell<X>>, b: &Rc<Cell<X>>) -> (same: bool)
    ensures
        same == (a == b),
{
    Rc::ptr_eq(a, b)
}

/// A channel state that is well-formed, as every state between two steps is.
struct Sealed<T, S: Semaphore> {
    chan: Chan<T, S>,
}

impl<T, S: Semaphore> Sealed<T, S> {
    #[verifier::type_invariant]
    spec fn well_formed(self) -> bool {
        self.chan@.wf()
    }

    /// Wraps a well-formed state: the seal holds that state and no other.
    fn seal(chan: Chan<T, S>) -> (sealed: Sealed<T, S>)
        requires
            chan@.wf(),
        ensures
            sealed.chan == chan,
    {
        Sealed { chan }
    }

    /// Hands the state out again, which is well-formed as it was when sealed.
    fn open(self) -> (chan: Chan<T, S>)
        ensures
            chan == self.chan,
            chan@.wf(),
    {
        proof {
            use_type_invariant(&self);
        }
        self.chan
    }
}

/// Takes the state out of the cell, if it is there.
fn check_out<T, S: Semaphore>(cell: &Cell<Option<Sealed<T, S>>>) -> (state: Option<Chan<T, S>>)
    ensures
        state matches Some(chan) ==> chan@.wf(),
{
    match cell.replace(None) {
        Some(sealed) => Some(sealed.open()),
        None => None,
    }
}

/// Puts the state back into the cell.
fn check_in<T, S: Semaphore>(cell: &Cell<Option<Sealed<T, S>>>, chan: Chan<T, S>)
    requires
        chan@.wf(),
{
    let _ = cell.replace(Some(Sealed::seal(chan)));
}

/// A producer handle. Clones send into the same channel; when the last of them
/// is dropped the channel closes.
#[verifier::reject_recursive_types(T)]
#[verifier::reject_recursive_types(S)]
pub struct Tx<T, S: Semaphore> {
    shared: Rc<Cell<Option<Sealed<T, S>>>>,
}

/// The consumer handle, of which each channel has one. When it is dropped the
/// channel closes.
#[verifier::reject_recursive_types(T)]
#[verifier::reject_recursive_types(S)]
pub struct Rx<T, S: Semaphore> {
    shared: Rc<Cell<Option<Sealed<T, S>>>>,
    seen: RxState,
}

/// Makes the two handles of a channel whose state is `chan`.
pub fn split<T, S: Semaphore>(chan: Chan<T, S>) -> (pair: (Tx<T, S>, Rx<T, S>))
    requires
        chan@.wf(),
        chan@.producers == 1,
    ensures
        pair.1.receives_from(&pair.0),
        pair.1.state() == chan@.rx_state(),
{
    let seen = chan.rx_state();
    let shared = Rc::new(Cell::new(Some(Sealed::seal(chan))));
    let tx = Tx { shared: same_cell_again(&shared) };
    (tx, Rx { shared, seen })
}

impl<T, S: Semaphore> Tx<T, S> {
    /// Whether the two handles send into one and the same channel.
    pub closed spec fn same_channel_as(&self, other: &Tx<T, S>) -> bool {
        self.shared == other.shared
    }

    /// Sends without waiting. `Ok` means that the value is queued. `Full`
    /// means that no permit was free, which a channel without limit never says;
    /// `RxClosed` that the channel is closed. A value that is not queued is
    /// dropped.
    ///
    /// The step is [`Chan::try_send`].
    pub fn try_send(&self, value: T) -> (r: Result<(), SendError>)
        ensures
            S::never_full() ==> (r matches Err(reason) ==> reason == SendError::RxClosed),
    {
        match check_out(&self.shared) {
            Some(mut chan) => {
                proof {
                    chan.never_full_means_unlimited();
                }
                let sent = chan.try_send(value);
                check_in(&self.shared, chan);
                match sent {
                    Ok(woken) => {
                        fire(woken);
                        Ok(())
                    },
                    Err(refused) => Err(refused.reason),
                }
            },
            None => Err(SendError::RxClosed),
        }
    }

    /// One poll of a suspending send of the value in `slot`.
    ///
    /// `Ready(Ok)` means that the value has left the slot and is queued, or
    /// that the slot was empty. `Ready(Err(RxClosed))` means that the channel is
    /// closed. `Pending` means that no permit was free: the task of `cx` is
    /// woken when one may be, or when the channel closes, and polls again. In
    /// both of these cases the value is still in the slot. A channel without
    /// limit never answers `Pending`.
    ///
    /// The step is [`Chan::send`].
    pub fn poll_send(&self, cx: &mut Context<'_>, slot: &mut Option<T>) -> (r: Poll<
        Result<(), SendError>,
    >)
        ensures
            *old(slot) is None ==> r matches Poll::Ready(Ok(_)),
            r matches Poll::Ready(Ok(_)) ==> *final(slot) is None,
            !(r matches Poll::Ready(Ok(_))) ==> *final(slot) == *old(slot),
            r matches Poll::Ready(Err(reason)) ==> reason == SendError::RxClosed,
            S::never_full() ==> r is Ready,
    {
        if slot.is_none() {
            return Poll::Ready(Ok(()));
        }
        let waker = cx.waker().clone();
        match check_out(&self.shared) {
            Some(mut chan) => {
                proof {
                    chan.never_full_means_unlimited();
                }
                let (r, woken) = chan.send(slot, waker);
                check_in(&self.shared, chan);
                fire(woken);
                r
            },
            None => Poll::Ready(Err(SendError::RxClosed)),
        }
    }

    /// Sends `value`, waiting for a permit where none is free: the future of
    /// `futures_util::future::poll_fn` over [`Tx::poll_send`], which holds the
    /// value until it is queued or the channel turns out to be closed.
    pub fn send(&self, value: T) -> impl Future<Output = Result<(), SendError>> + '_ {
        let held = Cell::new(Some(value));
        poll_fn(
            move |cx: &mut Context<'_>| -> (r: Poll<Result<(), SendError>>) {
                self.poll_send_held(cx, &held)
            },
        )
    }

    /// One poll of a suspending send of the value that `held` holds, if any:
    /// [`Tx::poll_send`] on what is taken out of `held`, and what that leaves is
    /// put back. As there, the only failure is `RxClosed`, and a channel without
    /// limit never answers `Pending`.
    fn poll_send_held(&self, cx: &mut Context<'_>, held: &Cell<Option<T>>) -> (r: Poll<
        Result<(), SendError>,
    >)
        ensures
            r matches Poll::Ready(Err(reason)) ==> reason == SendError::RxClosed,
            S::never_full() ==> r is Ready,
    {
        let mut slot = held.replace(None);
        let r = self.poll_send(cx, &mut slot);
        let _ = held.replace(slot);
        r
    }

    /// Whether the channel is closed for new values.
    pub fn is_closed(&self) -> (closed: bool) {
        match check_out(&self.shared) {
            Some(chan) => {
                let closed = chan.is_closed();
                check_in(&self.shared, chan);
                closed
            },
            None => true,
        }
    }

    /// Whether `other` sends into the same channel as this handle: the very
    /// same, not one that looks alike.
    pub fn same_channel(&self, other: &Tx<T, S>) -> (same: bool)
        ensures
            same == self.same_channel_as(other),
    {
        is_same_cell(&self.shared, &other.shared)
    }

    /// Takes this handle off the count of producers. The step is
    /// [`Chan::decrement_producer_count`].
    fn retire(&self) {
        match check_out(&self.shared) {
            Some(mut chan) => {
                let woken = chan.decrement_producer_count();
                check_in(&self.shared, chan);
                woken.fire();
            },
            None => {},
        }
    }
}

impl<T, S: Semaphore> Clone for Tx<T, S> {
    /// Another producer handle of the same channel. The step is
    /// [`Chan::increment_producer_count`]; a count that has reached the largest
    /// number stays there.
    fn clone(&self) -> (copy: Tx<T, S>)
        ensures
            copy.same_channel_as(self),
            self.same_channel_as(&copy),
    {
        match check_out(&self.shared) {
            Some(mut chan) => {
                if chan.producers() < usize::MAX {
                    chan.increment_producer_count();
                }
                check_in(&self.shared, chan);
            },
            None => {},
        }
        Tx { shared: same_cell_again(&self.shared) }
    }
}

impl<T, S: Semaphore> Drop for Tx<T, S> {
    /// Runs [`Tx::retire`]. What is taken on trust is that it does not unwind.
    #[verifier::external_body]
    fn drop(&mut self)
        opens_invariants none
        no_unwind
    {
        self.retire();
    }
}

impl<T, S: Semaphore> Rx<T, S> {
    /// Whether this is the consumer of the channel that `tx` sends into.
    pub closed spec fn receives_from(&self, tx: &Tx<T, S>) -> bool {
        self.shared == tx.shared
    }

    /// Whether the two are the consumer of one and the same channel.
    pub closed spec fn same_channel_as(&self, other: &Rx<T, S>) -> bool {
        self.shared == other.shared
    }

    /// What the consumer has seen of its channel so far. `Open` means that it
    /// has not seen the channel closed, `ClosedDraining` that it has seen it
    /// closed, and `ClosedEmpty` that it has seen it closed and empty, which is
    /// final. [`Rx::poll_recv`], [`Rx::try_recv`] and [`Rx::close`] bring it up
    /// to date.
    pub closed spec fn state(&self) -> RxState {
        self.seen
    }

    /// One poll of a suspending receive.
    ///
    /// `Ready(Some(value))` hands out the oldest queued value, `Ready(None)` is
    /// the end of the stream: the channel is closed and empty. `Pending` means
    /// that the channel is open and empty: the task of `cx` is woken when a
    /// value is enqueued or the channel closes, and polls again.
    ///
    /// A consumer that has seen the channel closed is never told `Pending`, and
    /// one that has seen the end of the stream sees it again, at once.
    ///
    /// The step is [`Chan::dequeue`] while the consumer has not seen the channel
    /// closed, and [`Chan::try_recv`] from then on.
    pub fn poll_recv(&mut self, cx: &mut Context<'_>) -> (r: Poll<Option<T>>)
        ensures
            final(self).same_channel_as(old(self)),
            old(self).state() == RxState::ClosedEmpty ==> r matches Poll::Ready(None),
            old(self).state() != RxState::Open ==> r is Ready && final(self).state()
                != RxState::Open,
            r matches Poll::Ready(None) ==> final(self).state() == RxState::ClosedEmpty,
            r is Pending ==> final(self).state() == RxState::Open,
    {
        let (r, seen) = self.poll_shared(cx);
        self.seen = seen;
        r
    }

    /// [`Rx::poll_recv`] through a shared reference: the answer, and what the
    /// consumer has seen with it.
    fn poll_shared(&self, cx: &mut Context<'_>) -> (out: (Poll<Option<T>>, RxState))
        ensures
            self.state() == RxState::ClosedEmpty ==> out.0 matches Poll::Ready(None),
            self.state() != RxState::Open ==> out.0 is Ready && out.1 != RxState::Open,
            out.0 matches Poll::Ready(None) ==> out.1 == RxState::ClosedEmpty,
            out.0 is Pending ==> out.1 == RxState::Open,
    {
        match self.seen {
            RxState::Open => {
                let waker = cx.waker().clone();
                match check_out(&self.shared) {
                    Some(mut chan) => {
                        let (r, woken) = chan.dequeue(waker);
                        let seen = chan.rx_state();
                        check_in(&self.shared, chan);
                        fire(woken);
                        (r, seen)
                    },
                    None => (Poll::Ready(None), RxState::ClosedEmpty),
                }
            },
            RxState::ClosedDraining => {
                let (r, seen) = self.take_closed();
                (Poll::Ready(r), seen)
            },
            RxState::ClosedEmpty => (Poll::Ready(None), RxState::ClosedEmpty),
        }
    }

    /// Takes the oldest value out of a channel that the consumer has seen
    /// closed: a value, or the end of the stream.
    fn take_closed(&self) -> (out: (Option<T>, RxState))
        ensures
            out.1 != RxState::Open,
            out.0 is None ==> out.1 == RxState::ClosedEmpty,
    {
        match check_out(&self.shared) {
            Some(mut chan) => {
                let (r, woken) = chan.try_recv();
                let found = chan.rx_state();
                check_in(&self.shared, chan);
                fire(woken);
                match r {
                    Ok(value) => {
                        let seen = match found {
                            RxState::ClosedEmpty => RxState::ClosedEmpty,
                            _ => RxState::ClosedDraining,
                        };
                        (Some(value), seen)
                    },
                    Err(_) => (None, RxState::ClosedEmpty),
                }
            },
            None => (None, RxState::ClosedEmpty),
        }
    }

    /// Receives the next value, waiting for one while the channel is open and
    /// empty; `None` is the end of the stream. The future of
    /// `futures_util::future::poll_fn` over [`Rx::poll_recv`]. It polls through
    /// a shared reference, and leaves what the consumer has seen as it was.
    pub fn recv(&mut self) -> impl Future<Output = Option<T>> + '_ {
        let this: &Rx<T, S> = self;
        poll_fn(
            move |cx: &mut Context<'_>| -> (r: Poll<Option<T>>) {
                let (r, _) = this.poll_shared(cx);
                r
            },
        )
    }

    /// Receives without waiting: the oldest queued value, or `Empty` if nothing
    /// is queued and the channel is open, or `Disconnected` if nothing is queued
    /// and the channel is closed.
    ///
    /// A consumer that has seen the channel closed is never told `Empty`, and
    /// one that has seen the end of the stream is told `Disconnected`, at once.
    ///
    /// The step is [`Chan::try_recv`].
    pub fn try_recv(&mut self) -> (r: Result<T, TryRecvError>)
        ensures
            final(self).same_channel_as(old(self)),
            old(self).state() == RxState::ClosedEmpty ==> r matches Err(TryRecvError::Disconnected),
            old(self).state() != RxState::Open ==> !(r matches Err(TryRecvError::Empty))
                && final(self).state() != RxState::Open,
            r matches Err(TryRecvError::Disconnected) ==> final(self).state()
                == RxState::ClosedEmpty,
            r matches Err(TryRecvError::Empty) ==> final(self).state() == RxState::Open,
    {
        match self.seen {
            RxState::Open => {
                match check_out(&self.shared) {
                    Some(mut chan) => {
                        let (r, woken) = chan.try_recv();
                        self.seen = chan.rx_state();
                        check_in(&self.shared, chan);
                        fire(woken);
                        r
                    },
                    None => {
                        self.seen = RxState::ClosedEmpty;
                        Err(TryRecvError::Disconnected)
                    },
                }
            },
            RxState::ClosedDraining => {
                let (r, seen) = self.take_closed();
                self.seen = seen;
                match r {
                    Some(value) => Ok(value),
                    None => Err(TryRecvError::Disconnected),
                }
            },
            RxState::ClosedEmpty => Err(TryRecvError::Disconnected),
        }
    }

    /// Closes the channel: no send succeeds from now on, and the producers that
    /// wait for a permit are woken to find that out. What is queued can still be
    /// received: the consumer is in `ClosedDraining` if it finds anything
    /// queued, and in `ClosedEmpty` if not.
    ///
    /// The step is [`Chan::mark_closed`].
    pub fn close(&mut self)
        ensures
            final(self).same_channel_as(old(self)),
            final(self).state() != RxState::Open,
            old(self).state() == RxState::ClosedEmpty ==> final(self).state()
                == RxState::ClosedEmpty,
    {
        match self.seen {
            RxState::ClosedEmpty => {},
            _ => {
                match check_out(&self.shared) {
                    Some(mut chan) => {
                        let woken = chan.mark_closed();
                        self.seen = chan.rx_state();
                        check_in(&self.shared, chan);
                        woken.fire();
                    },
                    None => {
                        self.seen = RxState::ClosedEmpty;
                    },
                }
            },
        }
    }
}

impl<T, S: Semaphore> Drop for Rx<T, S> {
    /// Runs [`Rx::close`]. What is taken on trust is that it does not unwind.
    #[verifier::external_body]
    fn drop(&mut self)
        opens_invariants none
        no_unwind
    {
        self.close();
    }
}

/// Two handles are on the same channel or they are not, whichever of them is
/// asked, and whichever is asked about: every handle is on its own channel, the
/// answer of one about the other is the answer of the other about the one, and
/// being on the same channel passes on from handle to handle.
pub proof fn law_same_channel_is_an_equivalence<T, S: Semaphore>(
    a: Tx<T, S>,
    b: Tx<T, S>,
    c: Tx<T, S>,
)
    ensures
        a.same_channel_as(&a),
        a.same_channel_as(&b) == b.same_channel_as(&a),
        a.same_channel_as(&b) && b.same_channel_as(&c) ==> a.same_channel_as(&c),
{
}

/// All producer handles of the channel of one consumer are on the same
/// channel, and a handle on that channel is one of them.
pub proof fn law_same_channel_same_consumer<T, S: Semaphore>(
    rx: Rx<T, S>,
    a: Tx<T, S>,
    b: Tx<T, S>,
)
    requires
        rx.receives_from(&a),
    ensures
        rx.receives_from(&b) == a.same_channel_as(&b),
{
}

/// A consumer handle stays the consumer of its channel: whoever sends to it
/// before one of its calls sends to it after the call.
pub proof fn law_consumer_stays<T, S: Semaphore>(before: Rx<T, S>, after: Rx<T, S>, tx: Tx<T, S>)
    requires
        after.same_channel_as(&before),
    ensures
        after.receives_from(&tx) == before.receives_from(&tx),
{
}

} // verus!
