//! The state that all handles of one channel share.
//!
//! [`Chan`] is a plain value: the queue, the flow-control capability, the count
//! of live producers, the closed flag and the consumer's wake slot. Each of its
//! methods is one indivisible step of the channel, and its contract says exactly
//! what the step does to [`ChanView`], the state as a mathematical value.
//!
//! No step fires a wake target or drops a value that it could not enqueue. Both
//! are handed back to the caller, so that nothing foreign runs in the middle of
//! a step.

use super::error::{SendError, TryRecvError};
use super::semaphore::{PoolView, Semaphore};
use super::task::{fire, fire_all};
use std::collections::VecDeque;
use std::task::{Poll, Waker};
use vstd::prelude::*;

verus! {

/// The consumer's side of a channel, as a state machine.
#[derive(Debug, Clone, Copy, PartialEq, Eq, Structural)]
pub enum RxState {
    /// Values may still be sent.
    Open,
    /// No value is accepted any more, but some are still queued.
    ClosedDraining,
    /// Closed and empty: every receive reports the end of the stream.
    ClosedEmpty,
}

/// The shared state of a channel as a mathematical value.
pub struct ChanView<T> {
    /// The values that were enqueued and not yet taken out, oldest first.
    pub queue: Seq<T>,
    /// The permit pool.
    pub pool: PoolView,
    /// The number of live producer handles.
    pub producers: nat,
    /// Whether the channel is closed for new values.
    pub closed: bool,
    /// The wake target of the consumer, while it is suspended.
    pub rx_waker: Option<Waker>,
}

impl<T> ChanView<T> {
    /// What holds of a channel between two steps while `held` permits have been
    /// taken for values that are not enqueued yet:
    /// the pool is well-formed and closed exactly when the channel is; a channel
    /// without producers is closed; under a bound, every permit is free, held,
    /// or stands for one queued value; and the consumer waits only on an empty,
    /// open channel.
    pub open spec fn wf_holding(self, held: nat) -> bool {
        &&& self.pool.wf()
        &&& self.closed == self.pool.closed
        &&& self.producers == 0 ==> self.closed
        &&& self.pool.capacity matches Some(c) ==> self.pool.available + self.queue.len() + held
            == c
        &&& self.rx_waker is Some ==> self.queue.len() == 0 && !self.closed
    }

    /// What holds of a channel between two steps.
    pub open spec fn wf(self) -> bool {
        self.wf_holding(0)
    }

    /// A channel as it is made: open, empty, with one producer.
    pub open spec fn fresh(capacity: Option<nat>) -> ChanView<T> {
        ChanView {
            queue: Seq::empty(),
            pool: PoolView::fresh(capacity),
            producers: 1,
            closed: false,
            rx_waker: None,
        }
    }

    /// Where the consumer stands.
    pub open spec fn rx_state(self) -> RxState {
        if !self.closed {
            RxState::Open
        } else if self.queue.len() > 0 {
            RxState::ClosedDraining
        } else {
            RxState::ClosedEmpty
        }
    }

    /// The channel after `value` went to the tail of the queue: the consumer's
    /// registration, if there was one, is used up.
    pub open spec fn enqueued(self, value: T) -> ChanView<T> {
        ChanView { queue: self.queue.push(value), rx_waker: None, ..self }
    }

    /// The channel after a permit was taken and `value` enqueued under it.
    pub open spec fn accept(self, value: T) -> ChanView<T> {
        ChanView { pool: self.pool.take_permit(), ..self }.enqueued(value)
    }

    /// What a non-suspending send is answered: `RxClosed` on a closed channel,
    /// else `Full` if no permit is free, else success.
    pub open spec fn try_send_result(self) -> Result<(), SendError> {
        if self.closed {
            Err(SendError::RxClosed)
        } else {
            self.pool.try_acquire_result()
        }
    }

    /// The channel after a non-suspending send of `value`: unchanged unless the
    /// send succeeded.
    pub open spec fn after_try_send(self, value: T) -> ChanView<T> {
        if self.try_send_result() is Ok {
            self.accept(value)
        } else {
            self
        }
    }

    /// What a suspending send is answered: `Pending` where the non-suspending
    /// one would have said `Full`.
    pub open spec fn send_result(self) -> Poll<Result<(), SendError>> {
        if self.closed {
            Poll::Ready(Err(SendError::RxClosed))
        } else {
            self.pool.acquire_result()
        }
    }

    /// The channel after a suspending send of `value` by a task with wake target
    /// `waker`: the value is enqueued, or the task joins those who wait for a
    /// permit, or, on a closed channel, nothing changes.
    pub open spec fn after_send(self, value: T, waker: Waker) -> ChanView<T> {
        match self.send_result() {
            Poll::Ready(Ok(_)) => self.accept(value),
            Poll::Ready(Err(_)) => self,
            Poll::Pending => ChanView { pool: self.pool.after_acquire(waker), ..self },
        }
    }

    /// The consumer that a send wakes: the one that is registered, if the send
    /// enqueues its value.
    pub open spec fn send_wakes(self) -> Option<Waker> {
        if self.try_send_result() is Ok {
            self.rx_waker
        } else {
            None
        }
    }

    /// The channel after its oldest value was taken out and the permit of that
    /// value given back.
    pub open spec fn take(self) -> ChanView<T> {
        ChanView { queue: self.queue.drop_first(), pool: self.pool.after_release(), ..self }
    }

    /// What a suspending receive is answered: the oldest value if there is one,
    /// whether or not the channel is closed; else the end of the stream on a
    /// closed channel, and `Pending` on an open one.
    pub open spec fn recv_result(self) -> Poll<Option<T>> {
        if self.queue.len() > 0 {
            Poll::Ready(Some(self.queue.first()))
        } else if self.closed {
            Poll::Ready(None)
        } else {
            Poll::Pending
        }
    }

    /// The channel after a suspending receive by a task with wake target
    /// `waker`: a `Pending` receive leaves its registration.
    pub open spec fn after_recv(self, waker: Waker) -> ChanView<T> {
        if self.queue.len() > 0 {
            self.take()
        } else if self.closed {
            self
        } else {
            ChanView { rx_waker: Some(waker), ..self }
        }
    }

    /// What a non-suspending receive is answered: `Empty` and `Disconnected`
    /// where the suspending one says `Pending` and end of stream.
    pub open spec fn try_recv_result(self) -> Result<T, TryRecvError> {
        if self.queue.len() > 0 {
            Ok(self.queue.first())
        } else if self.closed {
            Err(TryRecvError::Disconnected)
        } else {
            Err(TryRecvError::Empty)
        }
    }

    /// The channel after a non-suspending receive.
    pub open spec fn after_try_recv(self) -> ChanView<T> {
        if self.queue.len() > 0 {
            self.take()
        } else {
            self
        }
    }

    /// The producer that a receive wakes: the one who has waited longest for a
    /// permit, if the receive took a value out.
    pub open spec fn recv_wakes(self) -> Option<Waker> {
        if self.queue.len() > 0 {
            self.pool.release_wakes()
        } else {
            None
        }
    }

    /// The channel after it was closed: nobody waits any more, and what is
    /// queued stays queued.
    pub open spec fn after_close(self) -> ChanView<T> {
        ChanView { closed: true, pool: self.pool.after_close(), rx_waker: None, ..self }
    }

    /// The channel after a producer handle was cloned.
    pub open spec fn after_clone(self) -> ChanView<T> {
        ChanView { producers: self.producers + 1, ..self }
    }

    /// Whether the drop of one producer handle leaves the channel without any.
    pub open spec fn drop_is_last(self) -> bool {
        self.producers <= 1
    }

    /// The channel after a producer handle was dropped: the drop of the last one
    /// closes the channel.
    pub open spec fn after_drop(self) -> ChanView<T> {
        if self.drop_is_last() {
            ChanView { producers: 0, ..self.after_close() }
        } else {
            ChanView { producers: (self.producers - 1) as nat, ..self }
        }
    }
}

/// A value that was not enqueued, and why.
pub struct Refused<T> {
    /// The value, back in the caller's hands.
    pub value: T,
    /// `Full` or `RxClosed`.
    pub reason: SendError,
}

/// The wake targets that a closing step hands out.
pub struct Wakeups {
    /// The consumer, if it was suspended.
    pub consumer: Option<Waker>,
    /// The producers that waited for a permit, earliest first.
    pub producers: VecDeque<Waker>,
}

impl Wakeups {
    /// Nobody to wake.
    pub fn none() -> (w: Wakeups)
        ensures
            w.consumer is None,
            w.producers@.len() == 0,
    {
        Wakeups { consumer: None, producers: VecDeque::new() }
    }

    /// Fires them all: the consumer first, then the producers in their order.
    pub fn fire(self) {
        fire(self.consumer);
        fire_all(self.producers);
    }
}

/// The shared state of a channel whose flow control is `S`.
pub struct Chan<T, S: Semaphore> {
    queue: VecDeque<T>,
    semaphore: S,
    tx_count: usize,
    closed: bool,
    rx_waker: Option<Waker>,
}

impl<T, S: Semaphore> View for Chan<T, S> {
    type V = ChanView<T>;

    closed spec fn view(&self) -> ChanView<T> {
        ChanView {
            queue: self.queue@,
            pool: self.semaphore.pool(),
            producers: self.tx_count as nat,
            closed: self.closed,
            rx_waker: self.rx_waker,
        }
    }
}

impl<T, S: Semaphore> Chan<T, S> {
    /// An open, empty channel with one producer, on a pool that nobody has used.
    pub fn new(semaphore: S) -> (chan: Chan<T, S>)
        requires
            semaphore.pool() == PoolView::fresh(semaphore.pool().capacity),
        ensures
            chan@ == ChanView::<T>::fresh(semaphore.pool().capacity),
            chan@.wf(),
    {
        Chan { queue: VecDeque::new(), semaphore, tx_count: 1, closed: false, rx_waker: None }
    }

    /// A channel whose flow control never says `Full` has no bound.
    pub proof fn never_full_means_unlimited(&self)
        ensures
            S::never_full() ==> self@.pool.capacity is None,
    {
        self.semaphore.never_full_means_unlimited();
    }

    /// Whether the channel is closed for new values.
    pub fn is_closed(&self) -> (closed: bool)
        ensures
            closed == self@.closed,
    {
        self.closed
    }

    /// The number of values that are queued.
    pub fn len(&self) -> (n: usize)
        ensures
            n == self@.queue.len(),
    {
        self.queue.len()
    }

    /// The number of live producer handles.
    pub fn producers(&self) -> (n: usize)
        ensures
            n == self@.producers,
    {
        self.tx_count
    }

    /// Where the consumer stands.
    pub fn rx_state(&self) -> (state: RxState)
        ensures
            state == self@.rx_state(),
    {
        if !self.closed {
            RxState::Open
        } else if self.queue.len() > 0 {
            RxState::ClosedDraining
        } else {
            RxState::ClosedEmpty
        }
    }

    /// Appends `value` to the queue under a permit that the caller has taken for
    /// it, and hands out the consumer's wake target, if one was registered. The
    /// registration is cleared. This never fails.
    fn enqueue(&mut self, value: T) -> (woken: Option<Waker>)
        requires
            old(self)@.wf_holding(1),
        ensures
            final(self)@.wf(),
            final(self)@ == old(self)@.enqueued(value),
            woken == old(self)@.rx_waker,
    {
        self.queue.push_back(value);
        self.rx_waker.take()
    }

    /// Sends without waiting. On success the value is at the tail of the queue,
    /// and the result holds the consumer's wake target, if it was suspended. On
    /// a closed channel the value comes back with `RxClosed`; if no permit is
    /// free it comes back with `Full`. A refused send changes nothing.
    pub fn try_send(&mut self, value: T) -> (r: Result<Option<Waker>, Refused<T>>)
        requires
            old(self)@.wf(),
        ensures
            final(self)@.wf(),
            final(self)@ == old(self)@.after_try_send(value),
            match r {
                Ok(woken) => old(self)@.try_send_result() is Ok && woken == old(self)@.send_wakes(),
                Err(refused) => {
                    &&& old(self)@.try_send_result() == Err::<(), SendError>(refused.reason)
                    &&& refused.value == value
                },
            },
    {
        if self.closed {
            return Err(Refused { value, reason: SendError::RxClosed });
        }
        match self.semaphore.try_acquire() {
            Ok(_) => Ok(self.enqueue(value)),
            Err(reason) => Err(Refused { value, reason }),
        }
    }

    /// One poll of a suspending send of the value in `slot`, by a task with wake
    /// target `waker`.
    ///
    /// On a closed channel the answer is `RxClosed`. Else, if a permit is free,
    /// the value leaves the slot for the tail of the queue, and the second part
    /// of the result holds the consumer's wake target, if it was suspended. Else
    /// `waker` joins the end of those who wait for a permit, and the answer is
    /// `Pending`. Where the value is not enqueued it stays in the slot.
    /// With an empty slot there is nothing to send, and that is a success.
    pub fn send(&mut self, slot: &mut Option<T>, waker: Waker) -> (r: (
        Poll<Result<(), SendError>>,
        Option<Waker>,
    ))
        requires
            old(self)@.wf(),
        ensures
            final(self)@.wf(),
            match *old(slot) {
                Some(value) => {
                    &&& r.0 == old(self)@.send_result()
                    &&& r.1 == old(self)@.send_wakes()
                    &&& final(self)@ == old(self)@.after_send(value, waker)
                    &&& *final(slot) == if old(self)@.try_send_result() is Ok {
                        None
                    } else {
                        Some(value)
                    }
                },
                None => {
                    &&& r.0 == Poll::Ready(Ok::<(), SendError>(()))
                    &&& r.1 is None
                    &&& final(self)@ == old(self)@
                    &&& *final(slot) is None
                },
            },
    {
        match slot.take() {
            None => (Poll::Ready(Ok(())), None),
            Some(value) => {
                if self.closed {
                    *slot = Some(value);
                    return (Poll::Ready(Err(SendError::RxClosed)), None);
                }
                match self.semaphore.acquire(waker) {
                    Poll::Ready(Ok(_)) => (Poll::Ready(Ok(())), self.enqueue(value)),
                    Poll::Ready(Err(reason)) => {
                        *slot = Some(value);
                        (Poll::Ready(Err(reason)), None)
                    },
                    Poll::Pending => {
                        *slot = Some(value);
                        (Poll::Pending, None)
                    },
                }
            },
        }
    }

    /// One poll of a suspending receive, by a task with wake target `waker`.
    ///
    /// If a value is queued, the oldest one is taken out, closed or not; its
    /// permit goes back to the pool, and the second part of the result holds the
    /// wake target of the producer that has waited longest for one, if any
    /// waits. If nothing is queued, a closed channel reports the end of the
    /// stream, and an open one registers `waker` and answers `Pending`.
    pub fn dequeue(&mut self, waker: Waker) -> (r: (Poll<Option<T>>, Option<Waker>))
        requires
            old(self)@.wf(),
        ensures
            final(self)@.wf(),
            r.0 == old(self)@.recv_result(),
            r.1 == old(self)@.recv_wakes(),
            final(self)@ == old(self)@.after_recv(waker),
    {
        match self.queue.pop_front() {
            Some(value) => {
                let woken = self.semaphore.release();
                (Poll::Ready(Some(value)), woken)
            },
            None => {
                if self.closed {
                    (Poll::Ready(None), None)
                } else {
                    self.rx_waker = Some(waker);
                    (Poll::Pending, None)
                }
            },
        }
    }

    /// Receives without waiting: the oldest value if one is queued, with the
    /// wake target of a producer as in [`Chan::dequeue`]; else `Empty` on an
    /// open channel and `Disconnected` on a closed one. Nothing is registered.
    pub fn try_recv(&mut self) -> (r: (Result<T, TryRecvError>, Option<Waker>))
        requires
            old(self)@.wf(),
        ensures
            final(self)@.wf(),
            r.0 == old(self)@.try_recv_result(),
            r.1 == old(self)@.recv_wakes(),
            final(self)@ == old(self)@.after_try_recv(),
    {
        match self.queue.pop_front() {
            Some(value) => {
                let woken = self.semaphore.release();
                (Ok(value), woken)
            },
            None => {
                if self.closed {
                    (Err(TryRecvError::Disconnected), None)
                } else {
                    (Err(TryRecvError::Empty), None)
                }
            },
        }
    }

    /// Closes the channel for new values and the pool with it, and hands out
    /// the wake targets of everyone who is suspended. What is queued stays
    /// queued. Closing a closed channel changes nothing.
    pub fn mark_closed(&mut self) -> (woken: Wakeups)
        requires
            old(self)@.wf(),
        ensures
            final(self)@.wf(),
            final(self)@ == old(self)@.after_close(),
            woken.consumer == old(self)@.rx_waker,
            woken.producers@ == old(self)@.pool.waiters,
    {
        self.closed = true;
        let producers = self.semaphore.close();
        Wakeups { consumer: self.rx_waker.take(), producers }
    }

    /// Counts one more producer handle.
    pub fn increment_producer_count(&mut self)
        requires
            old(self)@.wf(),
            old(self)@.producers < usize::MAX,
        ensures
            final(self)@.wf(),
            final(self)@ == old(self)@.after_clone(),
    {
        self.tx_count = self.tx_count + 1;
    }

    /// Counts one producer handle less. When none is left the channel is
    /// closed as by [`Chan::mark_closed`], and the wake targets come back;
    /// else nobody is woken.
    pub fn decrement_producer_count(&mut self) -> (woken: Wakeups)
        requires
            old(self)@.wf(),
        ensures
            final(self)@.wf(),
            final(self)@ == old(self)@.after_drop(),
            woken.consumer == if old(self)@.drop_is_last() {
                old(self)@.rx_waker
            } else {
                None
            },
            woken.producers@ == if old(self)@.drop_is_last() {
                old(self)@.pool.waiters
            } else {
                Seq::empty()
            },
    {
        if self.tx_count <= 1 {
            let woken = self.mark_closed();
            self.tx_count = 0;
            woken
        } else {
            self.tx_count = self.tx_count - 1;
            Wakeups::none()
        }
    }
}

} // verus!
