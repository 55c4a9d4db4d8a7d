//! What holds of every run of a channel.
//!
//! A run is a sequence of steps, in any order and by any number of producers:
//! each [`Op`] is one call on the shared state, and [`ChanView::step`] is what
//! that call does to it, in the very terms of the contracts in
//! [`chan`](super::chan). The laws below are proved of all runs.

use super::chan::{ChanView, RxState};
use super::error::{SendError, TryRecvError};
use super::semaphore::PoolView;
use std::task::{Poll, Waker};
use vstd::prelude::*;

verus! {

/// One step of a channel.
pub enum Op<T> {
    /// A non-suspending send of the value.
    TrySend(T),
    /// One poll of a suspending send of the value, by a task with this wake
    /// target.
    Send(T, Waker),
    /// One poll of a suspending receive, by a task with this wake target.
    Recv(Waker),
    /// A non-suspending receive.
    TryRecv,
    /// The consumer closes the channel, or is dropped.
    Close,
    /// A producer handle is cloned.
    CloneTx,
    /// A producer handle is dropped.
    DropTx,
}

impl<T> ChanView<T> {
    /// The channel after the step.
    pub open spec fn step(self, op: Op<T>) -> ChanView<T> {
        match op {
            Op::TrySend(value) => self.after_try_send(value),
            Op::Send(value, waker) => self.after_send(value, waker),
            Op::Recv(waker) => self.after_recv(waker),
            Op::TryRecv => self.after_try_recv(),
            Op::Close => self.after_close(),
            Op::CloneTx => self.after_clone(),
            Op::DropTx => self.after_drop(),
        }
    }

    /// The value that the step enqueues: the one of a send that succeeds. At
    /// most one.
    pub open spec fn accepts(self, op: Op<T>) -> Seq<T> {
        match op {
            Op::TrySend(value) => if self.try_send_result() is Ok {
                seq![value]
            } else {
                Seq::empty()
            },
            Op::Send(value, _) => if self.send_result() == Poll::Ready(Ok::<(), SendError>(())) {
                seq![value]
            } else {
                Seq::empty()
            },
            _ => Seq::empty(),
        }
    }

    /// The value that the step hands to the consumer: the one that a receive
    /// returns. At most one.
    pub open spec fn delivers(self, op: Op<T>) -> Seq<T> {
        match op {
            Op::Recv(_) => match self.recv_result() {
                Poll::Ready(Some(value)) => seq![value],
                _ => Seq::empty(),
            },
            Op::TryRecv => match self.try_recv_result() {
                Ok(value) => seq![value],
                Err(_) => Seq::empty(),
            },
            _ => Seq::empty(),
        }
    }

    /// The channel after the steps, first to last.
    pub open spec fn run(self, ops: Seq<Op<T>>) -> ChanView<T>
        decreases ops.len(),
    {
        if ops.len() == 0 {
            self
        } else {
            self.step(ops.first()).run(ops.drop_first())
        }
    }

    /// The values that the sends of the run enqueue, in the order of the sends.
    pub open spec fn accepted(self, ops: Seq<Op<T>>) -> Seq<T>
        decreases ops.len(),
    {
        if ops.len() == 0 {
            Seq::empty()
        } else {
            self.accepts(ops.first()) + self.step(ops.first()).accepted(ops.drop_first())
        }
    }

    /// The values that the receives of the run return, in the order of the
    /// receives.
    pub open spec fn delivered(self, ops: Seq<Op<T>>) -> Seq<T>
        decreases ops.len(),
    {
        if ops.len() == 0 {
            Seq::empty()
        } else {
            self.delivers(ops.first()) + self.step(ops.first()).delivered(ops.drop_first())
        }
    }
}

/// A run of non-suspending sends, one for each value.
pub open spec fn try_sends<T>(values: Seq<T>) -> Seq<Op<T>> {
    Seq::new(values.len(), |i: int| Op::TrySend(values[i]))
}

/// A run of `n` non-suspending receives.
pub open spec fn try_recvs<T>(n: nat) -> Seq<Op<T>> {
    Seq::new(n, |i: int| Op::TryRecv)
}

/// A run of polls of a suspending receive, one for each wake target.
pub open spec fn recvs<T>(wakers: Seq<Waker>) -> Seq<Op<T>> {
    Seq::new(wakers.len(), |i: int| Op::Recv(wakers[i]))
}

/// Every step takes a well-formed channel to a well-formed channel.
pub proof fn step_preserves_wf<T>(s: ChanView<T>, op: Op<T>)
    requires
        s.wf(),
    ensures
        s.step(op).wf(),
{
}

/// Every run takes a well-formed channel to a well-formed channel.
pub proof fn run_preserves_wf<T>(s: ChanView<T>, ops: Seq<Op<T>>)
    requires
        s.wf(),
    ensures
        s.run(ops).wf(),
    decreases ops.len(),
{
    if ops.len() > 0 {
        step_preserves_wf(s, ops.first());
        run_preserves_wf(s.step(ops.first()), ops.drop_first());
    }
}

/// Nothing is lost, nothing comes twice, nothing changes place: at the end of
/// any run, what was queued at its start followed by what its sends enqueued is
/// what its receives returned followed by what is still queued. This holds
/// whoever sent, whether or not the channel was closed on the way, and of
/// suspending and non-suspending calls alike.
pub proof fn law_conservation<T>(s: ChanView<T>, ops: Seq<Op<T>>)
    ensures
        s.queue + s.accepted(ops) == s.delivered(ops) + s.run(ops).queue,
    decreases ops.len(),
{
    if ops.len() == 0 {
        assert(s.queue + s.accepted(ops) =~= s.delivered(ops) + s.run(ops).queue);
    } else {
        let op = ops.first();
        let rest = ops.drop_first();
        let next = s.step(op);
        let (taken_in, handed_out) = (s.accepts(op), s.delivers(op));
        law_conservation(next, rest);
        // The first step keeps the balance, the steps after it keep it by
        // induction, and appending does not care for brackets.
        assert(s.queue + taken_in =~= handed_out + next.queue);
        assert(s.queue + (taken_in + next.accepted(rest)) =~= (s.queue + taken_in)
            + next.accepted(rest));
        assert((handed_out + next.queue) + next.accepted(rest) =~= handed_out + (next.queue
            + next.accepted(rest)));
        assert(handed_out + (next.delivered(rest) + next.run(rest).queue) =~= (handed_out
            + next.delivered(rest)) + next.run(rest).queue);
    }
}

/// Values come out in the order in which they went in: on a channel that starts
/// empty, what the receives of a run have returned so far is the beginning of
/// what its sends enqueued, and all of it once the queue is empty again.
pub proof fn law_order_preserved<T>(s: ChanView<T>, ops: Seq<Op<T>>)
    requires
        s.queue.len() == 0,
    ensures
        s.delivered(ops).is_prefix_of(s.accepted(ops)),
        s.run(ops).queue.len() == 0 ==> s.delivered(ops) == s.accepted(ops),
{
    law_conservation(s, ops);
    assert(s.queue + s.accepted(ops) =~= s.accepted(ops));
    let delivered = s.delivered(ops);
    let rest = s.run(ops).queue;
    assert((delivered + rest).subrange(0, delivered.len() as int) =~= delivered);
    if rest.len() == 0 {
        assert(delivered + rest =~= delivered);
    }
}

/// No step opens a closed channel.
pub proof fn step_keeps_closed<T>(s: ChanView<T>, op: Op<T>)
    requires
        s.closed,
    ensures
        s.step(op).closed,
{
}

/// A closed channel stays closed, whatever is done to it.
pub proof fn law_closed_stays_closed<T>(s: ChanView<T>, ops: Seq<Op<T>>)
    requires
        s.closed,
    ensures
        s.run(ops).closed,
    decreases ops.len(),
{
    if ops.len() > 0 {
        step_keeps_closed(s, ops.first());
        law_closed_stays_closed(s.step(ops.first()), ops.drop_first());
    }
}

/// On a closed channel every send fails with `RxClosed`, the suspending one
/// without suspending, and leaves the channel as it was.
pub proof fn law_closed_refuses<T>(s: ChanView<T>, value: T, waker: Waker)
    requires
        s.closed,
    ensures
        s.try_send_result() == Err::<(), SendError>(SendError::RxClosed),
        s.send_result() == Poll::Ready(Err::<(), SendError>(SendError::RxClosed)),
        s.after_try_send(value) == s,
        s.after_send(value, waker) == s,
{
}

/// Once a channel is closed, no run enqueues anything.
pub proof fn law_closed_accepts_nothing<T>(s: ChanView<T>, ops: Seq<Op<T>>)
    requires
        s.closed,
    ensures
        s.accepted(ops).len() == 0,
    decreases ops.len(),
{
    if ops.len() > 0 {
        step_keeps_closed(s, ops.first());
        law_closed_accepts_nothing(s.step(ops.first()), ops.drop_first());
    }
}

/// A closed channel can be drained, however it came to be closed: receives
/// return the queued values one by one, oldest first, and never suspend; only
/// when all are out does a receive report the end of the stream, and a
/// non-suspending one `Disconnected`.
pub proof fn law_closed_drains<T>(s: ChanView<T>, wakers: Seq<Waker>)
    requires
        s.closed,
        wakers.len() == s.queue.len(),
    ensures
        s.delivered(recvs(wakers)) == s.queue,
        s.delivered(try_recvs(s.queue.len())) == s.queue,
        s.run(recvs(wakers)).recv_result() == Poll::Ready(None::<T>),
        s.run(try_recvs(s.queue.len())).try_recv_result() == Err::<T, TryRecvError>(
            TryRecvError::Disconnected,
        ),
        s.try_recv_result() == Err::<T, TryRecvError>(TryRecvError::Disconnected) <==> s.queue.len()
            == 0,
        s.recv_result() == Poll::Ready(None::<T>) <==> s.queue.len() == 0,
        s.recv_result() != Poll::<Option<T>>::Pending,
    decreases wakers.len(),
{
    let polls = recvs::<T>(wakers);
    let tries = try_recvs::<T>(s.queue.len());
    if wakers.len() == 0 {
        assert(s.delivered(polls) =~= s.queue);
        assert(s.delivered(tries) =~= s.queue);
    } else {
        let next = s.take();
        assert(s.step(polls.first()) == next);
        assert(s.step(tries.first()) == next);
        assert(polls.drop_first() =~= recvs::<T>(wakers.drop_first()));
        assert(tries.drop_first() =~= try_recvs::<T>(next.queue.len()));
        law_closed_drains(next, wakers.drop_first());
        assert(s.delivered(polls) =~= s.queue);
        assert(s.delivered(tries) =~= s.queue);
    }
}

/// Closing discards nothing: right after the close the queue is what it was,
/// and receives return all of it, in order, before the first of them reports the
/// end of the stream.
pub proof fn law_drain_after_close<T>(s: ChanView<T>, wakers: Seq<Waker>)
    requires
        wakers.len() == s.queue.len(),
    ensures
        s.after_close().queue == s.queue,
        s.after_close().delivered(recvs(wakers)) == s.queue,
        s.after_close().delivered(try_recvs(s.queue.len())) == s.queue,
        s.after_close().run(recvs(wakers)).recv_result() == Poll::Ready(None::<T>),
        s.after_close().run(try_recvs(s.queue.len())).try_recv_result() == Err::<T, TryRecvError>(
            TryRecvError::Disconnected,
        ),
{
    law_closed_drains(s.after_close(), wakers);
}

/// Under a bound of `c` permits an open channel answers a non-suspending send
/// with `Full` exactly when `c` values are queued, and never holds more.
pub proof fn law_full_at_capacity<T>(s: ChanView<T>, c: nat)
    requires
        s.wf(),
        s.pool.capacity == Some(c),
    ensures
        s.queue.len() <= c,
        !s.closed ==> (s.try_send_result() == Err::<(), SendError>(SendError::Full) <==> s.queue.len()
            == c),
        !s.closed ==> (s.send_result() == Poll::<Result<(), SendError>>::Pending <==> s.queue.len()
            == c),
{
}

/// On an open channel a run of non-suspending sends succeeds as long as
/// permits are free: each value is enqueued and takes one permit.
pub proof fn law_sends_fill<T>(s: ChanView<T>, values: Seq<T>)
    requires
        s.wf(),
        !s.closed,
        s.pool.capacity matches Some(c) ==> values.len() <= s.pool.available,
    ensures
        s.accepted(try_sends(values)) == values,
        s.run(try_sends(values)).queue == s.queue + values,
        !s.run(try_sends(values)).closed,
        s.run(try_sends(values)).pool.capacity == s.pool.capacity,
        s.pool.capacity is Some ==> s.run(try_sends(values)).pool.available == s.pool.available
            - values.len(),
    decreases values.len(),
{
    let ops = try_sends(values);
    if values.len() == 0 {
        assert(s.accepted(ops) =~= values);
        assert(s.run(ops).queue =~= s.queue + values);
    } else {
        let next = s.step(ops.first());
        step_preserves_wf(s, ops.first());
        assert(ops.drop_first() =~= try_sends(values.drop_first()));
        law_sends_fill(next, values.drop_first());
        assert(s.accepted(ops) =~= values);
        assert(s.run(ops).queue =~= s.queue + values);
    }
}

/// Backpressure: on a new channel of `values.len()` permits, that many sends
/// succeed with no receive between them, and the next non-suspending send is
/// answered `Full`.
pub proof fn law_backpressure<T>(values: Seq<T>)
    ensures
        ChanView::<T>::fresh(Some(values.len())).accepted(try_sends(values)) == values,
        ChanView::<T>::fresh(Some(values.len())).run(try_sends(values)).try_send_result() == Err::<
            (),
            SendError,
        >(SendError::Full),
{
    let s = ChanView::<T>::fresh(Some(values.len()));
    law_sends_fill(s, values);
    run_preserves_wf(s, try_sends(values));
}

/// A producer that found an open channel full is suspended and queued behind
/// those who wait already. The next receive takes a value out, wakes the one
/// who has waited longest, and leaves a permit free: a send that is polled
/// right after it succeeds.
pub proof fn law_resume_after_recv<T>(s: ChanView<T>, value: T, producer: Waker, consumer: Waker)
    requires
        s.wf(),
        !s.closed,
        s.pool.capacity matches Some(c) && c > 0 && s.queue.len() == c,
    ensures
        s.send_result() == Poll::<Result<(), SendError>>::Pending,
        s.after_send(value, producer).pool.waiters == s.pool.waiters.push(producer),
        s.after_send(value, producer).recv_result() == Poll::Ready(Some(s.queue.first())),
        s.after_send(value, producer).recv_wakes() == Some(s.pool.waiters.push(producer).first()),
        s.pool.waiters.len() == 0 ==> s.after_send(value, producer).recv_wakes() == Some(producer),
        s.after_send(value, producer).after_recv(consumer).send_result() == Poll::Ready(
            Ok::<(), SendError>(()),
        ),
        s.after_send(value, producer).after_try_recv().send_result() == Poll::Ready(
            Ok::<(), SendError>(()),
        ),
{
}

/// A channel without bound never answers `Full` and never suspends a sender.
pub proof fn law_unlimited_never_full<T>(s: ChanView<T>)
    requires
        s.wf(),
        s.pool.capacity is None,
    ensures
        s.try_send_result() != Err::<(), SendError>(SendError::Full),
        s.send_result() != Poll::<Result<(), SendError>>::Pending,
        s.try_send_result() is Ok <==> !s.closed,
{
}

/// No wake-up is missed: the consumer is registered only while the channel is
/// open and empty, and the send that ends that state hands its wake target out.
pub proof fn law_no_missed_wakeup<T>(s: ChanView<T>, value: T, waker: Waker)
    requires
        s.wf(),
        s.recv_result() == Poll::<Option<T>>::Pending,
    ensures
        s.after_recv(waker).rx_waker == Some(waker),
        s.after_recv(waker).try_send_result() is Ok ==> s.after_recv(waker).send_wakes() == Some(
            waker,
        ) && s.after_recv(waker).after_try_send(value).rx_waker is None,
        s.after_recv(waker).after_close().rx_waker is None,
{
}

/// The channel closes for new values when the consumer closes it and when the
/// last producer handle is dropped, and not when another producer handle is
/// dropped. Closing a closed channel changes nothing.
pub proof fn law_lifecycle<T>(s: ChanView<T>)
    requires
        s.wf(),
    ensures
        s.after_close().closed,
        s.after_drop().closed <==> s.closed || s.producers <= 1,
        s.after_clone().closed == s.closed,
        s.closed ==> s.after_close() == s,
        s.after_close().after_close() == s.after_close(),
{
    assert(s.closed ==> s.pool.waiters =~= Seq::empty());
}

/// The consumer's state machine. From `Open`, a close leads to `ClosedDraining`
/// if values are queued and to `ClosedEmpty` if none is. In `ClosedDraining` a
/// receive returns a value and stays there, until it takes the last value out
/// and so leads to `ClosedEmpty`. `ClosedEmpty` is final: every receive reports
/// the end of the stream without suspending, and every step leads back to it.
pub proof fn law_consumer_states<T>(s: ChanView<T>, op: Op<T>, waker: Waker)
    requires
        s.wf(),
    ensures
        s.after_close().rx_state() == if s.queue.len() > 0 {
            RxState::ClosedDraining
        } else {
            RxState::ClosedEmpty
        },
        s.rx_state() == RxState::ClosedDraining ==> s.recv_result() == Poll::Ready(
            Some(s.queue.first()),
        ) && s.after_recv(waker).rx_state() == if s.queue.len() > 1 {
            RxState::ClosedDraining
        } else {
            RxState::ClosedEmpty
        },
        s.rx_state() == RxState::ClosedEmpty ==> s.recv_result() == Poll::Ready(None::<T>)
            && s.try_recv_result() == Err::<T, TryRecvError>(TryRecvError::Disconnected)
            && s.step(op).rx_state() == RxState::ClosedEmpty,
        s.rx_state() == RxState::Open ==> (s.recv_result() == Poll::<Option<T>>::Pending
            <==> s.queue.len() == 0),
{
}

/// A call that suspends takes nothing and loses nothing, so that it can be
/// given up: a `Pending` send leaves the queue and the free permits as they
/// were and only joins those who wait; a `Pending` receive only leaves its
/// registration.
pub proof fn law_pending_only_registers<T>(s: ChanView<T>, value: T, waker: Waker)
    requires
        s.wf(),
    ensures
        s.send_result() == Poll::<Result<(), SendError>>::Pending ==> s.after_send(value, waker)
            == (ChanView { pool: PoolView { waiters: s.pool.waiters.push(waker), ..s.pool }, ..s }),
        s.recv_result() == Poll::<Option<T>>::Pending ==> s.after_recv(waker) == (ChanView {
            rx_waker: Some(waker),
            ..s
        }),
{
}

} // verus!
