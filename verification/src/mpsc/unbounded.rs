//! The channel without limit: a send never waits, and fails only if the
//! channel is closed.

use super::chan::{Chan, RxState};
use super::error::{SendError, TryRecvError};
use super::handle;
use super::semaphore::Unlimited;
use std::future::Future;
use std::task::{Context, Poll};
use vstd::prelude::*;

verus! {

/// The producer handle of a channel without limit.
#[verifier::reject_recursive_types(T)]
pub struct Tx<T>(handle::Tx<T, Unlimited>);

/// The consumer handle of a channel without limit.
#[verifier::reject_recursive_types(T)]
pub struct Rx<T>(handle::Rx<T, Unlimited>);

/// Makes a channel without limit: open, empty, with one producer handle.
pub fn channel<T>() -> (pair: (Tx<T>, Rx<T>))
    ensures
        pair.1.receives_from(&pair.0),
        pair.1.state() == RxState::Open,
{
    let semaphore = Unlimited::new();
    let (tx, rx) = handle::split(Chan::new(semaphore));
    (Tx(tx), Rx(rx))
}

impl<T> Tx<T> {
    /// Whether the two handles send into one and the same channel.
    pub closed spec fn same_channel_as(&self, other: &Tx<T>) -> bool {
        self.0.same_channel_as(&other.0)
    }

    /// Sends `value`. `Ok` means that it is queued; the only failure is
    /// `RxClosed`, on a closed channel, and then the value is dropped.
    ///
    /// The step is [`Chan::try_send`].
    pub fn send(&self, value: T) -> (r: Result<(), SendError>)
        ensures
            r matches Err(reason) ==> reason == SendError::RxClosed,
    {
        self.0.try_send(value)
    }

    /// Whether the channel is closed for new values.
    #[inline]
    pub fn is_closed(&self) -> (closed: bool) {
        self.0.is_closed()
    }

    /// Whether `other` sends into the same channel as this handle: the very
    /// same, not one that looks alike.
    #[inline]
    pub fn same_channel(&self, other: &Tx<T>) -> (same: bool)
        ensures
            same == self.same_channel_as(other),
    {
        self.0.same_channel(&other.0)
    }
}

impl<T> Clone for Tx<T> {
    /// Another producer handle of the same channel.
    fn clone(&self) -> (copy: Tx<T>)
        ensures
            copy.same_channel_as(self),
            self.same_channel_as(&copy),
    {
        Tx(self.0.clone())
    }
}

impl<T> Rx<T> {
    /// Whether this is the consumer of the channel that `tx` sends into.
    pub closed spec fn receives_from(&self, tx: &Tx<T>) -> bool {
        self.0.receives_from(&tx.0)
    }

    /// Whether the two are the consumer of one and the same channel.
    pub closed spec fn same_channel_as(&self, other: &Rx<T>) -> bool {
        self.0.same_channel_as(&other.0)
    }

    /// What the consumer has seen of its channel so far. `Open` means that it
    /// has not seen the channel closed, `ClosedDraining` that it has seen it
    /// closed, and `ClosedEmpty` that it has seen it closed and empty, which is
    /// final. [`Rx::poll_recv`], [`Rx::try_recv`] and [`Rx::close`] bring it up
    /// to date.
    pub closed spec fn state(&self) -> RxState {
        self.0.state()
    }

    /// Receives the next value, waiting for one while the channel is open and
    /// empty; `None` is the end of the stream. The future polls as
    /// [`Rx::poll_recv`] does, and leaves what the consumer has seen as it was.
    #[inline]
    pub fn recv(&mut self) -> impl Future<Output = Option<T>> + '_ {
        self.0.recv()
    }

    /// One poll of a suspending receive: `Ready(Some(value))` with the oldest
    /// queued value, `Ready(None)` at the end of the stream, `Pending` while the
    /// channel is open and empty.
    ///
    /// A consumer that has seen the channel closed is never told `Pending`, and
    /// one that has seen the end of the stream sees it again, at once.
    ///
    /// The step is [`Chan::dequeue`] while the consumer has not seen the channel
    /// closed, and [`Chan::try_recv`] from then on.
    #[inline]
    pub fn poll_recv(&mut self, cx: &mut Context<'_>) -> (r: Poll<Option<T>>)
        ensures
            final(self).same_channel_as(old(self)),
            old(self).state() == RxState::ClosedEmpty ==> r matches Poll::Ready(None),
            old(self).state() != RxState::Open ==> r is Ready && final(self).state()
                != RxState::Open,
            r matches Poll::Ready(None) ==> final(self).state() == RxState::ClosedEmpty,
            r is Pending ==> final(self).state() == RxState::Open,
    {
        self.0.poll_recv(cx)
    }

    /// Receives without waiting: the oldest queued value, or `Empty` if nothing
    /// is queued and the channel is open, or `Disconnected` if nothing is queued
    /// and the channel is closed.
    ///
    /// A consumer that has seen the channel closed is never told `Empty`, and
    /// one that has seen the end of the stream is told `Disconnected`, at once.
    ///
    /// The step is [`Chan::try_recv`].
    #[inline]
    pub fn try_recv(&mut self) -> (r: Result<T, TryRecvError>)
        ensures
            final(self).same_channel_as(old(self)),
            old(self).state() == RxState::ClosedEmpty ==> r matches Err(TryRecvError::Disconnected),
            old(self).state() != RxState::Open ==> !(r matches Err(TryRecvError::Empty))
                && final(self).state() != RxState::Open,
            r matches Err(TryRecvError::Disconnected) ==> final(self).state()
                == RxState::ClosedEmpty,
            r matches Err(TryRecvError::Empty) ==> final(self).state() == RxState::Open,
    {
        self.0.try_recv()
    }

    /// Closes the channel: no send succeeds from now on. What is queued can
    /// still be received: the consumer is in `ClosedDraining` if it finds
    /// anything queued, and in `ClosedEmpty` if not.
    ///
    /// The step is [`Chan::mark_closed`].
    #[inline]
    pub fn close(&mut self)
        ensures
            final(self).same_channel_as(old(self)),
            final(self).state() != RxState::Open,
            old(self).state() == RxState::ClosedEmpty ==> final(self).state()
                == RxState::ClosedEmpty,
    {
        self.0.close()
    }
}

/// Two handles are on the same channel or they are not, whichever of them is
/// asked, and whichever is asked about: every handle is on its own channel, the
/// answer of one about the other is the answer of the other about the one, and
/// being on the same channel passes on from handle to handle.
pub proof fn law_same_channel_is_an_equivalence<T>(a: Tx<T>, b: Tx<T>, c: Tx<T>)
    ensures
        a.same_channel_as(&a),
        a.same_channel_as(&b) == b.same_channel_as(&a),
        a.same_channel_as(&b) && b.same_channel_as(&c) ==> a.same_channel_as(&c),
{
    handle::law_same_channel_is_an_equivalence(a.0, b.0, c.0);
}

/// All producer handles of the channel of one consumer are on the same
/// channel, and a handle on that channel is one of them.
pub proof fn law_same_channel_same_consumer<T>(rx: Rx<T>, a: Tx<T>, b: Tx<T>)
    requires
        rx.receives_from(&a),
    ensures
        rx.receives_from(&b) == a.same_channel_as(&b),
{
    handle::law_same_channel_same_consumer(rx.0, a.0, b.0);
}

/// A consumer handle stays the consumer of its channel: whoever sends to it
/// before one of its calls sends to it after the call.
pub proof fn law_consumer_stays<T>(before: Rx<T>, after: Rx<T>, tx: Tx<T>)
    requires
        after.same_channel_as(&before),
    ensures
        after.receives_from(&tx) == before.receives_from(&tx),
{
    handle::law_consumer_stays(before.0, after.0, tx.0);
}

} // verus!
