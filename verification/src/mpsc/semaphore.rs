//! The flow-control capability: who may enqueue, and who has to wait.
//!
//! A producer needs one permit for each value it enqueues, and the consumer
//! gives the permit back when it takes the value out. [`Unlimited`] grants every
//! request; [`Bounded`] has a fixed number of permits and keeps those who found
//! none in a queue, first come, first woken. [`Policy`] is either of the two,
//! chosen when the channel is made.
//!
//! Suspension is explicit: [`Semaphore::acquire`] either decides at once or
//! records the caller's wake target and answers `Pending`. A caller that is
//! woken asks again and is judged anew: a permit that came back lies in the
//! pool for whoever asks first, and the one who was woken is the first to know.

use super::error::SendError;
use std::collections::VecDeque;
use std::task::{Poll, Waker};
use vstd::prelude::*;

verus! {

/// A permit pool as a mathematical value.
pub struct PoolView {
    /// The number of permits the pool was made with; `None` if it has no limit.
    pub capacity: Option<nat>,
    /// The permits that are free. Always 0 in a pool without limit.
    pub available: nat,
    /// Whether the pool has been closed.
    pub closed: bool,
    /// The wake targets of the suspended acquirers, earliest first.
    pub waiters: Seq<Waker>,
}

impl PoolView {
    /// No more permits are free than the pool was made with; only a bounded,
    /// open pool has anyone waiting.
    pub open spec fn wf(self) -> bool {
        &&& match self.capacity {
            Some(c) => self.available <= c,
            None => self.available == 0 && self.waiters.len() == 0,
        }
        &&& self.closed ==> self.waiters.len() == 0
    }

    /// The pool as it is made: open, every permit free, nobody waiting.
    pub open spec fn fresh(capacity: Option<nat>) -> PoolView {
        PoolView {
            capacity,
            available: match capacity {
                Some(c) => c,
                None => 0,
            },
            closed: false,
            waiters: Seq::empty(),
        }
    }

    /// Whether a permit can be had without waiting, the pool being open.
    pub open spec fn has_permit(self) -> bool {
        self.capacity is None || self.available > 0
    }

    /// Whether some permit is out, so that one can come back.
    pub open spec fn has_outstanding(self) -> bool {
        self.capacity matches Some(c) ==> self.available < c
    }

    /// The pool with one permit taken. A pool without limit does not count.
    pub open spec fn take_permit(self) -> PoolView {
        if self.capacity is Some {
            PoolView { available: (self.available - 1) as nat, ..self }
        } else {
            self
        }
    }

    /// What a non-suspending request is answered.
    pub open spec fn try_acquire_result(self) -> Result<(), SendError> {
        if self.closed {
            Err(SendError::RxClosed)
        } else if self.has_permit() {
            Ok(())
        } else {
            Err(SendError::Full)
        }
    }

    /// The pool after a non-suspending request: changed only if it was granted.
    pub open spec fn after_try_acquire(self) -> PoolView {
        if !self.closed && self.has_permit() {
            self.take_permit()
        } else {
            self
        }
    }

    /// What a suspending request is answered: `Pending` where the
    /// non-suspending one would have said `Full`.
    pub open spec fn acquire_result(self) -> Poll<Result<(), SendError>> {
        if self.closed {
            Poll::Ready(Err(SendError::RxClosed))
        } else if self.has_permit() {
            Poll::Ready(Ok(()))
        } else {
            Poll::Pending
        }
    }

    /// The pool after a suspending request by a caller with wake target `waker`:
    /// a granted request takes a permit, a pending one joins the end of the queue.
    pub open spec fn after_acquire(self, waker: Waker) -> PoolView {
        if self.closed {
            self
        } else if self.has_permit() {
            self.take_permit()
        } else {
            PoolView { waiters: self.waiters.push(waker), ..self }
        }
    }

    /// Whom a release wakes: the one who has waited longest, if anyone waits.
    pub open spec fn release_wakes(self) -> Option<Waker> {
        if self.waiters.len() > 0 {
            Some(self.waiters.first())
        } else {
            None
        }
    }

    /// The pool after one permit has come back: one more is free, and the one
    /// who was woken has left the queue.
    pub open spec fn after_release(self) -> PoolView {
        PoolView {
            available: if self.capacity is Some {
                self.available + 1
            } else {
                self.available
            },
            waiters: if self.waiters.len() > 0 {
                self.waiters.drop_first()
            } else {
                self.waiters
            },
            ..self
        }
    }

    /// The pool after it was closed: everyone who waited has been woken and has
    /// left the queue. The permits stay as they were.
    pub open spec fn after_close(self) -> PoolView {
        PoolView { closed: true, waiters: Seq::empty(), ..self }
    }
}

/// The capability interface that a channel is generic over.
///
/// No method fires a wake target itself. Each hands the targets to fire back to
/// its caller, who fires them once the state it works on is in its place again.
pub trait Semaphore: Sized {
    /// The pool that this value stands for.
    spec fn pool(&self) -> PoolView;

    /// Whether no value of this type ever answers `Full` or `Pending`.
    spec fn never_full() -> bool;

    /// A type that never answers `Full` has only pools without limit.
    proof fn never_full_means_unlimited(&self)
        ensures
            Self::never_full() ==> self.pool().capacity is None,
    ;

    /// Whether the pool has been closed.
    fn is_closed(&self) -> (closed: bool)
        requires
            self.pool().wf(),
        ensures
            closed == self.pool().closed,
    ;

    /// Takes a permit if one is free, and never waits: `Full` if none is free,
    /// `RxClosed` if the pool is closed, whatever is free.
    fn try_acquire(&mut self) -> (r: Result<(), SendError>)
        requires
            old(self).pool().wf(),
        ensures
            final(self).pool().wf(),
            r == old(self).pool().try_acquire_result(),
            final(self).pool() == old(self).pool().after_try_acquire(),
    ;

    /// Takes a permit if one is free. If none is, puts `waker` at the end of the
    /// queue of those to wake and answers `Pending`: the caller asks again when
    /// woken. Every `Pending` answer queues the wake target that came with the
    /// request, whether or not the caller has one queued already. `RxClosed` if
    /// the pool is closed.
    fn acquire(&mut self, waker: Waker) -> (r: Poll<Result<(), SendError>>)
        requires
            old(self).pool().wf(),
        ensures
            final(self).pool().wf(),
            r == old(self).pool().acquire_result(),
            final(self).pool() == old(self).pool().after_acquire(waker),
    ;

    /// Gives one permit back, and hands out the wake target of the one who has
    /// waited longest, if anyone waits. The permit must be one that was taken.
    fn release(&mut self) -> (woken: Option<Waker>)
        requires
            old(self).pool().wf(),
            old(self).pool().has_outstanding(),
        ensures
            final(self).pool().wf(),
            woken == old(self).pool().release_wakes(),
            final(self).pool() == old(self).pool().after_release(),
    ;

    /// Closes the pool for good, and hands out the wake targets of all who
    /// wait, earliest first: each will ask again and be told `RxClosed`.
    /// Closing a closed pool changes nothing.
    fn close(&mut self) -> (woken: VecDeque<Waker>)
        requires
            old(self).pool().wf(),
        ensures
            final(self).pool().wf(),
            woken@ == old(self).pool().waiters,
            final(self).pool() == old(self).pool().after_close(),
    ;
}

/// The policy that grants every request, until it is closed.
pub struct Unlimited {
    closed: bool,
}

impl Unlimited {
    /// An open pool without limit.
    pub fn new() -> (s: Unlimited)
        ensures
            s.pool() == PoolView::fresh(None),
    {
        Unlimited { closed: false }
    }
}

impl Semaphore for Unlimited {
    closed spec fn pool(&self) -> PoolView {
        PoolView { capacity: None, available: 0, closed: self.closed, waiters: Seq::empty() }
    }

    open spec fn never_full() -> bool {
        true
    }

    proof fn never_full_means_unlimited(&self) {
    }

    fn is_closed(&self) -> (closed: bool) {
        self.closed
    }

    fn try_acquire(&mut self) -> (r: Result<(), SendError>) {
        if self.closed {
            Err(SendError::RxClosed)
        } else {
            Ok(())
        }
    }

    fn acquire(&mut self, _waker: Waker) -> (r: Poll<Result<(), SendError>>) {
        if self.closed {
            Poll::Ready(Err(SendError::RxClosed))
        } else {
            Poll::Ready(Ok(()))
        }
    }

    fn release(&mut self) -> (woken: Option<Waker>) {
        None
    }

    fn close(&mut self) -> (woken: VecDeque<Waker>) {
        self.closed = true;
        VecDeque::new()
    }
}

/// The policy with a fixed number of permits.
pub struct Bounded {
    capacity: usize,
    available: usize,
    closed: bool,
    waiters: VecDeque<Waker>,
}

impl Bounded {
    /// An open pool of `capacity` permits, all of them free.
    pub fn new(capacity: usize) -> (s: Bounded)
        ensures
            s.pool() == PoolView::fresh(Some(capacity as nat)),
    {
        Bounded { capacity, available: capacity, closed: false, waiters: VecDeque::new() }
    }
}

impl Semaphore for Bounded {
    closed spec fn pool(&self) -> PoolView {
        PoolView {
            capacity: Some(self.capacity as nat),
            available: self.available as nat,
            closed: self.closed,
            waiters: self.waiters@,
        }
    }

    open spec fn never_full() -> bool {
        false
    }

    proof fn never_full_means_unlimited(&self) {
    }

    fn is_closed(&self) -> (closed: bool) {
        self.closed
    }

    fn try_acquire(&mut self) -> (r: Result<(), SendError>) {
        if self.closed {
            Err(SendError::RxClosed)
        } else if self.available > 0 {
            self.available = self.available - 1;
            Ok(())
        } else {
            Err(SendError::Full)
        }
    }

    fn acquire(&mut self, waker: Waker) -> (r: Poll<Result<(), SendError>>) {
        if self.closed {
            Poll::Ready(Err(SendError::RxClosed))
        } else if self.available > 0 {
            self.available = self.available - 1;
            Poll::Ready(Ok(()))
        } else {
            self.waiters.push_back(waker);
            Poll::Pending
        }
    }

    fn release(&mut self) -> (woken: Option<Waker>) {
        self.available = self.available + 1;
        self.waiters.pop_front()
    }

    fn close(&mut self) -> (woken: VecDeque<Waker>) {
        self.closed = true;
        let mut woken = VecDeque::new();
        std::mem::swap(&mut self.waiters, &mut woken);
        woken
    }
}

/// Either policy, chosen by a value: `None` for no limit, `Some(n)` for `n`
/// permits.
pub enum Policy {
    /// Every request is granted.
    Unlimited(Unlimited),
    /// A fixed number of permits.
    Bounded(Bounded),
}

impl Policy {
    /// The spec-side reading of a capacity.
    pub open spec fn limit(capacity: Option<usize>) -> Option<nat> {
        match capacity {
            Some(n) => Some(n as nat),
            None => None,
        }
    }

    /// An open pool: without limit for `None`, of `n` free permits for `Some(n)`.
    pub fn new(capacity: Option<usize>) -> (s: Policy)
        ensures
            s.pool() == PoolView::fresh(Policy::limit(capacity)),
    {
        match capacity {
            Some(n) => Policy::Bounded(Bounded::new(n)),
            None => Policy::Unlimited(Unlimited::new()),
        }
    }
}

impl Semaphore for Policy {
    open spec fn pool(&self) -> PoolView {
        match self {
            Policy::Unlimited(s) => s.pool(),
            Policy::Bounded(s) => s.pool(),
        }
    }

    open spec fn never_full() -> bool {
        false
    }

    proof fn never_full_means_unlimited(&self) {
    }

    fn is_closed(&self) -> (closed: bool) {
        match self {
            Policy::Unlimited(s) => s.is_closed(),
            Policy::Bounded(s) => s.is_closed(),
        }
    }

    fn try_acquire(&mut self) -> (r: Result<(), SendError>) {
        match self {
            Policy::Unlimited(s) => s.try_acquire(),
            Policy::Bounded(s) => s.try_acquire(),
        }
    }

    fn acquire(&mut self, waker: Waker) -> (r: Poll<Result<(), SendError>>) {
        match self {
            Policy::Unlimited(s) => s.acquire(waker),
            Policy::Bounded(s) => s.acquire(waker),
        }
    }

    fn release(&mut self) -> (woken: Option<Waker>) {
        match self {
            Policy::Unlimited(s) => s.release(),
            Policy::Bounded(s) => s.release(),
        }
    }

    fn close(&mut self) -> (woken: VecDeque<Waker>) {
        match self {
            Policy::Unlimited(s) => s.close(),
            Policy::Bounded(s) => s.close(),
        }
    }
}

/// First come, first woken: those who were told `Pending` are woken one per
/// permit that comes back, in the order in which they asked.
pub proof fn law_first_come_first_woken(pool: PoolView, first: Waker, second: Waker)
    requires
        pool.wf(),
        pool.acquire_result() == Poll::<Result<(), SendError>>::Pending,
        pool.waiters.len() == 0,
    ensures
        pool.after_acquire(first).acquire_result() == Poll::<Result<(), SendError>>::Pending,
        pool.after_acquire(first).after_acquire(second).waiters == seq![first, second],
        pool.after_acquire(first).after_acquire(second).release_wakes() == Some(first),
        pool.after_acquire(first).after_acquire(second).after_release().release_wakes() == Some(
            second,
        ),
        pool.after_acquire(first).after_acquire(second).after_release().waiters == seq![second],
{
    let both = pool.after_acquire(first).after_acquire(second);
    assert(both.waiters =~= seq![first, second]);
    assert(both.after_release().waiters =~= seq![second]);
}

/// A closed pool grants nothing and keeps nobody waiting, and stays closed
/// whatever is asked of it.
pub proof fn law_closed_pool(pool: PoolView, waker: Waker)
    requires
        pool.wf(),
        pool.closed,
    ensures
        pool.try_acquire_result() == Err::<(), SendError>(SendError::RxClosed),
        pool.acquire_result() == Poll::Ready(Err::<(), SendError>(SendError::RxClosed)),
        pool.after_try_acquire() == pool,
        pool.after_acquire(waker) == pool,
        pool.after_release().closed,
        pool.after_close() == pool,
{
    assert(pool.waiters =~= Seq::empty());
}

} // verus!
