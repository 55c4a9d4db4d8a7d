use local_sync::mpsc::channel;
use local_sync::mpsc::handle::Tx;
use local_sync::mpsc::semaphore::Policy;
use local_sync::mpsc::{SendError, TryRecvError};
use std::future::Future;
use std::sync::atomic::{AtomicUsize, Ordering};
use std::sync::Arc;
use std::task::{Context, Poll, Wake, Waker};

struct Count(AtomicUsize);

impl Wake for Count {
    fn wake(self: Arc<Self>) {
        self.0.fetch_add(1, Ordering::SeqCst);
    }
}

fn counter() -> (Arc<Count>, Waker) {
    let count = Arc::new(Count(AtomicUsize::new(0)));
    (count.clone(), Waker::from(count))
}

fn woken(count: &Arc<Count>) -> usize {
    count.0.load(Ordering::SeqCst)
}

fn now<F: Future>(future: F) -> F::Output {
    let (_, waker) = counter();
    let mut future = Box::pin(future);
    let mut cx = Context::from_waker(&waker);
    match future.as_mut().poll(&mut cx) {
        Poll::Ready(output) => output,
        Poll::Pending => panic!("the future suspended"),
    }
}

#[test]
fn bounded_one_send_suspends_until_recv() {
    let (tx, mut rx) = channel(Some(1));
    assert_eq!(now(tx.send("a")), Ok(()));

    let (count, waker) = counter();
    let mut cx = Context::from_waker(&waker);
    let mut second = Box::pin(tx.send("b"));
    assert_eq!(second.as_mut().poll(&mut cx), Poll::Pending);
    assert_eq!(woken(&count), 0);

    assert_eq!(now(rx.recv()), Some("a"));
    assert_eq!(woken(&count), 1);

    assert_eq!(second.as_mut().poll(&mut cx), Poll::Ready(Ok(())));
    assert_eq!(now(rx.recv()), Some("b"));
    assert_eq!(rx.try_recv(), Err(TryRecvError::Empty));
}

#[test]
fn full_after_as_many_sends_as_permits() {
    for n in 0..5usize {
        let (tx, mut rx) = channel(Some(n));
        for i in 0..n {
            assert_eq!(tx.try_send(i), Ok(()));
        }
        assert_eq!(tx.try_send(99), Err(SendError::Full));
        assert_eq!(tx.try_send(99), Err(SendError::Full));
        if n > 0 {
            assert_eq!(rx.try_recv(), Ok(0));
            assert_eq!(tx.try_send(n), Ok(()));
            assert_eq!(tx.try_send(99), Err(SendError::Full));
            for i in 1..=n {
                assert_eq!(rx.try_recv(), Ok(i));
            }
        }
        assert_eq!(rx.try_recv(), Err(TryRecvError::Empty));
    }
}

#[test]
fn none_is_without_limit() {
    let (tx, mut rx) = channel(None);
    for i in 0..1000u32 {
        assert_eq!(tx.try_send(i), Ok(()));
    }
    assert_eq!(now(tx.send(1000)), Ok(()));
    for i in 0..=1000u32 {
        assert_eq!(rx.try_recv(), Ok(i));
    }
    assert_eq!(rx.try_recv(), Err(TryRecvError::Empty));
}

#[test]
fn closed_wins_over_full() {
    let (tx, mut rx) = channel(Some(1));
    assert_eq!(tx.try_send(1), Ok(()));
    assert_eq!(tx.try_send(2), Err(SendError::Full));
    rx.close();
    assert_eq!(tx.try_send(3), Err(SendError::RxClosed));
    assert_eq!(now(tx.send(4)), Err(SendError::RxClosed));
    assert_eq!(rx.try_recv(), Ok(1));
    assert_eq!(tx.try_send(5), Err(SendError::RxClosed));
    assert_eq!(rx.try_recv(), Err(TryRecvError::Disconnected));
}

#[test]
fn close_wakes_every_suspended_producer() {
    let (tx, mut rx) = channel(Some(1));
    let other = tx.clone();
    assert_eq!(tx.try_send(0), Ok(()));

    let (count_a, waker_a) = counter();
    let (count_b, waker_b) = counter();
    let mut cx_a = Context::from_waker(&waker_a);
    let mut cx_b = Context::from_waker(&waker_b);
    let mut a = Box::pin(tx.send(1));
    let mut b = Box::pin(other.send(2));
    assert_eq!(a.as_mut().poll(&mut cx_a), Poll::Pending);
    assert_eq!(b.as_mut().poll(&mut cx_b), Poll::Pending);

    rx.close();
    assert_eq!(woken(&count_a), 1);
    assert_eq!(woken(&count_b), 1);
    assert_eq!(a.as_mut().poll(&mut cx_a), Poll::Ready(Err(SendError::RxClosed)));
    assert_eq!(b.as_mut().poll(&mut cx_b), Poll::Ready(Err(SendError::RxClosed)));

    assert_eq!(now(rx.recv()), Some(0));
    assert_eq!(now(rx.recv()), None);
}

#[test]
fn consumer_dropped_wakes_suspended_producer() {
    let (tx, rx) = channel(Some(1));
    assert_eq!(tx.try_send(0), Ok(()));
    let (count, waker) = counter();
    let mut cx = Context::from_waker(&waker);
    let mut slot = Some(1);
    assert_eq!(tx.poll_send(&mut cx, &mut slot), Poll::Pending);
    assert_eq!(slot, Some(1));
    drop(rx);
    assert_eq!(woken(&count), 1);
    assert_eq!(tx.poll_send(&mut cx, &mut slot), Poll::Ready(Err(SendError::RxClosed)));
    assert_eq!(slot, Some(1));
    assert!(tx.is_closed());
}

#[test]
fn the_one_who_waited_longest_is_woken_first() {
    let (tx, mut rx) = channel(Some(1));
    assert_eq!(tx.try_send(0), Ok(()));
    let (count_a, waker_a) = counter();
    let (count_b, waker_b) = counter();
    let mut cx_a = Context::from_waker(&waker_a);
    let mut cx_b = Context::from_waker(&waker_b);
    let mut slot_a = Some(1);
    let mut slot_b = Some(2);
    assert_eq!(tx.poll_send(&mut cx_a, &mut slot_a), Poll::Pending);
    assert_eq!(tx.poll_send(&mut cx_b, &mut slot_b), Poll::Pending);

    assert_eq!(rx.try_recv(), Ok(0));
    assert_eq!((woken(&count_a), woken(&count_b)), (1, 0));
    assert_eq!(tx.poll_send(&mut cx_a, &mut slot_a), Poll::Ready(Ok(())));
    assert_eq!(slot_a, None);

    assert_eq!(rx.try_recv(), Ok(1));
    assert_eq!((woken(&count_a), woken(&count_b)), (1, 1));
    assert_eq!(tx.poll_send(&mut cx_b, &mut slot_b), Poll::Ready(Ok(())));
    assert_eq!(rx.try_recv(), Ok(2));
    assert_eq!(rx.try_recv(), Err(TryRecvError::Empty));
}

#[test]
fn poll_send_with_an_empty_slot_sends_nothing() {
    let (tx, mut rx) = channel::<u8>(Some(1));
    let (_, waker) = counter();
    let mut cx = Context::from_waker(&waker);
    let mut slot = None;
    assert_eq!(tx.poll_send(&mut cx, &mut slot), Poll::Ready(Ok(())));
    assert_eq!(slot, None);
    assert_eq!(rx.try_recv(), Err(TryRecvError::Empty));
}

#[test]
fn a_send_given_up_takes_nothing() {
    let (tx, mut rx) = channel(Some(1));
    assert_eq!(tx.try_send(1), Ok(()));
    let (_, waker) = counter();
    let mut cx = Context::from_waker(&waker);
    {
        let mut given_up = Box::pin(tx.send(2));
        assert_eq!(given_up.as_mut().poll(&mut cx), Poll::Pending);
    }
    assert_eq!(rx.try_recv(), Ok(1));
    assert_eq!(rx.try_recv(), Err(TryRecvError::Empty));
    assert_eq!(tx.try_send(3), Ok(()));
    assert_eq!(tx.try_send(4), Err(SendError::Full));
    assert_eq!(rx.try_recv(), Ok(3));
}

#[test]
fn handles_of_either_policy_know_their_channel() {
    let (a, _rx_a) = channel::<u8>(Some(2));
    let (b, _rx_b) = channel::<u8>(None);
    let a2 = a.clone();
    assert!(a.same_channel(&a2));
    assert!(a2.same_channel(&a));
    assert!(!a.same_channel(&b));
    assert!(!b.same_channel(&a2));
}

#[test]
fn bounded_channel_closes_with_its_last_producer() {
    let (tx, mut rx) = channel(Some(2));
    let other = tx.clone();
    assert_eq!(tx.try_send(1), Ok(()));
    drop(tx);
    assert!(!other.is_closed());
    assert_eq!(other.try_send(2), Ok(()));
    drop(other);
    assert_eq!(now(rx.recv()), Some(1));
    assert_eq!(now(rx.recv()), Some(2));
    assert_eq!(now(rx.recv()), None);
}

struct Parcel(#[allow(dead_code)] Tx<Parcel, Policy>);

#[test]
fn a_refused_message_may_hold_a_producer() {
    let (tx, mut rx) = channel::<Parcel>(Some(0));
    assert!(matches!(tx.try_send(Parcel(tx.clone())), Err(SendError::Full)));
    assert!(!tx.is_closed());
    assert!(matches!(rx.try_recv(), Err(TryRecvError::Empty)));
    drop(tx);
    assert!(matches!(rx.try_recv(), Err(TryRecvError::Disconnected)));
}
