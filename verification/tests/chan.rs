use local_sync::mpsc::chan::{Chan, RxState};
use local_sync::mpsc::semaphore::{Bounded, Policy, Unlimited};
use local_sync::mpsc::{SendError, TryRecvError};
use std::sync::atomic::{AtomicUsize, Ordering};
use std::sync::Arc;
use std::task::{Poll, Wake, Waker};

struct Count(AtomicUsize);

impl Wake for Count {
    fn wake(self: Arc<Self>) {
        self.0.fetch_add(1, Ordering::SeqCst);
    }
}

fn counter() -> (Arc<Count>, Waker) {
    let count = Arc::new(Count(AtomicUsize::new(0)));
    (count.clone(), Waker::from(count))
}

fn woken(count: &Arc<Count>) -> usize {
    count.0.load(Ordering::SeqCst)
}

fn quiet() -> Waker {
    counter().1
}

/// Fires what a step handed out, and says whether it handed anything out.
fn fire(waker: Option<Waker>) -> bool {
    match waker {
        Some(w) => {
            w.wake();
            true
        }
        None => false,
    }
}

#[test]
fn new_channel_is_open_and_empty_with_one_producer() {
    let chan = Chan::<u8, Unlimited>::new(Unlimited::new());
    assert!(!chan.is_closed());
    assert_eq!(chan.len(), 0);
    assert_eq!(chan.producers(), 1);
    assert_eq!(chan.rx_state(), RxState::Open);
}

#[test]
fn try_send_appends_and_try_recv_takes_the_oldest() {
    let mut chan = Chan::new(Unlimited::new());
    for i in 0..4 {
        assert!(matches!(chan.try_send(i), Ok(None)));
        assert_eq!(chan.len(), i + 1);
    }
    for i in 0..4 {
        let (value, waker) = chan.try_recv();
        assert_eq!(value, Ok(i));
        assert!(waker.is_none());
        assert_eq!(chan.len(), 3 - i);
    }
    let (value, waker) = chan.try_recv();
    assert_eq!(value, Err(TryRecvError::Empty));
    assert!(waker.is_none());
}

#[test]
fn refused_value_comes_back_with_the_reason() {
    let mut chan = Chan::new(Bounded::new(1));
    assert!(matches!(chan.try_send(String::from("first")), Ok(None)));
    match chan.try_send(String::from("second")) {
        Err(refused) => {
            assert_eq!(refused.value, "second");
            assert_eq!(refused.reason, SendError::Full);
        }
        Ok(_) => panic!("sent into a full channel"),
    }
    assert_eq!(chan.len(), 1);
    let woken = chan.mark_closed();
    assert!(woken.consumer.is_none());
    assert!(woken.producers.is_empty());
    match chan.try_send(String::from("third")) {
        Err(refused) => {
            assert_eq!(refused.value, "third");
            assert_eq!(refused.reason, SendError::RxClosed);
        }
        Ok(_) => panic!("sent into a closed channel"),
    }
    assert_eq!(chan.len(), 1);
    assert_eq!(chan.try_recv().0, Ok(String::from("first")));
}

#[test]
fn dequeue_registers_and_the_next_send_hands_the_target_out() {
    let mut chan = Chan::new(Unlimited::new());
    let (count, waker) = counter();
    let (value, producer) = chan.dequeue(waker);
    assert_eq!(value, Poll::Pending);
    assert!(producer.is_none());

    let handed = chan.try_send(1).ok().unwrap();
    assert_eq!(woken(&count), 0);
    assert!(fire(handed));
    assert_eq!(woken(&count), 1);

    let handed = chan.try_send(2).ok().unwrap();
    assert!(!fire(handed));
    assert_eq!(woken(&count), 1);

    assert_eq!(chan.dequeue(quiet()).0, Poll::Ready(Some(1)));
    assert_eq!(chan.dequeue(quiet()).0, Poll::Ready(Some(2)));
}

#[test]
fn a_later_registration_replaces_the_earlier() {
    let mut chan = Chan::new(Unlimited::new());
    let (first, first_waker) = counter();
    let (second, second_waker) = counter();
    assert_eq!(chan.dequeue(first_waker).0, Poll::Pending);
    assert_eq!(chan.dequeue(second_waker).0, Poll::Pending);
    assert!(fire(chan.try_send(0u8).ok().unwrap()));
    assert_eq!((woken(&first), woken(&second)), (0, 1));
}

#[test]
fn send_suspends_when_full_and_keeps_the_value() {
    let mut chan = Chan::new(Bounded::new(1));
    let mut slot = Some('a');
    let (answer, consumer) = chan.send(&mut slot, quiet());
    assert_eq!(answer, Poll::Ready(Ok(())));
    assert!(consumer.is_none());
    assert_eq!(slot, None);

    let (count, waker) = counter();
    let mut slot = Some('b');
    let (answer, consumer) = chan.send(&mut slot, waker.clone());
    assert_eq!(answer, Poll::Pending);
    assert!(consumer.is_none());
    assert_eq!(slot, Some('b'));
    assert_eq!(chan.len(), 1);

    let (value, producer) = chan.dequeue(quiet());
    assert_eq!(value, Poll::Ready(Some('a')));
    assert!(fire(producer));
    assert_eq!(woken(&count), 1);

    let (answer, _) = chan.send(&mut slot, waker);
    assert_eq!(answer, Poll::Ready(Ok(())));
    assert_eq!(slot, None);
    assert_eq!(chan.dequeue(quiet()).0, Poll::Ready(Some('b')));
}

#[test]
fn send_hands_out_the_consumer_that_waits() {
    let mut chan = Chan::new(Bounded::new(2));
    let (count, waker) = counter();
    assert_eq!(chan.dequeue(waker).0, Poll::Pending);
    let mut slot = Some(5);
    let (answer, consumer) = chan.send(&mut slot, quiet());
    assert_eq!(answer, Poll::Ready(Ok(())));
    assert!(fire(consumer));
    assert_eq!(woken(&count), 1);
}

#[test]
fn send_with_an_empty_slot_changes_nothing() {
    let mut chan = Chan::<u8, Bounded>::new(Bounded::new(0));
    let mut slot = None;
    let (answer, consumer) = chan.send(&mut slot, quiet());
    assert_eq!(answer, Poll::Ready(Ok(())));
    assert!(consumer.is_none());
    assert_eq!(chan.len(), 0);
    let woken = chan.mark_closed();
    assert!(woken.producers.is_empty());
}

#[test]
fn send_on_a_closed_channel_fails_at_once() {
    let mut chan = Chan::new(Bounded::new(0));
    let _ = chan.mark_closed();
    let mut slot = Some(1);
    let (answer, consumer) = chan.send(&mut slot, quiet());
    assert_eq!(answer, Poll::Ready(Err(SendError::RxClosed)));
    assert!(consumer.is_none());
    assert_eq!(slot, Some(1));
    let again = chan.mark_closed();
    assert!(again.producers.is_empty());
}

#[test]
fn mark_closed_hands_out_everyone_who_waits() {
    let mut chan = Chan::new(Bounded::new(0));
    let (a, waker_a) = counter();
    let (b, waker_b) = counter();
    let (c, waker_c) = counter();
    let mut slot = Some(0u8);
    assert_eq!(chan.send(&mut slot, waker_a).0, Poll::Pending);
    assert_eq!(chan.send(&mut slot, waker_b).0, Poll::Pending);
    assert_eq!(chan.dequeue(waker_c).0, Poll::Pending);

    let woken_by_close = chan.mark_closed();
    assert!(chan.is_closed());
    assert!(woken_by_close.consumer.is_some());
    assert_eq!(woken_by_close.producers.len(), 2);
    woken_by_close.fire();
    assert_eq!((woken(&a), woken(&b), woken(&c)), (1, 1, 1));

    let again = chan.mark_closed();
    assert!(again.consumer.is_none());
    assert!(again.producers.is_empty());
    assert!(chan.is_closed());
}

#[test]
fn consumer_states() {
    let mut chan = Chan::new(Policy::new(Some(3)));
    assert_eq!(chan.rx_state(), RxState::Open);
    assert!(chan.try_send(1).is_ok());
    assert!(chan.try_send(2).is_ok());
    assert_eq!(chan.rx_state(), RxState::Open);
    let _ = chan.mark_closed();
    assert_eq!(chan.rx_state(), RxState::ClosedDraining);
    assert_eq!(chan.dequeue(quiet()).0, Poll::Ready(Some(1)));
    assert_eq!(chan.rx_state(), RxState::ClosedDraining);
    assert_eq!(chan.try_recv().0, Ok(2));
    assert_eq!(chan.rx_state(), RxState::ClosedEmpty);
    assert_eq!(chan.dequeue(quiet()).0, Poll::Ready(None));
    assert_eq!(chan.try_recv().0, Err(TryRecvError::Disconnected));
    assert!(chan.try_send(3).is_err());
    assert_eq!(chan.rx_state(), RxState::ClosedEmpty);

    let mut empty = Chan::<u8, Unlimited>::new(Unlimited::new());
    let _ = empty.mark_closed();
    assert_eq!(empty.rx_state(), RxState::ClosedEmpty);
}

#[test]
fn producer_count_closes_at_zero() {
    let mut chan = Chan::<u8, Unlimited>::new(Unlimited::new());
    chan.increment_producer_count();
    chan.increment_producer_count();
    assert_eq!(chan.producers(), 3);

    let (count, waker) = counter();
    assert_eq!(chan.dequeue(waker).0, Poll::Pending);

    let woken_by_drop = chan.decrement_producer_count();
    assert!(woken_by_drop.consumer.is_none());
    assert_eq!(chan.producers(), 2);
    assert!(!chan.is_closed());
    let _ = chan.decrement_producer_count();
    assert_eq!(chan.producers(), 1);
    assert!(!chan.is_closed());

    let woken_by_drop = chan.decrement_producer_count();
    assert_eq!(chan.producers(), 0);
    assert!(chan.is_closed());
    assert!(woken_by_drop.consumer.is_some());
    woken_by_drop.fire();
    assert_eq!(woken(&count), 1);
    assert_eq!(chan.dequeue(quiet()).0, Poll::Ready(None));

    let woken_by_drop = chan.decrement_producer_count();
    assert!(woken_by_drop.consumer.is_none());
    assert_eq!(chan.producers(), 0);
    assert!(chan.is_closed());
}

#[test]
fn what_went_in_is_what_came_out_plus_what_is_left() {
    let mut chan = Chan::new(Bounded::new(3));
    let mut accepted = Vec::new();
    let mut delivered = Vec::new();
    for i in 0..40u32 {
        match i % 5 {
            0 | 1 | 2 => {
                if chan.try_send(i).is_ok() {
                    accepted.push(i);
                }
            }
            3 => {
                if let Ok(value) = chan.try_recv().0 {
                    delivered.push(value);
                }
            }
            _ => {
                let mut slot = Some(i);
                if chan.send(&mut slot, quiet()).0 == Poll::Ready(Ok(())) {
                    accepted.push(i);
                }
            }
        }
        assert!(chan.len() <= 3);
        assert_eq!(accepted.len(), delivered.len() + chan.len());
        assert_eq!(&accepted[..delivered.len()], &delivered[..]);
    }
    let _ = chan.mark_closed();
    while let Poll::Ready(Some(value)) = chan.dequeue(quiet()).0 {
        delivered.push(value);
    }
    assert_eq!(delivered, accepted);
}

#[test]
fn full_exactly_at_capacity() {
    let mut chan = Chan::new(Bounded::new(2));
    assert!(chan.try_send(1).is_ok());
    assert!(chan.try_send(2).is_ok());
    assert_eq!(chan.try_send(3).err().unwrap().reason, SendError::Full);
    assert_eq!(chan.try_recv().0, Ok(1));
    assert!(chan.try_send(3).is_ok());
    assert_eq!(chan.try_send(4).err().unwrap().reason, SendError::Full);
}
