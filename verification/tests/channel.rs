use core::pin::Pin;
use core::task::{Context, Poll};
use std::sync::atomic::{AtomicUsize, Ordering};
use std::sync::Arc;

use futures::executor::{block_on, ThreadPool};
use futures::future::{join, join3, poll_fn};
use futures::task::{noop_waker, waker, ArcWake};
use futures::{Sink, Stream, StreamExt};

use tokiobeam_channel::atomic_serial_waker::{positive_update, AtomicSerialWaker};
use tokiobeam_channel::outcome::{decrement_if_positive, poll_of, terminated, WakerStep};
use tokiobeam_channel::{
    bounded, bounded_capacity_supported, unbounded, Polled, Receiver, RecvAttempt, SendError,
    SendProgress, Sender, UnboundedReceiver, UnboundedSender,
};

fn to_poll<T>(p: Polled<T>) -> Poll<T> {
    match p {
        Polled::Ready(x) => Poll::Ready(x),
        Polled::Pending => Poll::Pending,
    }
}

struct UnboundedStream<T>(UnboundedReceiver<T>);

impl<T> Stream for UnboundedStream<T> {
    type Item = T;
    fn poll_next(self: Pin<&mut Self>, cx: &mut Context<'_>) -> Poll<Option<T>> {
        let this = Pin::get_mut(self);
        to_poll(this.0.poll_next(cx.waker()))
    }
}

impl<T> Unpin for UnboundedStream<T> {}

struct BoundedStream<T>(Receiver<T>);

impl<T> Unpin for BoundedStream<T> {}

impl<T> Stream for BoundedStream<T> {
    type Item = T;
    fn poll_next(self: Pin<&mut Self>, cx: &mut Context<'_>) -> Poll<Option<T>> {
        let this = Pin::get_mut(self);
        to_poll(this.0.poll_next(cx.waker()))
    }
}

struct UnboundedSink<T>(UnboundedSender<T>);

impl<T> Unpin for UnboundedSink<T> {}

impl<T> Drop for UnboundedSink<T> {
    fn drop(&mut self) {
        if self.0.is_connected() {
            self.0.release();
        }
    }
}

fn close<T>(mut tx: UnboundedSender<T>) {
    tx.release();
}

fn close_bounded<T>(mut tx: Sender<T>) {
    tx.release();
}

impl<T> Sink<T> for UnboundedSink<T> {
    type Error = SendError;
    fn poll_ready(self: Pin<&mut Self>, _cx: &mut Context<'_>) -> Poll<Result<(), SendError>> {
        to_poll(Pin::get_mut(self).0.poll_ready())
    }
    fn start_send(self: Pin<&mut Self>, item: T) -> Result<(), SendError> {
        Pin::get_mut(self).0.start_send(item)
    }
    fn poll_flush(self: Pin<&mut Self>, _cx: &mut Context<'_>) -> Poll<Result<(), SendError>> {
        to_poll(Pin::get_mut(self).0.poll_flush())
    }
    fn poll_close(self: Pin<&mut Self>, _cx: &mut Context<'_>) -> Poll<Result<(), SendError>> {
        to_poll(Pin::get_mut(self).0.poll_close())
    }
}

async fn send_bounded<T: Clone>(tx: &mut Sender<T>, message: T) -> Result<(), SendError> {
    match tx.send_attempt(message) {
        SendProgress::Sent => Ok(()),
        SendProgress::Closed => Err(SendError),
        SendProgress::Blocked(item) => {
            poll_fn(move |cx| to_poll(tx.poll_send(item.clone(), cx.waker()))).await
        }
    }
}

async fn recv_bounded<T>(rx: &mut Receiver<T>) -> Option<T> {
    match rx.recv_attempt() {
        Polled::Ready(x) => x,
        Polled::Pending => poll_fn(|cx| to_poll(rx.poll_next(cx.waker()))).await,
    }
}

async fn next_unbounded<T>(rx: &mut UnboundedReceiver<T>) -> Option<T> {
    match rx.recv_attempt() {
        Polled::Ready(x) => x,
        Polled::Pending => poll_fn(|cx| to_poll(rx.poll_next(cx.waker()))).await,
    }
}

struct CountingWake(AtomicUsize);

impl ArcWake for CountingWake {
    fn wake_by_ref(arc_self: &Arc<Self>) {
        arc_self.0.fetch_add(1, Ordering::SeqCst);
    }
}

#[test]
fn test_unbounded_drop() {
    println!("start test_unbounded_drop");
    let (mut tx, rx) = unbounded();
    let producer = async move {
        for counter in 0..250_000_i32 {
            tx.try_send(counter).unwrap();
        }
        close(tx);
        println!("bye");
    };
    let mut s2 = UnboundedStream(rx);
    let consumer = async move {
        let mut counter = 0;
        while let Some(i) = s2.next().await {
            assert_eq!(counter, i);
            counter += 1;
        }
    };
    block_on(join(producer, consumer));
    println!("finally finished");
}

#[test]
fn test_unbounded() {
    let (mut tx, rx) = unbounded();
    let mut txx = tx.clone();
    let producer = async move {
        for i in 0..1000_i32 {
            tx.try_send(i).unwrap();
        }
    };
    let consumer = async move {
        let mut rxx = UnboundedStream(rx.clone());
        let items: Vec<i32> = UnboundedStream(rx).take(1000).collect().await;
        assert_eq!(items.len(), 1000);
        let mut counter = 0_i32;
        for i in items {
            assert_eq!(i, counter);
            counter += 1;
        }
        txx.try_send(3).unwrap();
        let mut item = rxx.next().await;
        assert_eq!(item.take().unwrap(), 3);
    };
    block_on(join(producer, consumer));
}

#[test]
fn test_forward() {
    let (mut tx, rx) = unbounded();
    let (txx, rxx) = unbounded();
    let producer = async move {
        for i in 0..1000_i32 {
            tx.try_send(i).unwrap();
        }
        close(tx);
    };
    let forwarder = async move {
        UnboundedStream(rx).map(|i| Ok(i)).forward(UnboundedSink(txx)).await.unwrap();
    };
    let collector = async move {
        let result: Vec<i32> = UnboundedStream(rxx).collect().await;
        assert_eq!(result.len(), 1000);
    };
    block_on(join3(producer, forwarder, collector));
}

#[test]
fn test_bounded() {
    let (mut tx, mut rx) = bounded(1);
    let mut txx = tx.clone();
    let producer = async move {
        for i in 0..10_i32 {
            send_bounded(&mut tx, i).await.unwrap();
        }
    };
    let consumer = async move {
        let item = recv_bounded(&mut rx).await;
        assert_eq!(item, Some(0));
        match txx.try_send(3) {
            Err(e) => {
                // 1 injected first, block this try_send
                assert_eq!(e.into_inner(), 3);
                let items: Vec<i32> = BoundedStream(rx).take(9).collect().await;
                assert_eq!(items, vec![1, 2, 3, 4, 5, 6, 7, 8, 9]);
            }
            Ok(()) => {
                // inject successfully
                let items: Vec<i32> = BoundedStream(rx).take(10).collect().await;
                assert_eq!(items, vec![3, 1, 2, 3, 4, 5, 6, 7, 8, 9]);
            }
        };
    };
    block_on(join(producer, consumer));
}

#[test]
fn test_bounded_0() {
    let pool = ThreadPool::new().unwrap();
    let (mut tx, mut rx) = bounded(0);
    let mut txx = tx.clone();
    pool.spawn_ok(async move {
        for i in 0..10_i32 {
            send_bounded(&mut tx, i).await.unwrap();
        }
    });
    block_on(async move {
        let item = recv_bounded(&mut rx).await;
        assert_eq!(item, Some(0));
        match txx.try_send(3) {
            Err(e) => {
                // 1 injected first, block this try_send
                assert_eq!(e.into_inner(), 3);
                let items: Vec<i32> = BoundedStream(rx).take(9).collect().await;
                assert_eq!(items, vec![1, 2, 3, 4, 5, 6, 7, 8, 9]);
            }
            Ok(()) => {
                assert_eq!("should not be here", "");
            }
        };
    });
}

#[test]
fn test_send_after_receiver_dropped_fails() {
    let (mut tx, rx) = bounded::<i32>(1);
    drop(rx);
    assert_eq!(block_on(send_bounded(&mut tx, 1)), Err(SendError));
    let (mut tx0, rx0) = bounded::<i32>(0);
    drop(rx0);
    assert_eq!(block_on(send_bounded(&mut tx0, 1)), Err(SendError));
}

#[test]
fn test_zero_capacity_recv_ends_when_senders_drop() {
    let (tx, mut rx) = bounded::<i32>(0);
    close_bounded(tx);
    assert_eq!(block_on(recv_bounded(&mut rx)), None);
}

#[test]
fn test_race() {
    block_on(async move {
        let (mut tx, mut rx) = unbounded();
        let mut txx = tx.clone();
        let mut rxx = rx.clone();
        tx.try_send(1_i32).unwrap();
        txx.try_send(2_i32).unwrap();
        next_unbounded(&mut rx).await;
        next_unbounded(&mut rxx).await;
        drop(rx);
        drop(rxx);
        close(tx);
        close(txx);
    });
    block_on(async move {
        let (mut tx, mut rx) = unbounded();
        let mut txx = tx.clone();
        let mut rxx = rx.clone();
        tx.try_send(1_i32).unwrap();
        txx.try_send(2_i32).unwrap();
        close(tx);
        close(txx);
        next_unbounded(&mut rx).await;
        next_unbounded(&mut rxx).await;
        drop(rx);
        drop(rxx);
    });
    block_on(async move {
        let (mut tx, mut rx) = unbounded();
        let mut txx = tx.clone();
        let mut rxx = rx.clone();
        tx.try_send(1_i32).unwrap();
        txx.try_send(2_i32).unwrap();
        close(tx);
        close(txx);
        next_unbounded(&mut rx).await;
        drop(rx);
        next_unbounded(&mut rxx).await;
        drop(rxx);
    });
    block_on(async move {
        let (mut tx, mut rx) = unbounded();
        let mut txx = tx.clone();
        let mut rxx = rx.clone();
        tx.try_send(1_i32).unwrap();
        close(tx);
        txx.try_send(2_i32).unwrap();
        close(txx);
        next_unbounded(&mut rx).await;
        drop(rx);
        next_unbounded(&mut rxx).await;
        drop(rxx);
    });
    block_on(async move {
        let (mut tx, mut rx) = unbounded();
        let mut txx = tx.clone();
        let mut rxx = rx.clone();
        tx.try_send(1_i32).unwrap();
        close(tx);
        txx.try_send(2_i32).unwrap();
        close(txx);
        next_unbounded(&mut rx).await;
        next_unbounded(&mut rxx).await;
        drop(rx);
        drop(rxx);
    });
    block_on(async move {
        let (mut tx, mut rx) = unbounded();
        let mut txx = tx.clone();
        let mut rxx = rx.clone();
        tx.try_send(1_i32).unwrap();
        next_unbounded(&mut rx).await;
        close(tx);
        txx.try_send(2_i32).unwrap();
        close(txx);
        next_unbounded(&mut rxx).await;
        drop(rx);
        drop(rxx);
    });
}

#[test]
fn test_positive_update_decrements_positive_counter() {
    let a = AtomicUsize::new(2);
    assert!(positive_update(&a));
    assert_eq!(a.load(Ordering::SeqCst), 1);
    assert!(positive_update(&a));
    assert_eq!(a.load(Ordering::SeqCst), 0);
    assert!(!positive_update(&a));
    assert_eq!(a.load(Ordering::SeqCst), 0);
}

#[test]
fn test_decrement_if_positive() {
    assert_eq!(decrement_if_positive(5), Some(4));
    assert_eq!(decrement_if_positive(1), Some(0));
    assert_eq!(decrement_if_positive(0), None);
    assert_eq!(decrement_if_positive(usize::MAX), Some(usize::MAX - 1));
}

#[test]
fn test_poll_of_each_attempt() {
    assert_eq!(poll_of(RecvAttempt::Item(7)), Polled::Ready(Some(7)));
    assert_eq!(poll_of(RecvAttempt::<i32>::Empty), Polled::Pending);
    assert_eq!(poll_of(RecvAttempt::<i32>::Disconnected), Polled::Ready(None));
}

#[test]
fn test_try_send_full_gives_message_back() {
    let (mut tx, _rx) = bounded(1);
    tx.try_send(1_i32).unwrap();
    let e = tx.try_send(2).unwrap_err();
    assert!(e.is_full());
    assert!(!e.is_closed());
    assert_eq!(e.describe(), "no available capacity");
    assert_eq!(e.into_inner(), 2);
}

#[test]
fn test_try_send_closed_gives_message_back() {
    let (mut tx, rx) = unbounded::<String>();
    drop(rx);
    let e = tx.try_send("hello".to_string()).unwrap_err();
    assert!(e.is_closed());
    assert!(!e.is_full());
    assert_eq!(e.describe(), "channel closed");
    assert_eq!(e.into_inner(), "hello");
}

#[test]
fn test_bounded_try_send_closed() {
    let (mut tx, rx) = bounded::<i32>(4);
    drop(rx);
    let e = tx.try_send(9).unwrap_err();
    assert!(e.is_closed());
    assert_eq!(e.into_inner(), 9);
}

#[test]
fn test_send_error_describe() {
    assert_eq!(SendError.describe(), "channel closed");
}

#[test]
fn test_unbounded_poll_next_pending_then_ready() {
    let (mut tx, mut rx) = unbounded::<i32>();
    let w = noop_waker();
    assert_eq!(rx.recv_attempt(), Polled::Pending);
    assert_eq!(rx.poll_next(&w), Polled::Pending);
    assert_eq!(rx.poll_next(&w), Polled::Pending);
    tx.try_send(5).unwrap();
    assert_eq!(rx.poll_next(&w), Polled::Ready(Some(5)));
    close(tx);
    assert_eq!(rx.poll_next(&w), Polled::Ready(None));
}

#[test]
fn test_bounded_poll_next_ends_after_senders_drop() {
    let (tx, mut rx) = bounded::<i32>(2);
    let tx2 = tx.clone();
    let w = noop_waker();
    assert_eq!(rx.poll_next(&w), Polled::Pending);
    close_bounded(tx);
    assert_eq!(rx.poll_next(&w), Polled::Pending);
    assert!(!rx.is_terminated());
    close_bounded(tx2);
    assert!(rx.is_terminated());
    assert_eq!(rx.poll_next(&w), Polled::Ready(None));
}

#[test]
fn test_sender_drop_wakes_registered_receiver() {
    let (tx, mut rx) = unbounded::<i32>();
    let count = Arc::new(CountingWake(AtomicUsize::new(0)));
    let w = waker(count.clone());
    assert_eq!(rx.poll_next(&w), Polled::Pending);
    assert_eq!(count.0.load(Ordering::SeqCst), 0);
    close(tx);
    assert_eq!(count.0.load(Ordering::SeqCst), 1);
    assert_eq!(rx.poll_next(&w), Polled::Ready(None));
}

#[test]
fn test_try_send_wakes_registered_receiver() {
    let (mut tx, mut rx) = unbounded::<i32>();
    let count = Arc::new(CountingWake(AtomicUsize::new(0)));
    let w = waker(count.clone());
    assert_eq!(rx.poll_next(&w), Polled::Pending);
    tx.try_send(1).unwrap();
    assert_eq!(count.0.load(Ordering::SeqCst), 1);
    assert_eq!(rx.poll_next(&w), Polled::Ready(Some(1)));
}

#[test]
fn test_size_hint() {
    let (_tx, rx) = bounded::<i32>(3);
    assert_eq!(rx.size_hint(), (0, Some(3)));
    let (_tx0, rx0) = bounded::<i32>(0);
    assert_eq!(rx0.size_hint(), (0, Some(0)));
    let (_utx, urx) = unbounded::<i32>();
    assert_eq!(urx.size_hint(), (0, None));
}

#[test]
fn test_unbounded_is_terminated() {
    let (tx, rx) = unbounded::<i32>();
    assert!(!rx.is_terminated());
    let tx2 = tx.clone();
    close(tx);
    assert!(!rx.is_terminated());
    close(tx2);
    assert!(rx.is_terminated());
}

#[test]
fn test_bounded_poll_ready() {
    let (mut tx, mut rx) = bounded::<i32>(1);
    let w = noop_waker();
    assert_eq!(tx.poll_ready(&w), Polled::Ready(Ok(())));
    tx.try_send(1).unwrap();
    assert_eq!(tx.poll_ready(&w), Polled::Pending);
    assert_eq!(rx.recv_attempt(), Polled::Ready(Some(1)));
    assert_eq!(tx.poll_ready(&w), Polled::Ready(Ok(())));
}

#[test]
fn test_send_attempt_outcomes() {
    let (mut tx, mut rx) = bounded::<i32>(1);
    assert_eq!(tx.send_attempt(1), SendProgress::Sent);
    assert_eq!(tx.send_attempt(2), SendProgress::Blocked(2));
    assert_eq!(rx.recv_attempt(), Polled::Ready(Some(1)));
    drop(rx);
    assert_eq!(tx.send_attempt(3), SendProgress::Closed);
}

#[test]
fn test_poll_send_outcomes() {
    let (mut tx, mut rx) = bounded::<i32>(1);
    let w = noop_waker();
    assert_eq!(tx.poll_send(1, &w), Polled::Ready(Ok(())));
    assert_eq!(tx.poll_send(2, &w), Polled::Pending);
    assert_eq!(rx.recv_attempt(), Polled::Ready(Some(1)));
    assert_eq!(tx.poll_send(2, &w), Polled::Ready(Ok(())));
    drop(rx);
    assert_eq!(tx.poll_send(3, &w), Polled::Ready(Err(SendError)));
}

#[test]
fn test_start_send_and_trivial_polls() {
    let (mut tx, rx) = bounded::<i32>(1);
    assert_eq!(tx.start_send(1), Ok(()));
    assert_eq!(tx.start_send(2), Err(SendError));
    assert_eq!(tx.poll_flush(), Polled::Ready(Ok(())));
    assert_eq!(tx.poll_close(), Polled::Ready(Ok(())));
    drop(rx);
    let (mut utx, urx) = unbounded::<i32>();
    assert_eq!(utx.poll_ready(), Polled::Ready(Ok(())));
    assert_eq!(utx.start_send(1), Ok(()));
    assert_eq!(utx.poll_flush(), Polled::Ready(Ok(())));
    assert_eq!(utx.poll_close(), Polled::Ready(Ok(())));
    drop(urx);
    assert_eq!(utx.start_send(2), Err(SendError));
}

#[test]
fn test_cloned_receivers_share_the_channel() {
    let (mut tx, mut rx) = unbounded::<i32>();
    let mut rx2 = rx.clone();
    tx.try_send(1).unwrap();
    tx.try_send(2).unwrap();
    assert_eq!(rx2.recv_attempt(), Polled::Ready(Some(1)));
    assert_eq!(rx.recv_attempt(), Polled::Ready(Some(2)));
    assert_eq!(rx.recv_attempt(), Polled::Pending);
    let (mut btx, mut brx) = bounded::<i32>(2);
    let mut brx2 = brx.clone();
    btx.try_send(4).unwrap();
    assert_eq!(brx2.recv_attempt(), Polled::Ready(Some(4)));
    assert_eq!(brx.recv_attempt(), Polled::Pending);
    drop(brx);
    btx.try_send(5).unwrap();
    assert_eq!(brx2.recv_attempt(), Polled::Ready(Some(5)));
}

#[test]
fn test_is_connected() {
    let (tx, _rx) = bounded::<i32>(1);
    assert!(tx.is_connected());
    assert!(tx.clone().is_connected());
    let (utx, _urx) = unbounded::<i32>();
    assert!(utx.is_connected());
}

#[test]
fn test_bounded_capacity_supported() {
    assert!(bounded_capacity_supported::<i32>(0));
    assert!(bounded_capacity_supported::<i32>(1000));
    assert!(!bounded_capacity_supported::<i32>(usize::MAX));
    assert!(!bounded_capacity_supported::<u64>(usize::MAX / 8));
}

#[test]
fn test_serial_waker_wakes_registered_task() {
    let signal = Arc::new(AtomicUsize::new(0));
    let sw = AtomicSerialWaker::new(signal.clone());
    let count = Arc::new(CountingWake(AtomicUsize::new(0)));
    let w = waker(count.clone());
    sw.register(&w);
    assert_eq!(count.0.load(Ordering::SeqCst), 0);
    sw.wake();
    assert_eq!(count.0.load(Ordering::SeqCst), 1);
    assert_eq!(signal.load(Ordering::SeqCst), 1);
}

#[test]
fn test_serial_waker_remembers_early_wake() {
    let signal = Arc::new(AtomicUsize::new(0));
    let sw = AtomicSerialWaker::new(signal.clone());
    sw.wake();
    assert_eq!(signal.load(Ordering::SeqCst), 0);
    let count = Arc::new(CountingWake(AtomicUsize::new(0)));
    let w = waker(count.clone());
    sw.register(&w);
    assert_eq!(count.0.load(Ordering::SeqCst), 1);
    assert_eq!(signal.load(Ordering::SeqCst), 1);
}

#[test]
fn test_serial_waker_full_queue_wakes_at_once() {
    let signal = Arc::new(AtomicUsize::new(0));
    let sw = AtomicSerialWaker::new(signal.clone());
    let count = Arc::new(CountingWake(AtomicUsize::new(0)));
    let w = waker(count.clone());
    for _ in 0..4 {
        sw.register(&w);
    }
    assert_eq!(count.0.load(Ordering::SeqCst), 0);
    sw.register(&w);
    assert_eq!(count.0.load(Ordering::SeqCst), 1);
    assert_eq!(signal.load(Ordering::SeqCst), 1);
}

#[test]
fn test_serial_waker_wakes_in_registration_order() {
    let signal = Arc::new(AtomicUsize::new(0));
    let sw = AtomicSerialWaker::new(signal.clone());
    let first = Arc::new(CountingWake(AtomicUsize::new(0)));
    let second = Arc::new(CountingWake(AtomicUsize::new(0)));
    sw.register(&waker(first.clone()));
    sw.register(&waker(second.clone()));
    sw.wake();
    assert_eq!(first.0.load(Ordering::SeqCst), 1);
    assert_eq!(second.0.load(Ordering::SeqCst), 0);
    sw.wake();
    assert_eq!(second.0.load(Ordering::SeqCst), 1);
    assert_eq!(signal.load(Ordering::SeqCst), 2);
}

#[test]
fn test_serial_waker_reports() {
    let signal = Arc::new(AtomicUsize::new(0));
    let sw = AtomicSerialWaker::new(signal.clone());
    assert_eq!(sw.describe(), "AtomicSerialWaker");
    let count = Arc::new(CountingWake(AtomicUsize::new(0)));
    let w = waker(count.clone());
    let queued = sw.register(&w);
    assert!(queued.pushed());
    assert_eq!(queued.step(), WakerStep::Settle);
    assert_eq!(queued.settled(), Some((false, false, WakerStep::Idle)));
    let woke = sw.wake();
    assert!(woke.popped());
    assert_eq!(woke.step(), WakerStep::WakeOldest);
    let kept = sw.wake();
    assert!(!kept.popped());
    assert_eq!(kept.step(), WakerStep::StoreWakeUp);
    let settled = sw.register(&w);
    assert_eq!(settled.settled(), Some((true, true, WakerStep::WakeOldest)));
    for _ in 0..4 {
        sw.register(&w);
    }
    let full = sw.register(&w);
    assert_eq!(full.step(), WakerStep::WakeNow);
    assert!(!full.pushed());
    assert_eq!(full.settled(), None);
}

#[test]
fn test_terminated() {
    assert!(terminated(0));
    assert!(!terminated(1));
    assert!(!terminated(usize::MAX));
}

#[test]
fn test_release_wakes_the_other_side() {
    let (mut tx, rx) = bounded::<i32>(1);
    let mut rx2 = rx.clone();
    let mut rx = rx;
    let count = Arc::new(CountingWake(AtomicUsize::new(0)));
    let w = waker(count.clone());
    tx.try_send(1).unwrap();
    assert_eq!(tx.poll_ready(&w), Polled::Pending);
    assert!(!rx.has_released());
    assert!(rx.release().is_none());
    assert!(rx.has_released());
    assert_eq!(count.0.load(Ordering::SeqCst), 0);
    let last = rx2.release().unwrap();
    assert!(last.popped());
    assert_eq!(last.step(), WakerStep::WakeOldest);
    assert_eq!(count.0.load(Ordering::SeqCst), 1);
    let tx2 = tx.clone();
    assert!(tx.release().is_none());
    assert!(!tx.is_connected());
    close_bounded(tx2);
}

#[test]
fn test_try_send_error_from_crossbeam() {
    let full: tokiobeam_channel::TrySendError<i32> =
        crossbeam::crossbeam_channel::TrySendError::Full(4).into();
    assert!(full.is_full());
    assert_eq!(full.into_inner(), 4);
    let closed: tokiobeam_channel::TrySendError<i32> =
        crossbeam::crossbeam_channel::TrySendError::Disconnected(6).into();
    assert!(closed.is_closed());
    assert_eq!(closed.into_inner(), 6);
}
