//! The calls this library makes into crossbeam and into std's task and atomic types, each
//! behind a small trusted item whose contract states what the called code guarantees.
//!
//! The channels, the waker queue and the atomics are shared between threads, so what a call
//! reads back (a message, an empty queue, a counter value) depends on what other threads did
//! in the meantime. Those results are left unconstrained below; only what holds of every
//! outcome is stated.
use vstd::prelude::*;

use core::sync::atomic::AtomicUsize;
use core::sync::atomic::Ordering;
use core::task::Waker;
use crossbeam::atomic::AtomicConsume;
use crossbeam::crossbeam_channel::Receiver as ChannelReceiver;
use crossbeam::crossbeam_channel::Sender as ChannelSender;
use crossbeam::crossbeam_channel::TrySendError as ChannelTrySendError;
use crossbeam::crossbeam_channel::TryRecvError;
use crossbeam::queue::ArrayQueue;
use std::sync::Arc;

use crate::outcome::{decrement_if_positive, RecvAttempt, SendRefusal};

verus! {

#[verifier::external_type_specification]
#[verifier::external_body]
#[verifier::reject_recursive_types(T)]
pub struct ExChannelSender<T>(ChannelSender<T>);

#[verifier::external_type_specification]
#[verifier::external_body]
#[verifier::reject_recursive_types(T)]
pub struct ExChannelReceiver<T>(ChannelReceiver<T>);

#[verifier::external_type_specification]
#[verifier::external_body]
#[verifier::reject_recursive_types(T)]
pub struct ExArrayQueue<T>(ArrayQueue<T>);

#[verifier::external_type_specification]
#[verifier::external_body]
pub struct ExWaker(Waker);

#[verifier::external_type_specification]
#[verifier::external_body]
#[verifier::reject_recursive_types(T)]
pub struct ExChannelTrySendError<T>(ChannelTrySendError<T>);

/// The sending handle on a crossbeam channel, marked by whether the channel was made
/// without a capacity limit. Only the calls into crossbeam below make one.
#[verifier::reject_recursive_types(T)]
pub struct SendEnd<T> {
    tx: ChannelSender<T>,
    unbounded: bool,
}

impl<T> SendEnd<T> {
    /// Whether the channel of this handle was made without a capacity limit.
    pub closed spec fn is_unbounded(&self) -> bool {
        self.unbounded
    }
}

/// The receiving handle on a crossbeam channel, with the log of every answer that a
/// receive through this handle got: each message such a receive took off the channel is
/// in the log.
#[verifier::reject_recursive_types(T)]
pub struct RecvEnd<T> {
    rx: ChannelReceiver<T>,
    log: Ghost<Seq<RecvAttempt<T>>>,
}

impl<T> View for RecvEnd<T> {
    type V = Seq<RecvAttempt<T>>;

    closed spec fn view(&self) -> Seq<RecvAttempt<T>> {
        self.log@
    }
}

impl<T> RecvEnd<T> {
    /// The crossbeam handle.
    pub closed spec fn handle(&self) -> ChannelReceiver<T> {
        self.rx
    }

    /// Takes a receiving handle made by `channel_bounded` or `channel_unbounded`, with an
    /// empty log.
    pub fn from_channel(rx: ChannelReceiver<T>) -> (r: Self)
        ensures
            r.handle() == rx,
            r@ == Seq::<RecvAttempt<T>>::empty(),
    {
        RecvEnd { rx, log: Ghost(Seq::empty()) }
    }

    /// One non-blocking receive, logged.
    pub fn try_recv(&mut self) -> (r: Observed<T>)
        ensures
            final(self).handle() == old(self).handle(),
            final(self)@ == old(self)@.push(r@),
        opens_invariants none
        no_unwind
    {
        let r = channel_try_recv(&self.rx);
        self.log = Ghost(self.log@.push(r@));
        r
    }

    /// One blocking receive, logged; it never finds the channel empty.
    pub fn recv(&mut self) -> (r: Observed<T>)
        ensures
            final(self).handle() == old(self).handle(),
            final(self)@ == old(self)@.push(r@),
            !(r@ is Empty),
        opens_invariants none
        no_unwind
    {
        let r = channel_recv(&self.rx);
        self.log = Ghost(self.log@.push(r@));
        r
    }

    /// The capacity crossbeam reports for the channel.
    pub fn capacity(&self) -> Option<usize> {
        channel_capacity(&self.rx)
    }

    /// One more receiving handle on the same channel, with an empty log.
    pub fn duplicate(&self) -> (r: Self)
        ensures
            r@ == Seq::<RecvAttempt<T>>::empty(),
    {
        RecvEnd { rx: channel_receiver_clone(&self.rx), log: Ghost(Seq::empty()) }
    }
}

/// Two receiving handles with the same crossbeam handle and the same log are the same.
pub proof fn lemma_recv_end_eq<T>(a: RecvEnd<T>, b: RecvEnd<T>)
    requires
        a.handle() == b.handle(),
        a@ == b@,
    ensures
        a == b,
{
}

/// What crossbeam answered to one receive on a channel, as it answered. Only the calls
/// into crossbeam below make one, so a handle's record of its attempts holds what the
/// channel said.
pub struct Observed<T> {
    attempt: RecvAttempt<T>,
}

impl<T> View for Observed<T> {
    type V = RecvAttempt<T>;

    closed spec fn view(&self) -> RecvAttempt<T> {
        self.attempt
    }
}

impl<T> Observed<T> {
    /// The attempt crossbeam reported.
    pub fn into_attempt(self) -> (r: RecvAttempt<T>)
        ensures
            r == self@,
    {
        self.attempt
    }
}

/// What crossbeam answered to one send on a channel, as it answered. Only the calls into
/// crossbeam below make one.
pub struct Offered<T> {
    outcome: Result<(), SendRefusal<T>>,
}

impl<T> View for Offered<T> {
    type V = Result<(), SendRefusal<T>>;

    closed spec fn view(&self) -> Result<(), SendRefusal<T>> {
        self.outcome
    }
}

impl<T> Offered<T> {
    /// Whether crossbeam placed the message.
    pub fn is_placed(&self) -> (r: bool)
        ensures
            r == (self@ is Ok),
    {
        match &self.outcome {
            Ok(()) => true,
            Err(_) => false,
        }
    }

    /// The answer crossbeam gave.
    pub fn into_outcome(self) -> (r: Result<(), SendRefusal<T>>)
        ensures
            r == self@,
    {
        self.outcome
    }
}

/// Whether crossbeam found a channel full, as it answered. Only the call into crossbeam
/// below makes one.
pub struct Fullness {
    full: bool,
}

impl View for Fullness {
    type V = bool;

    closed spec fn view(&self) -> bool {
        self.full
    }
}

impl Fullness {
    /// Whether the channel was full.
    pub fn is_full(&self) -> (r: bool)
        ensures
            r == self@,
    {
        self.full
    }
}

/// The capacities for which `crossbeam_channel::bounded` can lay out its buffer: one slot
/// per message, a slot holding the message and a stamp word (so no larger than the
/// message's size and alignment plus two words), and the whole buffer no larger than
/// `isize::MAX` bytes, beyond which the allocation panics.
pub open spec fn bounded_capacity_fits<T>(cap: usize) -> bool {
    cap * (vstd::layout::size_of::<T>() + vstd::layout::align_of::<T>() + 2
        * vstd::layout::size_of::<usize>()) <= isize::MAX
}

/// `crossbeam_channel::bounded(cap)`: a fresh channel holding at most `cap` messages.
/// It allocates `cap` slots and panics when their size overflows, which `requires` rules
/// out. What the new channel holds is not named here.
#[verifier::external_body]
pub(crate) fn channel_bounded<T>(cap: usize) -> (r: (SendEnd<T>, ChannelReceiver<T>))
    requires
        bounded_capacity_fits::<T>(cap),
    ensures
        !r.0.is_unbounded(),
{
    let (s, r) = crossbeam::crossbeam_channel::bounded(cap);
    (SendEnd { tx: s, unbounded: false }, r)
}

/// `crossbeam_channel::unbounded()`: a fresh channel without a capacity limit; its sending
/// handle is marked as one of an unbounded channel.
#[verifier::external_body]
pub(crate) fn channel_unbounded<T>() -> (r: (SendEnd<T>, ChannelReceiver<T>))
    ensures
        r.0.is_unbounded(),
{
    let (s, r) = crossbeam::crossbeam_channel::unbounded();
    (SendEnd { tx: s, unbounded: true }, r)
}

/// `crossbeam_channel::Sender::try_send`. Whether the message is accepted depends on the
/// other threads; when it is refused, crossbeam hands the same message back inside the
/// error, which is what the contract states. On an unbounded channel (crossbeam's list
/// flavor) `try_send` only ever fails as disconnected, never as full.
#[verifier::external_body]
pub(crate) fn channel_try_send<T>(tx: &SendEnd<T>, msg: T) -> (r: Offered<T>)
    ensures
        r@ matches Err(refusal) ==> refusal.message() == msg,
        tx.is_unbounded() ==> !(r@ matches Err(SendRefusal::Full(_))),
{
    Offered {
        outcome: match tx.tx.try_send(msg) {
            Ok(()) => Ok(()),
            Err(ChannelTrySendError::Full(m)) => Err(SendRefusal::Full(m)),
            Err(ChannelTrySendError::Disconnected(m)) => Err(SendRefusal::Disconnected(m)),
        },
    }
}

/// Tells apart the two cases of a `crossbeam_channel::TrySendError`, keeping the message.
/// The error's type is opaque here, so which case it is is not stated.
#[verifier::external_body]
pub(crate) fn channel_refusal<T>(err: ChannelTrySendError<T>) -> SendRefusal<T> {
    match err {
        ChannelTrySendError::Full(m) => SendRefusal::Full(m),
        ChannelTrySendError::Disconnected(m) => SendRefusal::Disconnected(m),
    }
}

/// `crossbeam_channel::Sender::is_full`: whether the channel had no room when it looked.
/// The answer depends on the other threads and is not constrained.
#[verifier::external_body]
pub(crate) fn channel_is_full<T>(tx: &SendEnd<T>) -> Fullness {
    Fullness { full: tx.tx.is_full() }
}

/// `crossbeam_channel::Receiver::try_recv`, its error told apart into the two cases.
/// What it finds depends on the other threads and is not constrained. crossbeam's receive
/// paths panic only where its own internal state would be broken, so the call returns.
#[verifier::external_body]
fn channel_try_recv<T>(rx: &ChannelReceiver<T>) -> Observed<T>
    opens_invariants none
    no_unwind
{
    Observed {
        attempt: match rx.try_recv() {
            Ok(t) => RecvAttempt::Item(t),
            Err(TryRecvError::Empty) => RecvAttempt::Empty,
            Err(TryRecvError::Disconnected) => RecvAttempt::Disconnected,
        },
    }
}

/// `crossbeam_channel::Receiver::capacity`: the limit the channel was made with, `None`
/// for an unbounded one. The handle is generic over the message type, so the limit gets no
/// name here and the result is not constrained.
#[verifier::external_body]
fn channel_capacity<T>(rx: &ChannelReceiver<T>) -> Option<usize> {
    rx.capacity()
}

/// `Clone for crossbeam_channel::Sender`: one more handle on the same channel, marked as
/// the original is.
#[verifier::external_body]
pub(crate) fn channel_sender_clone<T>(tx: &SendEnd<T>) -> (r: SendEnd<T>)
    ensures
        r.is_unbounded() == tx.is_unbounded(),
{
    SendEnd { tx: tx.tx.clone(), unbounded: tx.unbounded }
}

/// `Clone for crossbeam_channel::Receiver`: one more handle on the same channel.
#[verifier::external_body]
fn channel_receiver_clone<T>(rx: &ChannelReceiver<T>) -> ChannelReceiver<T> {
    rx.clone()
}

/// `crossbeam::queue::ArrayQueue::new(cap)`: an empty queue of the given capacity. It
/// panics at capacity zero, which `requires` rules out.
#[verifier::external_body]
pub(crate) fn waker_queue_new(cap: usize) -> ArrayQueue<Waker>
    requires
        cap > 0,
{
    ArrayQueue::new(cap)
}

/// `crossbeam::queue::ArrayQueue::push`. When the queue is full it hands the same waker
/// back, which is what the contract states; whether it is full depends on other threads.
#[verifier::external_body]
pub(crate) fn waker_queue_push(queue: &ArrayQueue<Waker>, waker: Waker) -> (r: Result<(), Waker>)
    ensures
        r matches Err(back) ==> back == waker,
{
    match queue.push(waker) {
        Ok(()) => Ok(()),
        Err(e) => Err(e.0),
    }
}

/// `crossbeam::queue::ArrayQueue::pop`: the oldest waker, or `None` when the queue is
/// empty. It never panics; what it finds depends on other threads.
#[verifier::external_body]
pub(crate) fn waker_queue_pop(queue: &ArrayQueue<Waker>) -> Option<Waker>
    opens_invariants none
    no_unwind
{
    queue.pop().ok()
}

/// `Clone for core::task::Waker`: a new handle that wakes the same task.
#[verifier::external_body]
pub(crate) fn waker_clone(waker: &Waker) -> Waker {
    waker.clone()
}

/// `core::task::Waker::wake`: schedules the task. A waker runs code of whoever polls the
/// channel, which may panic, so nothing is claimed of it.
#[verifier::external_body]
pub(crate) fn waker_wake(waker: Waker) {
    waker.wake()
}

/// `core::task::Waker::wake_by_ref`: schedules the task without consuming the handle.
#[verifier::external_body]
pub(crate) fn waker_wake_by_ref(waker: &Waker) {
    waker.wake_by_ref()
}

/// `crossbeam::atomic::AtomicConsume::load_consume` on a counter: a read of its current
/// value, which other threads may change at any time.
#[verifier::external_body]
pub(crate) fn counter_load_consume(counter: &AtomicUsize) -> usize {
    counter.load_consume()
}

/// `AtomicUsize::fetch_update` with the conditional decrement of this library as the
/// update: the counter is decremented by one if it is positive. std documents that the
/// result is `Ok(previous)` when the update function returned `Some`, else
/// `Err(previous)`; with that function, `Ok` carries a positive value and `Err` zero.
#[verifier::external_body]
pub(crate) fn counter_decrement_if_positive(counter: &AtomicUsize) -> (r: Result<usize, usize>)
    ensures
        r matches Ok(prev) ==> prev > 0,
        r matches Err(prev) ==> prev == 0,
{
    counter.fetch_update(Ordering::SeqCst, Ordering::SeqCst, |v| decrement_if_positive(v))
}

/// `Clone for Arc`: another pointer to the same value, so the clone equals the original.
#[verifier::external_body]
pub(crate) fn share<T>(value: &Arc<T>) -> (r: Arc<T>)
    ensures
        r == *value,
{
    value.clone()
}

/// `crossbeam_channel::Receiver::recv`: blocks the thread until a message arrives or every
/// sender is gone. crossbeam returns the message or `RecvError`, so the attempt never finds
/// the channel empty; which of the two it gets depends on the other threads.
#[verifier::external_body]
fn channel_recv<T>(rx: &ChannelReceiver<T>) -> (r: Observed<T>)
    ensures
        !(r@ is Empty),
    opens_invariants none
    no_unwind
{
    Observed {
        attempt: match rx.recv() {
            Ok(t) => RecvAttempt::Item(t),
            Err(_) => RecvAttempt::Disconnected,
        },
    }
}

/// `crossbeam_channel::Sender::send`: blocks the thread until the message is placed (on a
/// zero-capacity channel: taken by a receiver) or every receiver is gone; in that case
/// crossbeam hands the same message back inside `SendError`.
#[verifier::external_body]
pub(crate) fn channel_send<T>(tx: &SendEnd<T>, msg: T) -> (r: Offered<T>)
    ensures
        r@ matches Err(refusal) ==> refusal is Disconnected && refusal.message() == msg,
{
    Offered {
        outcome: match tx.tx.send(msg) {
            Ok(()) => Ok(()),
            Err(e) => Err(SendRefusal::Disconnected(e.0)),
        },
    }
}

} // verus!
