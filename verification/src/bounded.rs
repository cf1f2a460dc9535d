//! The bounded channel: a crossbeam channel of fixed capacity, with one waker for the
//! tasks waiting to receive and one for the tasks waiting for room to send.
use vstd::prelude::*;

use core::sync::atomic::AtomicUsize;
use core::task::Waker;
use std::sync::Arc;

use crate::atomic_serial_waker::{positive_update, AtomicSerialWaker, WakeReport};
use crate::counters::LiveCount;
use crate::error::{SendError, TrySendError};
use crate::outcome::{
    poll_of, progress_of, ready_of, registers, send_poll_of, spec_poll_look_fits, spec_poll_of,
    spec_progress_of, spec_recv_answer, spec_recv_look_fits, spec_register_fits, spec_room_answer,
    spec_send_answer, spec_send_look_fits, spec_taken, spec_wake_fits, law_answer_returns_each_message_taken, spec_wakes_senders, Polled,
    RecvAttempt, RecvLook, SendLook, SendProgress, SendRefusal,
};
use crate::outside::{
    bounded_capacity_fits, channel_bounded, channel_is_full, channel_send, channel_sender_clone,
    channel_try_send, share, Observed, RecvEnd, SendEnd,
};

verus! {

/// The shared parts a handle of a bounded channel holds: the count of live senders, the
/// waker of the receiving tasks and the waker of the sending tasks.
pub type BoundedLink = (Arc<LiveCount>, Arc<AtomicSerialWaker>, Arc<AtomicSerialWaker>);

/// Creates a channel that holds at most `cap` messages, and returns its two ends.
pub fn bounded<T>(cap: usize) -> (r: (Sender<T>, Receiver<T>))
    requires
        bounded_capacity_fits::<T>(cap),
    ensures
        r.0.is_live(),
        r.1.awaits_first_poll(),
        r.0.link() == r.1.link(),
        r.0.is_zero_capacity() == (cap == 0),
        r.1.is_zero_capacity() == (cap == 0),
        !r.1.is_released(),
{
    let is_zero = cap == 0;
    let (s, r) = channel_bounded(cap);
    let tx_count = Arc::new(LiveCount::new_one());
    let rx_count = Arc::new(LiveCount::new_one());
    let from_me = Arc::new(AtomicUsize::new(0));
    let waker = Arc::new(AtomicSerialWaker::new(share(&from_me)));
    // Counts the wake-ups of the sending side; the receiving side does not read it.
    let to_me = Arc::new(AtomicUsize::new(0));
    let send_waker = Arc::new(AtomicSerialWaker::new(to_me));
    (
        Sender {
            tx: Some(s),
            tx_count: share(&tx_count),
            waker: share(&waker),
            send_waker: share(&send_waker),
            is_zero: is_zero,
            last_look: Ghost(None),
        },
        Receiver {
            first: true,
            rx: RecvEnd::from_channel(r),
            rx_count: rx_count,
            tx_count: tx_count,
            waker: waker,
            send_waker: send_waker,
            is_zero: is_zero,
            from_me: from_me,
            released: false,
            last_look: Ghost(None),
        },
    )
}

/// Whether `bounded::<T>(cap)` can lay out a channel of capacity `cap`.
pub fn bounded_capacity_supported<T>(cap: usize) -> (r: bool)
    ensures
        r == bounded_capacity_fits::<T>(cap),
{
    let ghost slot_bytes: nat = vstd::layout::size_of::<T>() + vstd::layout::align_of::<T>() + 2
        * vstd::layout::size_of::<usize>();
    if cap == 0 {
        return true;
    }
    let size = core::mem::size_of::<T>();
    let align = core::mem::align_of::<T>();
    let word = core::mem::size_of::<usize>();
    let limit: usize = isize::MAX as usize;
    let slot = match size.checked_add(align) {
        Some(a) => match word.checked_mul(2) {
            Some(w) => a.checked_add(w),
            None => None,
        },
        None => None,
    };
    match slot {
        Some(s) => match cap.checked_mul(s) {
            Some(bytes) => bytes <= limit,
            None => {
                proof {
                    lemma_oversized_product(cap as int, s as int);
                }
                false
            },
        },
        None => {
            assert(slot_bytes > usize::MAX);
            proof {
                lemma_oversized_product(cap as int, slot_bytes as int);
            }
            false
        },
    }
}

/// A positive count of items each larger than `usize::MAX`, or whose product exceeds it,
/// takes more than `isize::MAX` bytes.
proof fn lemma_oversized_product(count: int, each: int)
    requires
        count >= 1,
        each >= 0,
        count * each > usize::MAX || each > usize::MAX,
    ensures
        count * each > isize::MAX,
{
    assert(count * each >= each) by (nonlinear_arith)
        requires
            count >= 1,
            each >= 0,
    ;
}

/// The sending end of a bounded channel.
///
/// A handle gives up its place on the channel with `release`, which may run the code of
/// a waiting task's waker; waking cannot be promised not to unwind, so it is not done in
/// a destructor here. The `futures`-facing handles call `release` when dropped.
#[verifier::reject_recursive_types(T)]
pub struct Sender<T> {
    tx: Option<SendEnd<T>>,
    tx_count: Arc<LiveCount>,
    waker: Arc<AtomicSerialWaker>,
    send_waker: Arc<AtomicSerialWaker>,
    /// The channel has capacity zero: a send that finds no receiver waiting blocks the
    /// thread until one takes the message.
    is_zero: bool,
    /// This handle's own record of what its last call saw and did.
    last_look: Ghost<Option<SendLook<T>>>,
}

/// The receiving end of a bounded channel.
///
/// A handle gives up its place on the channel with `release`, which may run the code of
/// a waiting task's waker; waking cannot be promised not to unwind, so it is not done in
/// a destructor here. The `futures`-facing handles call `release` when dropped.
#[verifier::reject_recursive_types(T)]
pub struct Receiver<T> {
    /// Set until the first poll that finds the channel empty; that poll registers the
    /// task. Each clone is a stream of its own and starts with the flag set.
    first: bool,
    rx: RecvEnd<T>,
    rx_count: Arc<LiveCount>,
    tx_count: Arc<LiveCount>,
    waker: Arc<AtomicSerialWaker>,
    send_waker: Arc<AtomicSerialWaker>,
    /// The channel has capacity zero: a receive that finds no sender waiting blocks the
    /// thread until one hands over a message.
    is_zero: bool,
    /// Counts the wake-ups of the receiving waker; a poll registers its task again only
    /// after such a wake-up, so a task that is still registered is not queued twice.
    from_me: Arc<AtomicUsize>,
    /// Set once the handle has given up its place among the channel's receivers.
    released: bool,
    /// This handle's own record of what its last call saw and did.
    last_look: Ghost<Option<RecvLook<T>>>,
}

impl<T> Sender<T> {
    /// The waker of the tasks waiting to receive.
    pub closed spec fn receiving_waker(&self) -> AtomicSerialWaker {
        *self.waker
    }

    /// The waker of the tasks waiting for room to send.
    pub closed spec fn sending_waker(&self) -> AtomicSerialWaker {
        *self.send_waker
    }

    /// Whether this handle still holds its connection to the channel; only `release`
    /// gives it up.
    pub closed spec fn is_live(&self) -> bool {
        self.tx is Some
    }

    /// The shared parts this handle holds: the count of live senders and the two wakers.
    pub closed spec fn link(&self) -> BoundedLink {
        (self.tx_count, self.waker, self.send_waker)
    }

    /// Whether the channel of this handle has capacity zero.
    pub closed spec fn is_zero_capacity(&self) -> bool {
        self.is_zero
    }

    /// This handle's own record of what its last call saw and did.
    pub closed spec fn last_look(&self) -> Option<SendLook<T>> {
        self.last_look@
    }

    /// This handle, with `look` as its record.
    pub closed spec fn with_look(self, look: SendLook<T>) -> Self {
        Sender { last_look: Ghost(Some(look)), ..self }
    }

    /// Whether this handle still holds its connection to the channel.
    pub fn is_connected(&self) -> (r: bool)
        ensures
            r == self.is_live(),
    {
        self.tx.is_some()
    }

    /// Sends `message` if the channel has room and a receiver, and then wakes a waiting
    /// receiver; otherwise gives the message back inside the error, which says whether
    /// the channel was full or closed.
    pub fn try_send(&mut self, message: T) -> (r: Result<(), TrySendError<T>>)
        requires
            old(self).is_live(),
        ensures
            final(self).last_look() matches Some(SendLook::Sent { woke: Some(w), .. }) ==> w@.0 == old(self).receiving_waker(),
            final(self).last_look() matches Some(SendLook::Sent { first, second, registered, woke })
                && *final(self) == old(self).with_look(
                SendLook::Sent { first, second, registered, woke },
            ) && second is None && registered is None && (r is Ok <==> first@ is Ok) && (r is Ok
                <==> woke is Some) && (woke matches Some(w) ==> spec_wake_fits(w)) && (
            first@ matches Err(refusal) ==> r matches Err(e) && e.message() == refusal.message()
                && e.spec_is_full() == (refusal is Full) && e.spec_is_closed() == (
            refusal is Disconnected)),
            final(self).is_live(),
            r matches Err(e) ==> e.message() == message,
    {
        let tx = self.tx.as_ref().unwrap();
        let offered = channel_try_send(tx, message);
        let ghost seen = offered;
        let (r, woke) = match offered.into_outcome() {
            Ok(()) => {
                let w = self.waker.wake();
                (Ok(()), Some(w))
            },
            Err(refusal) => (Err(TrySendError::from_refusal(refusal)), None),
        };
        self.last_look = Ghost(
            Some(SendLook::Sent { first: seen, second: None, registered: None, woke }),
        );
        r
    }

    /// Whether the channel has room for a message. If it has none, the task of `waker` is
    /// registered to be woken when a receiver takes a message, and the channel is looked
    /// at once more. A poll for room never fails.
    pub fn poll_ready(&mut self, waker: &Waker) -> (r: Polled<Result<(), SendError>>)
        requires
            old(self).is_live(),
        ensures
            final(self).last_look() matches Some(SendLook::Room { registered: Some(g), .. }) ==> g@.0 == old(self).sending_waker() && g@.1 == *waker,
            final(self).last_look() matches Some(SendLook::Room { first_full, second_full, registered })
                && *final(self) == old(self).with_look(
                SendLook::Room { first_full, second_full, registered },
            ) && (second_full is Some <==> first_full@) && (registered is Some
                <==> second_full is Some) && (registered matches Some(g) ==> spec_register_fits(
                g,
            )) && r == spec_room_answer(first_full, second_full),
            final(self).is_live(),
            r matches Polled::Ready(x) ==> x is Ok,
    {
        let tx = self.tx.as_ref().unwrap();
        let first_full = channel_is_full(tx);
        let first = ready_of(first_full.is_full());
        if let Polled::Ready(_) = first {
            self.last_look = Ghost(
                Some(SendLook::Room { first_full, second_full: None, registered: None }),
            );
            return first;
        }
        let g = self.send_waker.register(waker);
        let tx = self.tx.as_ref().unwrap();
        let second_full = channel_is_full(tx);
        self.last_look = Ghost(
            Some(
                SendLook::Room {
                    first_full,
                    second_full: Some(second_full),
                    registered: Some(g),
                },
            ),
        );
        ready_of(second_full.is_full())
    }

    /// Sends `item` as `try_send` does, reporting any failure as a closed channel.
    pub fn start_send(&mut self, item: T) -> (r: Result<(), SendError>)
        requires
            old(self).is_live(),
        ensures
            final(self).last_look() matches Some(SendLook::Sent { woke: Some(w), .. }) ==> w@.0 == old(self).receiving_waker(),
            final(self).last_look() matches Some(SendLook::Sent { first, second, registered, woke })
                && *final(self) == old(self).with_look(
                SendLook::Sent { first, second, registered, woke },
            ) && second is None && registered is None && (r is Ok <==> first@ is Ok) && (r is Ok
                <==> woke is Some),
            final(self).is_live(),
    {
        match self.try_send(item) {
            Ok(()) => Ok(()),
            Err(_) => Err(SendError),
        }
    }

    /// Messages are handed to the channel at once, so there is never anything to flush.
    pub fn poll_flush(&mut self) -> (r: Polled<Result<(), SendError>>)
        ensures
            *final(self) == *old(self),
            r == Polled::<Result<(), SendError>>::Ready(Ok(())),
    {
        Polled::Ready(Ok(()))
    }

    /// Closing takes effect when the handle is released; the poll itself is done at once.
    pub fn poll_close(&mut self) -> (r: Polled<Result<(), SendError>>)
        ensures
            *final(self) == *old(self),
            r == Polled::<Result<(), SendError>>::Ready(Ok(())),
    {
        Polled::Ready(Ok(()))
    }

    /// The first, non-blocking step of a send: the message goes onto the channel if there
    /// is room (and a waiting receiver is woken), comes back if the channel is full, and is
    /// dropped if every receiver is gone.
    pub fn send_attempt(&mut self, message: T) -> (r: SendProgress<T>)
        requires
            old(self).is_live(),
        ensures
            final(self).last_look() matches Some(SendLook::Sent { woke: Some(w), .. }) ==> w@.0 == old(self).receiving_waker(),
            final(self).last_look() matches Some(SendLook::Sent { first, second, registered, woke })
                && *final(self) == old(self).with_look(
                SendLook::Sent { first, second, registered, woke },
            ) && second is None && registered is None && r == spec_progress_of(first@) && (r is Sent
                <==> woke is Some) && (woke matches Some(w) ==> spec_wake_fits(w)),
            final(self).is_live(),
            r matches SendProgress::Blocked(m) ==> m == message,
    {
        let tx = self.tx.as_ref().unwrap();
        let offered = channel_try_send(tx, message);
        let ghost seen = offered;
        let r = progress_of(offered.into_outcome());
        let woke = if let SendProgress::Sent = r {
            Some(self.waker.wake())
        } else {
            None
        };
        self.last_look = Ghost(
            Some(SendLook::Sent { first: seen, second: None, registered: None, woke }),
        );
        r
    }

    /// One poll of a send that is waiting for room: tries to send `message`; if the
    /// channel is full, registers the task of `waker` to be woken when a receiver takes a
    /// message and tries once more. On a zero-capacity channel that second try wakes a
    /// waiting receiver and blocks the thread until a receiver takes the message. A placed
    /// message wakes a waiting receiver; a closed channel ends the send with an error.
    pub fn poll_send(&mut self, message: T, waker: &Waker) -> (r: Polled<Result<(), SendError>>)
        requires
            old(self).is_live(),
        ensures
            final(self).last_look() matches Some(SendLook::Sent { woke: Some(w), .. }) ==> w@.0 == old(self).receiving_waker(),
            final(self).last_look() matches Some(SendLook::Sent { registered: Some(g), .. }) ==> g@.0 == old(self).sending_waker() && g@.1 == *waker,
            final(self).last_look() matches Some(SendLook::Sent { first, second, registered, woke })
                && *final(self) == old(self).with_look(
                SendLook::Sent { first, second, registered, woke },
            ) && spec_send_look_fits(old(self).is_zero_capacity(), first, second) && r
                == spec_send_answer(first, second) && (registered is Some <==> second is Some) && (
            registered matches Some(g) ==> spec_register_fits(g)) && (woke matches Some(w)
                ==> spec_wake_fits(w)) && (r matches Polled::Ready(Ok(())) ==> woke is Some) && (
            !old(self).is_zero_capacity() ==> (woke is Some ==> r matches Polled::Ready(Ok(())))),
            final(self).is_live(),
    {
        let tx = self.tx.as_ref().unwrap();
        let offered = channel_try_send(tx, message);
        let ghost seen = offered;
        let item = match progress_of(offered.into_outcome()) {
            SendProgress::Sent => {
                let w = self.waker.wake();
                self.last_look = Ghost(
                    Some(
                        SendLook::Sent {
                            first: seen,
                            second: None,
                            registered: None,
                            woke: Some(w),
                        },
                    ),
                );
                return Polled::Ready(Ok(()));
            },
            SendProgress::Blocked(e) => e,
            SendProgress::Closed => {
                self.last_look = Ghost(
                    Some(SendLook::Sent { first: seen, second: None, registered: None, woke: None }),
                );
                return Polled::Ready(Err(SendError));
            },
        };
        let g = self.send_waker.register(waker);
        let (retry, woke) = if self.is_zero {
            let w = self.waker.wake();
            let tx = self.tx.as_ref().unwrap();
            (channel_send(tx, item), Some(w))
        } else {
            let tx = self.tx.as_ref().unwrap();
            let retry = channel_try_send(tx, item);
            let woke = if retry.is_placed() {
                Some(self.waker.wake())
            } else {
                None
            };
            (retry, woke)
        };
        let ghost seen_again = retry;
        self.last_look = Ghost(
            Some(
                SendLook::Sent {
                    first: seen,
                    second: Some(seen_again),
                    registered: Some(g),
                    woke,
                },
            ),
        );
        send_poll_of(retry.into_outcome())
    }

    /// Gives up this handle's connection to the channel: its crossbeam sender is dropped
    /// first, so that a receiver woken next finds the channel disconnected if no other
    /// sender is left; the last sender to go wakes a waiting receiver. The report says how
    /// that wake-up went, if this was the last sender.
    pub fn release(&mut self) -> (r: Option<WakeReport>)
        requires
            old(self).is_live(),
        ensures
            r matches Some(w) ==> w@.0 == old(self).receiving_waker(),
            !final(self).is_live(),
            final(self).link() == old(self).link(),
            r matches Some(w) ==> spec_wake_fits(w),
    {
        self.tx = None;
        if !self.tx_count.remove_one() {
            return None;
        }
        Some(self.waker.wake())
    }
}

impl<T> Clone for Sender<T> {
    /// One more sender on the same channel, holding the same shared parts; the count of
    /// live senders goes up by one.
    fn clone(&self) -> (s: Self)
        ensures
            s.link() == self.link(),
            self.is_live() ==> s.is_live(),
            s.is_zero_capacity() == self.is_zero_capacity(),
    {
        self.tx_count.add_one();
        let tx = match &self.tx {
            Some(tx) => Some(channel_sender_clone(tx)),
            None => None,
        };
        Sender {
            tx: tx,
            tx_count: share(&self.tx_count),
            waker: share(&self.waker),
            send_waker: share(&self.send_waker),
            is_zero: self.is_zero,
            last_look: Ghost(None),
        }
    }
}

impl<T> Receiver<T> {
    /// The waker of the tasks waiting to receive.
    pub closed spec fn receiving_waker(&self) -> AtomicSerialWaker {
        *self.waker
    }

    /// The waker of the tasks waiting for room to send.
    pub closed spec fn sending_waker(&self) -> AtomicSerialWaker {
        *self.send_waker
    }

    /// The counter this receiver reads before registering again is the one its waker
    /// counts its wake-ups in.
    #[verifier::type_invariant]
    spec fn watches_own_waker(&self) -> bool {
        self.waker.signal() == self.from_me
    }

    /// Whether the next poll that finds the channel empty will register its task.
    pub closed spec fn awaits_first_poll(&self) -> bool {
        self.first
    }

    /// Whether the channel of this handle has capacity zero.
    pub closed spec fn is_zero_capacity(&self) -> bool {
        self.is_zero
    }

    /// This handle's own record of what its last call saw and did.
    pub closed spec fn last_look(&self) -> Option<RecvLook<T>> {
        self.last_look@
    }

    /// This handle with its first-poll flag set to `first`, `look` as its record, `rx` as
    /// its receiving end, and everything else kept.
    pub closed spec fn with_look(self, first: bool, look: RecvLook<T>, rx: RecvEnd<T>) -> Self {
        Receiver { first, last_look: Ghost(Some(look)), rx, ..self }
    }

    /// This handle with `rx` as its receiving end, and everything else kept.
    pub closed spec fn with_end(self, rx: RecvEnd<T>) -> Self {
        Receiver { rx, ..self }
    }

    /// The receiving end of this handle.
    pub closed spec fn receive_end(&self) -> RecvEnd<T> {
        self.rx
    }

    /// The answers that the receives through this handle got, in order; every message they
    /// took off the channel is among them.
    pub closed spec fn receive_log(&self) -> Seq<RecvAttempt<T>> {
        self.rx@
    }

    /// The shared parts this handle holds: the count of live senders and the two wakers.
    pub closed spec fn link(&self) -> BoundedLink {
        (self.tx_count, self.waker, self.send_waker)
    }

    /// Whether this handle has given up its place among the channel's receivers.
    pub closed spec fn is_released(&self) -> bool {
        self.released
    }

    /// Whether this handle has given up its place among the channel's receivers.
    pub fn has_released(&self) -> (r: bool)
        ensures
            r == self.is_released(),
    {
        self.released
    }

    /// The first step of a receive: a message that is there is taken (and a task waiting
    /// for room is woken), a disconnected channel ends the stream, and an empty one means
    /// waiting; on a zero-capacity channel an empty one instead wakes a task waiting to
    /// send and blocks the thread until a sender hands over a message or every sender is
    /// gone.
    pub fn recv_attempt(&mut self) -> (r: Polled<Option<T>>)
        ensures
            final(self).last_look() matches Some(RecvLook { woke_senders: Some(w), .. }) ==> w@.0 == old(self).sending_waker(),
            final(self).last_look() matches Some(look)
                && *final(self) == old(self).with_look(
                old(self).awaits_first_poll(),
                look,
                final(self).receive_end(),
            ) && final(self).receive_end().handle() == old(self).receive_end().handle()
                && final(self).receive_log() == old(self).receive_log() + spec_taken(look)
                && spec_recv_look_fits(old(self).is_zero_capacity(), look)
                && spec_wakes_senders(look)
                && r == spec_recv_answer(look),
    {
        proof {
            use_type_invariant(&*self);
        }
        let observed = self.rx.try_recv();
        let ghost seen = observed;
        let ready = poll_of(observed.into_attempt());
        match ready {
            Polled::Ready(x) => {
                let woke_senders = if let Some(_) = &x {
                    Some(self.send_waker.wake())
                } else {
                    None
                };
                self.last_look = Ghost(
                    Some(
                        RecvLook {
                            first: seen,
                            woken: false,
                            second: None,
                            registered: None,
                            woke_senders,
                        },
                    ),
                );
                Polled::Ready(x)
            },
            Polled::Pending => {
                if self.is_zero {
                    let w = self.send_waker.wake();
                    let blocking = self.rx.recv();
                    let ghost seen_again = blocking;
                    self.last_look = Ghost(
                        Some(
                            RecvLook {
                                first: seen,
                                woken: false,
                                second: Some(seen_again),
                                registered: None,
                                woke_senders: Some(w),
                            },
                        ),
                    );
                    poll_of(blocking.into_attempt())
                } else {
                    self.last_look = Ghost(
                        Some(
                            RecvLook {
                                first: seen,
                                woken: false,
                                second: None,
                                registered: None,
                                woke_senders: None,
                            },
                        ),
                    );
                    Polled::Pending
                }
            },
        }
    }

    /// Looks at the channel once more after the task was registered, and gives the answer
    /// with the attempt it stands for and how the wake-up of a task waiting to send went.
    /// Such a task is woken unless the channel turned out disconnected. On a zero-capacity
    /// channel the look is a blocking receive, made after waking a task waiting to send.
    fn recheck(&mut self) -> (r: (Polled<Option<T>>, Ghost<Observed<T>>, Option<WakeReport>))
        ensures
            r.2 matches Some(w) ==> w@.0 == old(self).sending_waker(),
            *final(self) == old(self).with_end(final(self).receive_end()),
            final(self).receive_end().handle() == old(self).receive_end().handle(),
            final(self).receive_log() == old(self).receive_log().push(r.1@@),
            r.0 == spec_poll_of(r.1@@),
            old(self).is_zero_capacity() ==> !(r.1@@ is Empty),
            r.0 matches Polled::Ready(Some(_)) ==> r.2 is Some,
            r.2 matches Some(w) ==> spec_wake_fits(w),
    {
        proof {
            use_type_invariant(&*self);
        }
        if self.is_zero {
            let w = self.send_waker.wake();
            let blocking = self.rx.recv();
            let ghost seen = blocking;
            return (poll_of(blocking.into_attempt()), Ghost(seen), Some(w));
        }
        let observed = self.rx.try_recv();
        let ghost seen = observed;
        let answer = poll_of(observed.into_attempt());
        let woke = match &answer {
            Polled::Ready(None) => None,
            _ => Some(self.send_waker.wake()),
        };
        (answer, Ghost(seen), woke)
    }

    /// One poll of the stream of messages. A message that is there is returned, and a
    /// task waiting for room is woken; a disconnected channel ends the stream. On an empty
    /// channel the task of `waker` is registered on the first such poll and after every
    /// wake-up from a sender, and the channel is looked at once more; between those, the
    /// poll just waits. The answer is the one the attempts in the handle's record stand for.
    pub fn poll_next(&mut self, waker: &Waker) -> (r: Polled<Option<T>>)
        ensures
            final(self).last_look() matches Some(RecvLook { woke_senders: Some(w), .. }) ==> w@.0 == old(self).sending_waker(),
            final(self).last_look() matches Some(RecvLook { registered: Some(g), .. }) ==> g@.0 == old(self).receiving_waker() && g@.1 == *waker,
            (old(self).awaits_first_poll() && r is Pending) ==> final(self).last_look() matches Some(RecvLook { registered: Some(_), .. }),
            final(self).last_look() matches Some(look)
                && *final(self) == old(self).with_look(
                old(self).awaits_first_poll() && !(look.first@ is Empty),
                look,
                final(self).receive_end(),
            ) && final(self).receive_end().handle() == old(self).receive_end().handle()
                && final(self).receive_log() == old(self).receive_log() + spec_taken(look)
                && spec_poll_look_fits(
                old(self).awaits_first_poll(),
                old(self).is_zero_capacity(),
                look,
            ) && spec_wakes_senders(look) && r == spec_recv_answer(look),
            final(self).link() == old(self).link(),
            final(self).awaits_first_poll() ==> old(self).awaits_first_poll(),
            r is Pending ==> !final(self).awaits_first_poll(),
    {
        proof {
            use_type_invariant(&*self);
        }
        let observed = self.rx.try_recv();
        let ghost seen = observed;
        let ready = poll_of(observed.into_attempt());
        if let Polled::Ready(x) = ready {
            let woke_senders = if let Some(_) = &x {
                Some(self.send_waker.wake())
            } else {
                None
            };
            self.last_look = Ghost(
                Some(
                    RecvLook {
                        first: seen,
                        woken: false,
                        second: None,
                        registered: None,
                        woke_senders,
                    },
                ),
            );
            return Polled::Ready(x);
        }
        let first = self.first;
        let woken = if first {
            false
        } else {
            positive_update(&self.from_me)
        };
        if !registers(first, woken) {
            self.last_look = Ghost(
                Some(
                    RecvLook {
                        first: seen,
                        woken,
                        second: None,
                        registered: None,
                        woke_senders: None,
                    },
                ),
            );
            return Polled::Pending;
        }
        self.first = false;
        let g = self.waker.register(waker);
        let (answer, again, woke_senders) = self.recheck();
        self.last_look = Ghost(
            Some(
                RecvLook {
                    first: seen,
                    woken,
                    second: Some(again@),
                    registered: Some(g),
                    woke_senders,
                },
            ),
        );
        answer
    }

    /// Gives up this handle's place among the channel's receivers; the last receiver to go
    /// wakes a task waiting for room, which then finds the channel disconnected. The report
    /// says how that wake-up went, if this was the last receiver.
    pub fn release(&mut self) -> (r: Option<WakeReport>)
        requires
            !old(self).is_released(),
        ensures
            r matches Some(w) ==> w@.0 == old(self).sending_waker(),
            final(self).is_released(),
            final(self).link() == old(self).link(),
            r matches Some(w) ==> spec_wake_fits(w),
    {
        proof {
            use_type_invariant(&*self);
        }
        self.released = true;
        if !self.rx_count.remove_one() {
            return None;
        }
        Some(self.send_waker.wake())
    }

    /// Bounds on how many messages the stream still yields: at least none, and at most
    /// the capacity of the channel.
    pub fn size_hint(&self) -> (r: (usize, Option<usize>))
        ensures
            r.0 == 0,
    {
        (0, self.rx.capacity())
    }

    /// Whether every sender is gone, so the stream will end.
    pub fn is_terminated(&self) -> bool {
        let (ended, _) = self.tx_count.none_left();
        ended
    }
}

impl<T> Clone for Receiver<T> {
    /// One more receiver on the same channel, holding the same shared parts. It is a
    /// stream of its own: its first poll on an empty channel registers its task.
    fn clone(&self) -> (s: Self)
        ensures
            s.link() == self.link(),
            s.awaits_first_poll(),
            s.is_zero_capacity() == self.is_zero_capacity(),
            !s.is_released(),
    {
        proof {
            use_type_invariant(self);
        }
        self.rx_count.add_one();
        Receiver {
            first: true,
            rx: self.rx.duplicate(),
            waker: share(&self.waker),
            rx_count: share(&self.rx_count),
            tx_count: share(&self.tx_count),
            send_waker: share(&self.send_waker),
            is_zero: self.is_zero,
            from_me: share(&self.from_me),
            released: false,
            last_look: Ghost(None),
        }
    }
}

/// Clones hold the shared parts of the handle they were cloned from: a sender and a
/// receiver that hold equal shared parts (as values) still do after either is cloned.
pub proof fn lemma_clones_stay_linked<T>(
    tx: Sender<T>,
    rx: Receiver<T>,
    tx_clone: Sender<T>,
    rx_clone: Receiver<T>,
)
    requires
        tx.link() == rx.link(),
        tx_clone.link() == tx.link(),
        rx_clone.link() == rx.link(),
    ensures
        tx_clone.link() == rx_clone.link(),
{
}

/// A poll hands over every message it takes off the channel: of the receives that a poll
/// of `before` (giving `after` and the answer `r`) made through the handle, each that got
/// a message makes the answer that message, at most one got one, and a poll that waits
/// got none.
pub proof fn law_poll_next_returns_each_message_it_takes<T>(
    before: Receiver<T>,
    after: Receiver<T>,
    r: Polled<Option<T>>,
)
    requires
        after.last_look() matches Some(look) && after.receive_log() == before.receive_log()
            + spec_taken(look) && spec_poll_look_fits(
            before.awaits_first_poll(),
            before.is_zero_capacity(),
            look,
        ) && r == spec_recv_answer(look),
    ensures
        forall|i: int|
            before.receive_log().len() <= i < after.receive_log().len() ==> (
            #[trigger] after.receive_log()[i] matches RecvAttempt::Item(t) ==> r == Polled::Ready(
                Some(t),
            )),
        forall|i: int, j: int|
            before.receive_log().len() <= i < after.receive_log().len()
                && before.receive_log().len() <= j < after.receive_log().len()
                && #[trigger] after.receive_log()[i] is Item && #[trigger] after.receive_log()[j] is Item
                ==> i == j,
        r is Pending ==> forall|i: int|
            before.receive_log().len() <= i < after.receive_log().len() ==> (
            #[trigger] after.receive_log()[i]) is Empty,
{
    let look = after.last_look().unwrap();
    let n = before.receive_log().len();
    law_answer_returns_each_message_taken(look);
    assert forall|i: int| n <= i < after.receive_log().len() implies after.receive_log()[i]
        == spec_taken(look)[i - n] by {}
}

} // verus!
