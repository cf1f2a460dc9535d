//! The unbounded channel: a crossbeam channel without a capacity limit, with one waker
//! for the tasks waiting to receive.
use vstd::prelude::*;

use core::sync::atomic::AtomicUsize;
use core::task::Waker;
use std::sync::Arc;

use crate::atomic_serial_waker::{positive_update, AtomicSerialWaker, WakeReport};
use crate::counters::LiveCount;
use crate::error::{SendError, TrySendError};
use crate::outcome::{
    poll_of, registers, spec_poll_look_fits, spec_recv_answer, spec_recv_look_fits, spec_taken, law_answer_returns_each_message_taken,
    spec_wake_fits, Polled, RecvAttempt, RecvLook, SendLook, SendRefusal,
};
use crate::outside::{
    channel_sender_clone, channel_try_send, channel_unbounded, share, RecvEnd, SendEnd,
};

verus! {

/// The shared parts a handle of an unbounded channel holds: the count of live senders and
/// the waker of the receiving tasks.
pub type UnboundedLink = (Arc<LiveCount>, Arc<AtomicSerialWaker>);

/// Creates a channel without a capacity limit, and returns its two ends.
pub fn unbounded<T>() -> (r: (UnboundedSender<T>, UnboundedReceiver<T>))
    ensures
        r.0.is_live(),
        r.1.awaits_first_poll(),
        r.0.link() == r.1.link(),
{
    let (s, r) = channel_unbounded();
    let tx_count = Arc::new(LiveCount::new_one());
    let from_me = Arc::new(AtomicUsize::new(0));
    let waker = Arc::new(AtomicSerialWaker::new(share(&from_me)));
    (
        UnboundedSender {
            tx: Some(s),
            tx_count: share(&tx_count),
            waker: share(&waker),
            last_look: Ghost(None),
        },
        UnboundedReceiver {
            first: true,
            rx: RecvEnd::from_channel(r),
            tx_count: tx_count,
            waker: waker,
            from_me: from_me,
            last_look: Ghost(None),
        },
    )
}

/// The sending end of an unbounded channel.
///
/// A handle gives up its place on the channel with `release`, which may run the code of
/// a waiting task's waker; waking cannot be promised not to unwind, so it is not done in
/// a destructor here. The `futures`-facing handles call `release` when dropped.
#[verifier::reject_recursive_types(T)]
pub struct UnboundedSender<T> {
    tx: Option<SendEnd<T>>,
    tx_count: Arc<LiveCount>,
    waker: Arc<AtomicSerialWaker>,
    /// This handle's own record of what its last send saw and did.
    last_look: Ghost<Option<SendLook<T>>>,
}

/// The receiving end of an unbounded channel.
#[verifier::reject_recursive_types(T)]
pub struct UnboundedReceiver<T> {
    /// Set until the first poll that finds the channel empty; that poll registers the
    /// task. Each clone is a stream of its own and starts with the flag set.
    first: bool,
    rx: RecvEnd<T>,
    tx_count: Arc<LiveCount>,
    waker: Arc<AtomicSerialWaker>,
    /// Counts the wake-ups of the receiving waker; a poll registers its task again only
    /// after such a wake-up, so a task that is still registered is not queued twice.
    from_me: Arc<AtomicUsize>,
    /// This handle's own record of what its last call saw and did.
    last_look: Ghost<Option<RecvLook<T>>>,
}

impl<T> UnboundedSender<T> {
    /// The crossbeam sender this handle holds is one of a channel without a capacity
    /// limit.
    #[verifier::type_invariant]
    spec fn sends_without_limit(&self) -> bool {
        self.tx matches Some(t) ==> t.is_unbounded()
    }

    /// The waker of the tasks waiting to receive.
    pub closed spec fn receiving_waker(&self) -> AtomicSerialWaker {
        *self.waker
    }

    /// Whether this handle still holds its connection to the channel; only `release`
    /// gives it up.
    pub closed spec fn is_live(&self) -> bool {
        self.tx is Some
    }

    /// The shared parts this handle holds: the count of live senders and the waker.
    pub closed spec fn link(&self) -> UnboundedLink {
        (self.tx_count, self.waker)
    }

    /// This handle's own record of what its last send saw and did.
    pub closed spec fn last_look(&self) -> Option<SendLook<T>> {
        self.last_look@
    }

    /// This handle, with `look` as its record.
    pub closed spec fn with_look(self, look: SendLook<T>) -> Self {
        UnboundedSender { last_look: Ghost(Some(look)), ..self }
    }

    /// Whether this handle still holds its connection to the channel.
    pub fn is_connected(&self) -> (r: bool)
        ensures
            r == self.is_live(),
    {
        self.tx.is_some()
    }

    /// Sends `message` if a receiver is left, and then wakes a waiting receiver; otherwise
    /// gives the message back inside the error, which says the channel was closed.
    pub fn try_send(&mut self, message: T) -> (r: Result<(), TrySendError<T>>)
        requires
            old(self).is_live(),
        ensures
            final(self).last_look() matches Some(SendLook::Sent { woke: Some(w), .. }) ==> w@.0 == old(self).receiving_waker(),
            final(self).last_look() matches Some(SendLook::Sent { first, second, registered, woke })
                && *final(self) == old(self).with_look(
                SendLook::Sent { first, second, registered, woke },
            ) && second is None && registered is None && (r is Ok <==> first@ is Ok) && (r is Ok
                <==> woke is Some) && (woke matches Some(w) ==> spec_wake_fits(w)) && (
            first@ matches Err(refusal) ==> r matches Err(e) && e.message() == refusal.message()
                && e.spec_is_full() == (refusal is Full) && e.spec_is_closed() == (
            refusal is Disconnected)),
            final(self).is_live(),
            r matches Err(e) ==> e.message() == message,
            r matches Err(e) ==> e.spec_is_closed() && !e.spec_is_full(),
            final(self).last_look() matches Some(SendLook::Sent { first, .. }) ==> !(first@ matches Err(
                SendRefusal::Full(_),
            )),
    {
        proof {
            use_type_invariant(&*self);
        }
        let tx = self.tx.as_ref().unwrap();
        let offered = channel_try_send(tx, message);
        let ghost seen = offered;
        let (r, woke) = match offered.into_outcome() {
            Ok(()) => {
                let w = self.waker.wake();
                (Ok(()), Some(w))
            },
            Err(refusal) => (Err(TrySendError::from_refusal(refusal)), None),
        };
        self.last_look = Ghost(
            Some(SendLook::Sent { first: seen, second: None, registered: None, woke }),
        );
        r
    }

    /// An unbounded channel always has room, so the sender is always ready.
    pub fn poll_ready(&mut self) -> (r: Polled<Result<(), SendError>>)
        ensures
            *final(self) == *old(self),
            r == Polled::<Result<(), SendError>>::Ready(Ok(())),
    {
        Polled::Ready(Ok(()))
    }

    /// Sends `item` as `try_send` does, reporting any failure as a closed channel.
    pub fn start_send(&mut self, item: T) -> (r: Result<(), SendError>)
        requires
            old(self).is_live(),
        ensures
            final(self).last_look() matches Some(SendLook::Sent { woke: Some(w), .. }) ==> w@.0 == old(self).receiving_waker(),
            final(self).last_look() matches Some(SendLook::Sent { first, second, registered, woke })
                && *final(self) == old(self).with_look(
                SendLook::Sent { first, second, registered, woke },
            ) && second is None && registered is None && (r is Ok <==> first@ is Ok) && (r is Ok
                <==> woke is Some),
            final(self).is_live(),
    {
        match self.try_send(item) {
            Ok(()) => Ok(()),
            Err(_) => Err(SendError),
        }
    }

    /// Messages are handed to the channel at once, so there is never anything to flush.
    pub fn poll_flush(&mut self) -> (r: Polled<Result<(), SendError>>)
        ensures
            *final(self) == *old(self),
            r == Polled::<Result<(), SendError>>::Ready(Ok(())),
    {
        Polled::Ready(Ok(()))
    }

    /// Closing takes effect when the handle is released; the poll itself is done at once.
    pub fn poll_close(&mut self) -> (r: Polled<Result<(), SendError>>)
        ensures
            *final(self) == *old(self),
            r == Polled::<Result<(), SendError>>::Ready(Ok(())),
    {
        Polled::Ready(Ok(()))
    }
}

impl<T> UnboundedSender<T> {
    /// Gives up this handle's connection to the channel: its crossbeam sender is dropped
    /// first, so that a receiver woken next finds the channel disconnected if no other
    /// sender is left; the last sender to go wakes a waiting receiver. The report says how
    /// that wake-up went, if this was the last sender.
    pub fn release(&mut self) -> (r: Option<WakeReport>)
        requires
            old(self).is_live(),
        ensures
            r matches Some(w) ==> w@.0 == old(self).receiving_waker(),
            !final(self).is_live(),
            final(self).link() == old(self).link(),
            r matches Some(w) ==> spec_wake_fits(w),
    {
        self.tx = None;
        if !self.tx_count.remove_one() {
            return None;
        }
        Some(self.waker.wake())
    }
}

impl<T> Clone for UnboundedSender<T> {
    /// One more sender on the same channel, holding the same shared parts; the count of
    /// live senders goes up by one.
    fn clone(&self) -> (s: Self)
        ensures
            s.link() == self.link(),
            self.is_live() ==> s.is_live(),
    {
        proof {
            use_type_invariant(self);
        }
        self.tx_count.add_one();
        let tx = match &self.tx {
            Some(tx) => Some(channel_sender_clone(tx)),
            None => None,
        };
        UnboundedSender {
            tx: tx,
            waker: share(&self.waker),
            tx_count: share(&self.tx_count),
            last_look: Ghost(None),
        }
    }
}

impl<T> UnboundedReceiver<T> {
    /// The waker of the tasks waiting to receive.
    pub closed spec fn receiving_waker(&self) -> AtomicSerialWaker {
        *self.waker
    }

    /// The counter this receiver reads before registering again is the one its waker
    /// counts its wake-ups in.
    #[verifier::type_invariant]
    spec fn watches_own_waker(&self) -> bool {
        self.waker.signal() == self.from_me
    }

    /// Whether the next poll that finds the channel empty will register its task.
    pub closed spec fn awaits_first_poll(&self) -> bool {
        self.first
    }

    /// This handle's own record of what its last call saw and did.
    pub closed spec fn last_look(&self) -> Option<RecvLook<T>> {
        self.last_look@
    }

    /// This handle with its first-poll flag set to `first`, `look` as its record, `rx` as
    /// its receiving end, and everything else kept.
    pub closed spec fn with_look(self, first: bool, look: RecvLook<T>, rx: RecvEnd<T>) -> Self {
        UnboundedReceiver { first, last_look: Ghost(Some(look)), rx, ..self }
    }

    /// The receiving end of this handle.
    pub closed spec fn receive_end(&self) -> RecvEnd<T> {
        self.rx
    }

    /// The answers that the receives through this handle got, in order; every message they
    /// took off the channel is among them.
    pub closed spec fn receive_log(&self) -> Seq<RecvAttempt<T>> {
        self.rx@
    }

    /// The shared parts this handle holds: the count of live senders and the waker.
    pub closed spec fn link(&self) -> UnboundedLink {
        (self.tx_count, self.waker)
    }

    /// The first, non-blocking step of a receive: a message that is there is taken, a
    /// disconnected channel ends the stream, and an empty one means waiting.
    pub fn recv_attempt(&mut self) -> (r: Polled<Option<T>>)
        ensures
            final(self).last_look() matches Some(look)
                && *final(self) == old(self).with_look(
                old(self).awaits_first_poll(),
                look,
                final(self).receive_end(),
            ) && final(self).receive_end().handle() == old(self).receive_end().handle()
                && final(self).receive_log() == old(self).receive_log() + spec_taken(look)
                && spec_recv_look_fits(false, look)
                && look.woke_senders is None
                && r == spec_recv_answer(look),
    {
        proof {
            use_type_invariant(&*self);
        }
        let observed = self.rx.try_recv();
        let ghost seen = observed;
        self.last_look = Ghost(
            Some(
                RecvLook {
                    first: seen,
                    woken: false,
                    second: None,
                    registered: None,
                    woke_senders: None,
                },
            ),
        );
        poll_of(observed.into_attempt())
    }

    /// One poll of the stream of messages. A message that is there is returned; a
    /// disconnected channel ends the stream. On an empty channel the task of `waker` is
    /// registered on the first such poll and after every wake-up from a sender, and the
    /// channel is looked at once more; between those, the poll just waits. The answer is
    /// always the one the attempts it made stand for.
    pub fn poll_next(&mut self, waker: &Waker) -> (r: Polled<Option<T>>)
        ensures
            final(self).last_look() matches Some(RecvLook { registered: Some(g), .. }) ==> g@.0 == old(self).receiving_waker() && g@.1 == *waker,
            (old(self).awaits_first_poll() && r is Pending) ==> final(self).last_look() matches Some(RecvLook { registered: Some(_), .. }),
            final(self).last_look() matches Some(look)
                && *final(self) == old(self).with_look(
                old(self).awaits_first_poll() && !(look.first@ is Empty),
                look,
                final(self).receive_end(),
            ) && final(self).receive_end().handle() == old(self).receive_end().handle()
                && final(self).receive_log() == old(self).receive_log() + spec_taken(look)
                && spec_poll_look_fits(old(self).awaits_first_poll(), false, look)
                && look.woke_senders is None && r == spec_recv_answer(look),
            final(self).link() == old(self).link(),
            final(self).awaits_first_poll() ==> old(self).awaits_first_poll(),
            r is Pending ==> !final(self).awaits_first_poll(),
    {
        proof {
            use_type_invariant(&*self);
        }
        let observed = self.rx.try_recv();
        let ghost seen = observed;
        let ready = poll_of(observed.into_attempt());
        if let Polled::Ready(x) = ready {
            self.last_look = Ghost(
                Some(
                    RecvLook {
                        first: seen,
                        woken: false,
                        second: None,
                        registered: None,
                        woke_senders: None,
                    },
                ),
            );
            return Polled::Ready(x);
        }
        let first = self.first;
        let woken = if first {
            false
        } else {
            positive_update(&self.from_me)
        };
        if !registers(first, woken) {
            self.last_look = Ghost(
                Some(
                    RecvLook {
                        first: seen,
                        woken,
                        second: None,
                        registered: None,
                        woke_senders: None,
                    },
                ),
            );
            return Polled::Pending;
        }
        self.first = false;
        let g = self.waker.register(waker);
        let again = self.rx.try_recv();
        let ghost seen_again = again;
        self.last_look = Ghost(
            Some(
                RecvLook {
                    first: seen,
                    woken,
                    second: Some(seen_again),
                    registered: Some(g),
                    woke_senders: None,
                },
            ),
        );
        poll_of(again.into_attempt())
    }

    /// Bounds on how many messages the stream still yields: at least none, with no upper
    /// bound.
    pub fn size_hint(&self) -> (r: (usize, Option<usize>))
        ensures
            r == (0usize, None::<usize>),
    {
        (0, None)
    }

    /// Whether every sender is gone, so the stream will end.
    pub fn is_terminated(&self) -> bool {
        let (ended, _) = self.tx_count.none_left();
        ended
    }
}

impl<T> Clone for UnboundedReceiver<T> {
    /// One more receiver on the same channel, holding the same shared parts. It is a
    /// stream of its own: its first poll on an empty channel registers its task.
    fn clone(&self) -> (s: Self)
        ensures
            s.link() == self.link(),
            s.awaits_first_poll(),
    {
        proof {
            use_type_invariant(self);
        }
        UnboundedReceiver {
            first: true,
            rx: self.rx.duplicate(),
            tx_count: share(&self.tx_count),
            waker: share(&self.waker),
            from_me: share(&self.from_me),
            last_look: Ghost(None),
        }
    }
}

/// Clones hold the shared parts of the handle they were cloned from: a sender and a
/// receiver that hold equal shared parts (as values) still do after either is cloned.
pub proof fn lemma_unbounded_clones_stay_linked<T>(
    tx: UnboundedSender<T>,
    rx: UnboundedReceiver<T>,
    tx_clone: UnboundedSender<T>,
    rx_clone: UnboundedReceiver<T>,
)
    requires
        tx.link() == rx.link(),
        tx_clone.link() == tx.link(),
        rx_clone.link() == rx.link(),
    ensures
        tx_clone.link() == rx_clone.link(),
{
}

/// A poll hands over every message it takes off the channel: of the receives that a poll
/// of `before` (giving `after` and the answer `r`) made through the handle, each that got
/// a message makes the answer that message, at most one got one, and a poll that waits
/// got none.
pub proof fn law_unbounded_poll_next_returns_each_message_it_takes<T>(
    before: UnboundedReceiver<T>,
    after: UnboundedReceiver<T>,
    r: Polled<Option<T>>,
)
    requires
        after.last_look() matches Some(look) && after.receive_log() == before.receive_log()
            + spec_taken(look) && spec_poll_look_fits(
            before.awaits_first_poll(),
            false,
            look,
        ) && r == spec_recv_answer(look),
    ensures
        forall|i: int|
            before.receive_log().len() <= i < after.receive_log().len() ==> (
            #[trigger] after.receive_log()[i] matches RecvAttempt::Item(t) ==> r == Polled::Ready(
                Some(t),
            )),
        forall|i: int, j: int|
            before.receive_log().len() <= i < after.receive_log().len()
                && before.receive_log().len() <= j < after.receive_log().len()
                && #[trigger] after.receive_log()[i] is Item && #[trigger] after.receive_log()[j] is Item
                ==> i == j,
        r is Pending ==> forall|i: int|
            before.receive_log().len() <= i < after.receive_log().len() ==> (
            #[trigger] after.receive_log()[i]) is Empty,
{
    let look = after.last_look().unwrap();
    let n = before.receive_log().len();
    law_answer_returns_each_message_taken(look);
    assert forall|i: int| n <= i < after.receive_log().len() implies after.receive_log()[i]
        == spec_taken(look)[i - n] by {}
}

/// A send on an unbounded channel is never refused for want of room: whatever the channel
/// answered a `try_send` of `before` (giving `after` and `r`), a refusal is the channel
/// being closed, and the message comes back with it.
pub proof fn law_unbounded_try_send_refused_only_when_closed<T>(
    before: UnboundedSender<T>,
    after: UnboundedSender<T>,
    message: T,
    r: Result<(), TrySendError<T>>,
)
    requires
        after.last_look() matches Some(SendLook::Sent { first, .. }) && !(first@ matches Err(
            SendRefusal::Full(_),
        )) && (r is Ok <==> first@ is Ok) && (first@ matches Err(refusal) ==> r matches Err(e)
            && e.message() == refusal.message() && e.spec_is_full() == (refusal is Full)
            && e.spec_is_closed() == (refusal is Disconnected)) && (first@ matches Err(refusal)
            ==> refusal.message() == message),
    ensures
        r matches Err(e) ==> e.spec_is_closed() && !e.spec_is_full() && e.message() == message,
{
}

} // verus!
