//! Plain values that the channel operations hand back: the answer of a poll, the outcome of
//! one non-blocking receive or send, and the decisions taken on them.
use vstd::prelude::*;

use crate::atomic_serial_waker::{RegisterReport, SettleReport, WakeReport};
use crate::error::SendError;
use crate::outside::{Fullness, Observed, Offered};

verus! {

/// The answer of a poll: either a value is ready, or the caller has to wait to be woken.
#[derive(Debug, PartialEq, Eq)]
pub enum Polled<T> {
    Ready(T),
    Pending,
}

/// What one non-blocking receive found on the channel.
#[derive(Debug, PartialEq, Eq)]
pub enum RecvAttempt<T> {
    /// A message was taken off the channel.
    Item(T),
    /// The channel holds no message, but a sender is still connected.
    Empty,
    /// The channel holds no message and every sender is gone.
    Disconnected,
}

/// Why a non-blocking send did not place its message; the message comes back with it.
#[derive(Debug, PartialEq, Eq)]
pub enum SendRefusal<T> {
    /// The channel had no room (for a channel of capacity zero: no receiver was waiting).
    Full(T),
    /// Every receiver is gone.
    Disconnected(T),
}

impl<T> SendRefusal<T> {
    /// The message that was refused.
    pub open spec fn message(self) -> T {
        match self {
            SendRefusal::Full(m) => m,
            SendRefusal::Disconnected(m) => m,
        }
    }
}

/// How the first, non-blocking attempt of a send ended.
#[derive(Debug, PartialEq, Eq)]
pub enum SendProgress<T> {
    /// The message is on the channel.
    Sent,
    /// The channel is full; the message is handed back to be sent once there is room.
    Blocked(T),
    /// Every receiver is gone; the message is dropped.
    Closed,
}

/// The poll answer that one receive attempt stands for: a taken message is ready, a
/// disconnected channel ends the stream, and an empty one means waiting.
pub open spec fn spec_poll_of<T>(attempt: RecvAttempt<T>) -> Polled<Option<T>> {
    match attempt {
        RecvAttempt::Item(t) => Polled::Ready(Some(t)),
        RecvAttempt::Empty => Polled::Pending,
        RecvAttempt::Disconnected => Polled::Ready(None),
    }
}

/// Turns one receive attempt into the answer of a poll.
pub fn poll_of<T>(attempt: RecvAttempt<T>) -> (r: Polled<Option<T>>)
    ensures
        r == spec_poll_of(attempt),
{
    match attempt {
        RecvAttempt::Item(t) => Polled::Ready(Some(t)),
        RecvAttempt::Empty => Polled::Pending,
        RecvAttempt::Disconnected => Polled::Ready(None),
    }
}

/// The counter value that a conditional decrement writes: one less when the counter is
/// positive, nothing when it is zero.
pub open spec fn spec_decrement_if_positive(v: usize) -> Option<usize> {
    if v > 0 {
        Some((v - 1) as usize)
    } else {
        None
    }
}

/// Computes the value a positive counter is decremented to, or `None` at zero.
pub fn decrement_if_positive(v: usize) -> (r: Option<usize>)
    ensures
        r == spec_decrement_if_positive(v),
{
    if v > 0 {
        Some(v - 1)
    } else {
        None
    }
}

/// A receiving handle's own record of its last call: the first, non-blocking attempt;
/// whether it consumed a wake-up from a sender; the attempt made after registering its
/// task (or, on a zero-capacity channel, the blocking receive), if any; how the
/// registration went; and how the wake-up of a task waiting to send went, if one was made.
pub struct RecvLook<T> {
    pub first: Observed<T>,
    pub woken: bool,
    pub second: Option<Observed<T>>,
    pub registered: Option<RegisterReport>,
    pub woke_senders: Option<WakeReport>,
}

/// The answer a receiving handle gives for what it saw: the first attempt decides unless
/// it found the channel empty; then the second attempt decides, and without one the
/// handle waits.
pub open spec fn spec_recv_answer<T>(look: RecvLook<T>) -> Polled<Option<T>> {
    match look.first@ {
        RecvAttempt::Empty => match look.second {
            Some(a) => spec_poll_of(a@),
            None => Polled::Pending,
        },
        a => spec_poll_of(a),
    }
}

/// Whether a poll registers its task after finding the channel empty: on the first such
/// poll, and after a wake-up from a sender.
pub open spec fn spec_registers(first: bool, woken: bool) -> bool {
    first || woken
}

/// Decides whether a poll that found the channel empty registers its task.
pub fn registers(first: bool, woken: bool) -> (r: bool)
    ensures
        r == spec_registers(first, woken),
{
    first || woken
}

/// How a send attempt ends, for each answer of the channel: placed, handed back for a
/// later try when the channel is full, or dropped when every receiver is gone.
pub open spec fn spec_progress_of<T>(outcome: Result<(), SendRefusal<T>>) -> SendProgress<T> {
    match outcome {
        Ok(()) => SendProgress::Sent,
        Err(SendRefusal::Full(m)) => SendProgress::Blocked(m),
        Err(SendRefusal::Disconnected(_)) => SendProgress::Closed,
    }
}

/// Turns the answer of the channel to a send into the progress of the send.
pub fn progress_of<T>(outcome: Result<(), SendRefusal<T>>) -> (r: SendProgress<T>)
    ensures
        r == spec_progress_of(outcome),
{
    match outcome {
        Ok(()) => SendProgress::Sent,
        Err(SendRefusal::Full(m)) => SendProgress::Blocked(m),
        Err(SendRefusal::Disconnected(_)) => SendProgress::Closed,
    }
}

/// The poll answer of a send for each answer of the channel: done when the message was
/// placed, waiting when the channel is full, and an error when every receiver is gone.
pub open spec fn spec_send_poll_of<T>(outcome: Result<(), SendRefusal<T>>) -> Polled<
    Result<(), SendError>,
> {
    match outcome {
        Ok(()) => Polled::Ready(Ok(())),
        Err(SendRefusal::Full(_)) => Polled::Pending,
        Err(SendRefusal::Disconnected(_)) => Polled::Ready(Err(SendError)),
    }
}

/// Turns the answer of the channel to a send into the answer of a poll.
pub fn send_poll_of<T>(outcome: Result<(), SendRefusal<T>>) -> (r: Polled<Result<(), SendError>>)
    ensures
        r == spec_send_poll_of(outcome),
{
    match outcome {
        Ok(()) => Polled::Ready(Ok(())),
        Err(SendRefusal::Full(_)) => Polled::Pending,
        Err(SendRefusal::Disconnected(_)) => Polled::Ready(Err(SendError)),
    }
}

/// A sending handle's own record of its last call: the answers to its send attempts, or,
/// for a poll for room, whether the channel was full at each look; how the registration
/// of its task went, if it registered; and how the wake-up of a waiting receiver went, if
/// one was made.
pub enum SendLook<T> {
    Sent {
        first: Offered<T>,
        second: Option<Offered<T>>,
        registered: Option<RegisterReport>,
        woke: Option<WakeReport>,
    },
    Room { first_full: Fullness, second_full: Option<Fullness>, registered: Option<RegisterReport> },
}

/// The answer of a poll for room: ready when the channel has room, waiting when full.
pub open spec fn spec_ready_of(full: bool) -> Polled<Result<(), SendError>> {
    if full {
        Polled::Pending
    } else {
        Polled::Ready(Ok(()))
    }
}

/// Turns whether the channel is full into the answer of a poll for room.
pub fn ready_of(full: bool) -> (r: Polled<Result<(), SendError>>)
    ensures
        r == spec_ready_of(full),
{
    if full {
        Polled::Pending
    } else {
        Polled::Ready(Ok(()))
    }
}

/// Whether a conditional decrement of a counter took place, for each answer of the
/// atomic update: it did exactly when the update function was applied.
pub fn decremented(outcome: Result<usize, usize>) -> (r: bool)
    ensures
        r == (outcome is Ok),
{
    match outcome {
        Ok(_) => true,
        Err(_) => false,
    }
}

/// Whether a count of live senders means that every sender is gone.
pub fn terminated(count: usize) -> (r: bool)
    ensures
        r == (count == 0),
{
    count == 0
}

/// What an `AtomicSerialWaker` does with a registration or a wake-up.
#[derive(Debug, PartialEq, Eq, Clone, Copy)]
pub enum WakerStep {
    /// Wake the oldest registered task.
    WakeOldest,
    /// Keep the wake-up for a later registration.
    StoreWakeUp,
    /// No slot is free: wake the registering task at once, so that it polls again.
    WakeNow,
    /// The task is queued: see whether a wake-up came before it.
    Settle,
    /// Nothing to do.
    Idle,
}

/// A wake-up wakes the oldest task exactly when it took one off the queue, and otherwise
/// keeps the wake-up.
pub open spec fn spec_wake_fits(r: WakeReport) -> bool {
    r@.2 == spec_wake_step(r@.1)
}

/// Settling consumes a kept wake-up exactly when the count it found was positive, and
/// takes a task off the queue only after consuming one, and then wakes it; so the queue is
/// never reordered.
pub open spec fn spec_settle_fits(r: SettleReport) -> bool {
    &&& r@.0 == (r.kept_before() > 0)
    &&& r@.2 == spec_settle_step(r@.0, r@.1)
    &&& (!r@.0 ==> !r@.1)
}

/// A registration settles exactly when its task found a free slot, and is woken at once
/// otherwise.
pub open spec fn spec_register_fits(r: RegisterReport) -> bool {
    &&& r@.3 == spec_register_step(r@.2)
    &&& (r@.4 is Some <==> r@.2)
    &&& (r@.4 matches Some(s) ==> spec_settle_fits(s))
}

/// What a registration does: a queued task goes on to settle, one that found no free
/// slot is woken at once.
pub open spec fn spec_register_step(pushed: bool) -> WakerStep {
    if pushed {
        WakerStep::Settle
    } else {
        WakerStep::WakeNow
    }
}

/// Decides what a registration does.
pub fn register_step(pushed: bool) -> (r: WakerStep)
    ensures
        r == spec_register_step(pushed),
{
    if pushed {
        WakerStep::Settle
    } else {
        WakerStep::WakeNow
    }
}

/// What settling a registration does: without a kept wake-up nothing happens; with one,
/// the oldest task is woken, or the wake-up is kept again if the queue turned out empty.
pub open spec fn spec_settle_step(pending: bool, popped: bool) -> WakerStep {
    if !pending {
        WakerStep::Idle
    } else if popped {
        WakerStep::WakeOldest
    } else {
        WakerStep::StoreWakeUp
    }
}

/// Decides what settling a registration does.
pub fn settle_step(pending: bool, popped: bool) -> (r: WakerStep)
    ensures
        r == spec_settle_step(pending, popped),
{
    if !pending {
        WakerStep::Idle
    } else if popped {
        WakerStep::WakeOldest
    } else {
        WakerStep::StoreWakeUp
    }
}

/// What a wake-up does: it wakes the oldest registered task, or with none registered it
/// is kept for the next registration.
pub open spec fn spec_wake_step(popped: bool) -> WakerStep {
    if popped {
        WakerStep::WakeOldest
    } else {
        WakerStep::StoreWakeUp
    }
}

/// Decides what a wake-up does.
pub fn wake_step(popped: bool) -> (r: WakerStep)
    ensures
        r == spec_wake_step(popped),
{
    if popped {
        WakerStep::WakeOldest
    } else {
        WakerStep::StoreWakeUp
    }
}

/// Whether what a poll of a receiving handle saw fits its steps: a wake-up is only
/// looked for after the first poll, the second attempt is made exactly when the first
/// found the channel empty and the poll registers its task, and on a zero-capacity
/// channel the second attempt is a blocking receive, which never finds it empty.
pub open spec fn spec_poll_look_fits<T>(first: bool, zero: bool, look: RecvLook<T>) -> bool {
    &&& (first ==> !look.woken)
    &&& (look.second is Some <==> (look.first@ is Empty && spec_registers(first, look.woken)))
    &&& (zero ==> (look.second matches Some(a) ==> !(a@ is Empty)))
    &&& (look.registered is Some <==> look.second is Some)
    &&& (look.registered matches Some(g) ==> spec_register_fits(g))
    &&& (look.woke_senders matches Some(w) ==> spec_wake_fits(w))
}

/// A receive of a bounded channel that takes a message wakes a task waiting for room.
pub open spec fn spec_wakes_senders<T>(look: RecvLook<T>) -> bool {
    spec_recv_answer(look) matches Polled::Ready(Some(_)) ==> look.woke_senders is Some
}

/// Whether what a receive attempt saw fits its steps: it looks for no wake-up, and it
/// makes a second, blocking attempt exactly when the channel has capacity zero and the
/// first attempt found it empty; that blocking attempt never finds it empty.
pub open spec fn spec_recv_look_fits<T>(zero: bool, look: RecvLook<T>) -> bool {
    &&& !look.woken
    &&& (look.second is Some <==> (look.first@ is Empty && zero))
    &&& (look.second matches Some(a) ==> !(a@ is Empty))
    &&& look.registered is None
    &&& (look.woke_senders matches Some(w) ==> spec_wake_fits(w))
}

/// The answer of a poll of a send: the second attempt decides if there was one, else the
/// first.
pub open spec fn spec_send_answer<T>(first: Offered<T>, second: Option<Offered<T>>) -> Polled<
    Result<(), SendError>,
> {
    match second {
        Some(o) => spec_send_poll_of(o@),
        None => spec_send_poll_of(first@),
    }
}

/// Whether what a poll of a send saw fits its steps: a second attempt is made exactly when
/// the first found the channel full, and on a zero-capacity channel the second attempt is a
/// blocking send, which never finds it full.
pub open spec fn spec_send_look_fits<T>(
    zero: bool,
    first: Offered<T>,
    second: Option<Offered<T>>,
) -> bool {
    &&& (second is Some <==> first@ matches Err(SendRefusal::Full(_)))
    &&& (zero ==> (second matches Some(o) ==> !(o@ matches Err(SendRefusal::Full(_)))))
}

/// The answer of a poll for room: the second look decides if there was one, else the first.
pub open spec fn spec_room_answer(first_full: Fullness, second_full: Option<Fullness>) -> Polled<
    Result<(), SendError>,
> {
    match second_full {
        Some(f) => spec_ready_of(f@),
        None => spec_ready_of(first_full@),
    }
}

/// What the receives a call recorded in `look` got from the channel, in order.
pub open spec fn spec_taken<T>(look: RecvLook<T>) -> Seq<RecvAttempt<T>> {
    match look.second {
        Some(a) => seq![look.first@, a@],
        None => seq![look.first@],
    }
}

/// A receiving call hands over every message it takes off the channel: when its second
/// receive is made only after the first found the channel empty, then each message among
/// the answers its receives got is the message it returns, and so it takes at most one.
pub proof fn law_answer_returns_each_message_taken<T>(look: RecvLook<T>)
    requires
        look.second is Some ==> look.first@ is Empty,
    ensures
        forall|i: int|
            0 <= i < spec_taken(look).len() ==> (#[trigger] spec_taken(look)[i] matches RecvAttempt::Item(t)
                ==> spec_recv_answer(look) == Polled::Ready(Some(t))),
        forall|i: int, j: int|
            0 <= i < spec_taken(look).len() && 0 <= j < spec_taken(look).len() && #[trigger] spec_taken(
                look,
            )[i] is Item && #[trigger] spec_taken(look)[j] is Item ==> i == j,
        spec_recv_answer(look) is Pending ==> forall|i: int|
            0 <= i < spec_taken(look).len() ==> (#[trigger] spec_taken(look)[i]) is Empty,
{
}

} // verus!
