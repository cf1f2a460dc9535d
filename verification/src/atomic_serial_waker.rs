//! A waker slot shared by the two ends of a channel, which wakes the registered tasks in
//! the order they registered.
use vstd::prelude::*;

use core::sync::atomic::AtomicUsize;
use core::sync::atomic::Ordering;
use core::task::Waker;
use crossbeam::queue::ArrayQueue;
use std::sync::Arc;

use crate::outcome::{
    register_step, settle_step, spec_register_fits, spec_settle_fits, spec_wake_fits,
    wake_step, WakerStep,
};
use crate::counters::{spec_left_after_taking, take_one_from, KeptWakeUps, law_take_one_removes_exactly_one};
use crate::outside::{
    waker_clone, waker_queue_new, waker_queue_pop, waker_queue_push, waker_wake, waker_wake_by_ref,
};

verus! {

/// How many registered tasks an `AtomicSerialWaker` keeps waiting at a time; a task that
/// finds no free slot is woken at once, so that it polls again.
pub const WAKER_SLOTS: usize = 4;

/// Decrements the counter by one if it is positive, atomically, and says whether it did.
/// Whether the counter is positive depends on the other threads; `take_one_from` states
/// that the answer is whether the value it found was positive.
pub fn positive_update(a: &AtomicUsize) -> bool {
    let (taken, _) = take_one_from(a);
    taken
}

/// How a wake-up went: the waker that made it, whether a registered task was taken off
/// its queue, and the step taken. Only `AtomicSerialWaker::wake` makes one.
pub struct WakeReport {
    by: Ghost<AtomicSerialWaker>,
    popped: bool,
    step: WakerStep,
}

impl View for WakeReport {
    type V = (AtomicSerialWaker, bool, WakerStep);

    closed spec fn view(&self) -> (AtomicSerialWaker, bool, WakerStep) {
        (self.by@, self.popped, self.step)
    }
}

impl WakeReport {
    /// Whether a registered task was taken off the queue.
    pub fn popped(&self) -> (r: bool)
        ensures
            r == self@.1,
    {
        self.popped
    }

    /// The step taken.
    pub fn step(&self) -> (r: WakerStep)
        ensures
            r == self@.2,
    {
        self.step
    }
}

/// How settling a registration went: whether a kept wake-up was consumed, whether a task
/// was taken off the queue, and the step taken. Only `AtomicSerialWaker` makes one.
pub struct SettleReport {
    pending: bool,
    found: Ghost<usize>,
    popped: bool,
    step: WakerStep,
}

impl View for SettleReport {
    type V = (bool, bool, WakerStep);

    closed spec fn view(&self) -> (bool, bool, WakerStep) {
        (self.pending, self.popped, self.step)
    }
}

impl SettleReport {
    /// The count of kept wake-ups that settling found.
    pub closed spec fn kept_before(&self) -> usize {
        self.found@
    }

    /// The count of kept wake-ups that settling left when it took one off: one less than
    /// it found if that was positive, else the same. A step `StoreWakeUp` then keeps the
    /// consumed wake-up again.
    pub open spec fn kept_after(&self) -> usize {
        spec_left_after_taking(self.kept_before())
    }

    /// Whether a kept wake-up was consumed.
    pub fn pending(&self) -> (r: bool)
        ensures
            r == self@.0,
    {
        self.pending
    }

    /// Whether a registered task was taken off the queue.
    pub fn popped(&self) -> (r: bool)
        ensures
            r == self@.1,
    {
        self.popped
    }

    /// The step taken.
    pub fn step(&self) -> (r: WakerStep)
        ensures
            r == self@.2,
    {
        self.step
    }
}

/// How a registration went: the waker it was made on, the task's waker it registered,
/// whether the task found a free slot, the step taken, and how settling went if the task
/// was queued. Only `AtomicSerialWaker::register` makes one.
pub struct RegisterReport {
    by: Ghost<AtomicSerialWaker>,
    waker: Ghost<Waker>,
    pushed: bool,
    step: WakerStep,
    settled: Option<SettleReport>,
}

impl View for RegisterReport {
    type V = (AtomicSerialWaker, Waker, bool, WakerStep, Option<SettleReport>);

    closed spec fn view(&self) -> (AtomicSerialWaker, Waker, bool, WakerStep, Option<SettleReport>) {
        (self.by@, self.waker@, self.pushed, self.step, self.settled)
    }
}

impl RegisterReport {
    /// Whether the task found a free slot.
    pub fn pushed(&self) -> (r: bool)
        ensures
            r == self@.2,
    {
        self.pushed
    }

    /// The step taken.
    pub fn step(&self) -> (r: WakerStep)
        ensures
            r == self@.3,
    {
        self.step
    }

    /// How settling went, if the task was queued: whether a kept wake-up was consumed,
    /// whether a task was taken off the queue, and the step taken.
    pub fn settled(&self) -> (r: Option<(bool, bool, WakerStep)>)
        ensures
            r == (match self@.4 {
                Some(s) => Some(s@),
                None => None,
            }),
    {
        match &self.settled {
            Some(s) => Some((s.pending, s.popped, s.step)),
            None => None,
        }
    }
}

/// Keeps the wakers of the tasks waiting on one end of a channel, oldest first.
pub struct AtomicSerialWaker {
    waker: ArrayQueue<Waker>,
    /// Wake-ups that found no task to wake; a later registration consumes one.
    waiting: KeptWakeUps,
    /// Counts the wake-ups this waker performed; shared with the receiving end, which
    /// registers again only after such a wake-up.
    from_me: Arc<AtomicUsize>,
}

impl AtomicSerialWaker {
    /// The wake-up counter shared with the receiving end.
    pub closed spec fn signal(&self) -> Arc<AtomicUsize> {
        self.from_me
    }

    /// A waker with no task registered, which counts its wake-ups in `from_me`.
    pub fn new(from_me: Arc<AtomicUsize>) -> (s: Self)
        ensures
            s.signal() == from_me,
    {
        AtomicSerialWaker {
            waker: waker_queue_new(WAKER_SLOTS),
            waiting: KeptWakeUps::new(),
            from_me: from_me,
        }
    }

    /// The name this waker describes itself by.
    pub fn describe(&self) -> (s: String)
        ensures
            s@ == "AtomicSerialWaker"@,
    {
        "AtomicSerialWaker".to_owned()
    }

    /// Registers the task of `waker` to be woken by a later `wake`, behind the tasks
    /// registered before it. If all slots are taken, the task is woken at once instead.
    /// The report says which of the two happened and, for a queued task, how settling went.
    pub fn register(&self, waker: &Waker) -> (r: RegisterReport)
        ensures
            spec_register_fits(r),
            r@.0 == *self,
            r@.1 == *waker,
    {
        let pushed = waker_queue_push(&self.waker, waker_clone(waker));
        let is_pushed = match &pushed {
            Ok(()) => true,
            Err(_) => false,
        };
        let step = register_step(is_pushed);
        match step {
            WakerStep::Settle => {
                let settled = self.wk();
                RegisterReport {
                    by: Ghost(*self),
                    waker: Ghost(*waker),
                    pushed: is_pushed,
                    step,
                    settled: Some(settled),
                }
            },
            _ => {
                if let Err(w) = pushed {
                    self.from_me.fetch_add(1, Ordering::Release);
                    waker_wake_by_ref(&w);
                }
                RegisterReport {
                    by: Ghost(*self),
                    waker: Ghost(*waker),
                    pushed: is_pushed,
                    step,
                    settled: None,
                }
            },
        }
    }

    /// After a registration: if a wake-up came while no task was registered, it wakes the
    /// oldest registered task now (and keeps the wake-up again if another thread emptied
    /// the queue meanwhile). A task leaves the queue only to be woken, so the queue keeps
    /// its order.
    fn wk(&self) -> (r: SettleReport)
        ensures
            spec_settle_fits(r),
    {
        let (pending, found) = self.waiting.take_one();
        let task = if pending {
            waker_queue_pop(&self.waker)
        } else {
            None
        };
        let popped = match &task {
            Some(_) => true,
            None => false,
        };
        let step = settle_step(pending, popped);
        match step {
            WakerStep::WakeOldest => {
                if let Some(t) = task {
                    self.from_me.fetch_add(1, Ordering::Release);
                    waker_wake(t);
                }
            },
            WakerStep::StoreWakeUp => {
                self.waiting.keep();
            },
            _ => {},
        }
        SettleReport { pending, found, popped, step }
    }

    /// Wakes the oldest registered task, or, with none registered, keeps the wake-up
    /// for the next registration. The report says which of the two happened.
    pub fn wake(&self) -> (r: WakeReport)
        ensures
            spec_wake_fits(r),
            r@.0 == *self,
    {
        let task = waker_queue_pop(&self.waker);
        let popped = match &task {
            Some(_) => true,
            None => false,
        };
        let step = wake_step(popped);
        match step {
            WakerStep::WakeOldest => {
                if let Some(t) = task {
                    self.from_me.fetch_add(1, Ordering::Release);
                    waker_wake(t);
                }
            },
            _ => {
                self.waiting.keep();
            },
        }
        WakeReport { by: Ghost(*self), popped, step }
    }
}

/// Settling a registration consumes exactly one kept wake-up: when it reports one
/// consumed, the count of kept wake-ups it leaves is one less than the count it found;
/// when it reports none, it found none and leaves the count as it was.
pub proof fn law_settling_consumes_exactly_one_kept_wake_up(r: SettleReport)
    requires
        spec_settle_fits(r),
    ensures
        r@.0 ==> r.kept_after() + 1 == r.kept_before(),
        !r@.0 ==> r.kept_before() == 0 && r.kept_after() == r.kept_before(),
{
    law_take_one_removes_exactly_one(r@.0, r.kept_before());
}

} // verus!
