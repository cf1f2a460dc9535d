//! The shared counters of a channel: how many handles of one end are live, and how many
//! wake-ups are kept for a later registration. Each is changed only through the methods
//! here, so every change is one of the steps they name.
use vstd::prelude::*;

use core::sync::atomic::AtomicUsize;
use core::sync::atomic::Ordering;

use crate::outcome::{decremented, spec_decrement_if_positive, terminated};
use crate::outside::{counter_decrement_if_positive, counter_load_consume};

verus! {

/// The value a conditional decrement leaves in a counter that held `found`: one less when
/// it was positive, the same value when it was zero.
pub open spec fn spec_left_after_taking(found: usize) -> usize {
    match spec_decrement_if_positive(found) {
        Some(w) => w,
        None => found,
    }
}

/// Takes one off the counter if it is positive, atomically. The answer says whether it
/// did, with the value the counter was found holding: it took one exactly when that value
/// was positive.
pub fn take_one_from(counter: &AtomicUsize) -> (r: (bool, Ghost<usize>))
    ensures
        r.0 == (r.1@ > 0),
{
    let seen = counter_load_consume(counter);
    if seen == 0 {
        return (false, Ghost(seen));
    }
    let outcome = counter_decrement_if_positive(counter);
    let ghost found: usize = match outcome {
        Ok(prev) => prev,
        Err(prev) => prev,
    };
    (decremented(outcome), Ghost(found))
}

/// Taking one off a counter removes exactly one when the counter was positive and nothing
/// when it was zero: whenever a take reports success, the value it leaves is one less than
/// the value it found; otherwise it found zero and leaves it.
pub proof fn law_take_one_removes_exactly_one(taken: bool, found: usize)
    requires
        taken == (found > 0),
    ensures
        taken ==> spec_left_after_taking(found) + 1 == found,
        !taken ==> found == 0 && spec_left_after_taking(found) == found,
{
}

/// The wake-ups that found no task to wake, kept for later registrations.
pub struct KeptWakeUps {
    count: AtomicUsize,
}

impl KeptWakeUps {
    /// No wake-up kept.
    pub fn new() -> (r: Self) {
        KeptWakeUps { count: AtomicUsize::new(0) }
    }

    /// Keeps one more wake-up.
    pub fn keep(&self) {
        self.count.fetch_add(1, Ordering::Release);
    }

    /// Consumes one kept wake-up, if there is one. The answer says whether it did, with
    /// the count of kept wake-ups it found: it consumed one exactly when that count was
    /// positive, and then leaves one less.
    pub fn take_one(&self) -> (r: (bool, Ghost<usize>))
        ensures
            r.0 == (r.1@ > 0),
    {
        take_one_from(&self.count)
    }
}

/// The count of live handles on one end of a channel.
pub struct LiveCount {
    count: AtomicUsize,
}

impl LiveCount {
    /// One live handle.
    pub fn new_one() -> (r: Self) {
        LiveCount { count: AtomicUsize::new(1) }
    }

    /// One more live handle.
    pub fn add_one(&self) {
        self.count.fetch_add(1, Ordering::Relaxed);
    }

    /// One handle fewer. The answer says whether it was the last one.
    pub fn remove_one(&self) -> (r: bool) {
        self.count.fetch_sub(1, Ordering::AcqRel) == 1
    }

    /// Reads the count. The answer says whether no handle is left, with the count it read:
    /// none is left exactly when that count is zero.
    pub fn none_left(&self) -> (r: (bool, Ghost<usize>))
        ensures
            r.0 == (r.1@ == 0),
    {
        let count = self.count.load(Ordering::Acquire);
        (terminated(count), Ghost(count))
    }
}

} // verus!
