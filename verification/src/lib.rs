//! Channels for async tasks built on crossbeam's channels, with cloneable receivers and a
//! waker that wakes waiting tasks in the order they registered.
//!
//! The handles here do the work of one poll each: a poll takes the task's `Waker` and
//! answers with a `Polled` value, so that an executor's `Stream` and `Sink` can be laid
//! over them.
pub mod atomic_serial_waker;
mod bounded;
pub mod counters;
mod error;
pub mod outcome;
mod outside;
mod unbounded;

pub use bounded::{law_poll_next_returns_each_message_it_takes, lemma_clones_stay_linked, bounded, bounded_capacity_supported, BoundedLink, Receiver, Sender};
pub use error::{lemma_send_error_has_one_reason, SendError, TrySendError};
pub use outcome::{Polled, RecvAttempt, SendProgress, SendRefusal};
pub use outside::bounded_capacity_fits;
pub use unbounded::{law_unbounded_poll_next_returns_each_message_it_takes, law_unbounded_try_send_refused_only_when_closed, lemma_unbounded_clones_stay_linked, unbounded, UnboundedLink, UnboundedReceiver, UnboundedSender};
