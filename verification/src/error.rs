//! The errors a send reports.
use vstd::prelude::*;

use crate::outcome::SendRefusal;
use crate::outside::channel_refusal;
use crossbeam::crossbeam_channel::TrySendError as ChannelTrySendError;

verus! {

/// The channel is closed: no receiver is left.
#[derive(Debug, PartialEq, Eq)]
pub struct SendError;

impl SendError {
    /// The text that describes the error.
    pub fn describe(&self) -> (s: String)
        ensures
            s@ == "channel closed"@,
    {
        "channel closed".to_owned()
    }
}

/// Why a message could not be sent, with the message itself.
#[derive(Debug)]
enum ErrorKind {
    Closed,
    NoCapacity,
}

/// A non-blocking send failed; the message comes back with the reason.
#[derive(Debug)]
#[verifier::reject_recursive_types(T)]
pub struct TrySendError<T> {
    kind: ErrorKind,
    value: T,
}

impl<T> TrySendError<T> {
    /// The message that could not be sent.
    pub closed spec fn message(&self) -> T {
        self.value
    }

    /// Whether the send failed because every receiver is gone.
    pub closed spec fn spec_is_closed(&self) -> bool {
        self.kind is Closed
    }

    /// Whether the send failed because the channel had no room.
    pub closed spec fn spec_is_full(&self) -> bool {
        self.kind is NoCapacity
    }

    /// The error that a refusal of the channel stands for: a full channel is reported as
    /// lacking capacity, a disconnected one as closed, and the message is kept.
    pub fn from_refusal(refusal: SendRefusal<T>) -> (e: Self)
        ensures
            e.message() == refusal.message(),
            e.spec_is_full() == (refusal is Full),
            e.spec_is_closed() == (refusal is Disconnected),
    {
        match refusal {
            SendRefusal::Full(value) => TrySendError { kind: ErrorKind::NoCapacity, value },
            SendRefusal::Disconnected(value) => TrySendError { kind: ErrorKind::Closed, value },
        }
    }

    /// Gives back the message that could not be sent.
    pub fn into_inner(self) -> (r: T)
        ensures
            r == self.message(),
    {
        self.value
    }

    /// Whether the send failed because every receiver is gone.
    pub fn is_closed(&self) -> (r: bool)
        ensures
            r == self.spec_is_closed(),
    {
        match self.kind {
            ErrorKind::Closed => true,
            ErrorKind::NoCapacity => false,
        }
    }

    /// Whether the send failed because the channel had no room.
    pub fn is_full(&self) -> (r: bool)
        ensures
            r == self.spec_is_full(),
    {
        match self.kind {
            ErrorKind::NoCapacity => true,
            ErrorKind::Closed => false,
        }
    }

    /// The text that describes the error.
    pub fn describe(&self) -> (s: String)
        ensures
            self.spec_is_closed() ==> s@ == "channel closed"@,
            self.spec_is_full() ==> s@ == "no available capacity"@,
    {
        match self.kind {
            ErrorKind::Closed => "channel closed".to_owned(),
            ErrorKind::NoCapacity => "no available capacity".to_owned(),
        }
    }
}

impl<T> From<ChannelTrySendError<T>> for TrySendError<T> {
    /// The error a refusal of crossbeam stands for, as `from_refusal` gives it.
    fn from(err: ChannelTrySendError<T>) -> (e: Self) {
        TrySendError::from_refusal(channel_refusal(err))
    }
}

impl<T> vstd::std_specs::convert::FromSpecImpl<ChannelTrySendError<T>> for TrySendError<T> {
    /// crossbeam's error is opaque here, so no result is claimed for a given error.
    open spec fn obeys_from_spec() -> bool {
        false
    }

    open spec fn from_spec(v: ChannelTrySendError<T>) -> Self {
        vstd::pervasive::arbitrary()
    }
}

/// Every failed send has exactly one reason: the channel was either full or closed.
pub proof fn lemma_send_error_has_one_reason<T>(e: TrySendError<T>)
    ensures
        e.spec_is_full() != e.spec_is_closed(),
{
}

} // verus!
