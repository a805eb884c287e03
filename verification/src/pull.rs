//! What the pull adapter returns from one poll.

use crate::error::Error;
use vstd::prelude::*;

verus! {

/// Whether a polled value is there yet.
#[derive(Debug, PartialEq, Eq)]
pub enum Async<T> {
    /// The value is there.
    Ready(T),
    /// Nothing is there yet; poll again once the readiness event has fired.
    NotReady,
}

/// What a poll returns once the consumer end has given `answer`.
///
/// An empty buffer is "not ready", not the end of the sequence: the adapter never
/// reports `Ready(None)`, and it never fails.
pub open spec fn poll_outcome<T>(answer: Option<T>) -> Result<Async<Option<T>>, Error> {
    match answer {
        None => Ok(Async::NotReady),
        Some(value) => Ok(Async::Ready(Some(value))),
    }
}

/// Turns what the consumer end gave into the result of a poll.
pub fn conclude_poll<T>(answer: Option<T>) -> (polled: Result<Async<Option<T>>, Error>)
    ensures
        polled == poll_outcome(answer),
{
    match answer {
        None => Ok(Async::NotReady),
        Some(value) => Ok(Async::Ready(Some(value))),
    }
}

} // verus!
