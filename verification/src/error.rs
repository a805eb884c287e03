//! The failures that the channel reports.

use vstd::prelude::*;

verus! {

/// Why a channel operation failed.
///
/// A full buffer and an empty buffer are no failures: sending into a full buffer
/// waits, and receiving from an empty one returns an empty result.
#[derive(Debug)]
pub enum Error {
    /// The readiness counter could not record another pending notification. The
    /// value that was being sent is in the buffer all the same; only the wake-up
    /// for it was lost.
    NotificationSaturated(std::io::Error),
}

} // verus!
