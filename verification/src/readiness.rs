//! The readiness counter of `mio`, as far as the channel calls it.
//!
//! The types and functions of `mio` that are declared here are taken on trust. The
//! counter is shared between two threads and signals through the multiplexer that
//! its consumer side is registered with, so no declaration says what a call
//! returns. What the channel states of a call, it states through `paired` and
//! `signalled`.

use mio::channel::{ReceiverCtl, SenderCtl};
use vstd::prelude::*;

verus! {

/// `std::io::Error`, carried through unread.
#[verifier::external_type_specification]
#[verifier::external_body]
pub struct ExIoError(std::io::Error);

/// `mio::channel::SenderCtl`, the producer-side handle of a readiness counter.
#[verifier::external_type_specification]
#[verifier::external_body]
pub struct ExSenderCtl(SenderCtl);

/// `mio::channel::ReceiverCtl`, the consumer-side handle of a readiness counter: the
/// handle that a multiplexer registers.
#[verifier::external_type_specification]
#[verifier::external_body]
pub struct ExReceiverCtl(ReceiverCtl);

/// `mio::channel::ctl_pair` makes a counter with nothing pending and returns its two
/// handles. Nothing is claimed of them.
pub assume_specification[ mio::channel::ctl_pair ]() -> (handles: (SenderCtl, ReceiverCtl));

/// `mio::channel::SenderCtl::inc` records one more pending notification and, where
/// the count was zero and the consumer side is registered, marks it readable. It
/// does not wait. Whether it succeeds is decided by the multiplexer that is woken,
/// so nothing is claimed of the result.
pub assume_specification[ SenderCtl::inc ](ctl: &SenderCtl) -> (answer: std::io::Result<()>);

/// The two handles can have come out of one call that made a counter: they are the
/// two sides of the same counter.
pub open spec fn paired(producer_side: SenderCtl, consumer_side: ReceiverCtl) -> bool {
    call_ensures(mio::channel::ctl_pair, (), (producer_side, consumer_side))
}

/// `answer` is something that the counter can have returned when `ctl` was asked to
/// record one more pending notification.
pub open spec fn signalled(ctl: &SenderCtl, answer: Result<(), std::io::Error>) -> bool {
    call_ensures(SenderCtl::inc, (ctl,), answer)
}

} // verus!
