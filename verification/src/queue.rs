//! The two ends of the bounded queue that carries the values.
//!
//! The channel owns one end on each side and decides nothing about the buffer
//! itself: capacity, ordering and visibility between the two threads belong to the
//! queue behind these traits. The traits carry no contract, so nothing that is
//! proved of the channel rests on how an end behaves. What the channel states of a
//! call into an end, it states through `pushed` and `popped`.

use vstd::prelude::*;

verus! {

/// The producing end of a bounded single-producer/single-consumer queue.
pub trait Producer {
    /// The values that travel through the queue.
    type Item;

    /// Writes `value` behind everything that was pushed before it. While the queue
    /// is full the call waits for the consumer to free a slot; it never drops or
    /// overwrites a value.
    fn push(&self, value: Self::Item);
}

/// The consuming end of a bounded single-producer/single-consumer queue.
pub trait Consumer {
    /// The values that travel through the queue.
    type Item;

    /// Takes the oldest unread value out of the queue, or returns `None` at once
    /// where there is none. It never waits.
    fn try_pop(&self) -> Option<Self::Item>;
}

/// A `push` of `value` into `producer` can have returned. Verified code knows this
/// of a value only after it has made that call.
pub open spec fn pushed<P: Producer>(producer: &P, value: P::Item) -> bool {
    call_ensures(P::push, (producer, value), ())
}

/// `answer` is something that `try_pop` can have returned on `consumer`. Verified
/// code knows this of a value only after it has got that value from such a call.
pub open spec fn popped<C: Consumer>(consumer: &C, answer: Option<C::Item>) -> bool {
    call_ensures(C::try_pop, (consumer,), answer)
}

} // verus!
