//! The two sides of a channel and the function that makes them.

use crate::error::Error;
use crate::pull::{conclude_poll, poll_outcome, Async};
use crate::queue::{popped, pushed, Consumer, Producer};
use crate::readiness::{paired, signalled};
use mio::channel::{ReceiverCtl, SenderCtl};
use vstd::prelude::*;

verus! {

/// The sending side: the producing end of the queue and the producer-side handle of
/// the readiness counter.
pub struct Sender<P> {
    ctl: SenderCtl,
    inner: P,
}

/// The receiving side: the consuming end of the queue and the consumer-side handle
/// of the readiness counter.
pub struct Receiver<C> {
    ctl: ReceiverCtl,
    inner: C,
}

/// What `send` returns once the readiness counter has given `answer`: the counter's
/// failure, and nothing else, fails a send.
pub open spec fn send_outcome(answer: Result<(), std::io::Error>) -> Result<(), Error> {
    match answer {
        Ok(_) => Ok(()),
        Err(cause) => Err(Error::NotificationSaturated(cause)),
    }
}

/// What `recv` returns once the consumer end has given `answer`: an empty buffer is
/// an empty result and no error.
pub open spec fn recv_outcome<T>(answer: Option<T>) -> Result<Option<T>, Error> {
    Ok(answer)
}

/// Turns the answer of the readiness counter into the result of a send.
pub fn conclude_send(answer: Result<(), std::io::Error>) -> (sent: Result<(), Error>)
    ensures
        sent == send_outcome(answer),
{
    match answer {
        Ok(_) => Ok(()),
        Err(cause) => Err(Error::NotificationSaturated(cause)),
    }
}

/// Turns what the consumer end gave into the result of a receive.
pub fn conclude_recv<T>(answer: Option<T>) -> (received: Result<Option<T>, Error>)
    ensures
        received == recv_outcome(answer),
{
    Ok(answer)
}

/// An empty buffer is no failure on either way out of the channel: a receive
/// gives an empty result, and a poll says "not ready".
pub proof fn lemma_empty_is_no_failure<T>()
    ensures
        recv_outcome::<T>(None) == Ok::<Option<T>, Error>(None),
        poll_outcome::<T>(None) == Ok::<Async<Option<T>>, Error>(Async::NotReady),
{
}

/// The pull adapter and the direct receive agree on whatever the consumer end
/// gives: both succeed, a value is ready in the one exactly where it is received in
/// the other, and "not ready" stands exactly where the receive is empty.
pub proof fn lemma_poll_agrees_with_recv<T>(answer: Option<T>)
    ensures
        recv_outcome(answer) is Ok,
        poll_outcome(answer) is Ok,
        forall|value: T|
            poll_outcome(answer) == Ok::<Async<Option<T>>, Error>(Async::Ready(Some(value)))
                <==> recv_outcome(answer) == Ok::<Option<T>, Error>(Some(value)),
        poll_outcome(answer) == Ok::<Async<Option<T>>, Error>(Async::NotReady) <==> recv_outcome(
            answer,
        ) == Ok::<Option<T>, Error>(None),
{
}

/// Wires a channel around the two ends of one queue: the sender gets the producing
/// end, the receiver the consuming end, and the two share one new readiness counter.
pub fn pump<P, C>(producer: P, consumer: C) -> (sides: (Sender<P>, Receiver<C>)) where
    P: Producer,
    C: Consumer<Item = P::Item>,

    ensures
        sides.0.producer() == producer,
        sides.1.consumer() == consumer,
        paired(sides.0.counter(), sides.1.counter()),
{
    let (tx, rx) = mio::channel::ctl_pair();
    let tx = Sender { ctl: tx, inner: producer };
    let rx = Receiver { ctl: rx, inner: consumer };
    (tx, rx)
}

impl<P: Producer> Sender<P> {
    /// The producing end that this side pushes into.
    pub closed spec fn producer(&self) -> P {
        self.inner
    }

    /// The producer-side handle of the readiness counter.
    pub closed spec fn counter(&self) -> SenderCtl {
        self.ctl
    }

    /// Pushes `data` into the queue, waiting while it is full, and then records one
    /// more pending notification. Only the one producer thread may call it.
    ///
    /// A failure comes from the readiness counter alone, after the value has been
    /// written: the value is in the buffer whatever is returned.
    pub fn send(&self, data: P::Item) -> (sent: Result<(), Error>)
        ensures
            pushed(&self.producer(), data),
            exists|answer: Result<(), std::io::Error>|
                signalled(&self.counter(), answer) && sent == send_outcome(answer),
    {
        self.inner.push(data);
        let answer = self.ctl.inc();
        conclude_send(answer)
    }
}

impl<C: Consumer> Receiver<C> {
    /// The consuming end that this side pops from.
    pub closed spec fn consumer(&self) -> C {
        self.inner
    }

    /// The consumer-side handle of the readiness counter.
    pub closed spec fn counter(&self) -> ReceiverCtl {
        self.ctl
    }

    /// Takes the oldest unread value, or returns an empty result at once where the
    /// buffer is empty. It never waits and never fails.
    pub fn recv(&self) -> (received: Result<Option<C::Item>, Error>)
        ensures
            exists|answer: Option<C::Item>|
                popped(&self.consumer(), answer) && received == recv_outcome(answer),
    {
        let answer = self.inner.try_pop();
        conclude_recv(answer)
    }

    /// One step of the pull adapter: the oldest unread value where there is one,
    /// "not ready" where the buffer is empty. It never waits, never fails and
    /// never reports the end of the sequence.
    ///
    /// Between two polls the adapter is idle or awaits readiness, and which of the
    /// two is decided by the buffer alone: the adapter keeps no state of its own, and
    /// a poll leaves the receiver as it was.
    pub fn poll(&mut self) -> (polled: Result<Async<Option<C::Item>>, Error>)
        ensures
            *final(self) == *old(self),
            exists|answer: Option<C::Item>|
                popped(&old(self).consumer(), answer) && polled == poll_outcome(answer),
    {
        let answer = self.inner.try_pop();
        conclude_poll(answer)
    }

    /// The handle to register with a multiplexer, so that a consumer can wait for the
    /// readiness event in place of polling.
    pub fn readiness(&self) -> (handle: &ReceiverCtl)
        ensures
            *handle == self.counter(),
    {
        &self.ctl
    }
}

} // verus!
