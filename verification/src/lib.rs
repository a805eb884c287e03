//! A bounded single-producer/single-consumer channel whose receiving side can be
//! watched by a readiness multiplexer.
//!
//! A channel joins two independent pieces of state: the two ends of a bounded
//! lock-free queue, which hold the values, and the two handles of a readiness
//! counter, which lets a consumer sleep in its event loop until something was sent.
//! The counter is a wake-up hint and never a count of the values that wait: a
//! consumer that was woken pulls until the channel reports that it is empty.
#![allow(deprecated)]

use vstd::prelude::*;

pub mod channel;
pub mod error;
pub mod pull;
pub mod queue;
pub mod readiness;

pub use channel::{conclude_recv, conclude_send, pump, Receiver, Sender};
pub use error::Error;
pub use pull::{conclude_poll, Async};
pub use queue::{Consumer, Producer};
