//! Non-blocking hand-off to the worker threads (injector, device thread,
//! UIAccess broker) over crossbeam channels, and the signals that ask a worker
//! to stop or to restart its helper. What a signal holds is shared with
//! another thread, so nothing is stated of it.

use crossbeam_channel::Sender;
use std::sync::atomic::{AtomicBool, Ordering};
use vstd::prelude::*;

verus! {

#[verifier::external_type_specification]
#[verifier::external_body]
#[verifier::reject_recursive_types(T)]
pub struct ExSender<T>(Sender<T>);

/// `crossbeam_channel::Sender::try_send`: queues `msg` without blocking, or
/// gives up when the channel is full or disconnected.
///
/// Trusted, with no contract on the result: whether the message was queued
/// depends on the queue's state and on the receiving thread, so nothing is
/// stated beyond the message having been handed to the call.
#[verifier::external_body]
pub(crate) fn try_send<T>(tx: &Sender<T>, msg: T) -> (queued: bool) {
    tx.try_send(msg).is_ok()
}

/// A one-bit signal shared with a worker thread: a stop request, or a
/// request to restart a helper.
pub struct Signal {
    flag: AtomicBool,
}

impl Signal {
    /// A signal not yet raised.
    pub fn new() -> Self {
        Signal { flag: AtomicBool::new(false) }
    }

    pub fn raise(&self) {
        self.flag.store(true, Ordering::Relaxed);
    }

    pub fn is_raised(&self) -> bool {
        self.flag.load(Ordering::Relaxed)
    }

    /// Whether the signal was raised, lowering it again.
    pub fn take(&self) -> bool {
        self.flag.swap(false, Ordering::Relaxed)
    }
}

} // verus!
