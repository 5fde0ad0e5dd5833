//! The one-way channel between a worker and its session, and the flag by
//! which a session tells its worker to stop.
//!
//! Both are shared with another thread, so nothing is claimed about what a
//! send, a drain or a read of the flag returns: the code that uses them is
//! verified for every outcome. What is claimed is which things belong
//! together: the two ends of one channel, and the handles to one flag.

use vstd::prelude::*;
use std::sync::atomic::{AtomicBool, Ordering};
use std::sync::Arc;
use crate::sampler::Sample;

verus! {

/// The sending end of a `crossbeam_channel` channel. Opaque to the verifier.
#[verifier::external_type_specification]
#[verifier::external_body]
#[verifier::reject_recursive_types(T)]
pub struct ExSender<T>(crossbeam_channel::Sender<T>);

/// The receiving end of a `crossbeam_channel` channel. Opaque to the verifier.
#[verifier::external_type_specification]
#[verifier::external_body]
#[verifier::reject_recursive_types(T)]
pub struct ExReceiver<T>(crossbeam_channel::Receiver<T>);

/// The channel that a sending end belongs to.
pub uninterp spec fn sender_channel(tx: crossbeam_channel::Sender<Sample>) -> int;

/// The channel that a receiving end belongs to.
pub uninterp spec fn receiver_channel(rx: crossbeam_channel::Receiver<Sample>) -> int;

/// Creates a channel that holds any number of samples, with
/// `crossbeam_channel::unbounded`, and hands out its two ends. Trusted: the
/// two ends belong to one channel, so what is sent into the first is what
/// the second receives. Nothing is claimed about which channel it is.
#[verifier::external_body]
pub(crate) fn open_channel() -> (ends: (
    crossbeam_channel::Sender<Sample>,
    crossbeam_channel::Receiver<Sample>,
))
    ensures
        sender_channel(ends.0) == receiver_channel(ends.1),
{
    crossbeam_channel::unbounded()
}

/// Sends `message` with `Sender::send` and reports whether the channel took
/// it. Trusted; no outcome is promised, since the call fails exactly when
/// every receiver has been dropped, which another thread may do at any time.
/// On a channel made by `unbounded` the call does not block.
#[verifier::external_body]
pub(crate) fn send<T>(tx: &crossbeam_channel::Sender<T>, message: T) -> (delivered: bool) {
    tx.send(message).is_ok()
}

/// Takes every message that is buffered right now, oldest first, with
/// `Receiver::try_iter`, without waiting for more. Trusted; nothing is
/// claimed about how many there are or what they hold, since that depends on
/// what the sending thread has done so far.
#[verifier::external_body]
pub(crate) fn drain<T>(rx: &crossbeam_channel::Receiver<T>) -> (messages: Vec<T>) {
    rx.try_iter().collect()
}

/// A liveness flag shared between a session and its worker. It starts set;
/// the session clears it to ask the worker to stop. Two values of this type
/// are equal when they are handles to one flag.
pub struct LivenessFlag {
    flag: Arc<AtomicBool>,
}

impl LivenessFlag {
    /// A fresh flag, set.
    pub(crate) fn new() -> (flag: LivenessFlag) {
        LivenessFlag { flag: Arc::new(AtomicBool::new(true)) }
    }

    /// Another handle to this flag, for the worker: what one handle clears,
    /// the other reads.
    pub(crate) fn handle(&self) -> (other: LivenessFlag)
        ensures
            other == *self,
    {
        LivenessFlag { flag: self.flag.clone() }
    }

    /// Reads the flag. Another thread may clear it at any moment, so the
    /// result is not determined by anything the caller knows.
    pub(crate) fn is_set(&self) -> (set: bool) {
        self.flag.load(Ordering::SeqCst)
    }

    /// Clears the flag.
    pub(crate) fn clear(&self) {
        self.flag.store(false, Ordering::SeqCst);
    }
}

} // verus!
