//! Deferred-release queues.
//!
//! A resource handle may lose its last owner on any thread, but driver
//! deletion calls may only be issued on the thread owning the graphics
//! context.  The queue decouples the two: a handle's destructor performs a
//! non-blocking enqueue of the resource's numeric ID, and the factory pops
//! the pending IDs at points of its choosing.  A full queue drops the
//! message rather than blocking, which can leak a driver resource but never
//! stalls the dropping thread.

use vstd::prelude::*;

verus! {

/// Maximum number of pending release messages per queue.
pub const MAX_QUEUE_SIZE: usize = 1024;

/// Declares `crossbeam_channel::Sender`, the multi-producer send half of a
/// channel, as an opaque outside type.
#[verifier::external_type_specification]
#[verifier::external_body]
#[verifier::reject_recursive_types(T)]
pub struct ExSender<T>(crossbeam_channel::Sender<T>);

/// Declares `crossbeam_channel::Receiver`, the receive half of a channel,
/// as an opaque outside type.
#[verifier::external_type_specification]
#[verifier::external_body]
#[verifier::reject_recursive_types(T)]
pub struct ExReceiver<T>(crossbeam_channel::Receiver<T>);

/// Relies on `crossbeam_channel::bounded`: creates one bounded channel and
/// returns its two halves.  It panics only when the capacity is too large
/// for the backing array to be allocated, which the bound below rules out.
#[verifier::external_body]
fn channel<T>(capacity: usize) -> (crossbeam_channel::Sender<T>, crossbeam_channel::Receiver<T>)
    requires
        1 <= capacity <= 65536,
{
    crossbeam_channel::bounded(capacity)
}

/// Relies on `crossbeam_channel::Receiver::try_recv`: a non-blocking pop
/// that returns an error instead of panicking when the channel is empty or
/// disconnected.
#[verifier::external_body]
fn try_recv<T>(rx: &crossbeam_channel::Receiver<T>) -> Option<T> {
    rx.try_recv().ok()
}

/// Relies on `crossbeam_channel::Sender::clone`: the clone is another send
/// handle on the very same channel, indistinguishable from the original.
pub assume_specification<T>[ <crossbeam_channel::Sender<T> as Clone>::clone ](
    tx: &crossbeam_channel::Sender<T>,
) -> (r: crossbeam_channel::Sender<T>)
    ensures
        r == *tx,
;

/// A bounded, multi-producer single-consumer queue of release messages.
///
/// Producers are handle destructors, which may run on any thread; the sole
/// consumer is the factory, on the context-owning thread.
#[verifier::reject_recursive_types(T)]
pub struct Queue<T> {
    /// Send half of the queue.
    pub tx: crossbeam_channel::Sender<T>,

    /// Receive half of the queue.
    pub rx: crossbeam_channel::Receiver<T>,
}

impl<T> Queue<T> {
    /// Constructor.
    pub fn new() -> Self {
        let (tx, rx) = channel(MAX_QUEUE_SIZE);
        Self { tx, rx }
    }

    /// Clone the send half of the queue.
    pub fn tx(&self) -> (r: crossbeam_channel::Sender<T>)
        ensures
            r == self.tx,
    {
        self.tx.clone()
    }

    /// Remove the item from the front of the queue, without blocking.
    pub fn next(&self) -> Option<T> {
        try_recv(&self.rx)
    }
}

/// Enqueues a release message on the owning category's queue when dropped.
///
/// Handles share one destructor through a reference-counted pointer, so the
/// message is enqueued exactly once: when the last owner is dropped.
#[derive(Debug)]
#[verifier::reject_recursive_types(T)]
pub struct Destructor<T: Copy> {
    /// The release message, carrying the resource's numeric ID.
    pub message: T,

    /// Send half of the resource category's release queue.
    pub tx: crossbeam_channel::Sender<T>,
}

impl<T: Copy> Drop for Destructor<T> {
    /// Relies on `crossbeam_channel::Sender::try_send`: a non-blocking
    /// enqueue that drops the message instead of blocking or panicking when
    /// the queue is full or disconnected.
    #[verifier::external_body]
    fn drop(&mut self)
        opens_invariants none
        no_unwind
    {
        let _ = self.tx.try_send(self.message);
    }
}

} // verus!
