//! The queues, locks and shared handles through which audio travels from a
//! plugin to the voice driver.

use std::sync::Arc;
use tokio::sync::RwLock;
use tokio::sync::mpsc::{Receiver, Sender};
use vstd::prelude::*;

verus! {

/// The sending half of a bounded tokio queue.
#[verifier::external_type_specification]
#[verifier::external_body]
#[verifier::reject_recursive_types(T)]
pub struct ExSender<T>(Sender<T>);

/// The receiving half of a bounded tokio queue.
#[verifier::external_type_specification]
#[verifier::external_body]
#[verifier::reject_recursive_types(T)]
pub struct ExReceiver<T>(Receiver<T>);

/// tokio's asynchronous reader-writer lock.
#[verifier::external_type_specification]
#[verifier::external_body]
#[verifier::reject_recursive_types(T)]
pub struct ExRwLock<T: ?Sized>(RwLock<T>);

/// The largest queue capacity that `tokio::sync::mpsc::channel` accepts: its
/// semaphore refuses more than `usize::MAX >> 3` permits.
pub open spec fn max_queue_capacity() -> nat {
    (usize::MAX / 8) as nat
}

/// Opens a bounded queue with room for `buffer` items.
///
/// Calls `tokio::sync::mpsc::channel`, which panics when `buffer` is 0 or
/// exceeds the semaphore's permit limit; both are ruled out here. Nothing is
/// stated of the two fresh halves beyond their existence.
#[verifier::external_body]
pub(crate) fn queue<T>(buffer: usize) -> (Sender<T>, Receiver<T>)
    requires
        0 < buffer <= max_queue_capacity(),
{
    tokio::sync::mpsc::channel(buffer)
}

/// Puts `value` under a fresh reader-writer lock.
///
/// Calls `tokio::sync::RwLock::new`; nothing is stated of the lock.
#[verifier::external_body]
pub(crate) fn lock<T>(value: T) -> RwLock<T> {
    RwLock::new(value)
}

/// Another handle on the value behind `a`.
///
/// Calls `Arc::clone`, which hands out a pointer to the same allocation; Verus
/// treats an `Arc` as the value it points to, so the two are equal.
#[verifier::external_body]
pub(crate) fn share<T>(a: &Arc<T>) -> (r: Arc<T>)
    ensures
        r == *a,
{
    a.clone()
}

/// Another sending handle on the queue that `s` sends into.
///
/// Calls `Sender::clone`, which clones the handle's pointer to the shared
/// queue. The contract treats the two handles as equal: both send into the
/// same queue. Left unsaid: the clone counts as one more open sender, so the
/// queue closes only once every handle is gone.
#[verifier::external_body]
pub(crate) fn clone_sender<T>(s: &Sender<T>) -> (r: Sender<T>)
    ensures
        r == *s,
{
    s.clone()
}

} // verus!
