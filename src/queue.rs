use vstd::prelude::*;

use tokio::sync::mpsc::{Receiver, Sender};

use crate::message::Message;

verus! {

/// The producer side of tokio's bounded channel.
#[verifier::external_type_specification]
#[verifier::external_body]
#[verifier::reject_recursive_types(T)]
pub struct ExSender<T>(tokio::sync::mpsc::Sender<T>);

/// The consumer side of tokio's bounded channel.
#[verifier::external_type_specification]
#[verifier::external_body]
#[verifier::reject_recursive_types(T)]
pub struct ExReceiver<T>(tokio::sync::mpsc::Receiver<T>);

/// The largest capacity that tokio's channel accepts: its semaphore holds at
/// most `usize::MAX >> 3` permits.
pub const MAX_QUEUE_CAPACITY: usize = usize::MAX >> 3;

/// The number of batches that a queue with this producer side holds at most.
pub uninterp spec fn queue_bound(tx: Sender<Vec<Message>>) -> nat;

/// Why a queue could not be opened.
#[derive(Clone, Copy, Debug, PartialEq, Eq)]
pub enum QueueError {
    /// A queue must hold at least one batch.
    ZeroCapacity,
    /// The capacity is beyond what the channel can count.
    CapacityTooLarge,
}

/// Relies on tokio::sync::mpsc::channel: a bounded channel whose `bound` is
/// `capacity`. It panics when `capacity` is 0 or above `usize::MAX >> 3`.
#[verifier::external_body]
fn bounded_channel(capacity: usize) -> (r: (Sender<Vec<Message>>, Receiver<Vec<Message>>))
    requires
        0 < capacity <= MAX_QUEUE_CAPACITY,
    ensures
        queue_bound(r.0) == capacity as nat,
{
    tokio::sync::mpsc::channel(capacity)
}

/// Opens the bounded queue of batches between the intake and the dispatch
/// worker: a producer side to share among request handlers and the one
/// consumer side. The queue holds at most `capacity` batches.
pub fn open_queue(capacity: usize) -> (r: Result<(Sender<Vec<Message>>, Receiver<Vec<Message>>), QueueError>)
    ensures
        capacity == 0 <==> r == Err::<(Sender<Vec<Message>>, Receiver<Vec<Message>>), QueueError>(QueueError::ZeroCapacity),
        capacity > MAX_QUEUE_CAPACITY <==> r == Err::<(Sender<Vec<Message>>, Receiver<Vec<Message>>), QueueError>(QueueError::CapacityTooLarge),
        r matches Ok((tx, _)) ==> queue_bound(tx) == capacity as nat,
{
    if capacity == 0 {
        Err(QueueError::ZeroCapacity)
    } else if capacity > MAX_QUEUE_CAPACITY {
        Err(QueueError::CapacityTooLarge)
    } else {
        Ok(bounded_channel(capacity))
    }
}

} // verus!
