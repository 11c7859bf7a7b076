//! The queue that carries notifications from the backend to the scheduler.
//!
//! The queue itself is tokio's bounded channel. This file fixes its
//! capacity and the rule by which the scheduler takes from it.

use vstd::prelude::*;
use crate::protocol::Wait;

verus! {

/// `tokio::sync::mpsc::Sender`: the sending end of a bounded channel, which
/// producers clone and send through. Nothing is known of its inside.
#[verifier::external_type_specification]
#[verifier::external_body]
#[verifier::reject_recursive_types(T)]
pub struct ExSender<T>(tokio::sync::mpsc::Sender<T>);

/// `tokio::sync::mpsc::Receiver`: the receiving end of a bounded channel.
/// Nothing is known of its inside.
#[verifier::external_type_specification]
#[verifier::external_body]
#[verifier::reject_recursive_types(T)]
pub struct ExReceiver<T>(tokio::sync::mpsc::Receiver<T>);

/// Number of notifications that the queue holds before a producer has to
/// wait.
pub const NOTIFICATION_CAPACITY: usize = 100;

/// Why a look at the queue brought nothing.
#[derive(Clone, Copy, Debug, PartialEq, Eq, Structural)]
pub enum Vacant {
    /// Nothing is queued, and a producer may still send.
    Empty,
    /// Nothing is queued, and every producer is gone.
    Disconnected,
}

/// Largest capacity that a bounded channel can be made with.
spec fn largest_capacity() -> int {
    (usize::MAX as int) / 8
}

/// `tokio::sync::mpsc::channel`: makes a bounded channel and returns its two
/// ends. The call panics for a capacity of zero and for one above the
/// largest number of permits of tokio's semaphore, `usize::MAX >> 3`; both
/// are left out here. Nothing is claimed of the two ends.
#[verifier::external_body]
fn bounded_channel<T>(capacity: usize) -> (ends: (
    tokio::sync::mpsc::Sender<T>,
    tokio::sync::mpsc::Receiver<T>,
))
    requires
        0 < capacity <= largest_capacity(),
{
    tokio::sync::mpsc::channel(capacity)
}

/// `tokio::sync::mpsc::Receiver::try_recv`: takes the value at the head of
/// the queue if there is one, without waiting for one. What comes back
/// depends on what the producers have sent, so nothing is claimed of it.
#[verifier::external_body]
fn try_receive<T>(receiver: &mut tokio::sync::mpsc::Receiver<T>) -> (taken: Result<T, Vacant>) {
    match receiver.try_recv() {
        Ok(value) => Ok(value),
        Err(tokio::sync::mpsc::error::TryRecvError::Empty) => Err(Vacant::Empty),
        Err(tokio::sync::mpsc::error::TryRecvError::Disconnected) => Err(Vacant::Disconnected),
    }
}

/// The consuming end of the queue of notifications.
///
/// The queue is bounded and keeps the order in which each producer sent. A
/// producer that finds it full has to wait: nothing that was sent is dropped
/// to make room.
#[verifier::reject_recursive_types(N)]
pub struct NotificationChannel<N> {
    receiver: tokio::sync::mpsc::Receiver<N>,
    capacity: usize,
}

impl<N> NotificationChannel<N> {
    /// The number of notifications that the queue was made to hold.
    pub closed spec fn limit(self) -> nat {
        self.capacity as nat
    }

    /// What a look at the queue hands to the scheduler: the value taken, or
    /// nothing where the queue was vacant, whichever way.
    pub open spec fn delivered(taken: Result<N, Vacant>) -> Option<N> {
        match taken {
            Ok(payload) => Some(payload),
            Err(_) => None,
        }
    }

    /// Makes the queue with room for [`NOTIFICATION_CAPACITY`]
    /// notifications. The sending end is for the producers, which may clone
    /// it.
    pub fn open() -> (ends: (tokio::sync::mpsc::Sender<N>, Self))
        ensures
            ends.1.limit() == NOTIFICATION_CAPACITY,
    {
        let (sender, receiver) = bounded_channel(NOTIFICATION_CAPACITY);
        (sender, NotificationChannel { receiver, capacity: NOTIFICATION_CAPACITY })
    }

    /// The number of notifications that the queue was made to hold.
    pub fn capacity(&self) -> (n: usize)
        ensures
            n == self.limit(),
    {
        self.capacity
    }

    /// Turns the answer of a look at the queue into what the scheduler is
    /// given.
    pub fn deliver(taken: Result<N, Vacant>) -> (payload: Option<N>)
        ensures
            payload == Self::delivered(taken),
    {
        match taken {
            Ok(payload) => Some(payload),
            Err(_) => None,
        }
    }

    /// Takes at most one notification for the iteration that `wait`
    /// describes, without waiting for one. While a notification that was
    /// taken earlier still waits its turn, the queue is left alone.
    pub fn take(&mut self, wait: &Wait) -> (payload: Option<N>)
        ensures
            !wait.notifications ==> payload is None,
            final(self).limit() == old(self).limit(),
    {
        if wait.notifications {
            let taken = try_receive(&mut self.receiver);
            Self::deliver(taken)
        } else {
            None
        }
    }
}

} // verus!
