use super::backend::{
    flume_bounded, receiver_bound, receiver_clone, receiver_disconnected, receiver_is_empty,
    receiver_recv, receiver_try_recv, sender_bound, sender_clone, sender_disconnected,
    sender_send, sender_try_send,
};
use crate::channel::{poll_value, SendFailure};
use crate::io::{InputPort, OutputPort, RecvError, SendError, TryRecvError, TrySendError};
use vstd::prelude::*;

verus! {

/// The free slots of a channel whose bound is `bound` and that holds `len`
/// messages: unknown without a bound, and never below zero.
pub open spec fn spec_free_slots(bound: Option<usize>, len: usize) -> Option<usize> {
    match bound {
        None => None,
        Some(max) => Some(if len <= max { (max - len) as usize } else { 0 }),
    }
}

/// Returns the free slots of a channel whose bound is `bound` and that holds
/// `len` messages.
pub fn free_slots(bound: Option<usize>, len: usize) -> (r: Option<usize>)
    ensures
        r == spec_free_slots(bound, len),
{
    match bound {
        None => None,
        Some(max) => Some(max.saturating_sub(len)),
    }
}

/// An input port over a flume channel.
#[derive(Debug)]
#[verifier::reject_recursive_types(T)]
pub struct Inputs<T> {
    rx: flume::Receiver<T>,
}

impl<T> Inputs<T> {
    /// Wraps the receiving half of a channel.
    pub fn from_receiver(rx: flume::Receiver<T>) -> (r: Inputs<T>) {
        Inputs { rx }
    }

    /// Returns the free slots of the channel's buffer, unknown without a bound.
    pub fn capacity(&self) -> (r: Option<usize>) {
        free_slots(receiver_bound(&self.rx), self.rx.len())
    }

    /// Returns the channel's bound, unknown without one.
    pub fn max_capacity(&self) -> (r: Option<usize>) {
        receiver_bound(&self.rx)
    }

    /// Checks whether all senders are gone.
    pub fn is_closed(&self) -> (r: bool) {
        receiver_disconnected(&self.rx)
    }

    /// Waits for the next message; `None` once all senders are gone and the
    /// channel is drained. Blocks the thread: call it outside asynchronous code.
    pub fn blocking_recv(&mut self) -> (r: Result<Option<T>, RecvError>)
        ensures
            r is Ok,
    {
        Ok(receiver_recv(&self.rx))
    }
}

impl<T> Inputs<T> {
    /// Takes the next message if one is waiting, without waiting: `None` once all
    /// senders are gone and the channel is drained, an error while it is merely
    /// empty.
    pub fn try_recv(&mut self) -> (r: Result<Option<T>, TryRecvError>) {
        poll_value(receiver_try_recv(&self.rx))
    }
}

impl<T> Clone for Inputs<T> {
    fn clone(&self) -> (r: Self) {
        Inputs { rx: receiver_clone(&self.rx) }
    }
}

/// An output port over a flume channel.
#[derive(Debug)]
#[verifier::reject_recursive_types(T)]
pub struct Outputs<T> {
    tx: flume::Sender<T>,
}

impl<T> Outputs<T> {
    /// Wraps the sending half of a channel.
    pub fn from_sender(tx: flume::Sender<T>) -> (r: Outputs<T>) {
        Outputs { tx }
    }

    /// Returns the free slots of the channel's buffer, unknown without a bound.
    pub fn capacity(&self) -> (r: Option<usize>) {
        free_slots(sender_bound(&self.tx), self.tx.len())
    }

    /// Returns the channel's bound, unknown without one.
    pub fn max_capacity(&self) -> (r: Option<usize>) {
        sender_bound(&self.tx)
    }

    /// Checks whether all receivers are gone.
    pub fn is_closed(&self) -> (r: bool) {
        sender_disconnected(&self.tx)
    }

    /// Sends a message, waiting for room; fails once all receivers are gone.
    /// Blocks the thread: call it outside asynchronous code.
    pub fn blocking_send(&self, value: T) -> (r: Result<(), SendError>) {
        match sender_send(&self.tx, value) {
            Ok(()) => Ok(()),
            Err(_) => Err(SendError),
        }
    }
}

impl<T> Outputs<T> {
    /// Sends a message if there is room and a receiver, without waiting; when it
    /// fails the same message comes back with the reason.
    pub fn try_send(&self, value: T) -> (r: Result<(), SendFailure<T>>)
        ensures
            r matches Err(f) ==> f.spec_value() == value,
    {
        sender_try_send(&self.tx, value)
    }
}

impl<T> Clone for Outputs<T> {
    fn clone(&self) -> (r: Self) {
        Outputs { tx: sender_clone(&self.tx) }
    }
}

impl<T> InputPort<T> for Inputs<T> {
    fn is_empty(&self) -> bool {
        receiver_is_empty(&self.rx)
    }

    fn try_recv(&mut self) -> Result<Option<T>, TryRecvError> {
        Inputs::try_recv(self)
    }
}

impl<T> OutputPort<T> for Outputs<T> {
    fn try_send(&self, message: T) -> Result<(), TrySendError> {
        match Outputs::try_send(self, message) {
            Ok(()) => Ok(()),
            Err(_) => Err(TrySendError),
        }
    }
}

/// Creates a flume channel with room for `capacity` messages (a rendezvous
/// channel when it is 0) and returns its output and input ports.
pub fn bounded<T>(capacity: usize) -> (r: (Outputs<T>, Inputs<T>)) {
    let (tx, rx) = flume_bounded(capacity);
    (Outputs::from_sender(tx), Inputs::from_receiver(rx))
}

} // verus!
