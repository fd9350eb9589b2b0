use super::backend::{
    receiver_capacity, receiver_close, receiver_is_closed, receiver_is_empty,
    receiver_max_capacity, receiver_try_recv, sender_capacity, sender_is_closed,
    sender_max_capacity, sender_try_send, SendFailure,
};
use super::inputs::poll_value;
use crate::io::{InputPort, OutputPort, TryRecvError, TrySendError};
use vstd::prelude::*;

verus! {

/// An input port that wraps the receiving half of a channel of plain messages.
#[derive(Debug)]
#[verifier::reject_recursive_types(T)]
pub struct Input<T> {
    pub receiver: tokio::sync::mpsc::Receiver<T>,
}

impl<T> Input<T> {
    /// Wraps the receiving half of a channel.
    pub fn from_receiver(receiver: tokio::sync::mpsc::Receiver<T>) -> (r: Input<T>)
        ensures
            r.receiver == receiver,
    {
        Input { receiver }
    }

    /// Returns the free slots of the channel's buffer.
    pub fn capacity(&self) -> (r: Option<usize>)
        ensures
            r is Some,
    {
        Some(receiver_capacity(&self.receiver))
    }

    /// Returns the size of the channel's buffer.
    pub fn max_capacity(&self) -> (r: Option<usize>)
        ensures
            r is Some,
    {
        Some(receiver_max_capacity(&self.receiver))
    }

    /// Checks whether the channel is closed.
    pub fn is_closed(&self) -> (r: bool) {
        receiver_is_closed(&self.receiver)
    }

    /// Closes the channel for new messages; those buffered can still be taken.
    pub fn close(&mut self) {
        receiver_close(&mut self.receiver)
    }

    /// Takes the next message if one is waiting, without waiting: `None` once the
    /// channel is closed and drained, an error while it is merely empty.
    pub fn try_recv(&mut self) -> (r: Result<Option<T>, TryRecvError>) {
        poll_value(receiver_try_recv(&mut self.receiver))
    }
}

/// An output port that wraps the sending half of a channel of plain messages.
#[derive(Debug)]
#[verifier::reject_recursive_types(T)]
pub struct Output<T> {
    pub sender: tokio::sync::mpsc::Sender<T>,
}

impl<T> Output<T> {
    /// Wraps the sending half of a channel.
    pub fn from_sender(sender: tokio::sync::mpsc::Sender<T>) -> (r: Output<T>)
        ensures
            r.sender == sender,
    {
        Output { sender }
    }

    /// Returns the free slots of the channel's buffer.
    pub fn capacity(&self) -> (r: Option<usize>)
        ensures
            r is Some,
    {
        Some(sender_capacity(&self.sender))
    }

    /// Returns the size of the channel's buffer.
    pub fn max_capacity(&self) -> (r: Option<usize>)
        ensures
            r is Some,
    {
        Some(sender_max_capacity(&self.sender))
    }

    /// Checks whether the receiving half is gone or closed.
    pub fn is_closed(&self) -> (r: bool) {
        sender_is_closed(&self.sender)
    }

    /// Sends a message if the buffer has a free slot, without waiting; when it
    /// fails the same message comes back with the reason.
    pub fn try_send(&self, value: T) -> (r: Result<(), SendFailure<T>>)
        ensures
            r matches Err(f) ==> f.spec_value() == value,
    {
        sender_try_send(&self.sender, value)
    }
}

/// An input port over a bounded channel of plain messages: another name for
/// [`Input`].
pub type BoundedInputPort<T> = Input<T>;

/// An output port over a bounded channel of plain messages: another name for
/// [`Output`].
pub type BoundedOutputPort<T> = Output<T>;

impl<T> Clone for Output<T> {
    fn clone(&self) -> (r: Self) {
        Output { sender: self.sender.clone() }
    }
}

impl<T> InputPort<T> for Input<T> {
    fn is_empty(&self) -> bool {
        receiver_is_empty(&self.receiver)
    }

    fn try_recv(&mut self) -> Result<Option<T>, TryRecvError> {
        Input::try_recv(self)
    }
}

impl<T> OutputPort<T> for Output<T> {
    fn try_send(&self, message: T) -> Result<(), TrySendError> {
        match Output::try_send(self, message) {
            Ok(()) => Ok(()),
            Err(_) => Err(TrySendError),
        }
    }
}

} // verus!
