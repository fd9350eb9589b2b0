use super::{TryRecvError, TrySendError};
use vstd::prelude::*;

verus! {

/// The receiving side of a connection.
pub trait InputPort<T> {
    /// Checks whether no message is waiting.
    fn is_empty(&self) -> bool;

    /// Takes the next message if one is waiting, without waiting; `None` once the
    /// stream has ended.
    fn try_recv(&mut self) -> Result<Option<T>, TryRecvError>;
}

/// The sending side of a connection.
pub trait OutputPort<T> {
    /// Sends a message if there is room, without waiting; fails when the buffer
    /// is full or the receiving side is gone.
    fn try_send(&self, message: T) -> Result<(), TrySendError>;
}

} // verus!
