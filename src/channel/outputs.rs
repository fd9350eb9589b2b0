use super::backend::{
    sender_capacity, sender_is_closed, sender_max_capacity, sender_try_send, SendFailure,
};
use crate::io::{OutputPort, Port, PortDirection, PortEvent, PortState, TrySendError};
use vstd::prelude::*;

verus! {

/// The state of an output port, with the sending half of its channel while it
/// is connected.
#[derive(Debug)]
#[verifier::reject_recursive_types(T)]
pub enum OutputPortState<T> {
    Unconnected,
    Connected(tokio::sync::mpsc::Sender<PortEvent<T>>),
    Disconnected,
    Closed,
}

impl<T> OutputPortState<T> {
    /// The lifecycle state that this value stands for.
    pub open spec fn phase(&self) -> PortState {
        match self {
            OutputPortState::Unconnected => PortState::Unconnected,
            OutputPortState::Connected(_) => PortState::Connected,
            OutputPortState::Disconnected => PortState::Disconnected,
            OutputPortState::Closed => PortState::Closed,
        }
    }
}

impl<T> Clone for OutputPortState<T> {
    fn clone(&self) -> (r: Self)
        ensures
            r.phase() == self.phase(),
    {
        match self {
            OutputPortState::Unconnected => OutputPortState::Unconnected,
            OutputPortState::Connected(tx) => OutputPortState::Connected(tx.clone()),
            OutputPortState::Disconnected => OutputPortState::Disconnected,
            OutputPortState::Closed => OutputPortState::Closed,
        }
    }
}

/// An output port over a bounded channel of events that carry messages of type
/// `T`.
#[derive(Debug)]
#[verifier::reject_recursive_types(T)]
pub struct Outputs<T> {
    state: OutputPortState<T>,
    unbounded: bool,
}

impl<T> Outputs<T> {
    /// The lifecycle state that the port stores.
    pub closed spec fn phase(&self) -> PortState {
        self.state.phase()
    }

    /// Whether the port's channel was asked for with no bound.
    pub closed spec fn spec_unbounded(&self) -> bool {
        self.unbounded
    }

    /// Creates an unconnected output port.
    pub fn new() -> (r: Outputs<T>)
        ensures
            r.phase() == PortState::Unconnected,
            !r.spec_unbounded(),
    {
        Outputs { state: OutputPortState::Unconnected, unbounded: false }
    }

    /// Creates an output port over the sending half of a channel: connected, or
    /// disconnected if the receiving half is gone already.
    pub fn from_sender(tx: tokio::sync::mpsc::Sender<PortEvent<T>>) -> (r: Outputs<T>)
        ensures
            r.phase() == PortState::Connected || r.phase() == PortState::Disconnected,
            !r.spec_unbounded(),
    {
        Outputs::over(tx, false)
    }

    /// Creates an output port over the sending half of a channel, recording
    /// whether the channel was asked for with no bound.
    pub(crate) fn over(tx: tokio::sync::mpsc::Sender<PortEvent<T>>, unbounded: bool) -> (r:
        Outputs<T>)
        ensures
            r.phase() == PortState::Connected || r.phase() == PortState::Disconnected,
            r.spec_unbounded() == unbounded,
    {
        if sender_is_closed(&tx) {
            Outputs { state: OutputPortState::Disconnected, unbounded }
        } else {
            Outputs { state: OutputPortState::Connected(tx), unbounded }
        }
    }

    /// Creates a connected output port over the sending half of a channel that
    /// was just made, and so is open.
    pub(crate) fn fresh(tx: tokio::sync::mpsc::Sender<PortEvent<T>>, unbounded: bool) -> (r:
        Outputs<T>)
        ensures
            r.phase() == PortState::Connected,
            r.spec_unbounded() == unbounded,
    {
        Outputs { state: OutputPortState::Connected(tx), unbounded }
    }

    /// Attaches the sending half of a channel to an unconnected port; a port in
    /// any other state refuses it and hands it back.
    pub fn connect(&mut self, tx: tokio::sync::mpsc::Sender<PortEvent<T>>) -> (r: Result<
        (),
        tokio::sync::mpsc::Sender<PortEvent<T>>,
    >)
        ensures
            r is Ok <==> old(self).phase() == PortState::Unconnected,
            r is Ok ==> final(self).phase() == PortState::Connected || final(self).phase()
                == PortState::Disconnected,
            r is Ok ==> !final(self).spec_unbounded(),
            r is Err ==> final(self).phase() == old(self).phase(),
            old(self).phase().may_become(final(self).phase()),
    {
        match self.state {
            OutputPortState::Unconnected => {
                *self = Outputs::from_sender(tx);
                Ok(())
            },
            _ => Err(tx),
        }
    }

    /// Closes the port, letting go of its channel; closing a closed port does
    /// nothing.
    pub fn close(&mut self)
        ensures
            final(self).phase() == PortState::Closed,
            final(self).spec_unbounded() == old(self).spec_unbounded(),
            old(self).phase().may_become(final(self).phase()),
    {
        self.state = OutputPortState::Closed;
    }

    /// The dataflow direction of this port: output.
    pub fn direction(&self) -> (r: PortDirection)
        ensures
            r == PortDirection::Output,
    {
        PortDirection::Output
    }

    /// The current state of this port: the stored state, except that a connected
    /// port whose receiver is gone reports disconnected.
    pub fn state(&self) -> (r: PortState)
        ensures
            r == self.phase() || (self.phase() == PortState::Connected && r
                == PortState::Disconnected),
    {
        match &self.state {
            OutputPortState::Unconnected => PortState::Unconnected,
            OutputPortState::Connected(tx) => PortState::Connected.observed(sender_is_closed(tx)),
            OutputPortState::Disconnected => PortState::Disconnected,
            OutputPortState::Closed => PortState::Closed,
        }
    }

    /// Returns the free slots of the channel's buffer; unknown unless connected
    /// over a channel with a bound.
    pub fn capacity(&self) -> (r: Option<usize>)
        ensures
            r is Some <==> self.phase() == PortState::Connected && !self.spec_unbounded(),
    {
        if self.unbounded {
            return None;
        }
        match &self.state {
            OutputPortState::Connected(tx) => Some(sender_capacity(tx)),
            _ => None,
        }
    }

    /// Returns the size of the channel's buffer; unknown unless connected over a
    /// channel with a bound.
    pub fn max_capacity(&self) -> (r: Option<usize>)
        ensures
            r is Some <==> self.phase() == PortState::Connected && !self.spec_unbounded(),
    {
        if self.unbounded {
            return None;
        }
        match &self.state {
            OutputPortState::Connected(tx) => Some(sender_max_capacity(tx)),
            _ => None,
        }
    }

    /// Returns the sending half of the channel, for a caller that waits on it;
    /// `None` unless the port is connected, in which case nothing may be sent.
    pub fn as_sender(&self) -> (r: Option<&tokio::sync::mpsc::Sender<PortEvent<T>>>)
        ensures
            r is Some <==> self.phase() == PortState::Connected,
    {
        match &self.state {
            OutputPortState::Connected(tx) => Some(tx),
            _ => None,
        }
    }

    /// Sends an event if the buffer has a free slot, without waiting. When the
    /// port is not connected the event comes back as `Closed`; when the send
    /// fails the same event comes back with the reason.
    pub fn try_send_event(&self, event: PortEvent<T>) -> (r: Result<(), SendFailure<PortEvent<T>>>)
        ensures
            self.phase() != PortState::Connected ==> r == Err::<(), SendFailure<PortEvent<T>>>(
                SendFailure::Closed(event),
            ),
            r matches Err(f) ==> f.spec_value() == event,
    {
        match &self.state {
            OutputPortState::Connected(tx) => sender_try_send(tx, event),
            _ => Err(SendFailure::Closed(event)),
        }
    }

    /// Sends a message if the buffer has a free slot, without waiting; fails when
    /// the port is not connected, the buffer is full, or the receiver is gone.
    pub fn try_send(&self, message: T) -> (r: Result<(), TrySendError>)
        ensures
            self.phase() != PortState::Connected ==> r is Err,
    {
        match self.try_send_event(PortEvent::Message(message)) {
            Ok(()) => Ok(()),
            Err(_) => Err(TrySendError),
        }
    }
}

impl<T> Clone for Outputs<T> {
    fn clone(&self) -> (r: Self)
        ensures
            r.phase() == self.phase(),
            r.spec_unbounded() == self.spec_unbounded(),
    {
        Outputs { state: self.state.clone(), unbounded: self.unbounded }
    }
}

impl<T> Default for Outputs<T> {
    fn default() -> (r: Outputs<T>)
        ensures
            r.phase() == PortState::Unconnected,
            !r.spec_unbounded(),
    {
        Outputs::new()
    }
}

impl<T> Port<T> for Outputs<T> {
    fn close(&mut self) {
        Outputs::close(self)
    }

    fn direction(&self) -> PortDirection {
        Outputs::direction(self)
    }

    fn state(&self) -> PortState {
        Outputs::state(self)
    }

    fn capacity(&self) -> Option<usize> {
        Outputs::capacity(self)
    }

    fn max_capacity(&self) -> Option<usize> {
        Outputs::max_capacity(self)
    }
}

impl<T> OutputPort<T> for Outputs<T> {
    fn try_send(&self, message: T) -> Result<(), TrySendError> {
        Outputs::try_send(self, message)
    }
}

} // verus!
