use super::backend::{
    receiver_capacity, receiver_close, receiver_is_closed, receiver_is_empty,
    receiver_max_capacity, receiver_try_recv, Polled,
};
use crate::io::{InputPort, Port, PortDirection, PortEvent, PortState, TryRecvError};
use vstd::prelude::*;

verus! {

/// The state of an input port, with the receiving half of its channel while
/// it has one.
#[derive(Debug)]
#[verifier::reject_recursive_types(T)]
pub enum InputPortState<T> {
    Unconnected,
    Connected(tokio::sync::mpsc::Receiver<PortEvent<T>>),
    Disconnected(tokio::sync::mpsc::Receiver<PortEvent<T>>),
    Closed,
}

impl<T> InputPortState<T> {
    /// The lifecycle state that this value stands for.
    pub open spec fn phase(&self) -> PortState {
        match self {
            InputPortState::Unconnected => PortState::Unconnected,
            InputPortState::Connected(_) => PortState::Connected,
            InputPortState::Disconnected(_) => PortState::Disconnected,
            InputPortState::Closed => PortState::Closed,
        }
    }
}

/// What a receiver does with an event: deliver its message, pass over it, or end
/// the stream.
#[derive(Debug, PartialEq, Eq)]
pub enum RecvStep<T> {
    Deliver(T),
    Skip,
    End,
}

/// What to do with a received event, or with `None`, the end of the stream: a
/// message is delivered, a connect event passed over, and a disconnect event
/// ends the stream.
pub open spec fn spec_recv_step<T>(event: Option<PortEvent<T>>) -> RecvStep<T> {
    match event {
        Some(PortEvent::Message(m)) => RecvStep::Deliver(m),
        Some(PortEvent::Connect) => RecvStep::Skip,
        Some(PortEvent::Disconnect) => RecvStep::End,
        None => RecvStep::End,
    }
}

/// Returns what to do with a received event, or with the end of the stream.
pub fn recv_step<T>(event: Option<PortEvent<T>>) -> (r: RecvStep<T>)
    ensures
        r == spec_recv_step(event),
{
    match event {
        Some(PortEvent::Message(m)) => RecvStep::Deliver(m),
        Some(PortEvent::Connect) => RecvStep::Skip,
        Some(PortEvent::Disconnect) => RecvStep::End,
        None => RecvStep::End,
    }
}

/// What a receive that does not wait gives for what the channel returned: the
/// value if one was waiting, an error while the channel is merely empty, and
/// `None` once the stream has ended.
pub open spec fn spec_poll_value<T>(polled: Polled<T>) -> Result<Option<T>, TryRecvError> {
    match polled {
        Polled::Ready(v) => Ok(Some(v)),
        Polled::Empty => Err(TryRecvError),
        Polled::Ended => Ok(None),
    }
}

/// Returns what a receive that does not wait gives for what the channel
/// returned.
pub fn poll_value<T>(polled: Polled<T>) -> (r: Result<Option<T>, TryRecvError>)
    ensures
        r == spec_poll_value(polled),
{
    match polled {
        Polled::Ready(v) => Ok(Some(v)),
        Polled::Empty => Err(TryRecvError),
        Polled::Ended => Ok(None),
    }
}

/// What a receive of messages that does not wait gives for what the channel
/// returned: a message is delivered, a connect event or an empty channel gives
/// an error (nothing to take yet), and a disconnect event or the end of the
/// stream gives `None`.
pub open spec fn spec_poll_step<T>(polled: Polled<PortEvent<T>>) -> Result<Option<T>, TryRecvError> {
    match polled {
        Polled::Ready(PortEvent::Message(m)) => Ok(Some(m)),
        Polled::Ready(PortEvent::Connect) => Err(TryRecvError),
        Polled::Empty => Err(TryRecvError),
        _ => Ok(None),
    }
}

/// Returns what a receive of messages that does not wait gives for what the
/// channel returned.
pub fn poll_step<T>(polled: Polled<PortEvent<T>>) -> (r: Result<Option<T>, TryRecvError>)
    ensures
        r == spec_poll_step(polled),
{
    match polled {
        Polled::Ready(event) => match recv_step(Some(event)) {
            RecvStep::Deliver(m) => Ok(Some(m)),
            RecvStep::Skip => Err(TryRecvError),
            RecvStep::End => Ok(None),
        },
        Polled::Empty => Err(TryRecvError),
        Polled::Ended => Ok(None),
    }
}

/// An input port over a bounded channel of events that carry messages of type `T`.
#[derive(Debug)]
#[verifier::reject_recursive_types(T)]
pub struct Inputs<T> {
    state: InputPortState<T>,
    unbounded: bool,
}

impl<T> Inputs<T> {
    /// The lifecycle state that the port stores.
    pub closed spec fn phase(&self) -> PortState {
        self.state.phase()
    }

    /// Whether the port's channel was asked for with no bound.
    pub closed spec fn spec_unbounded(&self) -> bool {
        self.unbounded
    }

    /// Creates an unconnected input port.
    pub fn new() -> (r: Inputs<T>)
        ensures
            r.phase() == PortState::Unconnected,
            !r.spec_unbounded(),
    {
        Inputs { state: InputPortState::Unconnected, unbounded: false }
    }

    /// Creates an input port over the receiving half of a channel: connected, or
    /// disconnected if the channel is closed already.
    pub fn from_receiver(rx: tokio::sync::mpsc::Receiver<PortEvent<T>>) -> (r: Inputs<T>)
        ensures
            r.phase() == PortState::Connected || r.phase() == PortState::Disconnected,
            !r.spec_unbounded(),
    {
        Inputs::over(rx, false)
    }

    /// Creates an input port over the receiving half of a channel, recording
    /// whether the channel was asked for with no bound.
    pub(crate) fn over(rx: tokio::sync::mpsc::Receiver<PortEvent<T>>, unbounded: bool) -> (r:
        Inputs<T>)
        ensures
            r.phase() == PortState::Connected || r.phase() == PortState::Disconnected,
            r.spec_unbounded() == unbounded,
    {
        if receiver_is_closed(&rx) {
            Inputs { state: InputPortState::Disconnected(rx), unbounded }
        } else {
            Inputs { state: InputPortState::Connected(rx), unbounded }
        }
    }

    /// Creates a connected input port over the receiving half of a channel that
    /// was just made, and so is open.
    pub(crate) fn fresh(rx: tokio::sync::mpsc::Receiver<PortEvent<T>>, unbounded: bool) -> (r:
        Inputs<T>)
        ensures
            r.phase() == PortState::Connected,
            r.spec_unbounded() == unbounded,
    {
        Inputs { state: InputPortState::Connected(rx), unbounded }
    }

    /// Attaches the receiving half of a channel to an unconnected port; a port in
    /// any other state refuses it and hands it back.
    pub fn connect(&mut self, rx: tokio::sync::mpsc::Receiver<PortEvent<T>>) -> (r: Result<
        (),
        tokio::sync::mpsc::Receiver<PortEvent<T>>,
    >)
        ensures
            r is Ok <==> old(self).phase() == PortState::Unconnected,
            r is Ok ==> final(self).phase() == PortState::Connected || final(self).phase()
                == PortState::Disconnected,
            r is Ok ==> !final(self).spec_unbounded(),
            r is Err ==> final(self).phase() == old(self).phase(),
            old(self).phase().may_become(final(self).phase()),
    {
        match self.state {
            InputPortState::Unconnected => {
                *self = Inputs::from_receiver(rx);
                Ok(())
            },
            _ => Err(rx),
        }
    }

    /// Closes the port: a connected channel is closed for new messages, and the
    /// port is closed for good. Closing a closed port does nothing.
    pub fn close(&mut self)
        ensures
            final(self).phase() == PortState::Closed,
            final(self).spec_unbounded() == old(self).spec_unbounded(),
            old(self).phase().may_become(final(self).phase()),
    {
        match &mut self.state {
            InputPortState::Connected(rx) => {
                if !receiver_is_closed(rx) {
                    receiver_close(rx);
                }
            },
            _ => {},
        }
        self.state = InputPortState::Closed;
    }

    /// Disconnects the port: a connected channel is closed for new messages while
    /// those buffered can still be taken. Other states stay as they are.
    pub fn disconnect(&mut self)
        ensures
            final(self).phase() == if old(self).phase() == PortState::Connected {
                PortState::Disconnected
            } else {
                old(self).phase()
            },
            final(self).spec_unbounded() == old(self).spec_unbounded(),
            old(self).phase().may_become(final(self).phase()),
    {
        let mut state = InputPortState::Closed;
        core::mem::swap(&mut self.state, &mut state);
        self.state = match state {
            InputPortState::Connected(mut rx) => {
                if !receiver_is_closed(&rx) {
                    receiver_close(&mut rx);
                }
                InputPortState::Disconnected(rx)
            },
            other => other,
        };
    }

    /// The dataflow direction of this port: input.
    pub fn direction(&self) -> (r: PortDirection)
        ensures
            r == PortDirection::Input,
    {
        PortDirection::Input
    }

    /// The current state of this port: the stored state, except that a connected
    /// port whose channel has closed reports disconnected.
    pub fn state(&self) -> (r: PortState)
        ensures
            r == self.phase() || (self.phase() == PortState::Connected && r
                == PortState::Disconnected),
    {
        match &self.state {
            InputPortState::Unconnected => PortState::Unconnected,
            InputPortState::Connected(rx) => PortState::Connected.observed(receiver_is_closed(rx)),
            InputPortState::Disconnected(_) => PortState::Disconnected,
            InputPortState::Closed => PortState::Closed,
        }
    }

    /// Checks whether no message is waiting; a port without a channel is empty.
    pub fn is_empty(&self) -> (r: bool)
        ensures
            !self.phase().has_channel() ==> r,
    {
        match &self.state {
            InputPortState::Connected(rx) => receiver_is_empty(rx),
            InputPortState::Disconnected(rx) => receiver_is_empty(rx),
            _ => true,
        }
    }

    /// Returns the free slots of the channel's buffer; unknown without a channel
    /// and for a channel with no bound.
    pub fn capacity(&self) -> (r: Option<usize>)
        ensures
            r is Some <==> self.phase().has_channel() && !self.spec_unbounded(),
    {
        if self.unbounded {
            return None;
        }
        match &self.state {
            InputPortState::Connected(rx) => Some(receiver_capacity(rx)),
            InputPortState::Disconnected(rx) => Some(receiver_capacity(rx)),
            _ => None,
        }
    }

    /// Returns the size of the channel's buffer; unknown without a channel and
    /// for a channel with no bound.
    pub fn max_capacity(&self) -> (r: Option<usize>)
        ensures
            r is Some <==> self.phase().has_channel() && !self.spec_unbounded(),
    {
        if self.unbounded {
            return None;
        }
        match &self.state {
            InputPortState::Connected(rx) => Some(receiver_max_capacity(rx)),
            InputPortState::Disconnected(rx) => Some(receiver_max_capacity(rx)),
            _ => None,
        }
    }

    /// Returns the receiving half of the channel, for a caller that waits on it;
    /// `None` without a channel.
    pub fn as_receiver_mut(&mut self) -> (r: Option<&mut tokio::sync::mpsc::Receiver<PortEvent<T>>>)
        ensures
            r is Some <==> old(self).phase().has_channel(),
            final(self).phase() == old(self).phase(),
            final(self).spec_unbounded() == old(self).spec_unbounded(),
    {
        match &mut self.state {
            InputPortState::Connected(rx) => Some(rx),
            InputPortState::Disconnected(rx) => Some(rx),
            _ => None,
        }
    }

    /// Asks the channel for what is waiting, without waiting; a port without a
    /// channel has nothing more to give.
    fn poll(&mut self) -> (r: Polled<PortEvent<T>>)
        ensures
            !old(self).phase().has_channel() ==> r is Ended,
            final(self).phase() == old(self).phase(),
            final(self).spec_unbounded() == old(self).spec_unbounded(),
    {
        match &mut self.state {
            InputPortState::Connected(rx) => receiver_try_recv(rx),
            InputPortState::Disconnected(rx) => receiver_try_recv(rx),
            _ => Polled::Ended,
        }
    }

    /// Takes the next event if one is waiting, without waiting: `None` once the
    /// stream has ended, and also when the port has no channel; an error when no
    /// event is waiting yet.
    pub fn try_recv_event(&mut self) -> (r: Result<Option<PortEvent<T>>, TryRecvError>)
        ensures
            !old(self).phase().has_channel() ==> r == Ok::<Option<PortEvent<T>>, TryRecvError>(
                None,
            ),
            final(self).phase() == old(self).phase(),
            final(self).spec_unbounded() == old(self).spec_unbounded(),
    {
        poll_value(self.poll())
    }

    /// Takes the next message if one is waiting, without waiting: `None` once a
    /// disconnect event arrives or the stream has ended, and also when the port has
    /// no channel; an error when no message is waiting yet, including when a
    /// connect event was passed over.
    pub fn try_recv(&mut self) -> (r: Result<Option<T>, TryRecvError>)
        ensures
            !old(self).phase().has_channel() ==> r == Ok::<Option<T>, TryRecvError>(None),
            final(self).phase() == old(self).phase(),
            final(self).spec_unbounded() == old(self).spec_unbounded(),
    {
        poll_step(self.poll())
    }
}

impl<T> Default for Inputs<T> {
    fn default() -> (r: Inputs<T>)
        ensures
            r.phase() == PortState::Unconnected,
            !r.spec_unbounded(),
    {
        Inputs::new()
    }
}

impl<T> Port<T> for Inputs<T> {
    fn close(&mut self) {
        Inputs::close(self)
    }

    fn direction(&self) -> PortDirection {
        Inputs::direction(self)
    }

    fn state(&self) -> PortState {
        Inputs::state(self)
    }

    fn capacity(&self) -> Option<usize> {
        Inputs::capacity(self)
    }

    fn max_capacity(&self) -> Option<usize> {
        Inputs::max_capacity(self)
    }
}

impl<T> InputPort<T> for Inputs<T> {
    fn is_empty(&self) -> bool {
        Inputs::is_empty(self)
    }

    fn try_recv(&mut self) -> Result<Option<T>, TryRecvError> {
        Inputs::try_recv(self)
    }
}

} // verus!
