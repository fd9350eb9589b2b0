use super::backend::{lemma_max_buffer, MAX_BUFFER};
use super::{recv_step, Input, Inputs, Output, Outputs, RecvStep};
use crate::io::{Error, PortEvent, PortState, RecvError, SendError};
use vstd::prelude::*;

verus! {

/// The buffer size that a requested capacity gives: the capacity itself, or for
/// `0`, which asks for no bound, the largest buffer that the channel allows.
pub open spec fn buffer_for(capacity: usize) -> usize {
    if capacity == 0 {
        MAX_BUFFER
    } else {
        capacity
    }
}

/// Returns the buffer size for a requested capacity.
pub fn buffer_size(capacity: usize) -> (r: usize)
    requires
        capacity <= MAX_BUFFER,
    ensures
        r == buffer_for(capacity),
        0 < r <= MAX_BUFFER,
{
    proof {
        lemma_max_buffer();
    }
    if capacity == 0 {
        MAX_BUFFER
    } else {
        capacity
    }
}

/// Whether both ends of a fresh channel are connected to it, and record whether
/// it was asked for with no bound.
pub open spec fn fresh_pair<T>(tx: Outputs<T>, rx: Inputs<T>, unbounded: bool) -> bool {
    &&& tx.phase() == PortState::Connected
    &&& rx.phase() == PortState::Connected
    &&& tx.spec_unbounded() == unbounded
    &&& rx.spec_unbounded() == unbounded
}

/// A channel: an output port and the input port that receives what it sends.
#[derive(Debug)]
#[verifier::reject_recursive_types(T)]
pub struct Channel<T> {
    pub tx: Outputs<T>,
    pub rx: Inputs<T>,
}

impl<T> Channel<T> {
    /// Creates two independent channels, each with a buffer of one message.
    pub fn pair() -> (r: (Channel<T>, Channel<T>))
        ensures
            fresh_pair(r.0.tx, r.0.rx, false),
            fresh_pair(r.1.tx, r.1.rx, false),
    {
        proof {
            lemma_max_buffer();
        }
        (Channel::bounded(1), Channel::bounded(1))
    }

    /// Creates a channel with a buffer of one message.
    pub fn oneshot() -> (r: Channel<T>)
        ensures
            fresh_pair(r.tx, r.rx, false),
    {
        proof {
            lemma_max_buffer();
        }
        Channel::bounded(1)
    }

    /// Creates a channel with a buffer of `capacity` messages; `0` asks for no
    /// bound.
    pub fn bounded(capacity: usize) -> (r: Channel<T>)
        requires
            capacity <= MAX_BUFFER,
        ensures
            fresh_pair(r.tx, r.rx, capacity == 0),
    {
        let (tx, rx) = tokio::sync::mpsc::channel::<PortEvent<T>>(buffer_size(capacity));
        let unbounded = capacity == 0;
        Channel { tx: Outputs::fresh(tx, unbounded), rx: Inputs::fresh(rx, unbounded) }
    }

    /// Splits the channel into its output and input ports.
    pub fn into_inner(self) -> (r: (Outputs<T>, Inputs<T>))
        ensures
            r.0 == self.tx,
            r.1 == self.rx,
    {
        (self.tx, self.rx)
    }
}

/// Creates a channel with a buffer of `capacity` messages, `0` asking for no
/// bound, and returns its output and input ports.
pub fn bounded<T>(capacity: usize) -> (r: (Outputs<T>, Inputs<T>))
    requires
        capacity <= MAX_BUFFER,
    ensures
        fresh_pair(r.0, r.1, capacity == 0),
{
    Channel::bounded(capacity).into_inner()
}

/// Creates a channel of plain messages with a buffer of one message.
pub fn single<T>() -> (r: (Output<T>, Input<T>)) {
    proof {
        lemma_max_buffer();
    }
    let (tx, rx) = tokio::sync::mpsc::channel::<T>(1);
    (Output::from_sender(tx), Input::from_receiver(rx))
}

/// What a forwarding task does after a receive: relay a message, pass over an
/// event, stop because the stream has ended, or stop with an error.
#[derive(Debug, PartialEq, Eq)]
pub enum Forward<T> {
    Relay(T),
    Skip,
    Done,
    Fail(Error),
}

/// What a forwarding task does with the result of a receive: a receive error
/// stops it with that error; otherwise the event goes as [`recv_step`] says,
/// with a delivered message relayed and the end of the stream ending the task.
pub open spec fn spec_forward_step<T>(received: Result<Option<PortEvent<T>>, RecvError>) -> Forward<
    T,
> {
    match received {
        Err(e) => Forward::Fail(Error::Recv(e)),
        Ok(Some(PortEvent::Message(m))) => Forward::Relay(m),
        Ok(Some(PortEvent::Connect)) => Forward::Skip,
        Ok(_) => Forward::Done,
    }
}

/// Returns what a forwarding task does with the result of a receive.
pub fn forward_step<T>(received: Result<Option<PortEvent<T>>, RecvError>) -> (r: Forward<T>)
    ensures
        r == spec_forward_step(received),
{
    match received {
        Err(e) => Forward::Fail(Error::Recv(e)),
        Ok(event) => match recv_step(event) {
            RecvStep::Deliver(m) => Forward::Relay(m),
            RecvStep::Skip => Forward::Skip,
            RecvStep::End => Forward::Done,
        },
    }
}

/// What a forwarding task does with the result of relaying a message: go on, or
/// stop with the send error.
pub fn forward_sent(sent: Result<(), SendError>) -> (r: Result<(), Error>)
    ensures
        sent is Ok ==> r is Ok,
        sent matches Err(e) ==> r == Err::<(), Error>(Error::Send(e)),
{
    match sent {
        Ok(()) => Ok(()),
        Err(e) => Err(Error::Send(e)),
    }
}

} // verus!
