//! The parts of tokio's bounded `mpsc` channel that the ports use.
use vstd::prelude::*;

verus! {

/// The largest buffer that tokio's bounded channel accepts (its semaphore's
/// `MAX_PERMITS`).
pub const MAX_BUFFER: usize = usize::MAX >> 3;

/// The largest buffer is at least `2^29 - 1`, whatever the width of `usize`.
pub proof fn lemma_max_buffer()
    ensures
        0x1fff_ffff <= MAX_BUFFER,
{
    let m: usize = usize::MAX;
    assert(m >= 0xffff_ffff);
    assert(m >= 0xffff_ffff ==> 0x1fff_ffff <= m >> 3) by (bit_vector);
}

/// tokio's `mpsc::Receiver`, the receiving half of a bounded channel, held
/// opaquely.
#[verifier::external_type_specification]
#[verifier::external_body]
#[verifier::reject_recursive_types(T)]
pub struct ExReceiver<T>(tokio::sync::mpsc::Receiver<T>);

/// tokio's `mpsc::Sender`, the sending half of a bounded channel, held opaquely.
#[verifier::external_type_specification]
#[verifier::external_body]
#[verifier::reject_recursive_types(T)]
pub struct ExSender<T>(tokio::sync::mpsc::Sender<T>);

/// Relies on `tokio::sync::mpsc::channel`, which asserts that the buffer is
/// positive and at most `MAX_PERMITS`.
pub assume_specification<T>[ tokio::sync::mpsc::channel::<T> ](buffer: usize) -> (
    tokio::sync::mpsc::Sender<T>,
    tokio::sync::mpsc::Receiver<T>,
)
    requires
        0 < buffer <= MAX_BUFFER,
;

/// Relies on the `Clone` of `tokio::sync::mpsc::Sender`: another handle to the
/// same channel.
pub assume_specification<T>[ <tokio::sync::mpsc::Sender::<T> as Clone>::clone ](
    s: &tokio::sync::mpsc::Sender<T>,
) -> tokio::sync::mpsc::Sender<T>;

/// Relies on `tokio::sync::mpsc::Receiver::is_closed`: whether the channel is
/// closed.
#[verifier::external_body]
pub(crate) fn receiver_is_closed<T>(r: &tokio::sync::mpsc::Receiver<T>) -> (out: bool) {
    r.is_closed()
}

/// Relies on `tokio::sync::mpsc::Receiver::close`: closes the channel for new
/// messages.
#[verifier::external_body]
pub(crate) fn receiver_close<T>(r: &mut tokio::sync::mpsc::Receiver<T>) {
    r.close();
}

/// Relies on `tokio::sync::mpsc::Receiver::is_empty`: whether no message is
/// buffered.
#[verifier::external_body]
pub(crate) fn receiver_is_empty<T>(r: &tokio::sync::mpsc::Receiver<T>) -> (out: bool) {
    r.is_empty()
}

/// Relies on `tokio::sync::mpsc::Receiver::try_recv`: a buffered message if
/// there is one, else whether the channel is merely empty or closed and drained.
/// It never waits.
#[verifier::external_body]
pub(crate) fn receiver_try_recv<T>(r: &mut tokio::sync::mpsc::Receiver<T>) -> (out: Polled<T>) {
    match r.try_recv() {
        Ok(v) => Polled::Ready(v),
        Err(tokio::sync::mpsc::error::TryRecvError::Empty) => Polled::Empty,
        Err(tokio::sync::mpsc::error::TryRecvError::Disconnected) => Polled::Ended,
    }
}

/// Relies on `tokio::sync::mpsc::Receiver::capacity`: the free slots of the
/// buffer.
#[verifier::external_body]
pub(crate) fn receiver_capacity<T>(r: &tokio::sync::mpsc::Receiver<T>) -> (out: usize) {
    r.capacity()
}

/// Relies on `tokio::sync::mpsc::Receiver::max_capacity`: the buffer size that
/// the channel was made with.
#[verifier::external_body]
pub(crate) fn receiver_max_capacity<T>(r: &tokio::sync::mpsc::Receiver<T>) -> (out: usize) {
    r.max_capacity()
}

/// Relies on `tokio::sync::mpsc::Sender::is_closed`: whether the receiving half
/// is gone or closed.
#[verifier::external_body]
pub(crate) fn sender_is_closed<T>(s: &tokio::sync::mpsc::Sender<T>) -> (out: bool) {
    s.is_closed()
}

/// Relies on `tokio::sync::mpsc::Sender::capacity`: the free slots of the
/// buffer.
#[verifier::external_body]
pub(crate) fn sender_capacity<T>(s: &tokio::sync::mpsc::Sender<T>) -> (out: usize) {
    s.capacity()
}

/// Relies on `tokio::sync::mpsc::Sender::max_capacity`: the buffer size that the
/// channel was made with.
#[verifier::external_body]
pub(crate) fn sender_max_capacity<T>(s: &tokio::sync::mpsc::Sender<T>) -> (out: usize) {
    s.max_capacity()
}

/// What a receive that does not wait found: a message, an empty buffer, or the
/// end of the stream (every sender gone or the channel closed, and nothing left).
pub enum Polled<T> {
    Ready(T),
    Empty,
    Ended,
}

/// Why a send that does not wait failed: the buffer is full, or the receiver
/// is gone. Either way the message comes back.
pub enum SendFailure<T> {
    Full(T),
    Closed(T),
}

impl<T> SendFailure<T> {
    /// The message that was not sent.
    pub open spec fn spec_value(self) -> T {
        match self {
            SendFailure::Full(v) => v,
            SendFailure::Closed(v) => v,
        }
    }

    /// Returns the message that was not sent.
    pub fn into_value(self) -> (r: T)
        ensures
            r == self.spec_value(),
    {
        match self {
            SendFailure::Full(v) => v,
            SendFailure::Closed(v) => v,
        }
    }
}

/// Relies on `tokio::sync::mpsc::Sender::try_send`: sends if a slot is free and
/// the receiver is still there, else hands the same value back with the reason.
#[verifier::external_body]
pub(crate) fn sender_try_send<T>(s: &tokio::sync::mpsc::Sender<T>, value: T) -> (r:
    core::result::Result<(), SendFailure<T>>)
    ensures
        r matches Err(f) ==> f.spec_value() == value,
{
    match s.try_send(value) {
        Ok(()) => Ok(()),
        Err(tokio::sync::mpsc::error::TrySendError::Full(v)) => Err(SendFailure::Full(v)),
        Err(tokio::sync::mpsc::error::TrySendError::Closed(v)) => Err(SendFailure::Closed(v)),
    }
}

} // verus!
