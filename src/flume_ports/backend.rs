//! The parts of flume's bounded channel that the ports use.
use crate::channel::{Polled, SendFailure};
use vstd::prelude::*;

verus! {

/// flume's `Receiver`, the receiving half of a channel, held opaquely.
#[verifier::external_type_specification]
#[verifier::external_body]
#[verifier::reject_recursive_types(T)]
pub struct ExFlumeReceiver<T>(flume::Receiver<T>);

/// flume's `Sender`, the sending half of a channel, held opaquely.
#[verifier::external_type_specification]
#[verifier::external_body]
#[verifier::reject_recursive_types(T)]
pub struct ExFlumeSender<T>(flume::Sender<T>);

/// Relies on `flume::bounded`: a connected pair of handles to a new channel with
/// room for `cap` messages (none, for a rendezvous channel, when `cap` is 0).
#[verifier::external_body]
pub(crate) fn flume_bounded<T>(cap: usize) -> (r: (flume::Sender<T>, flume::Receiver<T>)) {
    flume::bounded(cap)
}

/// Relies on `flume::Receiver::capacity`: the channel's bound, `None` if it has
/// none.
#[verifier::external_body]
pub(crate) fn receiver_bound<T>(r: &flume::Receiver<T>) -> (out: Option<usize>) {
    r.capacity()
}

/// Relies on `flume::Sender::capacity`: the channel's bound, `None` if it has
/// none.
#[verifier::external_body]
pub(crate) fn sender_bound<T>(s: &flume::Sender<T>) -> (out: Option<usize>) {
    s.capacity()
}

/// Relies on `flume::Receiver::len`: the number of messages in the channel.
pub assume_specification<T>[ flume::Receiver::<T>::len ](r: &flume::Receiver<T>) -> usize;

/// Relies on `flume::Sender::len`: the number of messages in the channel.
pub assume_specification<T>[ flume::Sender::<T>::len ](s: &flume::Sender<T>) -> usize;

/// Relies on `flume::Receiver::is_empty`: whether no message is waiting (always
/// so for a rendezvous channel).
#[verifier::external_body]
pub(crate) fn receiver_is_empty<T>(r: &flume::Receiver<T>) -> (out: bool) {
    r.is_empty()
}

/// Relies on `flume::Receiver::is_disconnected`: whether all senders are gone.
#[verifier::external_body]
pub(crate) fn receiver_disconnected<T>(r: &flume::Receiver<T>) -> (out: bool) {
    r.is_disconnected()
}

/// Relies on `flume::Sender::is_disconnected`: whether all receivers are gone.
#[verifier::external_body]
pub(crate) fn sender_disconnected<T>(s: &flume::Sender<T>) -> (out: bool) {
    s.is_disconnected()
}

/// Relies on `flume::Receiver::recv`: waits for the next message; `None` once all
/// senders are gone and the channel is drained, the only error that flume's
/// `recv` gives. It blocks the thread.
#[verifier::external_body]
pub(crate) fn receiver_recv<T>(r: &flume::Receiver<T>) -> (out: Option<T>) {
    match r.recv() {
        Ok(v) => Some(v),
        Err(flume::RecvError::Disconnected) => None,
    }
}

/// Relies on `flume::Sender::send`: waits for room and sends, or hands the same
/// value back once all receivers are gone. It blocks the thread.
#[verifier::external_body]
pub(crate) fn sender_send<T>(s: &flume::Sender<T>, value: T) -> (out: core::result::Result<(), T>)
    ensures
        out matches Err(v) ==> v == value,
{
    match s.send(value) {
        Ok(()) => Ok(()),
        Err(flume::SendError(v)) => Err(v),
    }
}

/// Relies on `flume::Receiver::try_recv`: a waiting message if there is one,
/// else whether the channel is merely empty or every sender is gone.
#[verifier::external_body]
pub(crate) fn receiver_try_recv<T>(r: &flume::Receiver<T>) -> (out: Polled<T>) {
    match r.try_recv() {
        Ok(v) => Polled::Ready(v),
        Err(flume::TryRecvError::Empty) => Polled::Empty,
        Err(flume::TryRecvError::Disconnected) => Polled::Ended,
    }
}

/// Relies on `flume::Sender::try_send`: sends if there is room and a receiver,
/// else hands the same value back with the reason.
#[verifier::external_body]
pub(crate) fn sender_try_send<T>(s: &flume::Sender<T>, value: T) -> (out: core::result::Result<
    (),
    SendFailure<T>,
>)
    ensures
        out matches Err(f) ==> f.spec_value() == value,
{
    match s.try_send(value) {
        Ok(()) => Ok(()),
        Err(flume::TrySendError::Full(v)) => Err(SendFailure::Full(v)),
        Err(flume::TrySendError::Disconnected(v)) => Err(SendFailure::Closed(v)),
    }
}

/// Relies on `flume::Sender`'s `Clone`: another handle to the same channel.
#[verifier::external_body]
pub(crate) fn sender_clone<T>(s: &flume::Sender<T>) -> (out: flume::Sender<T>) {
    s.clone()
}

/// Relies on `flume::Receiver`'s `Clone`: another handle to the same channel.
#[verifier::external_body]
pub(crate) fn receiver_clone<T>(r: &flume::Receiver<T>) -> (out: flume::Receiver<T>) {
    r.clone()
}

} // verus!
