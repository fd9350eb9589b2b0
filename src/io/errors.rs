use vstd::prelude::*;

verus! {

/// The receiving side failed to observe a pending message, for a reason other
/// than the end of the stream.
#[derive(Clone, Copy, Debug, PartialEq, Eq, Structural)]
pub struct RecvError;

impl RecvError {
    /// Returns the text that describes this error.
    pub fn as_str(&self) -> (r: &'static str)
        ensures
            r == "RecvError",
    {
        "RecvError"
    }
}

/// A non-blocking receive found no message to take.
#[derive(Clone, Copy, Debug, PartialEq, Eq, Structural)]
pub struct TryRecvError;

impl TryRecvError {
    /// Returns the text that describes this error.
    pub fn as_str(&self) -> (r: &'static str)
        ensures
            r == "TryRecvError",
    {
        "TryRecvError"
    }
}

/// The receiving side is gone, so the message cannot be delivered.
#[derive(Clone, Copy, Debug, PartialEq, Eq, Structural)]
pub struct SendError;

impl SendError {
    /// Returns the text that describes this error.
    pub fn as_str(&self) -> (r: &'static str)
        ensures
            r == "SendError",
    {
        "SendError"
    }
}

/// A non-blocking send could not place the message.
#[derive(Clone, Copy, Debug, PartialEq, Eq, Structural)]
pub struct TrySendError;

impl TrySendError {
    /// Returns the text that describes this error.
    pub fn as_str(&self) -> (r: &'static str)
        ensures
            r == "TrySendError",
    {
        "TrySendError"
    }
}

} // verus!
