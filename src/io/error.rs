use super::{RecvError, SendError, TryRecvError, TrySendError};
use vstd::prelude::*;

verus! {

/// The result of a task, a block, or a channel operation.
pub type Result<T = (), E = Error> = core::result::Result<T, E>;

/// Any error that a channel operation can give.
#[derive(Clone, Copy, Debug, PartialEq, Eq, Structural)]
pub enum Error {
    Recv(RecvError),
    TryRecv(TryRecvError),
    Send(SendError),
    TrySend(TrySendError),
}

impl Error {
    /// Returns the text that describes this error: that of the error it wraps.
    pub fn as_str(&self) -> (r: &'static str)
        ensures
            r == match self {
                Error::Recv(_) => "RecvError",
                Error::TryRecv(_) => "TryRecvError",
                Error::Send(_) => "SendError",
                Error::TrySend(_) => "TrySendError",
            },
    {
        match self {
            Error::Recv(e) => e.as_str(),
            Error::TryRecv(e) => e.as_str(),
            Error::Send(e) => e.as_str(),
            Error::TrySend(e) => e.as_str(),
        }
    }
}

/// The first failure among the results of a set of tasks, in their order, or
/// `Ok(())` when none failed.
pub open spec fn spec_first_failure<E>(results: Seq<core::result::Result<(), E>>) -> core::result::Result<
    (),
    E,
>
    decreases results.len(),
{
    if results.len() == 0 {
        Ok(())
    } else if results[0] is Err {
        results[0]
    } else {
        spec_first_failure(results.drop_first())
    }
}

/// Returns the first failure among the results of a set of tasks, or `Ok(())`
/// when none failed: a system reports the first task that failed.
pub fn first_failure<E>(results: Vec<core::result::Result<(), E>>) -> (r: core::result::Result<
    (),
    E,
>)
    ensures
        r == spec_first_failure(results@),
{
    let ghost all = results@;
    let mut rest = results;
    let mut first: core::result::Result<(), E> = Ok(());
    proof {
        assert(all.subrange(all.len() as int, all.len() as int) =~= Seq::<
            core::result::Result<(), E>,
        >::empty());
    }
    while rest.len() > 0
        invariant
            rest@.len() <= all.len(),
            rest@ == all.subrange(0, rest@.len() as int),
            first == spec_first_failure(all.subrange(rest@.len() as int, all.len() as int)),
        decreases rest@.len(),
    {
        let last = rest.pop().unwrap();
        let ghost i = rest@.len() as int;
        proof {
            let tail = all.subrange(i, all.len() as int);
            assert(tail[0] == last);
            assert(tail.drop_first() =~= all.subrange(i + 1, all.len() as int));
            assert(rest@ =~= all.subrange(0, i));
        }
        match last {
            Ok(()) => {},
            Err(e) => {
                first = Err(e);
            },
        }
    }
    proof {
        assert(all.subrange(0, all.len() as int) =~= all);
    }
    first
}

impl From<RecvError> for Error {
    fn from(e: RecvError) -> (r: Error) {
        Error::Recv(e)
    }
}

impl vstd::std_specs::convert::FromSpecImpl<RecvError> for Error {
    open spec fn obeys_from_spec() -> bool {
        true
    }

    open spec fn from_spec(e: RecvError) -> Error {
        Error::Recv(e)
    }
}

impl From<TryRecvError> for Error {
    fn from(e: TryRecvError) -> (r: Error) {
        Error::TryRecv(e)
    }
}

impl vstd::std_specs::convert::FromSpecImpl<TryRecvError> for Error {
    open spec fn obeys_from_spec() -> bool {
        true
    }

    open spec fn from_spec(e: TryRecvError) -> Error {
        Error::TryRecv(e)
    }
}

impl From<SendError> for Error {
    fn from(e: SendError) -> (r: Error) {
        Error::Send(e)
    }
}

impl vstd::std_specs::convert::FromSpecImpl<SendError> for Error {
    open spec fn obeys_from_spec() -> bool {
        true
    }

    open spec fn from_spec(e: SendError) -> Error {
        Error::Send(e)
    }
}

impl From<TrySendError> for Error {
    fn from(e: TrySendError) -> (r: Error) {
        Error::TrySend(e)
    }
}

impl vstd::std_specs::convert::FromSpecImpl<TrySendError> for Error {
    open spec fn obeys_from_spec() -> bool {
        true
    }

    open spec fn from_spec(e: TrySendError) -> Error {
        Error::TrySend(e)
    }
}

} // verus!
