//! Driver error, parameterised by the bus's own error type.
use vstd::prelude::*;

verus! {

/// `Bus` = NACK / stuck bus / bus failure; `Identity` = the device answered but its WHO_AM_I or
/// data was wrong; `NotReady` = present and configured, but no sample within the bounded poll;
/// `Unsupported` = a transaction shape the bus does not provide.
#[derive(Debug, Clone, Copy, PartialEq, Eq)]
pub enum Error<E> {
    Bus(E),
    Identity,
    NotReady,
    Unsupported,
}

impl<E> From<E> for Error<E> {
    fn from(e: E) -> (r: Self) {
        Error::Bus(e)
    }
}

impl<E> vstd::std_specs::convert::FromSpecImpl<E> for Error<E> {
    open spec fn obeys_from_spec() -> bool {
        true
    }

    open spec fn from_spec(v: E) -> Self {
        Error::Bus(v)
    }
}

/// What a driver's bounded poll does after one read.
#[derive(Debug, Clone, Copy, PartialEq, Eq, Structural)]
pub enum PollStep {
    /// The awaited condition holds: use this read.
    Done,
    /// Not yet, reads left: read again.
    Again,
    /// Not after `limit` reads: the device is not ready.
    GiveUp,
}

/// Decide after read number `reads` (counting from 1) of a poll allowed `limit` reads, given
/// whether the awaited condition held on it.
pub fn poll_step(reads: u16, limit: u16, ready: bool) -> (s: PollStep)
    requires
        1 <= reads <= limit,
    ensures
        s == (if ready { PollStep::Done } else if reads < limit { PollStep::Again } else { PollStep::GiveUp }),
{
    if ready {
        PollStep::Done
    } else if reads < limit {
        PollStep::Again
    } else {
        PollStep::GiveUp
    }
}

} // verus!
