//! The product build's bus error for the embedded-hal I²C seam.
use vstd::prelude::*;

verus! {

/// `Bus`: the bounded write failed (NACK or stuck-bus timeout, not distinguished);
/// `Unsupported`: a transaction shape not implemented (a register pointer wider than one byte).
#[derive(Debug, Clone, Copy, PartialEq, Eq, Structural)]
pub enum Error {
    Bus,
    Unsupported,
}

impl Error {
    /// A bus error is a NACK from the trait's point of view; anything else is "other".
    pub fn is_no_acknowledge(&self) -> (b: bool)
        ensures
            b == (*self == Error::Bus),
    {
        match self {
            Error::Bus => true,
            Error::Unsupported => false,
        }
    }
}

} // verus!
