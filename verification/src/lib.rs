use vstd::prelude::*;

pub mod devices;
pub mod diag;
pub mod prod;
pub mod sched;
pub mod uart;

verus! {
} // verus!
