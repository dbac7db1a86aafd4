//! A fixed-capacity array: a vector whose elements never outnumber a
//! capacity chosen at compile time, with a draining iterator.
use vstd::prelude::*;

pub mod const_array;
mod convert;
pub mod drain;
pub mod error;
pub mod fixed_array;
pub mod laws;

verus! {

} // verus!
