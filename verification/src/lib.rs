//! Lambdust runtime support library: host-function signatures, proof
//! obligation management and the bookkeeping side of the JIT subsystem.
use vstd::prelude::*;

pub mod continuations;
pub mod error;
pub mod formal_verification;
pub mod host;
pub mod jit;
pub mod text;
pub mod time;
pub mod value;

verus! {
} // verus!
