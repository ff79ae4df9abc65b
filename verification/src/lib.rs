//! A minimal virtual processing unit: a fixed-width register machine with
//! addressable linear memory, a small integer instruction set, and a stack
//! kept in the top of memory.
//!
//! The machine state lives in [`machine::ProcessingUnit`]; the instruction
//! set and fault taxonomy are in [`isa`]; the fetch-execute loop in
//! [`engine`] is verified against the mathematical interpreter
//! [`engine::run_from`].

pub mod dims;
pub mod engine;
pub mod isa;
pub mod laws;
pub mod machine;
pub mod values;

use vstd::prelude::*;

verus! {

/// The registers a freshly initialized machine starts from: all zero.
pub open spec fn zero_values(n: nat) -> Seq<i32> {
    Seq::new(n, |i: int| 0i32)
}

} // verus!
