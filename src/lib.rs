use vstd::prelude::*;

pub mod casm;
pub mod ec;
pub mod invocation;
pub mod laws;
pub mod u248;
pub mod field;

verus! {

} // verus!
