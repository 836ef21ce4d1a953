use vstd::prelude::*;

pub mod config;
pub mod escape;
pub mod gate;
pub mod policy;
pub mod rate;

verus! {

} // verus!
