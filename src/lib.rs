use vstd::prelude::*;

pub mod action;
pub mod engine;
pub mod plan;
pub mod planner;
pub mod receipt;

verus! {

} // verus!
