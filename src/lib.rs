use vstd::prelude::*;

pub mod config;
pub mod route;
pub mod startup;

verus! {

} // verus!
