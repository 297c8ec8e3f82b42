use vstd::prelude::*;

pub mod config;
pub mod laws;
pub mod search;
pub mod text;

verus! {

} // verus!
