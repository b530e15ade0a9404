//! Line-oriented text search: literal and pattern matching over lines, and
//! extraction of per-match context windows.
use vstd::prelude::*;

pub mod context;
pub mod matching;
pub mod search;
pub mod render;
pub mod demo;

verus! {

} // verus!
