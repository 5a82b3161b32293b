//! Durable handles over tree-sitter parse results: a language registry, a
//! parser driver with a time budget, byte-range relocated nodes and compiled
//! queries whose results are owned values.
use vstd::prelude::*;

pub mod engine;
pub mod error;
pub mod point;
pub mod range;
pub mod render;
pub mod query;
pub mod tree;
pub mod parser;
pub mod language;
pub mod node;

verus! {

} // verus!
