//! Core logic of an LLM serving benchmark: configuration rules and the
//! planning of synthetic prompts.
use vstd::prelude::*;

pub mod binary64;
pub mod config;
pub mod draws;
pub mod prompt;
pub mod synthetic;
pub mod text;

verus! {

} // verus!
