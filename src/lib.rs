//! Code generation for a stack machine: an instruction-stream builder that
//! simulates the operand stack and decides, after the fact, when a named
//! value must move from the stack to a local; plus a few editor and
//! documentation helpers.
use vstd::prelude::*;

pub mod instruction;
pub mod opcode;
pub mod code_builder;
pub mod caret_w_select;
pub mod solved_types;
pub mod highlight;

verus! {

} // verus!
