//! Operand labels and memory-word lookups for a bytecode debugger.
//!
//! Two pure lookups over one step of a stack machine:
//!
//! * [`InstructionExt::affected_stack_items`] names the stack slots that an
//!   instruction reads, by their depth below the top of the stack;
//! * [`DebugStepExt::affected_memory_word`] finds the 32-byte memory word that
//!   a word load or store touches.
//!
//! Neither executes anything: both only describe a step for display.

pub mod opcode;
pub mod operands;
pub mod step;
pub mod word;

pub use operands::stack_indices_affected;
pub use step::{DebugStep, DebugStepExt, Instruction, InstructionExt};
pub use word::Word;
