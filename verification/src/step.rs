//! One step of the debugger: the instruction about to run and the stack it
//! will run on, with the two lookups that describe them.

use crate::opcode::{accesses_memory_word, mload, mstore};
use crate::operands::{describes, descriptors, operands, stack_indices_affected, Descriptor};
use crate::word::{word_bytes, Word};
use vstd::prelude::*;

verus! {

/// A decoded instruction.
#[derive(Clone, Copy, Debug)]
pub enum Instruction {
    /// A plain instruction of the machine, by its byte.
    OpCode(u8),
    /// A cheatcode call, by its four-byte selector. It reads no stack slot
    /// and touches no memory word.
    Cheatcode([u8; 4]),
}

/// What the debugger records before an instruction runs.
#[derive(Debug)]
pub struct DebugStep {
    /// The operand stack, the top of the stack first.
    pub stack: Vec<Word>,
    /// The instruction about to run.
    pub instruction: Instruction,
}

/// A memory word in specifications: the byte of the instruction that touches
/// it, and the word's index, which has no upper bound here.
pub type MemoryWord = (u8, nat);

/// What an executable memory-word reference stands for.
pub open spec fn memory_word_view(word: Option<(u8, usize)>) -> Option<MemoryWord> {
    match word {
        Some((op, index)) => Some((op, index as nat)),
        None => None,
    }
}

/// Helpers for working with [`Instruction`]s.
pub trait InstructionExt {
    /// The stack slots that the instruction reads, each with its label.
    spec fn stack_items(&self) -> Seq<Descriptor>;

    /// Get the stack items affected by the instruction.
    fn affected_stack_items(&self) -> (items: Vec<(usize, &'static str)>)
        ensures
            descriptors(items@) == self.stack_items(),
            describes(items@, self.stack_items()),
    ;
}

impl InstructionExt for Instruction {
    /// The operands of a plain instruction; nothing for any other.
    open spec fn stack_items(&self) -> Seq<Descriptor> {
        match self {
            Instruction::OpCode(op) => operands(*op),
            _ => Seq::empty(),
        }
    }

    fn affected_stack_items(&self) -> (items: Vec<(usize, &'static str)>) {
        match self {
            Instruction::OpCode(op) => stack_indices_affected(*op),
            _ => {
                let items: Vec<(usize, &'static str)> = Vec::new();
                assert(descriptors(items@) =~= self.stack_items());
                items
            },
        }
    }
}

/// Helpers for working with [`DebugStep`]s.
pub trait DebugStepExt {
    /// The memory word that the step's instruction reads or writes, if any.
    spec fn memory_word(&self) -> Option<MemoryWord>;

    /// Whether a `usize` can hold the index of that word. A step that
    /// touches no memory word is always in range.
    open spec fn memory_word_in_range(&self) -> bool {
        self.memory_word() matches Some(word) ==> word.1 <= usize::MAX
    }

    /// Get the word being written to or read by the instruction (if any).
    fn affected_memory_word(&self) -> (word: Option<(u8, usize)>)
        requires
            self.memory_word_in_range(),
        ensures
            memory_word_view(word) == self.memory_word(),
    ;
}

impl DebugStepExt for DebugStep {
    /// On a stack that is not empty, a word load or store touches the word
    /// that holds the byte offset on top of the stack. Nothing else touches
    /// a word, and nothing does on an empty stack.
    open spec fn memory_word(&self) -> Option<MemoryWord> {
        if self.stack@.len() == 0 {
            None
        } else {
            match self.instruction {
                Instruction::OpCode(op) => if accesses_memory_word(op) {
                    Some((op, self.stack@[0]@ / word_bytes()))
                } else {
                    None
                },
                _ => None,
            }
        }
    }

    fn affected_memory_word(&self) -> (word: Option<(u8, usize)>) {
        if self.stack.len() == 0 {
            return None;
        }
        match self.instruction {
            Instruction::OpCode(op) => {
                if op == mstore() || op == mload() {
                    match self.stack[0].word_index() {
                        Some(index) => Some((op, index)),
                        None => None,
                    }
                } else {
                    None
                }
            },
            _ => None,
        }
    }
}

impl DebugStep {
    /// Tests whether [`DebugStepExt::affected_memory_word`] can be asked of
    /// this step: whether a `usize` can hold the index of the word it touches.
    pub fn has_memory_word_in_range(&self) -> (in_range: bool)
        ensures
            in_range == self.memory_word_in_range(),
    {
        if self.stack.len() == 0 {
            return true;
        }
        match self.instruction {
            Instruction::OpCode(op) => {
                if op == mstore() || op == mload() {
                    self.stack[0].word_index().is_some()
                } else {
                    true
                }
            },
            _ => true,
        }
    }
}

/// An instruction that is not a plain opcode has no stack items, whatever it
/// carries.
pub proof fn lemma_other_instruction_has_no_stack_items(instruction: Instruction)
    requires
        !(instruction is OpCode),
    ensures
        instruction.stack_items() == Seq::<Descriptor>::empty(),
{
}

/// On an empty stack no instruction touches a memory word, and the lookup may
/// be asked.
pub proof fn lemma_empty_stack_has_no_memory_word(step: DebugStep)
    requires
        step.stack@.len() == 0,
    ensures
        step.memory_word() is None,
        step.memory_word_in_range(),
{
}

/// Only the word load and the word store touch a memory word: a step with
/// any other opcode, or with an instruction that is no plain opcode, touches
/// none, whatever is on its stack.
pub proof fn lemma_only_word_access_has_memory_word(step: DebugStep)
    requires
        !(step.instruction matches Instruction::OpCode(op) && accesses_memory_word(op)),
    ensures
        step.memory_word() is None,
        step.memory_word_in_range(),
{
}

/// Two calls of `affected_stack_items` on the same instruction return the
/// same descriptors.
pub proof fn lemma_affected_stack_items_is_deterministic(
    instruction: Instruction,
    first: Vec<(usize, &'static str)>,
    second: Vec<(usize, &'static str)>,
)
    requires
        call_ensures(
            <Instruction as InstructionExt>::affected_stack_items,
            (&instruction,),
            first,
        ),
        call_ensures(
            <Instruction as InstructionExt>::affected_stack_items,
            (&instruction,),
            second,
        ),
    ensures
        descriptors(first@) == descriptors(second@),
{
}

/// Two calls of `affected_memory_word` on the same step return the same word.
pub proof fn lemma_affected_memory_word_is_deterministic(
    step: DebugStep,
    first: Option<(u8, usize)>,
    second: Option<(u8, usize)>,
)
    requires
        call_ensures(<DebugStep as DebugStepExt>::affected_memory_word, (&step,), first),
        call_ensures(<DebugStep as DebugStepExt>::affected_memory_word, (&step,), second),
    ensures
        first == second,
{
}

} // verus!
