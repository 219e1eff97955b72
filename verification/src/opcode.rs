//! The two instruction bytes that address a whole memory word.

use vstd::prelude::*;

verus! {

/// Byte of the instruction that loads a word from memory.
pub open spec fn spec_mload() -> u8 {
    0x51
}

/// Byte of the instruction that stores a word to memory.
pub open spec fn spec_mstore() -> u8 {
    0x52
}

/// Whether `op` reads or writes one whole memory word at the offset on top of
/// the stack.
pub open spec fn accesses_memory_word(op: u8) -> bool {
    op == spec_mload() || op == spec_mstore()
}

/// `revm::opcode::MLOAD`, the byte of the word load.
///
/// Trusted: the machine's crate declares the constant as `0x51`.
#[verifier::external_body]
pub(crate) fn mload() -> (op: u8)
    ensures
        op == spec_mload(),
{
    revm::opcode::MLOAD
}

/// `revm::opcode::MSTORE`, the byte of the word store.
///
/// Trusted: the machine's crate declares the constant as `0x52`.
#[verifier::external_body]
pub(crate) fn mstore() -> (op: u8)
    ensures
        op == spec_mstore(),
{
    revm::opcode::MSTORE
}

} // verus!
