//! The machine word: an unsigned 256-bit integer.

use vstd::prelude::*;

verus! {

/// Number of bytes in one word of memory.
pub open spec fn word_bytes() -> nat {
    32
}

/// What one limb counts for in the next: 2 to the power 64.
pub open spec fn limb_radix() -> nat {
    0x1_0000_0000_0000_0000
}

/// The number that four limbs spell, the least significant limb first.
pub open spec fn limbs_value(limbs: Seq<u64>) -> nat {
    limbs[0] as nat + limb_radix() * (limbs[1] as nat + limb_radix() * (limbs[2] as nat
        + limb_radix() * (limbs[3] as nat)))
}

/// An unsigned 256-bit machine word, held as four 64-bit limbs with the least
/// significant limb first.
#[derive(Clone, Copy, Debug)]
pub struct Word(pub [u64; 4]);

impl View for Word {
    type V = nat;

    /// The number that the word holds.
    open spec fn view(&self) -> nat {
        limbs_value(self.0@)
    }
}

impl Word {
    /// The word that holds `value`.
    pub fn from_u64(value: u64) -> (word: Word)
        ensures
            word@ == value,
    {
        Word([value, 0, 0, 0])
    }

    /// Index of the memory word that holds the byte at offset `self`, that is
    /// the offset divided by 32 and rounded down, where a `usize` can hold it.
    pub fn word_index(&self) -> (index: Option<usize>)
        ensures
            index == if self@ / word_bytes() <= usize::MAX {
                Some((self@ / word_bytes()) as usize)
            } else {
                None::<usize>
            },
    {
        let low: u64 = self.0[0];
        let high: u64 = self.0[1];
        if self.0[2] != 0 || self.0[3] != 0 || high >= 32 {
            return None;
        }
        // The offset is below 2^69, so the index is below 2^64.
        let index: u64 = high * 0x0800_0000_0000_0000 + low / 32;
        if index > usize::MAX as u64 {
            None
        } else {
            Some(index as usize)
        }
    }
}

} // verus!
