use op_effects::{DebugStep, DebugStepExt, Instruction, Word};
use primitive_types::U256;

const MLOAD: u8 = 0x51;
const MSTORE: u8 = 0x52;

fn step(op: u8, stack: &[u64]) -> DebugStep {
    DebugStep {
        stack: stack.iter().map(|value| Word::from_u64(*value)).collect(),
        instruction: Instruction::OpCode(op),
    }
}

#[test]
fn empty_stack_has_no_memory_word() {
    for op in 0..=255u8 {
        let empty = step(op, &[]);
        assert!(empty.has_memory_word_in_range());
        assert_eq!(empty.affected_memory_word(), None);
    }
    let cheatcode = DebugStep { stack: vec![], instruction: Instruction::Cheatcode([0; 4]) };
    assert_eq!(cheatcode.affected_memory_word(), None);
}

#[test]
fn store_at_64_touches_word_2() {
    assert_eq!(step(MSTORE, &[64]).affected_memory_word(), Some((MSTORE, 2)));
}

#[test]
fn store_at_31_touches_word_0() {
    assert_eq!(step(MSTORE, &[31]).affected_memory_word(), Some((MSTORE, 0)));
}

#[test]
fn store_at_32_touches_word_1() {
    assert_eq!(step(MSTORE, &[32]).affected_memory_word(), Some((MSTORE, 1)));
}

#[test]
fn load_touches_the_word_of_its_offset() {
    assert_eq!(step(MLOAD, &[0]).affected_memory_word(), Some((MLOAD, 0)));
    assert_eq!(step(MLOAD, &[63]).affected_memory_word(), Some((MLOAD, 1)));
    assert_eq!(step(MLOAD, &[64]).affected_memory_word(), Some((MLOAD, 2)));
    assert_eq!(step(MLOAD, &[1000]).affected_memory_word(), Some((MLOAD, 31)));
}

#[test]
fn the_offset_is_the_first_word_of_the_stack() {
    assert_eq!(step(MSTORE, &[64, 0]).affected_memory_word(), Some((MSTORE, 2)));
    assert_eq!(step(MSTORE, &[0, 64]).affected_memory_word(), Some((MSTORE, 0)));
    assert_eq!(step(MLOAD, &[96, 64, 32]).affected_memory_word(), Some((MLOAD, 3)));
}

#[test]
fn other_opcodes_have_no_memory_word() {
    for op in 0..=255u8 {
        if op != MLOAD && op != MSTORE {
            let other = step(op, &[64, 1]);
            assert!(other.has_memory_word_in_range());
            assert_eq!(other.affected_memory_word(), None, "opcode {:#04x}", op);
        }
    }
}

#[test]
fn byte_store_has_no_memory_word() {
    assert_eq!(step(0x53, &[64, 1]).affected_memory_word(), None);
}

#[test]
fn cheatcode_has_no_memory_word() {
    let cheatcode = DebugStep {
        stack: vec![Word::from_u64(64)],
        instruction: Instruction::Cheatcode([0x52, 0x51, 0x52, 0x51]),
    };
    assert!(cheatcode.has_memory_word_in_range());
    assert_eq!(cheatcode.affected_memory_word(), None);
}

#[test]
fn memory_word_is_the_same_on_every_call() {
    for op in [MLOAD, MSTORE, 0x53, 0x00] {
        for stack in [&[][..], &[64][..], &[31, 5][..]] {
            let recorded = step(op, stack);
            assert_eq!(recorded.affected_memory_word(), recorded.affected_memory_word());
        }
    }
}

#[test]
fn the_machine_names_the_same_opcodes() {
    assert_eq!(revm::opcode::MLOAD, MLOAD);
    assert_eq!(revm::opcode::MSTORE, MSTORE);
    assert_eq!(
        step(revm::opcode::MLOAD, &[32]).affected_memory_word(),
        Some((revm::opcode::MLOAD, 1))
    );
    assert_eq!(
        step(revm::opcode::MSTORE, &[32]).affected_memory_word(),
        Some((revm::opcode::MSTORE, 1))
    );
    assert_eq!(step(revm::opcode::MSTORE8, &[32]).affected_memory_word(), None);
}

#[test]
fn word_index_divides_by_32() {
    assert_eq!(Word::from_u64(0).word_index(), Some(0));
    assert_eq!(Word::from_u64(31).word_index(), Some(0));
    assert_eq!(Word::from_u64(32).word_index(), Some(1));
    assert_eq!(Word::from_u64(u64::MAX).word_index(), usize::try_from(u64::MAX / 32).ok());
}

#[test]
fn word_index_carries_from_the_second_limb() {
    // 2^64 + 64 is word 2^59 + 2.
    let expected = usize::try_from((1u64 << 59) + 2).ok();
    assert_eq!(Word([64, 1, 0, 0]).word_index(), expected);
    // 31 * 2^64 + (2^64 - 1) is the last offset whose word a u64 can count.
    assert_eq!(Word([u64::MAX, 31, 0, 0]).word_index(), usize::try_from(u64::MAX).ok());
}

#[test]
fn word_index_out_of_range_is_none() {
    assert_eq!(Word([0, 32, 0, 0]).word_index(), None);
    assert_eq!(Word([0, 0, 1, 0]).word_index(), None);
    assert_eq!(Word([0, 0, 0, 1]).word_index(), None);
    assert_eq!(Word([u64::MAX; 4]).word_index(), None);
}

#[test]
fn out_of_range_offset_is_reported_before_the_lookup() {
    let far = DebugStep {
        stack: vec![Word([0, 0, 0, 1])],
        instruction: Instruction::OpCode(MSTORE),
    };
    assert!(!far.has_memory_word_in_range());
    let not_a_word_access = DebugStep {
        stack: vec![Word([0, 0, 0, 1])],
        instruction: Instruction::OpCode(0x53),
    };
    assert!(not_a_word_access.has_memory_word_in_range());
    assert_eq!(not_a_word_access.affected_memory_word(), None);
}

#[test]
fn words_spell_the_machine_integer() {
    for value in [0u64, 1, 31, 32, 64, 4096, u64::MAX] {
        assert_eq!(Word::from_u64(value).0, U256::from(value).0);
    }
    for machine in [
        U256::from(0u64),
        U256::from(31u64),
        U256::from(32u64),
        U256::from(64u64),
        U256::from(123_456_789u64),
        U256::from(u64::MAX) >> 6,
    ] {
        let recorded = DebugStep {
            stack: vec![Word(machine.0)],
            instruction: Instruction::OpCode(MSTORE),
        };
        assert_eq!(recorded.affected_memory_word(), Some((MSTORE, machine.as_usize() / 32)));
    }
}

#[test]
fn wide_words_divide_like_the_machine_integer() {
    let machine = (U256::from(17u64) << 64) + U256::from(99u64);
    let index = machine / U256::from(32u64);
    assert_eq!(Word(machine.0).word_index(), usize::try_from(index.low_u64()).ok());
    assert!(index <= U256::from(u64::MAX));
}
