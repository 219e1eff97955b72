//! The table of stack operands: which slots an instruction reads, and what
//! each of them means to it.

use vstd::prelude::*;

verus! {

/// One labelled stack slot in specifications: its depth below the top of the
/// stack (0 is the top) and the characters of its label.
pub type Descriptor = (nat, Seq<char>);

/// What a list of executable descriptors stands for.
pub open spec fn descriptors(items: Seq<(usize, &'static str)>) -> Seq<Descriptor> {
    Seq::new(items.len(), |i: int| (items[i].0 as nat, items[i].1@))
}

/// `items` and `slots` agree item by item, in depth and in label. This says
/// the same as `descriptors(items) == slots`, in the form that a caller who
/// reads single items needs.
pub open spec fn describes(items: Seq<(usize, &'static str)>, slots: Seq<Descriptor>) -> bool {
    &&& items.len() == slots.len()
    &&& forall|i: int|
        0 <= i < items.len() ==> (#[trigger] items[i]).0 == slots[i].0 && items[i].1@ == slots[i].1
}

/// Labels `names` with consecutive depths, the first name at the top.
pub open spec fn from_top(names: Seq<Seq<char>>) -> Seq<Descriptor> {
    Seq::new(names.len(), |i: int| (i as nat, names[i]))
}

/// `DUP1` to `DUP16`.
pub open spec fn is_dup(op: u8) -> bool {
    0x80 <= op <= 0x8f
}

/// `SWAP1` to `SWAP16`.
pub open spec fn is_swap(op: u8) -> bool {
    0x90 <= op <= 0x9f
}

/// `LOG0` to `LOG4`.
pub open spec fn is_log(op: u8) -> bool {
    0xa0 <= op <= 0xa4
}

/// Names of the topics of a log instruction with `n` topics, `n` at most 4. A
/// single topic goes unnumbered.
pub open spec fn topic_names(n: nat) -> Seq<Seq<char>> {
    if n == 1 {
        seq!["topic"@]
    } else {
        seq!["topic1"@, "topic2"@, "topic3"@, "topic4"@].take(n as int)
    }
}

/// Names of the operands of `op`, the top of the stack first, for the
/// instructions whose named operands lie at consecutive depths from the top.
/// Empty for an instruction without named operands, and for the `DUP` and
/// `SWAP` families, which reach below the top (see [`operands`]).
pub open spec fn operand_names(op: u8) -> Seq<Seq<char>> {
    if is_log(op) {
        seq!["offset"@, "size"@] + topic_names((op - 0xa0) as nat)
    } else {
        match op {
            // ADD MUL SUB DIV SDIV MOD SMOD, LT GT SLT SGT EQ, AND OR XOR
            0x01 | 0x02 | 0x03 | 0x04 | 0x05 | 0x06 | 0x07 | 0x10 | 0x11 | 0x12 | 0x13 | 0x14
            | 0x16 | 0x17 | 0x18 => seq!["a"@, "b"@],
            // ADDMOD MULMOD
            0x08 | 0x09 => seq!["a"@, "b"@, "N"@],
            // EXP
            0x0a => seq!["a"@, "exponent"@],
            // SIGNEXTEND
            0x0b => seq!["b"@, "x"@],
            // ISZERO NOT
            0x15 | 0x19 => seq!["a"@],
            // BYTE
            0x1a => seq!["i"@, "x"@],
            // SHL SHR SAR
            0x1b | 0x1c | 0x1d => seq!["shift"@, "value"@],
            // SHA3, RETURN, REVERT
            0x20 | 0xf3 | 0xfd => seq!["offset"@, "size"@],
            // BALANCE EXTCODESIZE EXTCODEHASH SELFDESTRUCT
            0x31 | 0x3b | 0x3f | 0xff => seq!["address"@],
            // CALLDATALOAD, MLOAD
            0x35 | 0x51 => seq!["offset"@],
            // CALLDATACOPY CODECOPY RETURNDATACOPY
            0x37 | 0x39 | 0x3e => seq!["destOffset"@, "offset"@, "size"@],
            // EXTCODECOPY
            0x3c => seq!["address"@, "destOffset"@, "offset"@, "size"@],
            // BLOCKHASH
            0x40 => seq!["blockNumber"@],
            // POP
            0x50 => seq!["y"@],
            // MSTORE MSTORE8
            0x52 | 0x53 => seq!["offset"@, "value"@],
            // SLOAD
            0x54 => seq!["key"@],
            // SSTORE
            0x55 => seq!["key"@, "value"@],
            // JUMP
            0x56 => seq!["jump_to"@],
            // JUMPI
            0x57 => seq!["jump_to"@, "if"@],
            // CREATE
            0xf0 => seq!["value"@, "offset"@, "size"@],
            // CALL CALLCODE
            0xf1 | 0xf2 => seq![
                "gas"@,
                "address"@,
                "value"@,
                "argsOffset"@,
                "argsSize"@,
                "retOffset"@,
                "retSize"@,
            ],
            // DELEGATECALL STATICCALL: no value is passed on
            0xf4 | 0xfa => seq![
                "gas"@,
                "address"@,
                "argsOffset"@,
                "argsSize"@,
                "retOffset"@,
                "retSize"@,
            ],
            // CREATE2
            0xf5 => seq!["value"@, "offset"@, "size"@, "salt"@],
            _ => seq![],
        }
    }
}

/// The stack slots that the instruction with byte `op` reads, in the order in
/// which the instruction takes them, each with its label.
///
/// `DUPk` labels the one slot it copies, at depth `k - 1`. `SWAPk` labels the
/// top and the slot at depth `k` that it trades places with. Every other
/// instruction labels consecutive slots from the top.
pub open spec fn operands(op: u8) -> Seq<Descriptor> {
    if is_dup(op) {
        seq![((op - 0x80) as nat, "dup_value"@)]
    } else if is_swap(op) {
        seq![(0nat, "a"@), ((op - 0x8f) as nat, "swap_value"@)]
    } else {
        from_top(operand_names(op))
    }
}

/// Maps an opcode to the stack slots it reads, each with its label.
pub fn stack_indices_affected(op: u8) -> (items: Vec<(usize, &'static str)>)
    ensures
        descriptors(items@) == operands(op),
        describes(items@, operands(op)),
{
    let items: Vec<(usize, &'static str)> = match op {
        0x01 => vec![(0, "a"), (1, "b")],
        0x02 => vec![(0, "a"), (1, "b")],
        0x03 => vec![(0, "a"), (1, "b")],
        0x04 => vec![(0, "a"), (1, "b")],
        0x05 => vec![(0, "a"), (1, "b")],
        0x06 => vec![(0, "a"), (1, "b")],
        0x07 => vec![(0, "a"), (1, "b")],
        0x08 => vec![(0, "a"), (1, "b"), (2, "N")],
        0x09 => vec![(0, "a"), (1, "b"), (2, "N")],
        0x0a => vec![(0, "a"), (1, "exponent")],
        0x0b => vec![(0, "b"), (1, "x")],
        0x10 => vec![(0, "a"), (1, "b")],
        0x11 => vec![(0, "a"), (1, "b")],
        0x12 => vec![(0, "a"), (1, "b")],
        0x13 => vec![(0, "a"), (1, "b")],
        0x14 => vec![(0, "a"), (1, "b")],
        0x15 => vec![(0, "a")],
        0x16 => vec![(0, "a"), (1, "b")],
        0x17 => vec![(0, "a"), (1, "b")],
        0x18 => vec![(0, "a"), (1, "b")],
        0x19 => vec![(0, "a")],
        0x1a => vec![(0, "i"), (1, "x")],
        0x1b => vec![(0, "shift"), (1, "value")],
        0x1c => vec![(0, "shift"), (1, "value")],
        0x1d => vec![(0, "shift"), (1, "value")],
        0x20 => vec![(0, "offset"), (1, "size")],
        0x31 => vec![(0, "address")],
        0x35 => vec![(0, "offset")],
        0x37 => vec![(0, "destOffset"), (1, "offset"), (2, "size")],
        0x39 => vec![(0, "destOffset"), (1, "offset"), (2, "size")],
        0x3b => vec![(0, "address")],
        0x3c => vec![(0, "address"), (1, "destOffset"), (2, "offset"), (3, "size")],
        0x3e => vec![(0, "destOffset"), (1, "offset"), (2, "size")],
        0x3f => vec![(0, "address")],
        0x40 => vec![(0, "blockNumber")],
        0x50 => vec![(0, "y")],
        0x51 => vec![(0, "offset")],
        0x52 => vec![(0, "offset"), (1, "value")],
        0x53 => vec![(0, "offset"), (1, "value")],
        0x54 => vec![(0, "key")],
        0x55 => vec![(0, "key"), (1, "value")],
        0x56 => vec![(0, "jump_to")],
        0x57 => vec![(0, "jump_to"), (1, "if")],
        0x80 => vec![(0, "dup_value")],
        0x81 => vec![(1, "dup_value")],
        0x82 => vec![(2, "dup_value")],
        0x83 => vec![(3, "dup_value")],
        0x84 => vec![(4, "dup_value")],
        0x85 => vec![(5, "dup_value")],
        0x86 => vec![(6, "dup_value")],
        0x87 => vec![(7, "dup_value")],
        0x88 => vec![(8, "dup_value")],
        0x89 => vec![(9, "dup_value")],
        0x8a => vec![(10, "dup_value")],
        0x8b => vec![(11, "dup_value")],
        0x8c => vec![(12, "dup_value")],
        0x8d => vec![(13, "dup_value")],
        0x8e => vec![(14, "dup_value")],
        0x8f => vec![(15, "dup_value")],
        0x90 => vec![(0, "a"), (1, "swap_value")],
        0x91 => vec![(0, "a"), (2, "swap_value")],
        0x92 => vec![(0, "a"), (3, "swap_value")],
        0x93 => vec![(0, "a"), (4, "swap_value")],
        0x94 => vec![(0, "a"), (5, "swap_value")],
        0x95 => vec![(0, "a"), (6, "swap_value")],
        0x96 => vec![(0, "a"), (7, "swap_value")],
        0x97 => vec![(0, "a"), (8, "swap_value")],
        0x98 => vec![(0, "a"), (9, "swap_value")],
        0x99 => vec![(0, "a"), (10, "swap_value")],
        0x9a => vec![(0, "a"), (11, "swap_value")],
        0x9b => vec![(0, "a"), (12, "swap_value")],
        0x9c => vec![(0, "a"), (13, "swap_value")],
        0x9d => vec![(0, "a"), (14, "swap_value")],
        0x9e => vec![(0, "a"), (15, "swap_value")],
        0x9f => vec![(0, "a"), (16, "swap_value")],
        0xa0 => vec![(0, "offset"), (1, "size")],
        0xa1 => vec![(0, "offset"), (1, "size"), (2, "topic")],
        0xa2 => vec![(0, "offset"), (1, "size"), (2, "topic1"), (3, "topic2")],
        0xa3 => vec![(0, "offset"), (1, "size"), (2, "topic1"), (3, "topic2"), (4, "topic3")],
        0xa4 => vec![
            (0, "offset"),
            (1, "size"),
            (2, "topic1"),
            (3, "topic2"),
            (4, "topic3"),
            (5, "topic4"),
        ],
        0xf0 => vec![(0, "value"), (1, "offset"), (2, "size")],
        0xf1 => vec![
            (0, "gas"),
            (1, "address"),
            (2, "value"),
            (3, "argsOffset"),
            (4, "argsSize"),
            (5, "retOffset"),
            (6, "retSize"),
        ],
        0xf2 => vec![
            (0, "gas"),
            (1, "address"),
            (2, "value"),
            (3, "argsOffset"),
            (4, "argsSize"),
            (5, "retOffset"),
            (6, "retSize"),
        ],
        0xf3 => vec![(0, "offset"), (1, "size")],
        0xf4 => vec![
            (0, "gas"),
            (1, "address"),
            (2, "argsOffset"),
            (3, "argsSize"),
            (4, "retOffset"),
            (5, "retSize"),
        ],
        0xf5 => vec![(0, "value"), (1, "offset"), (2, "size"), (3, "salt")],
        0xfa => vec![
            (0, "gas"),
            (1, "address"),
            (2, "argsOffset"),
            (3, "argsSize"),
            (4, "retOffset"),
            (5, "retSize"),
        ],
        0xfd => vec![(0, "offset"), (1, "size")],
        0xff => vec![(0, "address")],
        _ => vec![],
    };
    assert(descriptors(items@) =~= operands(op));
    items
}

/// Every byte has its operands: at most seven of them, the deepest no more
/// than 16 below the top, and each deeper than the one before it.
pub proof fn lemma_operands_are_bounded(op: u8)
    ensures
        operands(op).len() <= 7,
        forall|i: int| 0 <= i < operands(op).len() ==> (#[trigger] operands(op)[i]).0 <= 16,
        forall|i: int, j: int|
            0 <= i < j < operands(op).len() ==> (#[trigger] operands(op)[i]).0 < (
            #[trigger] operands(op)[j]).0,
{
}

/// `DUPk`, for `k` from 1 to 16, labels exactly one slot: the one it copies,
/// at depth `k - 1`, as "dup_value".
pub proof fn lemma_dup_operands(k: nat)
    requires
        1 <= k <= 16,
    ensures
        operands((0x7f + k) as u8) == seq![((k - 1) as nat, "dup_value"@)],
{
}

/// `SWAPk`, for `k` from 1 to 16, labels exactly two slots: the top as "a",
/// then the slot at depth `k` as "swap_value".
pub proof fn lemma_swap_operands(k: nat)
    requires
        1 <= k <= 16,
    ensures
        operands((0x8f + k) as u8) == seq![(0nat, "a"@), (k, "swap_value"@)],
{
}

/// `LOGn`, for `n` from 0 to 4, labels `2 + n` consecutive slots from the top:
/// "offset", "size", then its `n` topics. One topic alone is "topic"; of
/// several, topic `j` is "topic" followed by the digit `j`.
pub proof fn lemma_log_operands(n: nat)
    requires
        n <= 4,
    ensures
        operands((0xa0 + n) as u8).len() == 2 + n,
        operands((0xa0 + n) as u8).take(2) == seq![(0nat, "offset"@), (1nat, "size"@)],
        forall|j: int|
            0 <= j < n ==> #[trigger] operands((0xa0 + n) as u8)[2 + j] == (
                (2 + j) as nat,
                topic_names(n)[j],
            ),
        forall|j: int|
            0 <= j < n ==> #[trigger] topic_names(n)[j] == if n == 1 {
                "topic"@
            } else {
                "topic"@.push((0x31 + j) as char)
            },
{
    reveal_strlit("topic");
    reveal_strlit("topic1");
    reveal_strlit("topic2");
    reveal_strlit("topic3");
    reveal_strlit("topic4");
    let op = (0xa0 + n) as u8;
    assert(operands(op).take(2) =~= seq![(0nat, "offset"@), (1nat, "size"@)]);
    assert forall|j: int| 0 <= j < n implies #[trigger] topic_names(n)[j] == if n == 1 {
        "topic"@
    } else {
        "topic"@.push((0x31 + j) as char)
    } by {
        if n != 1 {
            assert(topic_names(n)[j] =~= "topic"@.push((0x31 + j) as char));
        }
    }
}

} // verus!
