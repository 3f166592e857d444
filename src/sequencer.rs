use vstd::prelude::*;

use crate::instructions::Instructions;
use crate::memory::Memory;
use crate::registers::Registers;
use crate::Byte;

pub mod branch;
pub mod group_one;
pub mod group_three;
pub mod group_two;
pub mod other;

verus! {

pub const GROUP_ONE: u8 = 0b01;
pub const GROUP_TWO: u8 = 0b10;
pub const GROUP_THREE: u8 = 0b00;

pub const OPCODE_MASK: u8 = 0b11100000;
pub const ADDR_MODE_MASK: u8 = 0b00011100;
pub const OPCODE_GROUP_MASK: u8 = 0b00000011;

/// Bits 5-7 of an opcode byte (`AAA`): the operation within its group.
pub open spec fn operation_bits(opcode: u8) -> u8 {
    opcode / 32
}

/// Bits 2-4 of an opcode byte (`BBB`): the addressing mode within its group.
pub open spec fn mode_bits(opcode: u8) -> u8 {
    ((opcode / 4) % 8) as u8
}

/// Bits 0-1 of an opcode byte (`CC`): the group.
pub open spec fn group_bits(opcode: u8) -> u8 {
    opcode % 4
}

/// The masks and shifts that the decoder uses select the fields above.
pub proof fn lemma_opcode_fields(opcode: u8)
    ensures
        (opcode & OPCODE_MASK) >> 5 == operation_bits(opcode),
        (opcode & ADDR_MODE_MASK) >> 2 == mode_bits(opcode),
        opcode & OPCODE_GROUP_MASK == group_bits(opcode),
        opcode & 0b00011111 == opcode % 32,
        (opcode & 0b11000000) >> 6 == opcode / 64,
        (opcode & 0b00100000) >> 5 == (opcode / 32) % 2,
{
    assert((opcode & 0b11100000) >> 5 == opcode / 32) by (bit_vector);
    assert((opcode & 0b00011100) >> 2 == (opcode / 4) % 8) by (bit_vector);
    assert(opcode & 0b00000011 == opcode % 4) by (bit_vector);
    assert(opcode & 0b00011111 == opcode % 32) by (bit_vector);
    assert((opcode & 0b11000000) >> 6 == opcode / 64) by (bit_vector);
    assert((opcode & 0b00100000) >> 5 == (opcode / 32) % 2) by (bit_vector);
}

/// The micro-operations of a group opcode, chosen by its low two bits.
pub open spec fn group_sequence(opcode: u8) -> Option<Seq<Instructions>> {
    let group = group_bits(opcode);
    if group == GROUP_ONE {
        group_one::group_one_sequence(opcode)
    } else if group == GROUP_TWO {
        group_two::group_two_sequence(opcode)
    } else if group == GROUP_THREE {
        group_three::group_three_sequence(opcode)
    } else {
        None
    }
}

/// The micro-operations for `opcode` when the registers are `regs` (PC
/// designating the byte after the opcode) and memory holds `mem`. Branches
/// are recognised first, then the instructions matched by their whole byte,
/// then the three groups; any other byte decodes to no micro-operation.
pub open spec fn sequence_for(opcode: u8, regs: Registers, mem: Seq<Byte>) -> Seq<Instructions> {
    match branch::branch_sequence(opcode, regs.p, regs.pc, mem[regs.pc as int]) {
        Some(s) => s,
        None => match other::implied_sequence(opcode) {
            Some(s) => s,
            None => match group_sequence(opcode) {
                Some(s) => s,
                None => seq![],
            },
        },
    }
}

/// No instruction takes more than seven micro-operations.
pub proof fn lemma_sequence_length(opcode: u8, regs: Registers, mem: Seq<Byte>)
    ensures
        sequence_for(opcode, regs, mem).len() <= 7,
{
    let mode = mode_bits(opcode);
    let op = operation_bits(opcode);
    assert(group_one::address_ops(mode).len() <= 4);
    assert(group_one::operation_ops(op, group_one::operand_source(mode)).len() <= 2);
    assert(group_two::address_ops(op, mode).len() <= 3);
    assert(group_two::operation_ops(op, mode).len() <= 4);
    assert(group_three::address_ops(mode).len() <= 3);
    assert(group_three::operation_ops(op, mode).len() <= 3);
}

/// Decodes `instruction` into its micro-operations; PC in `reg` designates
/// the byte after the opcode.
pub fn get_seqeunce(instruction: u8, reg: &Registers, mem: &Memory) -> (v: Vec<Instructions>)
    ensures
        v@ == sequence_for(instruction, *reg, mem@),
{
    if let Some(res) = get_branch_sequence(instruction, reg, mem) {
        return res;
    }
    if let Some(res) = get_other_sequence(instruction) {
        return res;
    }
    if let Some(res) = get_group_sequence(instruction) {
        return res;
    }
    Vec::new()
}

fn get_group_sequence(instruction: u8) -> (r: Option<Vec<Instructions>>)
    ensures
        match r {
            Some(v) => group_sequence(instruction) == Some(v@),
            None => group_sequence(instruction) is None,
        },
{
    proof {
        lemma_opcode_fields(instruction);
    }
    let opcode_group: u8 = instruction & OPCODE_GROUP_MASK;
    match opcode_group {
        GROUP_ONE => group_one::get_seqeunce(instruction),
        GROUP_TWO => group_two::get_seqeunce(instruction),
        GROUP_THREE => group_three::get_seqeunce(instruction),
        _ => None,
    }
}

fn get_branch_sequence(
    instruction: u8,
    reg: &Registers,
    mem: &Memory,
) -> (r: Option<Vec<Instructions>>)
    ensures
        ({
            let expected = branch::branch_sequence(instruction, reg.p, reg.pc, mem@[reg.pc as int]);
            match r {
                Some(v) => expected == Some(v@),
                None => expected is None,
            }
        }),
{
    branch::get_seqeunce(instruction, reg, mem)
}

fn get_other_sequence(instruction: u8) -> (r: Option<Vec<Instructions>>)
    ensures
        match r {
            Some(v) => other::implied_sequence(instruction) == Some(v@),
            None => other::implied_sequence(instruction) is None,
        },
{
    other::get_seqeunce(instruction)
}

} // verus!
