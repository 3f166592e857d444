use vstd::prelude::*;

use crate::instructions::{sign_extend, AddrSource, Instructions};
use crate::memory::Memory;
use crate::registers::{Registers, Status};
use crate::sequencer::lemma_opcode_fields;
use crate::{wrap_word, Byte, Word};

verus! {

pub const REST_MASK: u8 = 0b00011111;
pub const BRANCH_MASK: u8 = 0b11000000;
pub const CMP_MASK: u8 = 0b00100000;

pub const NEGATIVE: u8 = 0b00;
pub const OVERFLOW: u8 = 0b01;
pub const CARRY: u8 = 0b10;
pub const ZERO: u8 = 0b11;

/// Whether `opcode` is one of the eight conditional branches (`xxx10000`).
pub open spec fn is_branch(opcode: u8) -> bool {
    opcode % 32 == 0b10000
}

/// The flag that branch `opcode` tests: bits 6-7 select N, V, C or Z.
pub open spec fn tested_flag(opcode: u8, p: Status) -> bool {
    let f = opcode / 64;
    if f == NEGATIVE {
        p.n
    } else if f == OVERFLOW {
        p.v
    } else if f == CARRY {
        p.c
    } else {
        p.z
    }
}

/// The flag value on which branch `opcode` is taken: bit 5.
pub open spec fn expected_value(opcode: u8) -> bool {
    (opcode / 32) % 2 == 1
}

/// Whether adding displacement `d` to `pc` lands on another page.
pub open spec fn crosses_page(pc: Word, d: Byte) -> bool {
    wrap_word(pc + sign_extend(d)) / 0x100 != pc / 0x100
}

/// The micro-operations of a branch whose operand byte `d` sits at `pc`
/// under flags `p`: read the operand, a dead cycle, and when the branch is
/// taken the displacement, plus one more dead cycle on a page crossing.
pub open spec fn branch_sequence(
    opcode: u8,
    p: Status,
    pc: Word,
    d: Byte,
) -> Option<Seq<Instructions>> {
    if !is_branch(opcode) {
        None
    } else if tested_flag(opcode, p) != expected_value(opcode) {
        Some(seq![Instructions::MemToDataBus(AddrSource::PC), Instructions::Idle])
    } else if crosses_page(wrap_word(pc + 1), d) {
        Some(
            seq![
                Instructions::MemToDataBus(AddrSource::PC),
                Instructions::Idle,
                Instructions::AddToPC,
                Instructions::Idle,
            ],
        )
    } else {
        Some(
            seq![
                Instructions::MemToDataBus(AddrSource::PC),
                Instructions::Idle,
                Instructions::AddToPC,
            ],
        )
    }
}

/// Decodes a conditional branch; PC designates its operand byte.
pub fn get_seqeunce(
    instruction: u8,
    reg: &Registers,
    mem: &Memory,
) -> (r: Option<Vec<Instructions>>)
    ensures
        ({
            let expected = branch_sequence(instruction, reg.p, reg.pc, mem@[reg.pc as int]);
            match r {
                Some(v) => expected == Some(v@),
                None => expected is None,
            }
        }),
{
    proof {
        lemma_opcode_fields(instruction);
    }
    if instruction & REST_MASK != 0b10000 {
        return None;
    }
    let branch = (instruction & BRANCH_MASK) >> 6;
    let comparator = (instruction & CMP_MASK) >> 5;
    let mut sequence = Vec::new();
    let status = reg.get_p();

    sequence.push(Instructions::MemToDataBus(AddrSource::PC));
    sequence.push(Instructions::Idle);

    let flag = if branch == NEGATIVE {
        status.n
    } else if branch == OVERFLOW {
        status.v
    } else if branch == CARRY {
        status.c
    } else {
        status.z
    };

    if flag != (comparator == 1) {
        return Some(sequence);
    }
    sequence.push(Instructions::AddToPC);
    if is_crossing_pb(reg.get_pc().wrapping_add(1), mem.read_byte(reg.get_pc())) {
        sequence.push(Instructions::Idle);
    }
    Some(sequence)
}

/// Whether a branch from `pc` by displacement `rel` changes page.
fn is_crossing_pb(pc: Word, rel: Byte) -> (r: bool)
    ensures
        r == crosses_page(pc, rel),
{
    let operand: Word = if rel >= 0x80 {
        0xFF00 + rel as Word
    } else {
        rel as Word
    };
    pc.wrapping_add(operand) / 0x100 != pc / 0x100
}

} // verus!
