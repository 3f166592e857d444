use vstd::prelude::*;

use crate::instructions::{AddrSource, Instructions};
use crate::registers::IndexedReg;
use crate::sequencer::{lemma_opcode_fields, mode_bits, operation_bits, ADDR_MODE_MASK, OPCODE_MASK};

verus! {

pub const BIT: u8 = 0b001;
pub const JMP: u8 = 0b010;
pub const JMP_ABS: u8 = 0b011;
pub const STY: u8 = 0b100;
pub const LDY: u8 = 0b101;
pub const CPY: u8 = 0b110;
pub const CPX: u8 = 0b111;

pub const IM: u8 = 0b000;
pub const ZP: u8 = 0b001;
pub const A: u8 = 0b011;
pub const ZP_X: u8 = 0b101;
pub const A_X: u8 = 0b111;

/// Whether operation `op` exists in addressing mode `mode`: BIT in zero page
/// and absolute; both jumps absolute only; STY in zero page, absolute and
/// zero page indexed; LDY in all five modes; CPY and CPX in immediate, zero
/// page and absolute.
pub open spec fn is_defined(op: u8, mode: u8) -> bool {
    if op == BIT {
        mode == ZP || mode == A
    } else if op == JMP || op == JMP_ABS {
        mode == A
    } else if op == STY {
        mode == ZP || mode == A || mode == ZP_X
    } else if op == LDY {
        mode == IM || mode == ZP || mode == A || mode == ZP_X || mode == A_X
    } else if op == CPY || op == CPX {
        mode == IM || mode == ZP || mode == A
    } else {
        false
    }
}

/// The micro-operations that compute the effective address.
pub open spec fn address_ops(mode: u8) -> Seq<Instructions> {
    if mode == ZP {
        seq![Instructions::LoadZPAddr]
    } else if mode == ZP_X {
        seq![Instructions::LoadZPAddr, Instructions::AddToAddrBus(IndexedReg::X)]
    } else if mode == A {
        seq![Instructions::LoadAddr(AddrSource::PC), Instructions::Idle]
    } else if mode == A_X {
        seq![
            Instructions::LoadAddr(AddrSource::PC),
            Instructions::Idle,
            Instructions::AddToAddrBus(IndexedReg::X),
        ]
    } else {
        seq![]
    }
}

/// The micro-operations of operation `op` once the effective address is known.
pub open spec fn operation_ops(op: u8, mode: u8) -> Seq<Instructions> {
    let src = if mode == IM {
        AddrSource::PC
    } else {
        AddrSource::AddrBus
    };
    if op == STY {
        seq![
            Instructions::RegToDataBus(IndexedReg::Y),
            Instructions::DataBusToMem(AddrSource::AddrBus),
        ]
    } else if op == LDY {
        seq![Instructions::MemToDataBus(src), Instructions::DataBusToReg(IndexedReg::Y)]
    } else if op == CPX {
        seq![Instructions::MemToDataBus(src), Instructions::CompareWithReg(IndexedReg::X)]
    } else if op == CPY {
        seq![Instructions::MemToDataBus(src), Instructions::CompareWithReg(IndexedReg::Y)]
    } else if op == JMP {
        seq![Instructions::MoveAddrToPc]
    } else if op == JMP_ABS {
        seq![
            Instructions::LoadAddr(AddrSource::AddrBus),
            Instructions::Idle,
            Instructions::MoveAddrToPc,
        ]
    } else {
        seq![Instructions::MemToDataBus(AddrSource::AddrBus), Instructions::SetBitTestFlags]
    }
}

/// The micro-operations of a group-three opcode (`aaabbb00`), or `None` when
/// the combination is not an instruction.
pub open spec fn group_three_sequence(opcode: u8) -> Option<Seq<Instructions>> {
    let op = operation_bits(opcode);
    let mode = mode_bits(opcode);
    if is_defined(op, mode) {
        Some(address_ops(mode) + operation_ops(op, mode))
    } else {
        None
    }
}

/// Whether `opcode` and `addr_mode` make an instruction.
fn defined(opcode: u8, addr_mode: u8) -> (r: bool)
    ensures
        r == is_defined(opcode, addr_mode),
{
    match opcode {
        BIT => addr_mode == ZP || addr_mode == A,
        JMP | JMP_ABS => addr_mode == A,
        STY => addr_mode == ZP || addr_mode == A || addr_mode == ZP_X,
        LDY => addr_mode == IM || addr_mode == ZP || addr_mode == A || addr_mode == ZP_X
            || addr_mode == A_X,
        CPY | CPX => addr_mode == IM || addr_mode == ZP || addr_mode == A,
        _ => false,
    }
}

/// Decodes a group-three opcode.
pub fn get_seqeunce(instruction: u8) -> (r: Option<Vec<Instructions>>)
    ensures
        match r {
            Some(v) => group_three_sequence(instruction) == Some(v@),
            None => group_three_sequence(instruction) is None,
        },
{
    proof {
        lemma_opcode_fields(instruction);
    }
    let opcode = (instruction & OPCODE_MASK) >> 5;
    let addr_mode = (instruction & ADDR_MODE_MASK) >> 2;
    if !defined(opcode, addr_mode) {
        return None;
    }
    let mut sequence = Vec::new();

    match addr_mode {
        ZP => sequence.push(Instructions::LoadZPAddr),
        ZP_X => {
            sequence.push(Instructions::LoadZPAddr);
            sequence.push(Instructions::AddToAddrBus(IndexedReg::X));
        },
        A => {
            sequence.push(Instructions::LoadAddr(AddrSource::PC));
            sequence.push(Instructions::Idle);
        },
        A_X => {
            sequence.push(Instructions::LoadAddr(AddrSource::PC));
            sequence.push(Instructions::Idle);
            sequence.push(Instructions::AddToAddrBus(IndexedReg::X));
        },
        _ => {},
    }
    proof {
        assert(sequence@ =~= address_ops(addr_mode));
    }
    let ghost prefix = sequence@;
    let source = if addr_mode == IM {
        AddrSource::PC
    } else {
        AddrSource::AddrBus
    };

    match opcode {
        STY => {
            sequence.push(Instructions::RegToDataBus(IndexedReg::Y));
            sequence.push(Instructions::DataBusToMem(AddrSource::AddrBus));
        },
        LDY => {
            sequence.push(Instructions::MemToDataBus(source));
            sequence.push(Instructions::DataBusToReg(IndexedReg::Y));
        },
        CPX => {
            sequence.push(Instructions::MemToDataBus(source));
            sequence.push(Instructions::CompareWithReg(IndexedReg::X));
        },
        CPY => {
            sequence.push(Instructions::MemToDataBus(source));
            sequence.push(Instructions::CompareWithReg(IndexedReg::Y));
        },
        JMP => sequence.push(Instructions::MoveAddrToPc),
        JMP_ABS => {
            sequence.push(Instructions::LoadAddr(AddrSource::AddrBus));
            sequence.push(Instructions::Idle);
            sequence.push(Instructions::MoveAddrToPc);
        },
        _ => {
            sequence.push(Instructions::MemToDataBus(AddrSource::AddrBus));
            sequence.push(Instructions::SetBitTestFlags);
        },
    }
    proof {
        assert(sequence@ =~= prefix + operation_ops(opcode, addr_mode));
    }
    Some(sequence)
}

} // verus!
