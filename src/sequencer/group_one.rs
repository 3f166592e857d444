use vstd::prelude::*;

use crate::instructions::{AddrSource, Instructions};
use crate::registers::IndexedReg;
use crate::sequencer::{lemma_opcode_fields, mode_bits, operation_bits, ADDR_MODE_MASK, OPCODE_MASK};

verus! {

pub const ORA: u8 = 0b000;
pub const AND: u8 = 0b001;
pub const EOR: u8 = 0b010;
pub const ADC: u8 = 0b011;
pub const STA: u8 = 0b100;
pub const LDA: u8 = 0b101;
pub const CMP: u8 = 0b110;
pub const SBC: u8 = 0b111;

pub const ZP_X_IND: u8 = 0b000;
pub const ZP: u8 = 0b001;
pub const IM: u8 = 0b010;
pub const A: u8 = 0b011;
pub const ZP_Y_IND: u8 = 0b100;
pub const ZP_X: u8 = 0b101;
pub const A_Y: u8 = 0b110;
pub const A_X: u8 = 0b111;

/// The micro-operations that compute the effective address in mode `mode`.
pub open spec fn address_ops(mode: u8) -> Seq<Instructions> {
    if mode == ZP_X_IND {
        seq![
            Instructions::LoadZPAddr,
            Instructions::AddToAddrBus(IndexedReg::X),
            Instructions::LoadAddr(AddrSource::AddrBus),
            Instructions::Idle,
        ]
    } else if mode == ZP {
        seq![Instructions::LoadZPAddr]
    } else if mode == A {
        seq![Instructions::LoadAddr(AddrSource::PC), Instructions::Idle]
    } else if mode == ZP_Y_IND {
        seq![
            Instructions::LoadZPAddr,
            Instructions::LoadAddr(AddrSource::AddrBus),
            Instructions::Idle,
            Instructions::AddToAddrBus(IndexedReg::Y),
        ]
    } else if mode == ZP_X {
        seq![Instructions::LoadZPAddr, Instructions::AddToAddrBus(IndexedReg::X)]
    } else if mode == A_Y {
        seq![
            Instructions::LoadAddr(AddrSource::PC),
            Instructions::Idle,
            Instructions::AddToAddrBus(IndexedReg::Y),
        ]
    } else if mode == A_X {
        seq![
            Instructions::LoadAddr(AddrSource::PC),
            Instructions::Idle,
            Instructions::AddToAddrBus(IndexedReg::X),
        ]
    } else {
        seq![]
    }
}

/// Where the operand is read from: the instruction stream in immediate mode,
/// the effective address otherwise.
pub open spec fn operand_source(mode: u8) -> AddrSource {
    if mode == IM {
        AddrSource::PC
    } else {
        AddrSource::AddrBus
    }
}

/// The micro-operations of operation `op` once the effective address is known.
pub open spec fn operation_ops(op: u8, src: AddrSource) -> Seq<Instructions> {
    if op == STA {
        seq![
            Instructions::RegToDataBus(IndexedReg::A),
            Instructions::DataBusToMem(AddrSource::AddrBus),
        ]
    } else {
        seq![
            Instructions::MemToDataBus(src),
            if op == ORA {
                Instructions::ORWithReg(IndexedReg::A)
            } else if op == AND {
                Instructions::ANDWithReg(IndexedReg::A)
            } else if op == EOR {
                Instructions::XORWithReg(IndexedReg::A)
            } else if op == ADC {
                Instructions::AddToReg(IndexedReg::A)
            } else if op == LDA {
                Instructions::DataBusToReg(IndexedReg::A)
            } else if op == CMP {
                Instructions::CompareWithReg(IndexedReg::A)
            } else {
                Instructions::SubFromReg(IndexedReg::A)
            },
        ]
    }
}

/// The micro-operations of a group-one opcode (`aaabbb01`); `None` for the
/// one combination that is not an instruction, a store in immediate mode.
pub open spec fn group_one_sequence(opcode: u8) -> Option<Seq<Instructions>> {
    let op = operation_bits(opcode);
    let mode = mode_bits(opcode);
    if op == STA && mode == IM {
        None
    } else {
        Some(address_ops(mode) + operation_ops(op, operand_source(mode)))
    }
}

/// The effective-address micro-operations of mode `addr_mode`.
fn address_sequence(addr_mode: u8) -> (v: Vec<Instructions>)
    requires
        addr_mode < 8,
    ensures
        v@ == address_ops(addr_mode),
{
    let mut sequence = Vec::new();
    match addr_mode {
        ZP => sequence.push(Instructions::LoadZPAddr),
        ZP_X => {
            sequence.push(Instructions::LoadZPAddr);
            sequence.push(Instructions::AddToAddrBus(IndexedReg::X));
        },
        ZP_X_IND => {
            sequence.push(Instructions::LoadZPAddr);
            sequence.push(Instructions::AddToAddrBus(IndexedReg::X));
            sequence.push(Instructions::LoadAddr(AddrSource::AddrBus));
            sequence.push(Instructions::Idle);
        },
        ZP_Y_IND => {
            sequence.push(Instructions::LoadZPAddr);
            sequence.push(Instructions::LoadAddr(AddrSource::AddrBus));
            sequence.push(Instructions::Idle);
            sequence.push(Instructions::AddToAddrBus(IndexedReg::Y));
        },
        A => {
            sequence.push(Instructions::LoadAddr(AddrSource::PC));
            sequence.push(Instructions::Idle);
        },
        A_X => {
            sequence.push(Instructions::LoadAddr(AddrSource::PC));
            sequence.push(Instructions::Idle);
            sequence.push(Instructions::AddToAddrBus(IndexedReg::X));
        },
        A_Y => {
            sequence.push(Instructions::LoadAddr(AddrSource::PC));
            sequence.push(Instructions::Idle);
            sequence.push(Instructions::AddToAddrBus(IndexedReg::Y));
        },
        _ => {},
    }
    proof {
        assert(sequence@ =~= address_ops(addr_mode));
    }
    sequence
}

/// Decodes a group-one opcode.
pub fn get_seqeunce(instruction: u8) -> (r: Option<Vec<Instructions>>)
    ensures
        match r {
            Some(v) => group_one_sequence(instruction) == Some(v@),
            None => group_one_sequence(instruction) is None,
        },
{
    proof {
        lemma_opcode_fields(instruction);
    }
    let opcode = (instruction & OPCODE_MASK) >> 5;
    let addr_mode = (instruction & ADDR_MODE_MASK) >> 2;
    if opcode == STA && addr_mode == IM {
        return None;
    }
    let mut sequence = address_sequence(addr_mode);
    let ghost prefix = sequence@;
    let source = if addr_mode == IM {
        AddrSource::PC
    } else {
        AddrSource::AddrBus
    };
    if opcode == STA {
        sequence.push(Instructions::RegToDataBus(IndexedReg::A));
        sequence.push(Instructions::DataBusToMem(AddrSource::AddrBus));
    } else {
        sequence.push(Instructions::MemToDataBus(source));
        let operation = match opcode {
            ORA => Instructions::ORWithReg(IndexedReg::A),
            AND => Instructions::ANDWithReg(IndexedReg::A),
            EOR => Instructions::XORWithReg(IndexedReg::A),
            ADC => Instructions::AddToReg(IndexedReg::A),
            LDA => Instructions::DataBusToReg(IndexedReg::A),
            CMP => Instructions::CompareWithReg(IndexedReg::A),
            _ => Instructions::SubFromReg(IndexedReg::A),
        };
        sequence.push(operation);
    }
    proof {
        assert(sequence@ =~= prefix + operation_ops(opcode, operand_source(addr_mode)));
    }
    Some(sequence)
}

} // verus!
