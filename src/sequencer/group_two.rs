use vstd::prelude::*;

use crate::instructions::{AddrSource, DataSource, Direction, Instructions};
use crate::registers::IndexedReg;
use crate::sequencer::{lemma_opcode_fields, mode_bits, operation_bits, ADDR_MODE_MASK, OPCODE_MASK};

verus! {

pub const ASL: u8 = 0b000;
pub const ROL: u8 = 0b001;
pub const LSR: u8 = 0b010;
pub const ROR: u8 = 0b011;
pub const STX: u8 = 0b100;
pub const LDX: u8 = 0b101;
pub const DEC: u8 = 0b110;
pub const INC: u8 = 0b111;

pub const IM: u8 = 0b000;
pub const ZP: u8 = 0b001;
pub const ACC: u8 = 0b010;
pub const A: u8 = 0b011;
pub const ZP_X: u8 = 0b101;
pub const A_X: u8 = 0b111;

/// Whether operation `op` exists in addressing mode `mode`. The shifts and
/// rotations take zero page, accumulator, absolute and their X-indexed forms;
/// STX zero page, absolute and zero page indexed; LDX also immediate and
/// absolute indexed; DEC and INC every memory mode but immediate.
pub open spec fn is_defined(op: u8, mode: u8) -> bool {
    if op <= ROR {
        mode == ZP || mode == ACC || mode == A || mode == ZP_X || mode == A_X
    } else if op == STX {
        mode == ZP || mode == A || mode == ZP_X
    } else if op == LDX {
        mode == IM || mode == ZP || mode == A || mode == ZP_X || mode == A_X
    } else {
        mode == ZP || mode == A || mode == ZP_X || mode == A_X
    }
}

/// The register that indexes operation `op` in mode `mode`: Y for STX and
/// LDX in zero page indexed mode and for LDX in absolute indexed mode, X
/// otherwise.
pub open spec fn index_register(op: u8, mode: u8) -> IndexedReg {
    if (mode == ZP_X && (op == STX || op == LDX)) || (mode == A_X && op == LDX) {
        IndexedReg::Y
    } else {
        IndexedReg::X
    }
}

/// The micro-operations that compute the effective address.
pub open spec fn address_ops(op: u8, mode: u8) -> Seq<Instructions> {
    if mode == ZP {
        seq![Instructions::LoadZPAddr]
    } else if mode == ZP_X {
        seq![Instructions::LoadZPAddr, Instructions::AddToAddrBus(index_register(op, mode))]
    } else if mode == A {
        seq![Instructions::LoadAddr(AddrSource::PC), Instructions::Idle]
    } else if mode == A_X {
        seq![
            Instructions::LoadAddr(AddrSource::PC),
            Instructions::Idle,
            Instructions::AddToAddrBus(index_register(op, mode)),
        ]
    } else if mode == ACC {
        seq![Instructions::Idle]
    } else {
        seq![]
    }
}

/// The micro-operation that modifies the operand of a read-modify-write
/// operation `op`, acting on `src`.
pub open spec fn modify_op(op: u8, src: DataSource) -> Instructions {
    if op == ASL {
        Instructions::Shift(Direction::Left, src)
    } else if op == ROL {
        Instructions::Rotate(Direction::Left, src)
    } else if op == LSR {
        Instructions::Shift(Direction::Right, src)
    } else if op == ROR {
        Instructions::Rotate(Direction::Right, src)
    } else if op == DEC {
        Instructions::DecDataBus
    } else {
        Instructions::IncDataBus
    }
}

/// The micro-operations of operation `op` once the effective address is known.
pub open spec fn operation_ops(op: u8, mode: u8) -> Seq<Instructions> {
    if op == STX {
        seq![
            Instructions::RegToDataBus(IndexedReg::X),
            Instructions::DataBusToMem(AddrSource::AddrBus),
        ]
    } else if op == LDX {
        seq![
            Instructions::MemToDataBus(
                if mode == IM {
                    AddrSource::PC
                } else {
                    AddrSource::AddrBus
                },
            ),
            Instructions::DataBusToReg(IndexedReg::X),
        ]
    } else if mode == ACC {
        seq![modify_op(op, DataSource::Reg)]
    } else {
        seq![
            Instructions::MemToDataBus(AddrSource::AddrBus),
            modify_op(op, DataSource::DataBus),
            Instructions::Idle,
            Instructions::DataBusToMem(AddrSource::AddrBus),
        ]
    }
}

/// The micro-operations of a group-two opcode (`aaabbb10`), or `None` when
/// the combination is not an instruction.
pub open spec fn group_two_sequence(opcode: u8) -> Option<Seq<Instructions>> {
    let op = operation_bits(opcode);
    let mode = mode_bits(opcode);
    if is_defined(op, mode) {
        Some(address_ops(op, mode) + operation_ops(op, mode))
    } else {
        None
    }
}

/// Whether `opcode` and `addr_mode` make an instruction.
fn defined(opcode: u8, addr_mode: u8) -> (r: bool)
    ensures
        r == is_defined(opcode, addr_mode),
{
    match opcode {
        ASL | ROL | LSR | ROR => addr_mode == ZP || addr_mode == ACC || addr_mode == A
            || addr_mode == ZP_X || addr_mode == A_X,
        STX => addr_mode == ZP || addr_mode == A || addr_mode == ZP_X,
        LDX => addr_mode == IM || addr_mode == ZP || addr_mode == A || addr_mode == ZP_X
            || addr_mode == A_X,
        _ => addr_mode == ZP || addr_mode == A || addr_mode == ZP_X || addr_mode == A_X,
    }
}

/// Decodes a group-two opcode.
pub fn get_seqeunce(instruction: u8) -> (r: Option<Vec<Instructions>>)
    ensures
        match r {
            Some(v) => group_two_sequence(instruction) == Some(v@),
            None => group_two_sequence(instruction) is None,
        },
{
    proof {
        lemma_opcode_fields(instruction);
    }
    let opcode = (instruction & OPCODE_MASK) >> 5;
    let addr_mode = (instruction & ADDR_MODE_MASK) >> 2;
    if !defined(opcode, addr_mode) {
        return None;
    }
    let mut sequence = Vec::new();

    match addr_mode {
        ZP => sequence.push(Instructions::LoadZPAddr),
        ZP_X => {
            sequence.push(Instructions::LoadZPAddr);
            let mut reg = IndexedReg::X;
            if opcode == STX || opcode == LDX {
                reg = IndexedReg::Y;
            }
            sequence.push(Instructions::AddToAddrBus(reg));
        },
        A => {
            sequence.push(Instructions::LoadAddr(AddrSource::PC));
            sequence.push(Instructions::Idle);
        },
        A_X => {
            sequence.push(Instructions::LoadAddr(AddrSource::PC));
            sequence.push(Instructions::Idle);
            let mut reg = IndexedReg::X;
            if opcode == LDX {
                reg = IndexedReg::Y;
            }
            sequence.push(Instructions::AddToAddrBus(reg));
        },
        ACC => sequence.push(Instructions::Idle),
        _ => {},
    }
    proof {
        assert(sequence@ =~= address_ops(opcode, addr_mode));
    }
    let ghost prefix = sequence@;

    match opcode {
        STX => {
            sequence.push(Instructions::RegToDataBus(IndexedReg::X));
            sequence.push(Instructions::DataBusToMem(AddrSource::AddrBus));
        },
        LDX => {
            let source = if addr_mode == IM {
                AddrSource::PC
            } else {
                AddrSource::AddrBus
            };
            sequence.push(Instructions::MemToDataBus(source));
            sequence.push(Instructions::DataBusToReg(IndexedReg::X));
        },
        _ => {
            let source = if addr_mode == ACC {
                DataSource::Reg
            } else {
                DataSource::DataBus
            };
            let modify = match opcode {
                ASL => Instructions::Shift(Direction::Left, source),
                ROL => Instructions::Rotate(Direction::Left, source),
                LSR => Instructions::Shift(Direction::Right, source),
                ROR => Instructions::Rotate(Direction::Right, source),
                DEC => Instructions::DecDataBus,
                _ => Instructions::IncDataBus,
            };
            if addr_mode == ACC {
                sequence.push(modify);
            } else {
                sequence.push(Instructions::MemToDataBus(AddrSource::AddrBus));
                sequence.push(modify);
                sequence.push(Instructions::Idle);
                sequence.push(Instructions::DataBusToMem(AddrSource::AddrBus));
            }
        },
    }
    proof {
        assert(sequence@ =~= prefix + operation_ops(opcode, addr_mode));
    }
    Some(sequence)
}

} // verus!
