use vstd::prelude::*;

use crate::instructions::{AddrSource, Instructions};
use crate::registers::{Flag, IndexedReg};

verus! {

pub const BRK: u8 = 0x00;
pub const JSR_ABS: u8 = 0x20;
pub const RTI: u8 = 0x40;
pub const RTS: u8 = 0x60;
pub const PHP: u8 = 0x08;
pub const PLP: u8 = 0x28;
pub const PHA: u8 = 0x48;
pub const PLA: u8 = 0x68;
pub const DEY: u8 = 0x88;
pub const TAY: u8 = 0xA8;
pub const INY: u8 = 0xC8;
pub const INX: u8 = 0xE8;
pub const CLC: u8 = 0x18;
pub const SEC: u8 = 0x38;
pub const CLI: u8 = 0x58;
pub const SEI: u8 = 0x78;
pub const TYA: u8 = 0x98;
pub const CLV: u8 = 0xB8;
pub const CLD: u8 = 0xD8;
pub const SED: u8 = 0xF8;
pub const TXA: u8 = 0x8A;
pub const TXS: u8 = 0x9A;
pub const TAX: u8 = 0xAA;
pub const TSX: u8 = 0xBA;
pub const DEX: u8 = 0xCA;
pub const NOP: u8 = 0xEA;

/// What follows the leading dummy cycle of a single-byte instruction (and of
/// JSR), matched by the whole opcode byte; `None` for any other byte.
pub open spec fn implied_tail(opcode: u8) -> Option<Seq<Instructions>> {
    if opcode == JSR_ABS {
        Some(
            seq![
                Instructions::LoadStackPointer,
                Instructions::PushPC,
                Instructions::Idle,
                Instructions::LoadAddr(AddrSource::PC),
                Instructions::MoveAddrToPc,
            ],
        )
    } else if opcode == RTS {
        Some(
            seq![
                Instructions::Idle,
                Instructions::PullPC,
                Instructions::Idle,
                Instructions::IncPC,
                Instructions::Idle,
            ],
        )
    } else if opcode == RTI {
        Some(
            seq![
                Instructions::Idle,
                Instructions::PullToStatus,
                Instructions::PullPC,
                Instructions::Idle,
            ],
        )
    } else if opcode == BRK {
        Some(
            seq![
                Instructions::PushPC,
                Instructions::Idle,
                Instructions::SetFlags(Flag::B),
                Instructions::Idle,
                Instructions::Idle,
                Instructions::Idle,
            ],
        )
    } else if opcode == INX {
        Some(seq![Instructions::IncReg(IndexedReg::X)])
    } else if opcode == INY {
        Some(seq![Instructions::IncReg(IndexedReg::Y)])
    } else if opcode == DEX {
        Some(seq![Instructions::DecReg(IndexedReg::X)])
    } else if opcode == DEY {
        Some(seq![Instructions::DecReg(IndexedReg::Y)])
    } else if opcode == NOP {
        Some(seq![Instructions::Idle])
    } else if opcode == TAX {
        Some(seq![Instructions::TransferReg(IndexedReg::A, IndexedReg::X)])
    } else if opcode == TAY {
        Some(seq![Instructions::TransferReg(IndexedReg::A, IndexedReg::Y)])
    } else if opcode == TSX {
        Some(seq![Instructions::TransferReg(IndexedReg::S, IndexedReg::X)])
    } else if opcode == TXA {
        Some(seq![Instructions::TransferReg(IndexedReg::X, IndexedReg::A)])
    } else if opcode == TXS {
        Some(seq![Instructions::TransferReg(IndexedReg::X, IndexedReg::S)])
    } else if opcode == TYA {
        Some(seq![Instructions::TransferReg(IndexedReg::Y, IndexedReg::A)])
    } else if opcode == PLA {
        Some(seq![Instructions::PullToReg(IndexedReg::A)])
    } else if opcode == PHA {
        Some(seq![Instructions::PushFromReg(IndexedReg::A)])
    } else if opcode == PLP {
        Some(seq![Instructions::PullToStatus])
    } else if opcode == PHP {
        Some(seq![Instructions::PushStatus])
    } else if opcode == CLC {
        Some(seq![Instructions::ClearFlags(Flag::C)])
    } else if opcode == CLD {
        Some(seq![Instructions::ClearFlags(Flag::D)])
    } else if opcode == CLI {
        Some(seq![Instructions::ClearFlags(Flag::I)])
    } else if opcode == CLV {
        Some(seq![Instructions::ClearFlags(Flag::V)])
    } else if opcode == SEC {
        Some(seq![Instructions::SetFlags(Flag::C)])
    } else if opcode == SED {
        Some(seq![Instructions::SetFlags(Flag::D)])
    } else if opcode == SEI {
        Some(seq![Instructions::SetFlags(Flag::I)])
    } else {
        None
    }
}

/// The micro-operations of a single-byte instruction, or of JSR: one dummy
/// cycle, then the operation.
pub open spec fn implied_sequence(opcode: u8) -> Option<Seq<Instructions>> {
    match implied_tail(opcode) {
        Some(tail) => Some(seq![Instructions::Idle] + tail),
        None => None,
    }
}

/// Decodes the instructions that are matched by their whole opcode byte.
pub fn get_seqeunce(instruction: u8) -> (r: Option<Vec<Instructions>>)
    ensures
        match r {
            Some(v) => implied_sequence(instruction) == Some(v@),
            None => implied_sequence(instruction) is None,
        },
{
    let mut sequence = Vec::new();
    sequence.push(Instructions::Idle);

    match instruction {
        JSR_ABS => {
            sequence.push(Instructions::LoadStackPointer);
            sequence.push(Instructions::PushPC);
            sequence.push(Instructions::Idle);
            sequence.push(Instructions::LoadAddr(AddrSource::PC));
            sequence.push(Instructions::MoveAddrToPc);
        },
        RTS => {
            sequence.push(Instructions::Idle);
            sequence.push(Instructions::PullPC);
            sequence.push(Instructions::Idle);
            sequence.push(Instructions::IncPC);
            sequence.push(Instructions::Idle);
        },
        RTI => {
            sequence.push(Instructions::Idle);
            sequence.push(Instructions::PullToStatus);
            sequence.push(Instructions::PullPC);
            sequence.push(Instructions::Idle);
        },
        BRK => {
            sequence.push(Instructions::PushPC);
            sequence.push(Instructions::Idle);
            sequence.push(Instructions::SetFlags(Flag::B));
            sequence.push(Instructions::Idle);
            sequence.push(Instructions::Idle);
            sequence.push(Instructions::Idle);
        },
        INX => sequence.push(Instructions::IncReg(IndexedReg::X)),
        INY => sequence.push(Instructions::IncReg(IndexedReg::Y)),
        DEX => sequence.push(Instructions::DecReg(IndexedReg::X)),
        DEY => sequence.push(Instructions::DecReg(IndexedReg::Y)),
        NOP => sequence.push(Instructions::Idle),
        TAX => sequence.push(Instructions::TransferReg(IndexedReg::A, IndexedReg::X)),
        TAY => sequence.push(Instructions::TransferReg(IndexedReg::A, IndexedReg::Y)),
        TSX => sequence.push(Instructions::TransferReg(IndexedReg::S, IndexedReg::X)),
        TXA => sequence.push(Instructions::TransferReg(IndexedReg::X, IndexedReg::A)),
        TXS => sequence.push(Instructions::TransferReg(IndexedReg::X, IndexedReg::S)),
        TYA => sequence.push(Instructions::TransferReg(IndexedReg::Y, IndexedReg::A)),
        PLA => sequence.push(Instructions::PullToReg(IndexedReg::A)),
        PHA => sequence.push(Instructions::PushFromReg(IndexedReg::A)),
        PLP => sequence.push(Instructions::PullToStatus),
        PHP => sequence.push(Instructions::PushStatus),
        CLC => sequence.push(Instructions::ClearFlags(Flag::C)),
        CLD => sequence.push(Instructions::ClearFlags(Flag::D)),
        CLI => sequence.push(Instructions::ClearFlags(Flag::I)),
        CLV => sequence.push(Instructions::ClearFlags(Flag::V)),
        SEC => sequence.push(Instructions::SetFlags(Flag::C)),
        SED => sequence.push(Instructions::SetFlags(Flag::D)),
        SEI => sequence.push(Instructions::SetFlags(Flag::I)),
        _ => return None,
    };
    proof {
        let tail = implied_tail(instruction).unwrap();
        assert(sequence@ =~= seq![Instructions::Idle] + tail);
    }
    Some(sequence)
}

} // verus!
