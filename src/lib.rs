//! A cycle-approximate MOS 6502 emulator whose decoder, micro-operation
//! sequencer and datapath are specified and proved with Verus.
use vstd::prelude::*;

pub mod constants;
pub mod cpu;
pub mod instructions;
pub mod memory;
pub mod registers;
pub mod sequencer;
pub mod theorems;

pub use constants::{SP, ZP};

verus! {

/// An 8-bit value on the data bus, in a register or in memory.
pub type Byte = u8;

/// A 16-bit address or program counter value.
pub type Word = u16;

/// Number of bytes in the flat address space.
pub const MEMORY_LENGTH: usize = 0x10000;

/// An integer reduced to a byte, modulo 256.
pub open spec fn wrap_byte(v: int) -> Byte {
    (v % 0x100) as Byte
}

/// An integer reduced to a word, modulo 65 536.
pub open spec fn wrap_word(v: int) -> Word {
    (v % 0x10000) as Word
}

} // verus!
