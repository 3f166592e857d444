use vstd::prelude::*;

use crate::{wrap_word, Byte, Word};

verus! {

/// The processor status register `P`, one field per flag.
pub struct Status {
    pub n: bool,
    pub v: bool,
    pub b: bool,
    pub d: bool,
    pub i: bool,
    pub z: bool,
    pub c: bool,
}

/// The status register with every flag cleared.
pub open spec fn cleared_status() -> Status {
    Status { n: false, v: false, b: false, d: false, i: false, z: false, c: false }
}

/// The status byte: C in bit 0, Z in 1, I in 2, D in 3, B in 4, V in 6 and
/// N in 7; bit 5 is always zero.
pub open spec fn status_byte(p: Status) -> Byte {
    (if p.c { 0x01u8 } else { 0u8 }) | (if p.z { 0x02u8 } else { 0u8 }) | (if p.i {
        0x04u8
    } else {
        0u8
    }) | (if p.d { 0x08u8 } else { 0u8 }) | (if p.b { 0x10u8 } else { 0u8 }) | (if p.v {
        0x40u8
    } else {
        0u8
    }) | (if p.n { 0x80u8 } else { 0u8 })
}

/// The flags held by a status byte, bit 5 being ignored.
pub open spec fn status_from_byte(b: Byte) -> Status {
    Status {
        c: b & 0x01 != 0,
        z: b & 0x02 != 0,
        i: b & 0x04 != 0,
        d: b & 0x08 != 0,
        b: b & 0x10 != 0,
        v: b & 0x40 != 0,
        n: b & 0x80 != 0,
    }
}

/// Bit 7 of a byte, the sign bit that the N flag copies.
pub open spec fn is_negative(v: Byte) -> bool {
    v >= 0x80
}

/// Unpacking a packed status register gives back every flag.
pub proof fn lemma_status_round_trip(p: Status)
    ensures
        status_from_byte(status_byte(p)) == p,
{
    lemma_flag_bits(p.n, p.v, p.b, p.d, p.i, p.z, p.c);
}

/// Packing the flags read from a byte gives back the byte with bit 5 cleared.
pub proof fn lemma_byte_round_trip(b: Byte)
    ensures
        status_byte(status_from_byte(b)) == b & 0xDF,
{
    assert(((if b & 0x01 != 0 { 0x01u8 } else { 0u8 }) | (if b & 0x02 != 0 { 0x02u8 } else {
        0u8
    }) | (if b & 0x04 != 0 { 0x04u8 } else { 0u8 }) | (if b & 0x08 != 0 { 0x08u8 } else {
        0u8
    }) | (if b & 0x10 != 0 { 0x10u8 } else { 0u8 }) | (if b & 0x40 != 0 { 0x40u8 } else {
        0u8
    }) | (if b & 0x80 != 0 { 0x80u8 } else { 0u8 })) == b & 0xDF) by (bit_vector);
}

/// Each flag of a packed status byte sits alone in its bit.
proof fn lemma_flag_bits(n: bool, v: bool, b: bool, d: bool, i: bool, z: bool, c: bool)
    by (bit_vector)
    ensures
        ({
            let s = (if c { 0x01u8 } else { 0u8 }) | (if z { 0x02u8 } else { 0u8 }) | (if i {
                0x04u8
            } else {
                0u8
            }) | (if d { 0x08u8 } else { 0u8 }) | (if b { 0x10u8 } else { 0u8 }) | (if v {
                0x40u8
            } else {
                0u8
            }) | (if n { 0x80u8 } else { 0u8 });
            &&& (s & 0x01 != 0) == c
            &&& (s & 0x02 != 0) == z
            &&& (s & 0x04 != 0) == i
            &&& (s & 0x08 != 0) == d
            &&& (s & 0x10 != 0) == b
            &&& (s & 0x40 != 0) == v
            &&& (s & 0x80 != 0) == n
        }),
{
}

impl Default for Status {
    /// All flags cleared.
    fn default() -> (s: Self)
        ensures
            s == cleared_status(),
    {
        Status { n: false, v: false, b: false, d: false, i: false, z: false, c: false }
    }
}

/// The architectural registers.
pub struct Registers {
    pub a: Byte,
    pub x: Byte,
    pub y: Byte,
    /// The instruction register: the opcode most recently fetched.
    pub ir: Byte,
    pub pc: Word,
    /// The stack pointer; the top of the stack is at `0x0100 | s`.
    pub s: Byte,
    pub p: Status,
}

/// A register named by a micro-operation.
#[derive(Debug)]
pub enum IndexedReg {
    A,
    X,
    Y,
    S,
}

/// A flag of the status register.
#[derive(Debug)]
pub enum Flag {
    C,
    Z,
    I,
    D,
    B,
    V,
    N,
}

/// The value of register `r`.
pub open spec fn reg_value(regs: Registers, r: IndexedReg) -> Byte {
    match r {
        IndexedReg::A => regs.a,
        IndexedReg::X => regs.x,
        IndexedReg::Y => regs.y,
        IndexedReg::S => regs.s,
    }
}

/// The registers with `r` set to `v`.
pub open spec fn with_reg(regs: Registers, r: IndexedReg, v: Byte) -> Registers {
    match r {
        IndexedReg::A => Registers { a: v, ..regs },
        IndexedReg::X => Registers { x: v, ..regs },
        IndexedReg::Y => Registers { y: v, ..regs },
        IndexedReg::S => Registers { s: v, ..regs },
    }
}

/// The status register with flag `f` set to `v`.
pub open spec fn with_flag(p: Status, f: Flag, v: bool) -> Status {
    match f {
        Flag::C => Status { c: v, ..p },
        Flag::Z => Status { z: v, ..p },
        Flag::I => Status { i: v, ..p },
        Flag::D => Status { d: v, ..p },
        Flag::B => Status { b: v, ..p },
        Flag::V => Status { v: v, ..p },
        Flag::N => Status { n: v, ..p },
    }
}

/// The registers with Z and N set from `v`: Z when `v` is zero, N from bit 7.
pub open spec fn with_zn(regs: Registers, v: Byte) -> Registers {
    Registers { p: Status { z: v == 0, n: is_negative(v), ..regs.p }, ..regs }
}

/// The registers at power-on: A, X, Y, IR and PC zero, S at 0xFF, no flag set.
pub open spec fn initial_registers() -> Registers {
    Registers { a: 0, x: 0, y: 0, ir: 0, pc: 0, s: 0xFF, p: cleared_status() }
}

impl Registers {
    /// The power-on register file.
    pub fn new() -> (r: Self)
        ensures
            r == initial_registers(),
    {
        Registers { a: 0x0, x: 0x0, y: 0x0, ir: 0x0, pc: 0x0, s: 0xFF, p: Status::default() }
    }

    /// Loads every flag from a status byte.
    pub fn set_p(&mut self, p: Byte)
        ensures
            *final(self) == (Registers { p: status_from_byte(p), ..*old(self) }),
    {
        self.p = Status {
            c: p & 0x01 != 0,
            z: p & 0x02 != 0,
            i: p & 0x04 != 0,
            d: p & 0x08 != 0,
            b: p & 0x10 != 0,
            v: p & 0x40 != 0,
            n: p & 0x80 != 0,
        };
    }

    /// The status register packed into a byte.
    pub fn get_p_byte(&self) -> (b: Byte)
        ensures
            b == status_byte(self.p),
    {
        let c: Byte = if self.p.c { 0x01 } else { 0x00 };
        let z: Byte = if self.p.z { 0x02 } else { 0x00 };
        let i: Byte = if self.p.i { 0x04 } else { 0x00 };
        let d: Byte = if self.p.d { 0x08 } else { 0x00 };
        let b: Byte = if self.p.b { 0x10 } else { 0x00 };
        let v: Byte = if self.p.v { 0x40 } else { 0x00 };
        let n: Byte = if self.p.n { 0x80 } else { 0x00 };
        c | z | i | d | b | v | n
    }

    /// The status register.
    pub fn get_p(&self) -> (p: &Status)
        ensures
            *p == self.p,
    {
        &self.p
    }

    /// The accumulator.
    pub fn get_a(&self) -> (a: Byte)
        ensures
            a == self.a,
    {
        self.a
    }

    /// Index register X.
    pub fn get_x(&self) -> (x: Byte)
        ensures
            x == self.x,
    {
        self.x
    }

    /// The stack pointer.
    pub fn get_s(&self) -> (s: Byte)
        ensures
            s == self.s,
    {
        self.s
    }

    /// Index register Y.
    pub fn get_y(&self) -> (y: Byte)
        ensures
            y == self.y,
    {
        self.y
    }

    /// The program counter.
    pub fn get_pc(&self) -> (pc: Word)
        ensures
            pc == self.pc,
    {
        self.pc
    }

    /// The program counter, for writing.
    pub fn get_mut_pc(&mut self) -> (pc: &mut Word)
        ensures
            *pc == old(self).pc,
            *final(self) == (Registers { pc: *final(pc), ..*old(self) }),
    {
        &mut self.pc
    }

    /// The status register, for writing.
    pub fn get_mut_p(&mut self) -> (p: &mut Status)
        ensures
            *p == old(self).p,
            *final(self) == (Registers { p: *final(p), ..*old(self) }),
    {
        &mut self.p
    }

    /// The accumulator, for writing.
    pub fn get_mut_a(&mut self) -> (a: &mut Byte)
        ensures
            *a == old(self).a,
            *final(self) == (Registers { a: *final(a), ..*old(self) }),
    {
        &mut self.a
    }

    /// Index register X, for writing.
    pub fn get_mut_x(&mut self) -> (x: &mut Byte)
        ensures
            *x == old(self).x,
            *final(self) == (Registers { x: *final(x), ..*old(self) }),
    {
        &mut self.x
    }

    /// Index register Y, for writing.
    pub fn get_mut_y(&mut self) -> (y: &mut Byte)
        ensures
            *y == old(self).y,
            *final(self) == (Registers { y: *final(y), ..*old(self) }),
    {
        &mut self.y
    }

    /// The stack pointer, for writing.
    pub fn get_mut_s(&mut self) -> (s: &mut Byte)
        ensures
            *s == old(self).s,
            *final(self) == (Registers { s: *final(s), ..*old(self) }),
    {
        &mut self.s
    }

    /// Sets Z when `val` is zero and N from bit 7 of `val`.
    pub fn set_flags(&mut self, val: Byte)
        ensures
            *final(self) == with_zn(*old(self), val),
    {
        self.p.z = val == 0x0;
        self.p.n = val >= 0x80;
    }

    /// Advances PC by one, wrapping at 0xFFFF.
    pub fn inc_pc(&mut self)
        ensures
            *final(self) == (Registers { pc: wrap_word(old(self).pc + 1), ..*old(self) }),
    {
        self.pc = self.pc.wrapping_add(1);
    }

    /// Loads PC with `new_pc`.
    pub fn jmp_pc(&mut self, new_pc: Word)
        ensures
            *final(self) == (Registers { pc: new_pc, ..*old(self) }),
    {
        self.pc = new_pc;
    }

    /// The value of the register that `r` names.
    pub fn get_reg(&self, r: &IndexedReg) -> (v: Byte)
        ensures
            v == reg_value(*self, *r),
    {
        match r {
            IndexedReg::A => self.a,
            IndexedReg::X => self.x,
            IndexedReg::Y => self.y,
            IndexedReg::S => self.s,
        }
    }

    /// Writes `v` to the register that `r` names.
    pub fn set_reg(&mut self, r: &IndexedReg, v: Byte)
        ensures
            *final(self) == with_reg(*old(self), *r, v),
    {
        match r {
            IndexedReg::A => self.a = v,
            IndexedReg::X => self.x = v,
            IndexedReg::Y => self.y = v,
            IndexedReg::S => self.s = v,
        }
    }

    /// Forces flag `f` to `v`.
    pub fn set_flag(&mut self, f: &Flag, v: bool)
        ensures
            *final(self) == (Registers { p: with_flag(old(self).p, *f, v), ..*old(self) }),
    {
        match f {
            Flag::C => self.p.c = v,
            Flag::Z => self.p.z = v,
            Flag::I => self.p.i = v,
            Flag::D => self.p.d = v,
            Flag::B => self.p.b = v,
            Flag::V => self.p.v = v,
            Flag::N => self.p.n = v,
        }
    }
}

} // verus!
