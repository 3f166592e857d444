use vstd::prelude::*;

use crate::memory::Memory;
use crate::registers::{
    is_negative, reg_value, status_byte, status_from_byte, with_flag, with_reg, with_zn, Flag,
    IndexedReg, Registers, Status,
};
use crate::{wrap_byte, wrap_word, Byte, Word, MEMORY_LENGTH, SP};

verus! {

/// One micro-operation: a single-cycle mutation of the datapath.
#[derive(Debug)]
pub enum Instructions {
    Idle,
    MemToDataBus(AddrSource),
    RegToDataBus(IndexedReg),
    DataBusToReg(IndexedReg),
    DataBusToMem(AddrSource),
    CompareWithReg(IndexedReg),
    LoadZPAddr,
    LoadAddr(AddrSource),
    AddToAddrBus(IndexedReg),
    AddToReg(IndexedReg),
    SubFromReg(IndexedReg),
    ORWithReg(IndexedReg),
    ANDWithReg(IndexedReg),
    XORWithReg(IndexedReg),
    IncReg(IndexedReg),
    DecReg(IndexedReg),
    TransferReg(IndexedReg, IndexedReg),
    PullToReg(IndexedReg),
    PushFromReg(IndexedReg),
    SetFlags(Flag),
    ClearFlags(Flag),
    IncDataBus,
    DecDataBus,
    IncPC,
    AddToPC,
    MoveAddrToPc,
    LoadStackPointer,
    PushPC,
    PullPC,
    PullToStatus,
    PushStatus,
    SetBitTestFlags,
    Shift(Direction, DataSource),
    Rotate(Direction, DataSource),
}

/// Direction of a shift or rotation.
#[derive(Debug)]
pub enum Direction {
    Left,
    Right,
}

/// Operand of a shift or rotation: the data bus or the accumulator.
#[derive(Debug)]
pub enum DataSource {
    DataBus,
    Reg,
}

/// Where a memory access takes its address from.
#[derive(Debug)]
pub enum AddrSource {
    AddrBus,
    PC,
}

/// The whole datapath as a mathematical value: memory, registers and the
/// two latches that carry values between micro-operations.
pub struct Machine {
    pub mem: Seq<Byte>,
    pub regs: Registers,
    pub addr_bus: Word,
    pub data_bus: Byte,
}

/// A datapath whose memory has one byte per 16-bit address.
pub open spec fn well_formed(m: Machine) -> bool {
    m.mem.len() == MEMORY_LENGTH
}

/// The address that `src` supplies.
pub open spec fn address_of(m: Machine, src: AddrSource) -> Word {
    match src {
        AddrSource::AddrBus => m.addr_bus,
        AddrSource::PC => m.regs.pc,
    }
}

/// The byte at address `addr`.
pub open spec fn byte_at(m: Machine, addr: int) -> Byte {
    m.mem[wrap_word(addr) as int]
}

/// The word whose low byte is `lo` and whose high byte is `hi`.
pub open spec fn le_word(lo: Byte, hi: Byte) -> Word {
    (hi * 0x100 + lo) as Word
}

/// The little-endian word stored at `addr` and the address after it.
pub open spec fn word_at(m: Machine, addr: int) -> Word {
    le_word(byte_at(m, addr), byte_at(m, addr + 1))
}

/// The address in page one that stack pointer `s` designates.
pub open spec fn stack_address(s: Byte) -> int {
    0x100 + s
}

/// An 8-bit displacement read as a signed value.
pub open spec fn sign_extend(d: Byte) -> int {
    if d >= 0x80 {
        d - 0x100
    } else {
        d as int
    }
}

/// The datapath after pushing `v`: the byte is written at the stack pointer,
/// which then moves down by one.
pub open spec fn push_value(m: Machine, v: Byte) -> Machine {
    Machine {
            mem: m.mem.update(stack_address(m.regs.s), v),
            regs: Registers { s: wrap_byte(m.regs.s - 1), ..m.regs },
            ..m
    }
}

/// The datapath after a pull: the stack pointer moves up by one.
pub open spec fn pull_value(m: Machine) -> Machine {
    Machine { regs: Registers { s: wrap_byte(m.regs.s + 1), ..m.regs }, ..m }
}

/// The byte that a pull from `m` returns.
pub open spec fn pulled(m: Machine) -> Byte {
    m.mem[stack_address(wrap_byte(m.regs.s + 1))]
}

/// The flags after comparing register value `lhs` with operand `rhs`.
pub open spec fn compare_flags(p: Status, lhs: Byte, rhs: Byte) -> Status {
    Status { c: lhs >= rhs, z: lhs == rhs, n: lhs < rhs, ..p }
}

/// The flags after a bit test of the accumulator `a` against operand `m`.
pub open spec fn bit_test_flags(p: Status, a: Byte, m: Byte) -> Status {
    let v = m & a;
    Status { z: v == 0, n: is_negative(v), v: v & 0x40 != 0, ..p }
}

/// `x` shifted one place, a zero entering the vacated bit.
pub open spec fn shift_value(dir: Direction, x: Byte) -> Byte {
    match dir {
        Direction::Left => ((x % 0x80) * 2) as Byte,
        Direction::Right => x / 2,
    }
}

/// `x` rotated one place, the bit leaving one end entering the other.
pub open spec fn rotate_value(dir: Direction, x: Byte) -> Byte {
    match dir {
        Direction::Left => ((x % 0x80) * 2 + x / 0x80) as Byte,
        Direction::Right => (x / 2 + (x % 2) * 0x80) as Byte,
    }
}

/// The bit that a shift or rotation in direction `dir` moves out of `x`.
pub open spec fn shifted_out(dir: Direction, x: Byte) -> bool {
    match dir {
        Direction::Left => x >= 0x80,
        Direction::Right => x % 2 == 1,
    }
}

/// The datapath after a shift or rotation of the operand `src` produced `r`
/// from `x`: C takes the bit moved out, Z and N follow the result.
pub open spec fn shifted_machine(
    m: Machine,
    src: DataSource,
    dir: Direction,
    x: Byte,
    r: Byte,
) -> Machine {
    let regs = Registers { p: Status { c: shifted_out(dir, x), ..m.regs.p }, ..m.regs };
    match src {
        DataSource::Reg => Machine { regs: with_zn(Registers { a: r, ..regs }, r), ..m },
        DataSource::DataBus => Machine { regs: with_zn(regs, r), data_bus: r, ..m },
    }
}

/// The operand that a shift or rotation of `src` reads.
pub open spec fn shift_operand(m: Machine, src: DataSource) -> Byte {
    match src {
        DataSource::Reg => m.regs.a,
        DataSource::DataBus => m.data_bus,
    }
}

/// The register file after `r` takes value `v`, with Z and N set from `v`.
pub open spec fn load_with_flags(regs: Registers, r: IndexedReg, v: Byte) -> Registers {
    with_zn(with_reg(regs, r, v), v)
}

/// No change: a dead bus cycle.
/// No change: a dead bus cycle.
pub open spec fn idle_step(m: Machine) -> Machine {
    m
}

/// `data_bus ← Memory[addr(source)]`; PC then advances when it is the source.
pub open spec fn mem_to_data_bus_step(m: Machine, src: AddrSource) -> Machine {
    let v = m.mem[address_of(m, src) as int];
    match src {
        AddrSource::PC => Machine {
            data_bus: v,
            regs: Registers { pc: wrap_word(m.regs.pc + 1), ..m.regs },
            ..m
        },
        AddrSource::AddrBus => Machine { data_bus: v, ..m },
    }
}

/// `data_bus ← R`.
pub open spec fn reg_to_data_bus_step(m: Machine, r: IndexedReg) -> Machine {
    Machine { data_bus: reg_value(m.regs, r), ..m }
}

/// `R ← data_bus`.
pub open spec fn data_bus_to_reg_step(m: Machine, r: IndexedReg) -> Machine {
    Machine { regs: with_reg(m.regs, r, m.data_bus), ..m }
}

/// `Memory[addr(source)] ← data_bus`.
pub open spec fn data_bus_to_mem_step(m: Machine, src: AddrSource) -> Machine {
    Machine {
        mem: m.mem.update(address_of(m, src) as int, m.data_bus),
        ..m
    }
}

/// C when `R >= data_bus`, Z when they are equal, N when `R < data_bus`.
pub open spec fn compare_with_reg_step(m: Machine, r: IndexedReg) -> Machine {
    Machine {
        regs: Registers { p: compare_flags(m.regs.p, reg_value(m.regs, r), m.data_bus), ..m.regs },
        ..m
    }
}

/// Reads the byte at PC as a zero-page address into the address bus and advances PC.
pub open spec fn load_zp_addr_step(m: Machine) -> Machine {
    Machine {
        addr_bus: m.mem[m.regs.pc as int] as Word,
        regs: Registers { pc: wrap_word(m.regs.pc + 1), ..m.regs },
        ..m
    }
}

/// Reads the little-endian word at `addr(source)` into the address bus; PC advances past it when it
/// is the source.
pub open spec fn load_addr_step(m: Machine, src: AddrSource) -> Machine {
    let w = word_at(m, address_of(m, src) as int);
    match src {
        AddrSource::PC => Machine {
            addr_bus: w,
            regs: Registers { pc: wrap_word(m.regs.pc + 2), ..m.regs },
            ..m
        },
        AddrSource::AddrBus => Machine { addr_bus: w, ..m },
    }
}

/// `addr_bus ← addr_bus + R`, wrapping at 16 bits.
pub open spec fn add_to_addr_bus_step(m: Machine, r: IndexedReg) -> Machine {
    Machine {
        addr_bus: wrap_word(m.addr_bus + reg_value(m.regs, r)),
        ..m
    }
}

/// `R ← R + data_bus` modulo 256, with Z and N from the result.
pub open spec fn add_to_reg_step(m: Machine, r: IndexedReg) -> Machine {
    Machine {
        regs: load_with_flags(m.regs, r, wrap_byte(reg_value(m.regs, r) + m.data_bus)),
        ..m
    }
}

/// `R ← R - data_bus` modulo 256, with Z and N from the result.
pub open spec fn sub_from_reg_step(m: Machine, r: IndexedReg) -> Machine {
    Machine {
        regs: load_with_flags(m.regs, r, wrap_byte(reg_value(m.regs, r) - m.data_bus)),
        ..m
    }
}

/// `R ← R | data_bus`, with Z and N from the result.
pub open spec fn or_with_reg_step(m: Machine, r: IndexedReg) -> Machine {
    Machine {
        regs: load_with_flags(m.regs, r, reg_value(m.regs, r) | m.data_bus),
        ..m
    }
}

/// `R ← R & data_bus`, with Z and N from the result.
pub open spec fn and_with_reg_step(m: Machine, r: IndexedReg) -> Machine {
    Machine {
        regs: load_with_flags(m.regs, r, reg_value(m.regs, r) & m.data_bus),
        ..m
    }
}

/// `R ← R ^ data_bus`, with Z and N from the result.
pub open spec fn xor_with_reg_step(m: Machine, r: IndexedReg) -> Machine {
    Machine {
        regs: load_with_flags(m.regs, r, reg_value(m.regs, r) ^ m.data_bus),
        ..m
    }
}

/// `R ← R + 1` modulo 256, with Z and N from the result.
pub open spec fn inc_reg_step(m: Machine, r: IndexedReg) -> Machine {
    Machine {
        regs: load_with_flags(m.regs, r, wrap_byte(reg_value(m.regs, r) + 1)),
        ..m
    }
}

/// `R ← R - 1` modulo 256, with Z and N from the result.
pub open spec fn dec_reg_step(m: Machine, r: IndexedReg) -> Machine {
    Machine {
        regs: load_with_flags(m.regs, r, wrap_byte(reg_value(m.regs, r) - 1)),
        ..m
    }
}

/// `to ← from`.
pub open spec fn transfer_reg_step(m: Machine, from: IndexedReg, to: IndexedReg) -> Machine {
    Machine {
        regs: with_reg(m.regs, to, reg_value(m.regs, from)),
        ..m
    }
}

/// Pulls a byte from the stack into `R`.
pub open spec fn pull_to_reg_step(m: Machine, r: IndexedReg) -> Machine {
    let after = pull_value(m);
    Machine { regs: with_reg(after.regs, r, pulled(m)), ..after }
}

/// Pushes `R` on the stack.
pub open spec fn push_from_reg_step(m: Machine, r: IndexedReg) -> Machine {
    push_value(m, reg_value(m.regs, r))
}

/// Forces `flag` to 1.
pub open spec fn set_flags_step(m: Machine, f: Flag) -> Machine {
    Machine {
        regs: Registers { p: with_flag(m.regs.p, f, true), ..m.regs },
        ..m
    }
}

/// Forces `flag` to 0.
pub open spec fn clear_flags_step(m: Machine, f: Flag) -> Machine {
    Machine {
        regs: Registers { p: with_flag(m.regs.p, f, false), ..m.regs },
        ..m
    }
}

/// `data_bus ← data_bus + 1` modulo 256.
pub open spec fn inc_data_bus_step(m: Machine) -> Machine {
    Machine { data_bus: wrap_byte(m.data_bus + 1), ..m }
}

/// `data_bus ← data_bus - 1` modulo 256.
pub open spec fn dec_data_bus_step(m: Machine) -> Machine {
    Machine { data_bus: wrap_byte(m.data_bus - 1), ..m }
}

/// `PC ← PC + 1`.
pub open spec fn inc_pc_step(m: Machine) -> Machine {
    Machine {
        regs: Registers { pc: wrap_word(m.regs.pc + 1), ..m.regs },
        ..m
    }
}

/// Adds the data bus, sign-extended to 16 bits, to PC.
pub open spec fn add_to_pc_step(m: Machine) -> Machine {
    Machine {
        regs: Registers { pc: wrap_word(m.regs.pc + sign_extend(m.data_bus)), ..m.regs },
        ..m
    }
}

/// `PC ← addr_bus`.
pub open spec fn move_addr_to_pc_step(m: Machine) -> Machine {
    Machine {
        regs: Registers { pc: m.addr_bus, ..m.regs },
        ..m
    }
}

/// `addr_bus ← 0x0100 | S`.
pub open spec fn load_stack_pointer_step(m: Machine) -> Machine {
    Machine {
        addr_bus: stack_address(m.regs.s) as Word,
        ..m
    }
}

/// Pushes `PC + 1`, high byte first.
pub open spec fn push_pc_step(m: Machine) -> Machine {
    let w = wrap_word(m.regs.pc + 1);
    push_value(push_value(m, (w / 0x100) as Byte), (w % 0x100) as Byte)
}

/// Pulls the low byte, then the high byte, of PC.
pub open spec fn pull_pc_step(m: Machine) -> Machine {
    let lo = pulled(m);
    let hi = pulled(pull_value(m));
    let after = pull_value(pull_value(m));
    Machine { regs: Registers { pc: le_word(lo, hi), ..after.regs }, ..after }
}

/// Pulls a byte from the stack and unpacks it into the status register.
pub open spec fn pull_to_status_step(m: Machine) -> Machine {
    let after = pull_value(m);
    Machine { regs: Registers { p: status_from_byte(pulled(m)), ..after.regs }, ..after }
}

/// Pushes the packed status register.
pub open spec fn push_status_step(m: Machine) -> Machine {
    push_value(m, status_byte(m.regs.p))
}

/// With `v = data_bus & A`: Z when `v` is zero, N from bit 7 and V from bit 6 of `v`.
pub open spec fn set_bit_test_flags_step(m: Machine) -> Machine {
    Machine {
        regs: Registers { p: bit_test_flags(m.regs.p, m.regs.a, m.data_bus), ..m.regs },
        ..m
    }
}

/// Shifts A or the data bus one place, a zero entering; C takes the bit shifted out, Z and N follow
/// the result.
pub open spec fn shift_step(m: Machine, dir: Direction, src: DataSource) -> Machine {
    let x = shift_operand(m, src);
    shifted_machine(m, src, dir, x, shift_value(dir, x))
}

/// Rotates A or the data bus one place, the bit leaving one end entering the other; C takes that
/// bit, Z and N follow the result.
pub open spec fn rotate_step(m: Machine, dir: Direction, src: DataSource) -> Machine {
    let x = shift_operand(m, src);
    shifted_machine(m, src, dir, x, rotate_value(dir, x))
}

/// What one micro-operation does to the datapath.
#[verifier::opaque]
pub open spec fn micro_step(m: Machine, op: Instructions) -> Machine {
    match op {
        Instructions::Idle => idle_step(m),
        Instructions::MemToDataBus(src) => mem_to_data_bus_step(m, src),
        Instructions::RegToDataBus(r) => reg_to_data_bus_step(m, r),
        Instructions::DataBusToReg(r) => data_bus_to_reg_step(m, r),
        Instructions::DataBusToMem(src) => data_bus_to_mem_step(m, src),
        Instructions::CompareWithReg(r) => compare_with_reg_step(m, r),
        Instructions::LoadZPAddr => load_zp_addr_step(m),
        Instructions::LoadAddr(src) => load_addr_step(m, src),
        Instructions::AddToAddrBus(r) => add_to_addr_bus_step(m, r),
        Instructions::AddToReg(r) => add_to_reg_step(m, r),
        Instructions::SubFromReg(r) => sub_from_reg_step(m, r),
        Instructions::ORWithReg(r) => or_with_reg_step(m, r),
        Instructions::ANDWithReg(r) => and_with_reg_step(m, r),
        Instructions::XORWithReg(r) => xor_with_reg_step(m, r),
        Instructions::IncReg(r) => inc_reg_step(m, r),
        Instructions::DecReg(r) => dec_reg_step(m, r),
        Instructions::TransferReg(from, to) => transfer_reg_step(m, from, to),
        Instructions::PullToReg(r) => pull_to_reg_step(m, r),
        Instructions::PushFromReg(r) => push_from_reg_step(m, r),
        Instructions::SetFlags(f) => set_flags_step(m, f),
        Instructions::ClearFlags(f) => clear_flags_step(m, f),
        Instructions::IncDataBus => inc_data_bus_step(m),
        Instructions::DecDataBus => dec_data_bus_step(m),
        Instructions::IncPC => inc_pc_step(m),
        Instructions::AddToPC => add_to_pc_step(m),
        Instructions::MoveAddrToPc => move_addr_to_pc_step(m),
        Instructions::LoadStackPointer => load_stack_pointer_step(m),
        Instructions::PushPC => push_pc_step(m),
        Instructions::PullPC => pull_pc_step(m),
        Instructions::PullToStatus => pull_to_status_step(m),
        Instructions::PushStatus => push_status_step(m),
        Instructions::SetBitTestFlags => set_bit_test_flags_step(m),
        Instructions::Shift(dir, src) => shift_step(m, dir, src),
        Instructions::Rotate(dir, src) => rotate_step(m, dir, src),
    }
}

/// The datapath made of these four parts.
pub open spec fn datapath(
    mem: Seq<Byte>,
    regs: Registers,
    addr_bus: Word,
    data_bus: Byte,
) -> Machine {
    Machine { mem, regs, addr_bus, data_bus }
}

/// The stack address `0x0100 | s`.
fn stack_addr(s: Byte) -> (addr: Word)
    ensures
        addr == stack_address(s),
{
    (SP as Word) * 0x100 + s as Word
}

/// The word with low byte `lo` and high byte `hi`.
fn word_from_bytes(lo: Byte, hi: Byte) -> (w: Word)
    ensures
        w == le_word(lo, hi),
{
    (hi as Word) * 0x100 + lo as Word
}

/// Writes `val` at the top of the stack, then moves the stack pointer down.
fn push(mem: &mut Memory, reg: &mut Registers, val: Byte)
    ensures
        final(mem)@ == old(mem)@.update(stack_address(old(reg).s), val),
        *final(reg) == (Registers { s: wrap_byte(old(reg).s - 1), ..*old(reg) }),
{
    mem.write_byte(stack_addr(reg.s), val);
    reg.s = reg.s.wrapping_sub(1);
}

/// Moves the stack pointer up, then reads the byte it designates.
fn pull(mem: &Memory, reg: &mut Registers) -> (val: Byte)
    ensures
        *final(reg) == (Registers { s: wrap_byte(old(reg).s + 1), ..*old(reg) }),
        val == mem@[stack_address(final(reg).s)],
{
    reg.s = reg.s.wrapping_add(1);
    mem.read_byte(stack_addr(reg.s))
}

/// The address that `source` supplies.
fn address(reg: &Registers, addr_bus: Word, source: &AddrSource) -> (addr: Word)
    ensures
        addr == address_of(datapath(Seq::empty(), *reg, addr_bus, 0), *source),
{
    match source {
        AddrSource::AddrBus => addr_bus,
        AddrSource::PC => reg.pc,
    }
}

/// Writes the result of a shift or rotation back to its operand, with C set
/// to the bit moved out and Z and N from the result.
fn store_shifted(
    reg: &mut Registers,
    data_bus: &mut Byte,
    source: &DataSource,
    res: Byte,
    out: bool,
)
    ensures
        ({
            let regs = Registers { p: Status { c: out, ..old(reg).p }, ..*old(reg) };
            match *source {
                DataSource::Reg => *final(reg) == with_zn(Registers { a: res, ..regs }, res)
                    && *final(data_bus) == *old(data_bus),
                DataSource::DataBus => *final(reg) == with_zn(regs, res) && *final(data_bus) == res,
            }
        }),
{
    reg.p.c = out;
    match source {
        DataSource::Reg => reg.a = res,
        DataSource::DataBus => *data_bus = res,
    }
    reg.set_flags(res);
}

/// No change: a dead bus cycle.
fn idle(
    mem: &mut Memory,
    reg: &mut Registers,
    addr_bus: &mut Word,
    data_bus: &mut Byte,
)
    ensures
        datapath(final(mem)@, *final(reg), *final(addr_bus), *final(data_bus))
            == idle_step(
                datapath(old(mem)@, *old(reg), *old(addr_bus), *old(data_bus)),
            ),
{
}

/// `data_bus ← Memory[addr(source)]`; PC then advances when it is the source.
fn mem_to_data_bus(
    mem: &mut Memory,
    reg: &mut Registers,
    addr_bus: &mut Word,
    data_bus: &mut Byte,
    source: &AddrSource,
)
    ensures
        datapath(final(mem)@, *final(reg), *final(addr_bus), *final(data_bus))
            == mem_to_data_bus_step(
                datapath(old(mem)@, *old(reg), *old(addr_bus), *old(data_bus)),
                *source,
            ),
{
    *data_bus = mem.read_byte(address(reg, *addr_bus, source));
    if let AddrSource::PC = source {
        reg.inc_pc();
    }
}

/// `data_bus ← R`.
fn reg_to_data_bus(
    mem: &mut Memory,
    reg: &mut Registers,
    addr_bus: &mut Word,
    data_bus: &mut Byte,
    ind_reg: &IndexedReg,
)
    ensures
        datapath(final(mem)@, *final(reg), *final(addr_bus), *final(data_bus))
            == reg_to_data_bus_step(
                datapath(old(mem)@, *old(reg), *old(addr_bus), *old(data_bus)),
                *ind_reg,
            ),
{
    *data_bus = reg.get_reg(ind_reg);
}

/// `R ← data_bus`.
fn data_bus_to_reg(
    mem: &mut Memory,
    reg: &mut Registers,
    addr_bus: &mut Word,
    data_bus: &mut Byte,
    ind_reg: &IndexedReg,
)
    ensures
        datapath(final(mem)@, *final(reg), *final(addr_bus), *final(data_bus))
            == data_bus_to_reg_step(
                datapath(old(mem)@, *old(reg), *old(addr_bus), *old(data_bus)),
                *ind_reg,
            ),
{
    reg.set_reg(ind_reg, *data_bus);
}

/// `Memory[addr(source)] ← data_bus`.
fn data_bus_to_mem(
    mem: &mut Memory,
    reg: &mut Registers,
    addr_bus: &mut Word,
    data_bus: &mut Byte,
    source: &AddrSource,
)
    ensures
        datapath(final(mem)@, *final(reg), *final(addr_bus), *final(data_bus))
            == data_bus_to_mem_step(
                datapath(old(mem)@, *old(reg), *old(addr_bus), *old(data_bus)),
                *source,
            ),
{
    let addr = address(reg, *addr_bus, source);
    mem.write_byte(addr, *data_bus);
}

/// C when `R >= data_bus`, Z when they are equal, N when `R < data_bus`.
fn compare_with_reg(
    mem: &mut Memory,
    reg: &mut Registers,
    addr_bus: &mut Word,
    data_bus: &mut Byte,
    ind_reg: &IndexedReg,
)
    ensures
        datapath(final(mem)@, *final(reg), *final(addr_bus), *final(data_bus))
            == compare_with_reg_step(
                datapath(old(mem)@, *old(reg), *old(addr_bus), *old(data_bus)),
                *ind_reg,
            ),
{
    let lhs = reg.get_reg(ind_reg);
    let rhs = *data_bus;
    reg.p.c = lhs >= rhs;
    reg.p.z = lhs == rhs;
    reg.p.n = lhs < rhs;
}

/// Reads the byte at PC as a zero-page address into the address bus and advances PC.
fn load_zp_addr(
    mem: &mut Memory,
    reg: &mut Registers,
    addr_bus: &mut Word,
    data_bus: &mut Byte,
)
    ensures
        datapath(final(mem)@, *final(reg), *final(addr_bus), *final(data_bus))
            == load_zp_addr_step(
                datapath(old(mem)@, *old(reg), *old(addr_bus), *old(data_bus)),
            ),
{
    *addr_bus = mem.read_byte(reg.pc) as Word;
    reg.inc_pc();
}

/// Reads the little-endian word at `addr(source)` into the address bus; PC advances past it when it
/// is the source.
fn load_addr(
    mem: &mut Memory,
    reg: &mut Registers,
    addr_bus: &mut Word,
    data_bus: &mut Byte,
    source: &AddrSource,
)
    ensures
        datapath(final(mem)@, *final(reg), *final(addr_bus), *final(data_bus))
            == load_addr_step(
                datapath(old(mem)@, *old(reg), *old(addr_bus), *old(data_bus)),
                *source,
            ),
{
    let base = address(reg, *addr_bus, source);
    let l_byte = mem.read_byte(base);
    let h_byte = mem.read_byte(base.wrapping_add(1));
    if let AddrSource::PC = source {
        reg.pc = base.wrapping_add(2);
    }
    *addr_bus = word_from_bytes(l_byte, h_byte);
}

/// `addr_bus ← addr_bus + R`, wrapping at 16 bits.
fn add_to_addr_bus(
    mem: &mut Memory,
    reg: &mut Registers,
    addr_bus: &mut Word,
    data_bus: &mut Byte,
    ind_reg: &IndexedReg,
)
    ensures
        datapath(final(mem)@, *final(reg), *final(addr_bus), *final(data_bus))
            == add_to_addr_bus_step(
                datapath(old(mem)@, *old(reg), *old(addr_bus), *old(data_bus)),
                *ind_reg,
            ),
{
    *addr_bus = addr_bus.wrapping_add(reg.get_reg(ind_reg) as Word);
}

/// `R ← R + data_bus` modulo 256, with Z and N from the result.
fn add_to_reg(
    mem: &mut Memory,
    reg: &mut Registers,
    addr_bus: &mut Word,
    data_bus: &mut Byte,
    ind_reg: &IndexedReg,
)
    ensures
        datapath(final(mem)@, *final(reg), *final(addr_bus), *final(data_bus))
            == add_to_reg_step(
                datapath(old(mem)@, *old(reg), *old(addr_bus), *old(data_bus)),
                *ind_reg,
            ),
{
    let val = reg.get_reg(ind_reg).wrapping_add(*data_bus);
    reg.set_reg(ind_reg, val);
    reg.set_flags(val);
}

/// `R ← R - data_bus` modulo 256, with Z and N from the result.
fn sub_from_reg(
    mem: &mut Memory,
    reg: &mut Registers,
    addr_bus: &mut Word,
    data_bus: &mut Byte,
    ind_reg: &IndexedReg,
)
    ensures
        datapath(final(mem)@, *final(reg), *final(addr_bus), *final(data_bus))
            == sub_from_reg_step(
                datapath(old(mem)@, *old(reg), *old(addr_bus), *old(data_bus)),
                *ind_reg,
            ),
{
    let val = reg.get_reg(ind_reg).wrapping_sub(*data_bus);
    reg.set_reg(ind_reg, val);
    reg.set_flags(val);
}

/// `R ← R | data_bus`, with Z and N from the result.
fn or_with_reg(
    mem: &mut Memory,
    reg: &mut Registers,
    addr_bus: &mut Word,
    data_bus: &mut Byte,
    ind_reg: &IndexedReg,
)
    ensures
        datapath(final(mem)@, *final(reg), *final(addr_bus), *final(data_bus))
            == or_with_reg_step(
                datapath(old(mem)@, *old(reg), *old(addr_bus), *old(data_bus)),
                *ind_reg,
            ),
{
    let val = reg.get_reg(ind_reg) | *data_bus;
    reg.set_reg(ind_reg, val);
    reg.set_flags(val);
}

/// `R ← R & data_bus`, with Z and N from the result.
fn and_with_reg(
    mem: &mut Memory,
    reg: &mut Registers,
    addr_bus: &mut Word,
    data_bus: &mut Byte,
    ind_reg: &IndexedReg,
)
    ensures
        datapath(final(mem)@, *final(reg), *final(addr_bus), *final(data_bus))
            == and_with_reg_step(
                datapath(old(mem)@, *old(reg), *old(addr_bus), *old(data_bus)),
                *ind_reg,
            ),
{
    let val = reg.get_reg(ind_reg) & *data_bus;
    reg.set_reg(ind_reg, val);
    reg.set_flags(val);
}

/// `R ← R ^ data_bus`, with Z and N from the result.
fn xor_with_reg(
    mem: &mut Memory,
    reg: &mut Registers,
    addr_bus: &mut Word,
    data_bus: &mut Byte,
    ind_reg: &IndexedReg,
)
    ensures
        datapath(final(mem)@, *final(reg), *final(addr_bus), *final(data_bus))
            == xor_with_reg_step(
                datapath(old(mem)@, *old(reg), *old(addr_bus), *old(data_bus)),
                *ind_reg,
            ),
{
    let val = reg.get_reg(ind_reg) ^ *data_bus;
    reg.set_reg(ind_reg, val);
    reg.set_flags(val);
}

/// `R ← R + 1` modulo 256, with Z and N from the result.
fn inc_reg(
    mem: &mut Memory,
    reg: &mut Registers,
    addr_bus: &mut Word,
    data_bus: &mut Byte,
    ind_reg: &IndexedReg,
)
    ensures
        datapath(final(mem)@, *final(reg), *final(addr_bus), *final(data_bus))
            == inc_reg_step(
                datapath(old(mem)@, *old(reg), *old(addr_bus), *old(data_bus)),
                *ind_reg,
            ),
{
    let val = reg.get_reg(ind_reg).wrapping_add(1);
    reg.set_reg(ind_reg, val);
    reg.set_flags(val);
}

/// `R ← R - 1` modulo 256, with Z and N from the result.
fn dec_reg(
    mem: &mut Memory,
    reg: &mut Registers,
    addr_bus: &mut Word,
    data_bus: &mut Byte,
    ind_reg: &IndexedReg,
)
    ensures
        datapath(final(mem)@, *final(reg), *final(addr_bus), *final(data_bus))
            == dec_reg_step(
                datapath(old(mem)@, *old(reg), *old(addr_bus), *old(data_bus)),
                *ind_reg,
            ),
{
    let val = reg.get_reg(ind_reg).wrapping_sub(1);
    reg.set_reg(ind_reg, val);
    reg.set_flags(val);
}

/// `to ← from`.
fn transfer_reg(
    mem: &mut Memory,
    reg: &mut Registers,
    addr_bus: &mut Word,
    data_bus: &mut Byte,
    from: &IndexedReg,
    to: &IndexedReg,
)
    ensures
        datapath(final(mem)@, *final(reg), *final(addr_bus), *final(data_bus))
            == transfer_reg_step(
                datapath(old(mem)@, *old(reg), *old(addr_bus), *old(data_bus)),
                *from,
                *to,
            ),
{
    let val = reg.get_reg(from);
    reg.set_reg(to, val);
}

/// Pulls a byte from the stack into `R`.
fn pull_to_reg(
    mem: &mut Memory,
    reg: &mut Registers,
    addr_bus: &mut Word,
    data_bus: &mut Byte,
    ind_reg: &IndexedReg,
)
    ensures
        datapath(final(mem)@, *final(reg), *final(addr_bus), *final(data_bus))
            == pull_to_reg_step(
                datapath(old(mem)@, *old(reg), *old(addr_bus), *old(data_bus)),
                *ind_reg,
            ),
{
    let val = pull(mem, reg);
    reg.set_reg(ind_reg, val);
}

/// Pushes `R` on the stack.
fn push_from_reg(
    mem: &mut Memory,
    reg: &mut Registers,
    addr_bus: &mut Word,
    data_bus: &mut Byte,
    ind_reg: &IndexedReg,
)
    ensures
        datapath(final(mem)@, *final(reg), *final(addr_bus), *final(data_bus))
            == push_from_reg_step(
                datapath(old(mem)@, *old(reg), *old(addr_bus), *old(data_bus)),
                *ind_reg,
            ),
{
    let val = reg.get_reg(ind_reg);
    push(mem, reg, val);
}

/// Forces `flag` to 1.
fn set_flags(
    mem: &mut Memory,
    reg: &mut Registers,
    addr_bus: &mut Word,
    data_bus: &mut Byte,
    flag: &Flag,
)
    ensures
        datapath(final(mem)@, *final(reg), *final(addr_bus), *final(data_bus))
            == set_flags_step(
                datapath(old(mem)@, *old(reg), *old(addr_bus), *old(data_bus)),
                *flag,
            ),
{
    reg.set_flag(flag, true);
}

/// Forces `flag` to 0.
fn clear_flags(
    mem: &mut Memory,
    reg: &mut Registers,
    addr_bus: &mut Word,
    data_bus: &mut Byte,
    flag: &Flag,
)
    ensures
        datapath(final(mem)@, *final(reg), *final(addr_bus), *final(data_bus))
            == clear_flags_step(
                datapath(old(mem)@, *old(reg), *old(addr_bus), *old(data_bus)),
                *flag,
            ),
{
    reg.set_flag(flag, false);
}

/// `data_bus ← data_bus + 1` modulo 256.
fn inc_data_bus(
    mem: &mut Memory,
    reg: &mut Registers,
    addr_bus: &mut Word,
    data_bus: &mut Byte,
)
    ensures
        datapath(final(mem)@, *final(reg), *final(addr_bus), *final(data_bus))
            == inc_data_bus_step(
                datapath(old(mem)@, *old(reg), *old(addr_bus), *old(data_bus)),
            ),
{
    *data_bus = data_bus.wrapping_add(1);
}

/// `data_bus ← data_bus - 1` modulo 256.
fn dec_data_bus(
    mem: &mut Memory,
    reg: &mut Registers,
    addr_bus: &mut Word,
    data_bus: &mut Byte,
)
    ensures
        datapath(final(mem)@, *final(reg), *final(addr_bus), *final(data_bus))
            == dec_data_bus_step(
                datapath(old(mem)@, *old(reg), *old(addr_bus), *old(data_bus)),
            ),
{
    *data_bus = data_bus.wrapping_sub(1);
}

/// `PC ← PC + 1`.
fn inc_pc(
    mem: &mut Memory,
    reg: &mut Registers,
    addr_bus: &mut Word,
    data_bus: &mut Byte,
)
    ensures
        datapath(final(mem)@, *final(reg), *final(addr_bus), *final(data_bus))
            == inc_pc_step(
                datapath(old(mem)@, *old(reg), *old(addr_bus), *old(data_bus)),
            ),
{
    reg.inc_pc();
}

/// Adds the data bus, sign-extended to 16 bits, to PC.
fn add_to_pc(
    mem: &mut Memory,
    reg: &mut Registers,
    addr_bus: &mut Word,
    data_bus: &mut Byte,
)
    ensures
        datapath(final(mem)@, *final(reg), *final(addr_bus), *final(data_bus))
            == add_to_pc_step(
                datapath(old(mem)@, *old(reg), *old(addr_bus), *old(data_bus)),
            ),
{
    let offset: Word = if *data_bus >= 0x80 {
        0xFF00 + *data_bus as Word
    } else {
        *data_bus as Word
    };
    reg.pc = reg.pc.wrapping_add(offset);
}

/// `PC ← addr_bus`.
fn move_addr_to_pc(
    mem: &mut Memory,
    reg: &mut Registers,
    addr_bus: &mut Word,
    data_bus: &mut Byte,
)
    ensures
        datapath(final(mem)@, *final(reg), *final(addr_bus), *final(data_bus))
            == move_addr_to_pc_step(
                datapath(old(mem)@, *old(reg), *old(addr_bus), *old(data_bus)),
            ),
{
    reg.jmp_pc(*addr_bus);
}

/// `addr_bus ← 0x0100 | S`.
fn load_stack_pointer(
    mem: &mut Memory,
    reg: &mut Registers,
    addr_bus: &mut Word,
    data_bus: &mut Byte,
)
    ensures
        datapath(final(mem)@, *final(reg), *final(addr_bus), *final(data_bus))
            == load_stack_pointer_step(
                datapath(old(mem)@, *old(reg), *old(addr_bus), *old(data_bus)),
            ),
{
    *addr_bus = stack_addr(reg.s);
}

/// Pushes `PC + 1`, high byte first.
fn push_pc(
    mem: &mut Memory,
    reg: &mut Registers,
    addr_bus: &mut Word,
    data_bus: &mut Byte,
)
    ensures
        datapath(final(mem)@, *final(reg), *final(addr_bus), *final(data_bus))
            == push_pc_step(
                datapath(old(mem)@, *old(reg), *old(addr_bus), *old(data_bus)),
            ),
{
    let pc = reg.pc.wrapping_add(1);
    push(mem, reg, (pc / 0x100) as Byte);
    push(mem, reg, (pc % 0x100) as Byte);
}

/// Pulls the low byte, then the high byte, of PC.
fn pull_pc(
    mem: &mut Memory,
    reg: &mut Registers,
    addr_bus: &mut Word,
    data_bus: &mut Byte,
)
    ensures
        datapath(final(mem)@, *final(reg), *final(addr_bus), *final(data_bus))
            == pull_pc_step(
                datapath(old(mem)@, *old(reg), *old(addr_bus), *old(data_bus)),
            ),
{
    let l_byte = pull(mem, reg);
    let h_byte = pull(mem, reg);
    reg.pc = word_from_bytes(l_byte, h_byte);
}

/// Pulls a byte from the stack and unpacks it into the status register.
fn pull_to_status(
    mem: &mut Memory,
    reg: &mut Registers,
    addr_bus: &mut Word,
    data_bus: &mut Byte,
)
    ensures
        datapath(final(mem)@, *final(reg), *final(addr_bus), *final(data_bus))
            == pull_to_status_step(
                datapath(old(mem)@, *old(reg), *old(addr_bus), *old(data_bus)),
            ),
{
    let p = pull(mem, reg);
    reg.set_p(p);
}

/// Pushes the packed status register.
fn push_status(
    mem: &mut Memory,
    reg: &mut Registers,
    addr_bus: &mut Word,
    data_bus: &mut Byte,
)
    ensures
        datapath(final(mem)@, *final(reg), *final(addr_bus), *final(data_bus))
            == push_status_step(
                datapath(old(mem)@, *old(reg), *old(addr_bus), *old(data_bus)),
            ),
{
    let p = reg.get_p_byte();
    push(mem, reg, p);
}

/// With `v = data_bus & A`: Z when `v` is zero, N from bit 7 and V from bit 6 of `v`.
fn set_bit_test_flags(
    mem: &mut Memory,
    reg: &mut Registers,
    addr_bus: &mut Word,
    data_bus: &mut Byte,
)
    ensures
        datapath(final(mem)@, *final(reg), *final(addr_bus), *final(data_bus))
            == set_bit_test_flags_step(
                datapath(old(mem)@, *old(reg), *old(addr_bus), *old(data_bus)),
            ),
{
    let val = *data_bus & reg.a;
    reg.p.z = val == 0;
    reg.p.n = val >= 0x80;
    reg.p.v = val & 0x40 != 0;
}

/// Shifts A or the data bus one place, a zero entering; C takes the bit shifted out, Z and N follow
/// the result.
fn shift(
    mem: &mut Memory,
    reg: &mut Registers,
    addr_bus: &mut Word,
    data_bus: &mut Byte,
    dir: &Direction,
    source: &DataSource,
)
    ensures
        datapath(final(mem)@, *final(reg), *final(addr_bus), *final(data_bus))
            == shift_step(
                datapath(old(mem)@, *old(reg), *old(addr_bus), *old(data_bus)),
                *dir,
                *source,
            ),
{
    let x = match source {
        DataSource::Reg => reg.a,
        DataSource::DataBus => *data_bus,
    };
    let (res, out) = match dir {
        Direction::Left => ((x % 0x80) * 2, x >= 0x80),
        Direction::Right => (x / 2, x % 2 == 1),
    };
    store_shifted(reg, data_bus, source, res, out);
}

/// Rotates A or the data bus one place, the bit leaving one end entering the other; C takes that
/// bit, Z and N follow the result.
fn rotate(
    mem: &mut Memory,
    reg: &mut Registers,
    addr_bus: &mut Word,
    data_bus: &mut Byte,
    dir: &Direction,
    source: &DataSource,
)
    ensures
        datapath(final(mem)@, *final(reg), *final(addr_bus), *final(data_bus))
            == rotate_step(
                datapath(old(mem)@, *old(reg), *old(addr_bus), *old(data_bus)),
                *dir,
                *source,
            ),
{
    let x = match source {
        DataSource::Reg => reg.a,
        DataSource::DataBus => *data_bus,
    };
    let (res, out) = match dir {
        Direction::Left => ((x % 0x80) * 2 + x / 0x80, x >= 0x80),
        Direction::Right => (x / 2 + (x % 2) * 0x80, x % 2 == 1),
    };
    store_shifted(reg, data_bus, source, res, out);
}

/// Performs `instruction` on the datapath made of the four parts.
#[verifier::rlimit(30)]
fn execute_on(
    mem: &mut Memory,
    reg: &mut Registers,
    addr_bus: &mut Word,
    data_bus: &mut Byte,
    instruction: &Instructions,
)
    ensures
        datapath(final(mem)@, *final(reg), *final(addr_bus), *final(data_bus))
            == micro_step(
                datapath(old(mem)@, *old(reg), *old(addr_bus), *old(data_bus)),
                *instruction,
            ),
{
    proof {
        reveal(micro_step);
    }
    match instruction {
        Instructions::Idle => idle(mem, reg, addr_bus, data_bus),
        Instructions::MemToDataBus(source) => mem_to_data_bus(mem, reg, addr_bus, data_bus, source),
        Instructions::RegToDataBus(ind_reg) => {
            reg_to_data_bus(mem, reg, addr_bus, data_bus, ind_reg)
        },
        Instructions::DataBusToReg(ind_reg) => {
            data_bus_to_reg(mem, reg, addr_bus, data_bus, ind_reg)
        },
        Instructions::DataBusToMem(source) => data_bus_to_mem(mem, reg, addr_bus, data_bus, source),
        Instructions::CompareWithReg(ind_reg) => {
            compare_with_reg(mem, reg, addr_bus, data_bus, ind_reg)
        },
        Instructions::LoadZPAddr => load_zp_addr(mem, reg, addr_bus, data_bus),
        Instructions::LoadAddr(source) => load_addr(mem, reg, addr_bus, data_bus, source),
        Instructions::AddToAddrBus(ind_reg) => {
            add_to_addr_bus(mem, reg, addr_bus, data_bus, ind_reg)
        },
        Instructions::AddToReg(ind_reg) => add_to_reg(mem, reg, addr_bus, data_bus, ind_reg),
        Instructions::SubFromReg(ind_reg) => sub_from_reg(mem, reg, addr_bus, data_bus, ind_reg),
        Instructions::ORWithReg(ind_reg) => or_with_reg(mem, reg, addr_bus, data_bus, ind_reg),
        Instructions::ANDWithReg(ind_reg) => and_with_reg(mem, reg, addr_bus, data_bus, ind_reg),
        Instructions::XORWithReg(ind_reg) => xor_with_reg(mem, reg, addr_bus, data_bus, ind_reg),
        Instructions::IncReg(ind_reg) => inc_reg(mem, reg, addr_bus, data_bus, ind_reg),
        Instructions::DecReg(ind_reg) => dec_reg(mem, reg, addr_bus, data_bus, ind_reg),
        Instructions::TransferReg(from, to) => transfer_reg(mem, reg, addr_bus, data_bus, from, to),
        Instructions::PullToReg(ind_reg) => pull_to_reg(mem, reg, addr_bus, data_bus, ind_reg),
        Instructions::PushFromReg(ind_reg) => push_from_reg(mem, reg, addr_bus, data_bus, ind_reg),
        Instructions::SetFlags(flag) => set_flags(mem, reg, addr_bus, data_bus, flag),
        Instructions::ClearFlags(flag) => clear_flags(mem, reg, addr_bus, data_bus, flag),
        Instructions::IncDataBus => inc_data_bus(mem, reg, addr_bus, data_bus),
        Instructions::DecDataBus => dec_data_bus(mem, reg, addr_bus, data_bus),
        Instructions::IncPC => inc_pc(mem, reg, addr_bus, data_bus),
        Instructions::AddToPC => add_to_pc(mem, reg, addr_bus, data_bus),
        Instructions::MoveAddrToPc => move_addr_to_pc(mem, reg, addr_bus, data_bus),
        Instructions::LoadStackPointer => load_stack_pointer(mem, reg, addr_bus, data_bus),
        Instructions::PushPC => push_pc(mem, reg, addr_bus, data_bus),
        Instructions::PullPC => pull_pc(mem, reg, addr_bus, data_bus),
        Instructions::PullToStatus => pull_to_status(mem, reg, addr_bus, data_bus),
        Instructions::PushStatus => push_status(mem, reg, addr_bus, data_bus),
        Instructions::SetBitTestFlags => set_bit_test_flags(mem, reg, addr_bus, data_bus),
        Instructions::Shift(dir, source) => shift(mem, reg, addr_bus, data_bus, dir, source),
        Instructions::Rotate(dir, source) => rotate(mem, reg, addr_bus, data_bus, dir, source),
    }
}

/// The executor: exclusive access to the datapath for the length of one
/// micro-operation.
pub struct InstructionExecutor<'a> {
    pub mem: &'a mut Memory,
    pub reg: &'a mut Registers,
    pub addr_bus: &'a mut Word,
    pub data_bus: &'a mut Byte,
}

impl<'a> InstructionExecutor<'a> {
    /// The datapath that the executor currently sees.
    pub open spec fn machine(&self) -> Machine {
        Machine {
            mem: self.mem@,
            regs: *self.reg,
            addr_bus: *self.addr_bus,
            data_bus: *self.data_bus,
        }
    }

    pub fn new(
        mem: &'a mut Memory,
        reg: &'a mut Registers,
        addr_bus: &'a mut Word,
        data_bus: &'a mut Byte,
    ) -> (e: Self)
        ensures
            *e.mem == *old(mem),
            *e.reg == *old(reg),
            *e.addr_bus == *old(addr_bus),
            *e.data_bus == *old(data_bus),
            *final(e.mem) == *final(mem),
            *final(e.reg) == *final(reg),
            *final(e.addr_bus) == *final(addr_bus),
            *final(e.data_bus) == *final(data_bus),
    {
        InstructionExecutor { mem, reg, addr_bus, data_bus }
    }

    /// Performs one micro-operation, exactly as `micro_step` describes it.
    pub fn execute_instruction(&mut self, instruction: &Instructions)
        ensures
            final(self).machine() == micro_step(old(self).machine(), *instruction),
            *final(final(self).mem) == *final(old(self).mem),
            *final(final(self).reg) == *final(old(self).reg),
            *final(final(self).addr_bus) == *final(old(self).addr_bus),
            *final(final(self).data_bus) == *final(old(self).data_bus),
    {
        execute_on(self.mem, self.reg, self.addr_bus, self.data_bus, instruction);
    }
}

} // verus!
