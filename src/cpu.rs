use vstd::prelude::*;

use crate::instructions::{micro_step, InstructionExecutor, Instructions, Machine};
use crate::memory::Memory;
use crate::registers::{initial_registers, Registers};
use crate::sequencer::{self, lemma_sequence_length, sequence_for};
use crate::{wrap_word, Byte, Word, MEMORY_LENGTH};

verus! {

/// The cycle counter bound below which `run` may be called: a step adds at
/// most eight cycles, so the counter never overflows.
pub const CYCLE_LIMIT: u64 = 0xFFFF_FFFF_FFFF_FF00;

/// The datapath at power-on: zeroed memory, the initial registers and clear
/// latches.
pub open spec fn initial_machine() -> Machine {
    Machine {
        mem: Seq::new(MEMORY_LENGTH as nat, |i: int| 0u8),
        regs: initial_registers(),
        addr_bus: 0,
        data_bus: 0,
    }
}

/// The opcode at PC.
pub open spec fn opcode_at_pc(m: Machine) -> Byte {
    m.mem[m.regs.pc as int]
}

/// The datapath after the opcode fetch: the opcode is in the instruction
/// register and PC designates the next byte.
pub open spec fn fetch(m: Machine) -> Machine {
    Machine {
        regs: Registers { ir: opcode_at_pc(m), pc: wrap_word(m.regs.pc + 1), ..m.regs },
        ..m
    }
}

/// The micro-operations of the instruction at PC.
pub open spec fn instruction_sequence(m: Machine) -> Seq<Instructions> {
    let f = fetch(m);
    sequence_for(opcode_at_pc(m), f.regs, f.mem)
}

/// The datapath after the first `n` micro-operations of `ops`.
pub open spec fn run_prefix(m: Machine, ops: Seq<Instructions>, n: nat) -> Machine
    decreases n,
{
    if n == 0 || n > ops.len() {
        m
    } else {
        micro_step(run_prefix(m, ops, (n - 1) as nat), ops[n - 1])
    }
}

/// The datapath after all of `ops`, in order.
pub open spec fn run_sequence(m: Machine, ops: Seq<Instructions>) -> Machine {
    run_prefix(m, ops, ops.len())
}

/// The datapath after one instruction: fetch, decode, then each micro-op.
pub open spec fn step(m: Machine) -> Machine {
    run_sequence(fetch(m), instruction_sequence(m))
}

/// The cycles one instruction costs: one for the fetch, one per micro-op.
pub open spec fn step_cycles(m: Machine) -> nat {
    1 + instruction_sequence(m).len()
}

/// The datapath after `k` instructions.
pub open spec fn steps(m: Machine, k: nat) -> Machine
    decreases k,
{
    if k == 0 {
        m
    } else {
        step(steps(m, (k - 1) as nat))
    }
}

/// The cycles that `k` instructions from `m` cost.
pub open spec fn steps_cycles(m: Machine, k: nat) -> nat
    decreases k,
{
    if k == 0 {
        0
    } else {
        steps_cycles(m, (k - 1) as nat) + step_cycles(steps(m, (k - 1) as nat))
    }
}

/// Whether the byte at PC is BRK, the halt marker of `run_loop`.
pub open spec fn at_brk(m: Machine) -> bool {
    opcode_at_pc(m) == 0
}

/// The emulated processor: memory, registers, the two latches and a cycle
/// counter.
pub struct CPU {
    mem: Memory,
    registers: Registers,
    addr_bus: Word,
    data_bus: Byte,
    cycles: u64,
}

impl CPU {
    /// The datapath that the processor holds.
    pub closed spec fn machine(&self) -> Machine {
        Machine {
            mem: self.mem@,
            regs: self.registers,
            addr_bus: self.addr_bus,
            data_bus: self.data_bus,
        }
    }

    /// The cycles spent since construction.
    pub closed spec fn cycle_count(&self) -> u64 {
        self.cycles
    }

    /// A processor at power-on: zeroed memory, the initial registers, clear
    /// latches and a cycle counter at zero (`run` charges each fetch itself).
    pub fn new() -> (cpu: Self)
        ensures
            cpu.machine() == initial_machine(),
            cpu.cycle_count() == 0,
    {
        let cpu = CPU {
            mem: Memory::new(),
            registers: Registers::new(),
            addr_bus: 0x0,
            data_bus: 0x0,
            cycles: 0,
        };
        proof {
            assert(cpu.machine().mem =~= initial_machine().mem);
        }
        cpu
    }

    /// Stores `val` at `addr`.
    pub fn write_byte(&mut self, addr: Word, val: Byte)
        ensures
            final(self).machine() == (Machine {
                mem: old(self).machine().mem.update(addr as int, val),
                ..old(self).machine()
            }),
            final(self).cycle_count() == old(self).cycle_count(),
    {
        self.mem.write_byte(addr, val);
    }

    /// The byte at `addr`.
    pub fn read_byte(&self, addr: Word) -> (val: Byte)
        ensures
            val == self.machine().mem[addr as int],
    {
        self.mem.read_byte(addr)
    }

    /// The registers, for reading and for setting up a test.
    pub fn get_registers(&mut self) -> (regs: &mut Registers)
        ensures
            *regs == old(self).machine().regs,
            final(self).machine() == (Machine { regs: *final(regs), ..old(self).machine() }),
            final(self).cycle_count() == old(self).cycle_count(),
    {
        &mut self.registers
    }

    /// The cycles spent since construction.
    pub fn cycles(&self) -> (c: u64)
        ensures
            c == self.cycle_count(),
    {
        self.cycles
    }

    /// Performs one micro-operation; the cycle counter is left to the caller.
    pub fn execute(&mut self, instruction: &Instructions)
        ensures
            final(self).machine() == micro_step(old(self).machine(), *instruction),
            final(self).cycle_count() == old(self).cycle_count(),
    {
        let mut instruction_executor = InstructionExecutor::new(
            &mut self.mem,
            &mut self.registers,
            &mut self.addr_bus,
            &mut self.data_bus,
        );
        instruction_executor.execute_instruction(instruction);
    }

    /// Fetches the opcode at PC into the instruction register, advances PC
    /// and decodes the opcode.
    fn get_instruction(&mut self) -> (v: Vec<Instructions>)
        ensures
            final(self).machine() == fetch(old(self).machine()),
            final(self).cycle_count() == old(self).cycle_count(),
            v@ == instruction_sequence(old(self).machine()),
    {
        let instruction = self.mem.read_byte(self.registers.get_pc());
        self.registers.ir = instruction;
        self.registers.inc_pc();
        sequencer::get_seqeunce(instruction, &self.registers, &self.mem)
    }

    /// Executes one instruction: the fetch costs one cycle and each of its
    /// micro-operations one more.
    pub fn run(&mut self)
        requires
            old(self).cycle_count() <= CYCLE_LIMIT,
        ensures
            final(self).machine() == step(old(self).machine()),
            final(self).cycle_count() == old(self).cycle_count() + step_cycles(old(self).machine()),
    {
        let ghost start = self.machine();
        let instructions = self.get_instruction();
        proof {
            let f = fetch(start);
            lemma_sequence_length(opcode_at_pc(start), f.regs, f.mem);
        }
        self.cycles = self.cycles + 1;
        let mut i: usize = 0;
        while i < instructions.len()
            invariant
                i <= instructions.len() <= 7,
                instructions@ == instruction_sequence(start),
                self.machine() == run_prefix(fetch(start), instructions@, i as nat),
                self.cycles == old(self).cycles + 1 + i,
                old(self).cycles <= CYCLE_LIMIT,
            decreases instructions.len() - i,
        {
            self.cycles = self.cycles + 1;
            self.execute(&instructions[i]);
            i = i + 1;
        }
    }

    /// Executes instructions until the byte at PC is BRK (`0x00`), which is
    /// not executed, or until the cycle counter has passed `CYCLE_LIMIT`.
    pub fn run_loop(&mut self)
        ensures
            exists|k: nat|
                {
                    &&& final(self).machine() == steps(old(self).machine(), k)
                    &&& final(self).cycle_count() == old(self).cycle_count() + steps_cycles(
                        old(self).machine(),
                        k,
                    )
                    &&& forall|j: nat| j < k ==> !at_brk(#[trigger] steps(old(self).machine(), j))
                },
            at_brk(final(self).machine()) || final(self).cycle_count() > CYCLE_LIMIT,
    {
        let ghost start = self.machine();
        let ghost k: nat = 0;
        loop
            invariant
                self.machine() == steps(start, k),
                self.cycles == old(self).cycles + steps_cycles(start, k),
                forall|j: nat| j < k ==> !at_brk(#[trigger] steps(start, j)),
                start == old(self).machine(),
            ensures
                at_brk(self.machine()) || self.cycles > CYCLE_LIMIT,
            decreases u64::MAX - self.cycles,
        {
            if self.cycles > CYCLE_LIMIT {
                break;
            }
            if self.mem.read_byte(self.registers.get_pc()) == 0 {
                break;
            }
            self.run();
            proof {
                k = k + 1;
            }
        }
    }
}

} // verus!
