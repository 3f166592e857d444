//! Facts about whole instructions and pairs of micro-operations, proved
//! from the datapath semantics.
use vstd::prelude::*;
use vstd::arithmetic::div_mod::lemma_add_mod_noop;

use crate::cpu::{
    fetch, instruction_sequence, opcode_at_pc, run_prefix, run_sequence, step, step_cycles, steps,
};
use crate::instructions::{
    byte_at, compare_flags, micro_step, sign_extend, well_formed, word_at, AddrSource,
    DataSource, Instructions, Machine,
};
use crate::registers::{is_negative, reg_value, IndexedReg};
use crate::sequencer::branch::{expected_value, is_branch, tested_flag};
use crate::sequencer::other::implied_tail;
use crate::sequencer::{
    group_bits, group_one, group_sequence, group_three, group_two, mode_bits, operation_bits,
    sequence_for, GROUP_ONE,
};
use crate::wrap_word;

verus! {

/// Running `a` then `b` is running their concatenation.
pub proof fn lemma_run_append(m: Machine, a: Seq<Instructions>, b: Seq<Instructions>)
    ensures
        run_sequence(m, a + b) == run_sequence(run_sequence(m, a), b),
{
    lemma_run_prefix_of_append(m, a, b, a.len());
    lemma_run_suffix_of_append(m, a, b, b.len());
}

proof fn lemma_run_prefix_of_append(m: Machine, a: Seq<Instructions>, b: Seq<Instructions>, n: nat)
    requires
        n <= a.len(),
    ensures
        run_prefix(m, a + b, n) == run_prefix(m, a, n),
    decreases n,
{
    if n > 0 {
        lemma_run_prefix_of_append(m, a, b, (n - 1) as nat);
        assert((a + b)[n - 1] == a[n - 1]);
    }
}

proof fn lemma_run_suffix_of_append(m: Machine, a: Seq<Instructions>, b: Seq<Instructions>, k: nat)
    requires
        k <= b.len(),
    ensures
        run_prefix(m, a + b, a.len() + k) == run_prefix(run_sequence(m, a), b, k),
    decreases k,
{
    if k > 0 {
        lemma_run_suffix_of_append(m, a, b, (k - 1) as nat);
        assert((a + b)[a.len() + k - 1] == b[k - 1]);
    } else {
        lemma_run_prefix_of_append(m, a, b, a.len());
    }
}

/// A micro-operation that pushes one byte.
pub open spec fn is_push(op: Instructions) -> bool {
    op is PushFromReg || op is PushStatus
}

/// A micro-operation that pulls one byte.
pub open spec fn is_pull(op: Instructions) -> bool {
    op is PullToReg || op is PullToStatus
}

/// A push of one byte followed by a pull of one byte leaves the stack pointer
/// where it was; so does pushing PC and pulling it back.
pub proof fn lemma_push_pull_balanced(m: Machine, push: Instructions, pull: Instructions)
    requires
        (is_push(push) && is_pull(pull)) || (push == Instructions::PushPC && pull
            == Instructions::PullPC),
        !(pull matches Instructions::PullToReg(IndexedReg::S)),
    ensures
        micro_step(micro_step(m, push), pull).regs.s == m.regs.s,
{
    reveal(micro_step);
}

/// A pull right after a push returns the byte pushed.
pub proof fn lemma_pull_returns_pushed(m: Machine, r: IndexedReg, t: IndexedReg)
    requires
        well_formed(m),
    ensures
        ({
            let pushed = micro_step(m, Instructions::PushFromReg(r));
            let pulled = micro_step(pushed, Instructions::PullToReg(t));
            reg_value(pulled.regs, t) == reg_value(m.regs, r)
        }),
{
    reveal(micro_step);
}

/// The micro-operations that write a result to a register and set Z and N
/// from it, with the register they write.
pub open spec fn result_register(op: Instructions) -> Option<IndexedReg> {
    match op {
        Instructions::AddToReg(r) => Some(r),
        Instructions::SubFromReg(r) => Some(r),
        Instructions::ORWithReg(r) => Some(r),
        Instructions::ANDWithReg(r) => Some(r),
        Instructions::XORWithReg(r) => Some(r),
        Instructions::IncReg(r) => Some(r),
        Instructions::DecReg(r) => Some(r),
        Instructions::Shift(_, DataSource::Reg) => Some(IndexedReg::A),
        Instructions::Rotate(_, DataSource::Reg) => Some(IndexedReg::A),
        _ => None,
    }
}

/// After an arithmetic, logic, increment, decrement, shift or rotation of a
/// register, Z tells whether the result is zero and N is its bit 7.
#[verifier::rlimit(30)]
pub proof fn lemma_result_flags(m: Machine, op: Instructions)
    requires
        result_register(op) is Some,
    ensures
        ({
            let after = micro_step(m, op);
            let v = reg_value(after.regs, result_register(op).unwrap());
            after.regs.p.z == (v == 0) && after.regs.p.n == is_negative(v)
        }),
{
    reveal(micro_step);
    match op {
        Instructions::AddToReg(r) => {},
        Instructions::SubFromReg(r) => {},
        Instructions::ORWithReg(r) => {},
        Instructions::ANDWithReg(r) => {},
        Instructions::XORWithReg(r) => {},
        Instructions::IncReg(r) => {},
        Instructions::DecReg(r) => {},
        Instructions::Shift(dir, src) => {},
        Instructions::Rotate(dir, src) => {},
        _ => {},
    }
}

/// Comparing register `r` with the data bus sets C when `r >= operand`, Z
/// when they are equal and N when `r < operand`, and changes nothing else.
pub proof fn lemma_compare_flags(m: Machine, r: IndexedReg)
    ensures
        ({
            let after = micro_step(m, Instructions::CompareWithReg(r));
            let a = reg_value(m.regs, r);
            let b = m.data_bus;
            &&& after.regs.p.c == (a >= b)
            &&& after.regs.p.z == (a == b)
            &&& after.regs.p.n == (a < b)
            &&& after == (Machine {
                regs: crate::registers::Registers { p: compare_flags(m.regs.p, a, b), ..m.regs },
                ..m
            })
        }),
{
    reveal(micro_step);
}

/// JMP (abs) loads PC with the little-endian word stored at the address that
/// its operand gives.
#[verifier::rlimit(30)]
pub proof fn lemma_jmp_indirect(m: Machine)
    requires
        opcode_at_pc(m) == 0x6C,
    ensures
        step(m).regs.pc == word_at(m, word_at(m, m.regs.pc + 1) as int),
{
    let f = fetch(m);
    let s = instruction_sequence(m);
    assert(s =~= seq![
        Instructions::LoadAddr(AddrSource::PC),
        Instructions::Idle,
        Instructions::LoadAddr(AddrSource::AddrBus),
        Instructions::Idle,
        Instructions::MoveAddrToPc,
    ]);
    reveal(micro_step);
    reveal_with_fuel(run_prefix, 6);
}

/// A micro-operation keeps memory one byte per address.
pub proof fn lemma_micro_step_well_formed(m: Machine, op: Instructions)
    requires
        well_formed(m),
    ensures
        well_formed(micro_step(m, op)),
{
    reveal(micro_step);
}

proof fn lemma_run_prefix_well_formed(m: Machine, ops: Seq<Instructions>, n: nat)
    requires
        well_formed(m),
    ensures
        well_formed(run_prefix(m, ops, n)),
    decreases n,
{
    if n > 0 && n <= ops.len() {
        lemma_run_prefix_well_formed(m, ops, (n - 1) as nat);
        lemma_micro_step_well_formed(run_prefix(m, ops, (n - 1) as nat), ops[n - 1]);
    }
}

/// Whatever the opcode and the state, an instruction leaves a datapath whose
/// memory still has one byte per address.
pub proof fn lemma_step_well_formed(m: Machine)
    requires
        well_formed(m),
    ensures
        well_formed(step(m)),
{
    lemma_run_prefix_well_formed(fetch(m), instruction_sequence(m), instruction_sequence(m).len());
}

/// The opcodes that the decoder knows: the conditional branches, the
/// instructions matched by their whole byte, and the defined combinations of
/// the three groups.
pub open spec fn is_documented(opcode: u8) -> bool {
    is_branch(opcode) || implied_tail(opcode) is Some || group_sequence(opcode) is Some
}

/// Every documented opcode decodes to at least one micro-operation, and an
/// unknown one to none.
pub proof fn lemma_sequence_nonempty(opcode: u8, regs: crate::registers::Registers, mem: Seq<u8>)
    ensures
        is_documented(opcode) ==> sequence_for(opcode, regs, mem).len() >= 1,
        !is_documented(opcode) ==> sequence_for(opcode, regs, mem).len() == 0,
{
    let op = operation_bits(opcode);
    let mode = mode_bits(opcode);
    assert(group_one::operation_ops(op, group_one::operand_source(mode)).len() >= 1);
    assert(group_two::operation_ops(op, mode).len() >= 1);
    assert(group_three::operation_ops(op, mode).len() >= 1);
}

/// An instruction costs one cycle for the fetch plus one per micro-operation:
/// at least two for a documented opcode, exactly one for an unknown one, and
/// never more than eight.
pub proof fn lemma_step_cycles(m: Machine)
    ensures
        1 <= step_cycles(m) <= 8,
        is_documented(opcode_at_pc(m)) ==> step_cycles(m) >= 2,
        !is_documented(opcode_at_pc(m)) ==> step_cycles(m) == 1,
{
    let f = fetch(m);
    lemma_sequence_nonempty(opcode_at_pc(m), f.regs, f.mem);
    crate::sequencer::lemma_sequence_length(opcode_at_pc(m), f.regs, f.mem);
}

/// Bytes of operand that follow `opcode` in the instruction stream: one for
/// a branch displacement, two for JSR's target, none for the other
/// single-byte instructions; in the groups, none in accumulator mode, two in
/// the absolute modes and one in the others.
pub open spec fn operand_length(opcode: u8) -> nat {
    let mode = mode_bits(opcode);
    if is_branch(opcode) {
        1
    } else if implied_tail(opcode) is Some {
        if opcode == 0x20 {
            2
        } else {
            0
        }
    } else if group_bits(opcode) == GROUP_ONE {
        if mode == group_one::A || mode == group_one::A_Y || mode == group_one::A_X {
            2
        } else {
            1
        }
    } else if mode == group_two::ACC {
        0
    } else if mode == group_two::A || mode == group_two::A_X {
        2
    } else {
        1
    }
}

/// The instructions that may leave PC anywhere but right after their own
/// bytes: the branches, both JMPs, JSR, RTS and RTI.
pub open spec fn transfers_control(opcode: u8) -> bool {
    is_branch(opcode) || opcode == 0x4C || opcode == 0x6C || opcode == 0x20 || opcode == 0x60
        || opcode == 0x40
}

/// How far a micro-operation moves PC forward; `None` for those that load
/// PC with a computed value.
pub open spec fn pc_advance(op: Instructions) -> Option<nat> {
    match op {
        Instructions::MemToDataBus(AddrSource::PC) => Some(1),
        Instructions::LoadZPAddr => Some(1),
        Instructions::IncPC => Some(1),
        Instructions::LoadAddr(AddrSource::PC) => Some(2),
        Instructions::AddToPC => None,
        Instructions::MoveAddrToPc => None,
        Instructions::PullPC => None,
        _ => Some(0),
    }
}

/// How far the first `n` micro-operations of `ops` move PC forward, if none
/// of them loads PC.
pub open spec fn prefix_advance(ops: Seq<Instructions>, n: nat) -> Option<nat>
    decreases n,
{
    if n == 0 || n > ops.len() {
        Some(0)
    } else {
        match (prefix_advance(ops, (n - 1) as nat), pc_advance(ops[n - 1])) {
            (Some(a), Some(b)) => Some(a + b),
            _ => None,
        }
    }
}

/// How far all of `ops` move PC forward.
pub open spec fn sequence_advance(ops: Seq<Instructions>) -> Option<nat> {
    prefix_advance(ops, ops.len())
}

proof fn lemma_wrap_word_add(x: int, y: int)
    ensures
        wrap_word(wrap_word(x) + y) == wrap_word(x + y),
{
    lemma_add_mod_noop(x, y, 0x10000);
    lemma_add_mod_noop(x % 0x10000, y, 0x10000);
}

proof fn lemma_micro_step_pc(m: Machine, op: Instructions)
    requires
        pc_advance(op) is Some,
    ensures
        micro_step(m, op).regs.pc == wrap_word(m.regs.pc + pc_advance(op).unwrap()),
{
    reveal(micro_step);
    assert(m.regs.pc == wrap_word(m.regs.pc as int));
}

proof fn lemma_run_prefix_pc(m: Machine, ops: Seq<Instructions>, n: nat)
    requires
        prefix_advance(ops, n) is Some,
    ensures
        run_prefix(m, ops, n).regs.pc == wrap_word(m.regs.pc + prefix_advance(ops, n).unwrap()),
    decreases n,
{
    if n == 0 || n > ops.len() {
        assert(m.regs.pc == wrap_word(m.regs.pc as int));
    } else {
        let prev = run_prefix(m, ops, (n - 1) as nat);
        lemma_run_prefix_pc(m, ops, (n - 1) as nat);
        lemma_micro_step_pc(prev, ops[n - 1]);
        lemma_wrap_word_add(
            m.regs.pc + prefix_advance(ops, (n - 1) as nat).unwrap(),
            pc_advance(ops[n - 1]).unwrap() as int,
        );
    }
}

proof fn lemma_prefix_advance_of_append(a: Seq<Instructions>, b: Seq<Instructions>, n: nat)
    requires
        n <= a.len(),
    ensures
        prefix_advance(a + b, n) == prefix_advance(a, n),
    decreases n,
{
    if n > 0 {
        lemma_prefix_advance_of_append(a, b, (n - 1) as nat);
        assert((a + b)[n - 1] == a[n - 1]);
    }
}

proof fn lemma_suffix_advance_of_append(a: Seq<Instructions>, b: Seq<Instructions>, k: nat)
    requires
        k <= b.len(),
    ensures
        prefix_advance(a + b, a.len() + k) == (match (sequence_advance(a), prefix_advance(b, k)) {
            (Some(x), Some(y)) => Some(x + y),
            _ => None,
        }),
    decreases k,
{
    if k > 0 {
        lemma_suffix_advance_of_append(a, b, (k - 1) as nat);
        assert((a + b)[a.len() + k - 1] == b[k - 1]);
    } else {
        lemma_prefix_advance_of_append(a, b, a.len());
    }
}

/// The advance of a concatenation is the sum of the advances.
proof fn lemma_advance_append(a: Seq<Instructions>, b: Seq<Instructions>)
    ensures
        sequence_advance(a + b) == (match (sequence_advance(a), sequence_advance(b)) {
            (Some(x), Some(y)) => Some(x + y),
            _ => None,
        }),
{
    lemma_suffix_advance_of_append(a, b, b.len());
}

/// The operand bytes that the address micro-operations of a group mode read
/// from the instruction stream.
spec fn address_advance(absolute: bool, none: bool) -> nat {
    if absolute {
        2
    } else if none {
        0
    } else {
        1
    }
}

#[verifier::rlimit(30)]
proof fn lemma_group_one_address_advance(mode: u8)
    requires
        mode < 8,
    ensures
        sequence_advance(group_one::address_ops(mode)) == Some(
            address_advance(
                mode == group_one::A || mode == group_one::A_Y || mode == group_one::A_X,
                mode == group_one::IM,
            ),
        ),
{
    reveal_with_fuel(prefix_advance, 5);
    if mode == group_one::ZP_X_IND {
    } else if mode == group_one::ZP {
    } else if mode == group_one::IM {
    } else if mode == group_one::A {
    } else if mode == group_one::ZP_Y_IND {
    } else if mode == group_one::ZP_X {
    } else if mode == group_one::A_Y {
    } else {
    }
}

#[verifier::rlimit(30)]
proof fn lemma_group_two_address_advance(op: u8, mode: u8)
    requires
        mode < 8,
    ensures
        sequence_advance(group_two::address_ops(op, mode)) == Some(
            address_advance(
                mode == group_two::A || mode == group_two::A_X,
                mode == group_two::IM || mode == group_two::ACC || mode == 0b100 || mode == 0b110,
            ),
        ),
{
    reveal_with_fuel(prefix_advance, 4);
    if mode == group_two::ZP {
    } else if mode == group_two::ZP_X {
    } else if mode == group_two::A {
    } else if mode == group_two::A_X {
    } else if mode == group_two::ACC {
    } else {
    }
}

#[verifier::rlimit(30)]
proof fn lemma_group_three_address_advance(mode: u8)
    requires
        mode < 8,
    ensures
        sequence_advance(group_three::address_ops(mode)) == Some(
            address_advance(
                mode == group_three::A || mode == group_three::A_X,
                mode != group_three::ZP && mode != group_three::ZP_X,
            ),
        ),
{
    reveal_with_fuel(prefix_advance, 4);
    if mode == group_three::ZP {
    } else if mode == group_three::ZP_X {
    } else if mode == group_three::A {
    } else if mode == group_three::A_X {
    } else {
    }
}

proof fn lemma_group_one_advance(opcode: u8)
    requires
        group_bits(opcode) == GROUP_ONE,
        group_one::group_one_sequence(opcode) is Some,
    ensures
        sequence_advance(group_one::group_one_sequence(opcode).unwrap()) == Some(
            operand_length(opcode),
        ),
{
    let op = operation_bits(opcode);
    let mode = mode_bits(opcode);
    let a = group_one::address_ops(mode);
    let b = group_one::operation_ops(op, group_one::operand_source(mode));
    lemma_advance_append(a, b);
    lemma_group_one_address_advance(mode);
    reveal_with_fuel(prefix_advance, 3);
    assert(sequence_advance(b) == Some(if mode == group_one::IM { 1nat } else { 0nat }));
}

#[verifier::rlimit(30)]
proof fn lemma_group_two_operation_advance(op: u8, mode: u8)
    ensures
        sequence_advance(group_two::operation_ops(op, mode)) == Some(
            if mode == group_two::IM && op == group_two::LDX {
                1nat
            } else {
                0nat
            },
        ),
{
    reveal_with_fuel(prefix_advance, 5);
    if op == group_two::STX {
    } else if op == group_two::LDX {
    } else if mode == group_two::ACC {
        assert(pc_advance(group_two::modify_op(op, DataSource::Reg)) == Some(0nat));
    } else {
        assert(pc_advance(group_two::modify_op(op, DataSource::DataBus)) == Some(0nat));
    }
}

proof fn lemma_group_two_advance(opcode: u8)
    requires
        group_bits(opcode) == crate::sequencer::GROUP_TWO,
        group_two::group_two_sequence(opcode) is Some,
    ensures
        sequence_advance(group_two::group_two_sequence(opcode).unwrap()) == Some(
            operand_length(opcode),
        ),
{
    let op = operation_bits(opcode);
    let mode = mode_bits(opcode);
    let a = group_two::address_ops(op, mode);
    let b = group_two::operation_ops(op, mode);
    lemma_advance_append(a, b);
    lemma_group_two_address_advance(op, mode);
    lemma_group_two_operation_advance(op, mode);
}

proof fn lemma_group_three_advance(opcode: u8)
    requires
        group_bits(opcode) == crate::sequencer::GROUP_THREE,
        group_three::group_three_sequence(opcode) is Some,
        opcode != 0x4C,
        opcode != 0x6C,
    ensures
        sequence_advance(group_three::group_three_sequence(opcode).unwrap()) == Some(
            operand_length(opcode),
        ),
{
    let op = operation_bits(opcode);
    let mode = mode_bits(opcode);
    let a = group_three::address_ops(mode);
    let b = group_three::operation_ops(op, mode);
    lemma_advance_append(a, b);
    lemma_group_three_address_advance(mode);
    reveal_with_fuel(prefix_advance, 3);
    assert(op != group_three::JMP && op != group_three::JMP_ABS);
    assert(sequence_advance(b) == Some(if mode == group_three::IM { 1nat } else { 0nat }));
}

#[verifier::rlimit(30)]
proof fn lemma_implied_advance(opcode: u8)
    requires
        implied_tail(opcode) is Some,
        opcode != 0x20,
        opcode != 0x40,
        opcode != 0x60,
    ensures
        sequence_advance(implied_tail(opcode).unwrap()) == Some(0nat),
{
    reveal_with_fuel(prefix_advance, 7);
}

/// An instruction that does not transfer control leaves PC right after its
/// own bytes: the opcode and its operand.
#[verifier::rlimit(30)]
pub proof fn lemma_pc_after_step(m: Machine)
    requires
        is_documented(opcode_at_pc(m)),
        !transfers_control(opcode_at_pc(m)),
    ensures
        step(m).regs.pc == wrap_word(m.regs.pc + 1 + operand_length(opcode_at_pc(m))),
{
    let opcode = opcode_at_pc(m);
    let f = fetch(m);
    let s = instruction_sequence(m);
    if implied_tail(opcode) is Some {
        let tail = implied_tail(opcode).unwrap();
        lemma_implied_advance(opcode);
        lemma_advance_append(seq![Instructions::Idle], tail);
        reveal_with_fuel(prefix_advance, 2);
        assert(sequence_advance(s) == Some(operand_length(opcode)));
    } else if group_bits(opcode) == GROUP_ONE {
        lemma_group_one_advance(opcode);
    } else if group_bits(opcode) == crate::sequencer::GROUP_TWO {
        lemma_group_two_advance(opcode);
    } else {
        lemma_group_three_advance(opcode);
    }
    assert(sequence_advance(s) == Some(operand_length(opcode)));
    lemma_run_prefix_pc(f, s, s.len());
    lemma_wrap_word_add(m.regs.pc + 1, operand_length(opcode) as int);
}

/// A conditional branch leaves PC after its two bytes when its flag does not
/// have the expected value, and otherwise displaced from there by the
/// sign-extended operand.
#[verifier::rlimit(30)]
pub proof fn lemma_branch_target(m: Machine)
    requires
        is_branch(opcode_at_pc(m)),
    ensures
        ({
            let opcode = opcode_at_pc(m);
            let d = byte_at(m, m.regs.pc + 1);
            if tested_flag(opcode, m.regs.p) == expected_value(opcode) {
                step(m).regs.pc == wrap_word(m.regs.pc + 2 + sign_extend(d))
            } else {
                step(m).regs.pc == wrap_word(m.regs.pc + 2)
            }
        }),
{
    let f = fetch(m);
    reveal(micro_step);
    reveal_with_fuel(run_prefix, 5);
    lemma_wrap_word_add(m.regs.pc + 1, 1);
    lemma_wrap_word_add(m.regs.pc + 2, sign_extend(byte_at(m, m.regs.pc + 1)));
}

/// The register that a compare opcode compares: A for CMP, X for CPX, Y
/// for CPY; `None` for any other opcode.
pub open spec fn compared_register(opcode: u8) -> Option<IndexedReg> {
    let op = operation_bits(opcode);
    if group_bits(opcode) == GROUP_ONE && op == group_one::CMP {
        Some(IndexedReg::A)
    } else if group_three::group_three_sequence(opcode) is Some && group_bits(opcode)
        == crate::sequencer::GROUP_THREE && op == group_three::CPX {
        Some(IndexedReg::X)
    } else if group_three::group_three_sequence(opcode) is Some && group_bits(opcode)
        == crate::sequencer::GROUP_THREE && op == group_three::CPY {
        Some(IndexedReg::Y)
    } else {
        None
    }
}

/// Micro-operations that leave A, X and Y alone.
pub open spec fn keeps_index_registers(m: Machine, after: Machine) -> bool {
    after.regs.a == m.regs.a && after.regs.x == m.regs.x && after.regs.y == m.regs.y
}

/// The micro-operations that compute an effective address.
pub open spec fn is_address_op(op: Instructions) -> bool {
    op is Idle || op is LoadZPAddr || op is LoadAddr || op is AddToAddrBus
}

proof fn lemma_address_op_keeps(m: Machine, op: Instructions)
    requires
        is_address_op(op),
    ensures
        keeps_index_registers(m, micro_step(m, op)),
{
    reveal(micro_step);
}

proof fn lemma_run_prefix_keeps(m: Machine, ops: Seq<Instructions>, n: nat)
    requires
        forall|i: int| 0 <= i < ops.len() ==> is_address_op(#[trigger] ops[i]),
    ensures
        keeps_index_registers(m, run_prefix(m, ops, n)),
    decreases n,
{
    if n > 0 && n <= ops.len() {
        lemma_run_prefix_keeps(m, ops, (n - 1) as nat);
        lemma_address_op_keeps(run_prefix(m, ops, (n - 1) as nat), ops[n - 1]);
    }
}

proof fn lemma_group_one_address_keeps(m: Machine, mode: u8)
    requires
        mode < 8,
    ensures
        keeps_index_registers(m, run_sequence(m, group_one::address_ops(mode))),
{
    let ops = group_one::address_ops(mode);
    assert forall|i: int| 0 <= i < ops.len() implies is_address_op(#[trigger] ops[i]) by {
        if i == 0 {
        } else if i == 1 {
        } else if i == 2 {
        } else {
        }
    }
    lemma_run_prefix_keeps(m, ops, ops.len());
}

proof fn lemma_group_three_address_keeps(m: Machine, mode: u8)
    requires
        mode < 8,
    ensures
        keeps_index_registers(m, run_sequence(m, group_three::address_ops(mode))),
{
    let ops = group_three::address_ops(mode);
    assert forall|i: int| 0 <= i < ops.len() implies is_address_op(#[trigger] ops[i]) by {
        if i == 0 {
        } else if i == 1 {
        } else {
        }
    }
    lemma_run_prefix_keeps(m, ops, ops.len());
}

#[verifier::rlimit(30)]
proof fn lemma_read_then_compare(m: Machine, src: AddrSource, r: IndexedReg)
    requires
        r != IndexedReg::S,
    ensures
        ({
            let after = run_sequence(
                m,
                seq![Instructions::MemToDataBus(src), Instructions::CompareWithReg(r)],
            );
            let a = reg_value(m.regs, r);
            let b = after.data_bus;
            &&& reg_value(after.regs, r) == a
            &&& after.regs.p.c == (a >= b)
            &&& after.regs.p.z == (a == b)
            &&& after.regs.p.n == (a < b)
        }),
{
    reveal(micro_step);
    reveal_with_fuel(run_prefix, 3);
}

/// After CMP, CPX or CPY, with `a` the register compared and `b` the operand
/// that the instruction read (left on the data bus), C is `a >= b`, Z is
/// `a == b` and N is `a < b`; the register itself is unchanged.
#[verifier::rlimit(30)]
pub proof fn lemma_compare_instruction(m: Machine)
    requires
        compared_register(opcode_at_pc(m)) is Some,
    ensures
        ({
            let after = step(m);
            let r = compared_register(opcode_at_pc(m)).unwrap();
            let a = reg_value(m.regs, r);
            let b = after.data_bus;
            &&& reg_value(after.regs, r) == a
            &&& after.regs.p.c == (a >= b)
            &&& after.regs.p.z == (a == b)
            &&& after.regs.p.n == (a < b)
        }),
{
    let opcode = opcode_at_pc(m);
    let f = fetch(m);
    let op = operation_bits(opcode);
    let mode = mode_bits(opcode);
    let r = compared_register(opcode).unwrap();
    assert(!is_branch(opcode));
    reveal_with_fuel(crate::sequencer::other::implied_tail, 1);
    assert(implied_tail(opcode) is None);
    if group_bits(opcode) == GROUP_ONE {
        let a = group_one::address_ops(mode);
        let src = group_one::operand_source(mode);
        let b = group_one::operation_ops(op, src);
        assert(b == seq![Instructions::MemToDataBus(src), Instructions::CompareWithReg(r)]);
        lemma_run_append(f, a, b);
        lemma_group_one_address_keeps(f, mode);
        lemma_read_then_compare(run_sequence(f, a), src, r);
    } else {
        let a = group_three::address_ops(mode);
        let src = if mode == group_three::IM {
            AddrSource::PC
        } else {
            AddrSource::AddrBus
        };
        let b = group_three::operation_ops(op, mode);
        assert(b == seq![Instructions::MemToDataBus(src), Instructions::CompareWithReg(r)]);
        lemma_run_append(f, a, b);
        lemma_group_three_address_keeps(f, mode);
        lemma_read_then_compare(run_sequence(f, a), src, r);
    }
}

/// PHA or PHP followed by PLA or PLP leaves the stack pointer where it was.
#[verifier::rlimit(30)]
pub proof fn lemma_push_pull_instructions(m: Machine)
    requires
        opcode_at_pc(m) == 0x48 || opcode_at_pc(m) == 0x08,
        opcode_at_pc(step(m)) == 0x68 || opcode_at_pc(step(m)) == 0x28,
    ensures
        steps(m, 2).regs.s == m.regs.s,
{
    let m1 = step(m);
    assert(instruction_sequence(m) =~= seq![
        Instructions::Idle,
        if opcode_at_pc(m) == 0x48 {
            Instructions::PushFromReg(IndexedReg::A)
        } else {
            Instructions::PushStatus
        },
    ]);
    assert(instruction_sequence(m1) =~= seq![
        Instructions::Idle,
        if opcode_at_pc(m1) == 0x68 {
            Instructions::PullToReg(IndexedReg::A)
        } else {
            Instructions::PullToStatus
        },
    ]);
    reveal(micro_step);
    reveal_with_fuel(run_prefix, 3);
    reveal_with_fuel(steps, 3);
}

/// What JSR leaves on the stack: the address of its last byte, high byte
/// at the old stack pointer and low byte just below.
#[verifier::rlimit(30)]
proof fn lemma_jsr_pushes(m: Machine)
    requires
        well_formed(m),
        opcode_at_pc(m) == 0x20,
    ensures
        ({
            let after = step(m);
            let w = wrap_word(m.regs.pc + 2);
            let s = m.regs.s;
            &&& well_formed(after)
            &&& after.regs.s == crate::wrap_byte(s - 2)
            &&& after.mem[0x100 + s] == (w / 0x100) as u8
            &&& after.mem[0x100 + crate::wrap_byte(s - 1)] == (w % 0x100) as u8
        }),
{
    let ops = seq![
        Instructions::Idle,
        Instructions::LoadStackPointer,
        Instructions::PushPC,
        Instructions::Idle,
        Instructions::LoadAddr(AddrSource::PC),
        Instructions::MoveAddrToPc,
    ];
    assert(instruction_sequence(m) =~= ops);
    lemma_step_well_formed(m);
    let f = fetch(m);
    lemma_wrap_word_add(m.regs.pc + 1, 1);
    reveal(micro_step);
    let after_push = run_prefix(f, ops, 3);
    assert(after_push.regs.s == crate::wrap_byte(m.regs.s - 2)) by {
        reveal_with_fuel(run_prefix, 4);
    }
    assert(after_push.mem[0x100 + m.regs.s] == (wrap_word(m.regs.pc + 2) / 0x100) as u8) by {
        reveal_with_fuel(run_prefix, 4);
    }
    assert(after_push.mem[0x100 + crate::wrap_byte(m.regs.s - 1)] == (wrap_word(m.regs.pc + 2)
        % 0x100) as u8) by {
        reveal_with_fuel(run_prefix, 4);
    }
    let end = run_prefix(f, ops, 6);
    assert(end.regs.s == after_push.regs.s && end.mem == after_push.mem) by {
        reveal_with_fuel(run_prefix, 4);
    }
}

/// What RTS does: pull the low, then the high byte of PC, and add one.
#[verifier::rlimit(30)]
proof fn lemma_rts_pulls(m: Machine)
    requires
        opcode_at_pc(m) == 0x60,
    ensures
        ({
            let after = step(m);
            let s = m.regs.s;
            let lo = m.mem[0x100 + crate::wrap_byte(s + 1)];
            let hi = m.mem[0x100 + crate::wrap_byte(crate::wrap_byte(s + 1) + 1)];
            &&& after.regs.s == crate::wrap_byte(crate::wrap_byte(s + 1) + 1)
            &&& after.regs.pc == wrap_word(crate::instructions::le_word(lo, hi) + 1)
        }),
{
    let ops = seq![
        Instructions::Idle,
        Instructions::Idle,
        Instructions::PullPC,
        Instructions::Idle,
        Instructions::IncPC,
        Instructions::Idle,
    ];
    assert(instruction_sequence(m) =~= ops);
    reveal(micro_step);
    reveal_with_fuel(run_prefix, 7);
}

/// JSR followed, at its target, by RTS returns to the byte after the JSR
/// with the stack pointer where it was.
pub proof fn lemma_jsr_then_rts(m: Machine)
    requires
        well_formed(m),
        opcode_at_pc(m) == 0x20,
        opcode_at_pc(step(m)) == 0x60,
    ensures
        steps(m, 2).regs.s == m.regs.s,
        steps(m, 2).regs.pc == wrap_word(m.regs.pc + 3),
{
    reveal_with_fuel(steps, 3);
    lemma_jsr_pushes(m);
    lemma_rts_pulls(step(m));
    let s = m.regs.s;
    assert(crate::wrap_byte(crate::wrap_byte(s - 2) + 1) == crate::wrap_byte(s - 1));
    assert(crate::wrap_byte(crate::wrap_byte(s - 1) + 1) == s);
    let w = wrap_word(m.regs.pc + 2);
    assert(crate::instructions::le_word((w % 0x100) as u8, (w / 0x100) as u8) == w);
    lemma_wrap_word_add(m.regs.pc + 2, 1);
}

/// The register whose new value sets Z and N after `opcode`: A for ORA,
/// AND, EOR, ADC and SBC and for the accumulator shifts and rotations, X for
/// INX and DEX, Y for INY and DEY; `None` for any other opcode.
pub open spec fn flag_setting_register(opcode: u8) -> Option<IndexedReg> {
    let op = operation_bits(opcode);
    if group_bits(opcode) == GROUP_ONE && op != group_one::STA && op != group_one::LDA && op
        != group_one::CMP && group_one::group_one_sequence(opcode) is Some {
        Some(IndexedReg::A)
    } else if opcode == 0x0A || opcode == 0x2A || opcode == 0x4A || opcode == 0x6A {
        Some(IndexedReg::A)
    } else if opcode == 0xE8 || opcode == 0xCA {
        Some(IndexedReg::X)
    } else if opcode == 0xC8 || opcode == 0x88 {
        Some(IndexedReg::Y)
    } else {
        None
    }
}

/// The last micro-operation of such an instruction writes its register and
/// sets Z and N from the value written.
proof fn lemma_last_op_sets_flags(m: Machine)
    requires
        flag_setting_register(opcode_at_pc(m)) is Some,
    ensures
        instruction_sequence(m).len() >= 1,
        result_register(instruction_sequence(m).last()) == flag_setting_register(opcode_at_pc(m)),
{
    let opcode = opcode_at_pc(m);
    let s = instruction_sequence(m);
    let op = operation_bits(opcode);
    let mode = mode_bits(opcode);
    assert(!is_branch(opcode));
    if opcode == 0xE8 || opcode == 0xCA || opcode == 0xC8 || opcode == 0x88 {
        assert(s.len() == 2);
    } else if opcode == 0x0A || opcode == 0x2A || opcode == 0x4A || opcode == 0x6A {
        assert(implied_tail(opcode) is None);
        let b = group_two::operation_ops(op, mode);
        assert(s == group_two::address_ops(op, mode) + b);
        assert(s.last() == b.last());
    } else {
        assert(implied_tail(opcode) is None);
        let b = group_one::operation_ops(op, group_one::operand_source(mode));
        assert(s == group_one::address_ops(mode) + b);
        assert(s.last() == b.last());
    }
}

/// After ORA, AND, EOR, ADC, SBC, INX, INY, DEX, DEY and the accumulator
/// shifts and rotations, Z tells whether the register written is zero and N
/// is its bit 7.
pub proof fn lemma_result_flags_instruction(m: Machine)
    requires
        flag_setting_register(opcode_at_pc(m)) is Some,
    ensures
        ({
            let after = step(m);
            let v = reg_value(after.regs, flag_setting_register(opcode_at_pc(m)).unwrap());
            after.regs.p.z == (v == 0) && after.regs.p.n == is_negative(v)
        }),
{
    let s = instruction_sequence(m);
    lemma_last_op_sets_flags(m);
    let before_last = run_prefix(fetch(m), s, (s.len() - 1) as nat);
    assert(step(m) == micro_step(before_last, s.last()));
    lemma_result_flags(before_last, s.last());
}

} // verus!
