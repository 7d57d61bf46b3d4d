//! Properties of the machine's semantics that hold across every state.
use vstd::prelude::*;

use crate::isa::{is_reg, Instruction, NREGS};
use crate::machine::{
    byte_of, pow256, word_at, word_fits, write_word, Error, MachineState, Transition, MEMORY_SIZE,
};

verus! {

/// The general-purpose register that `ins` writes, if any.
pub open spec fn destination(ins: Instruction) -> Option<u8> {
    match ins {
        Instruction::MoveIf { rd, .. } => Some(rd),
        Instruction::Load { ri, .. } => Some(ri),
        Instruction::LoadImmediate { ri, .. } => Some(ri),
        Instruction::Subtract { rd, .. } => Some(rd),
        _ => None,
    }
}

/// A move-if, load-immediate or subtract step changes no register other
/// than the instruction pointer and the instruction's destination, whatever
/// the registers held before: every other register keeps its value, memory
/// is untouched and nothing is emitted.
pub proof fn lemma_only_destination_changes(s: MachineState, r: int)
    requires
        s.wf(),
        1 <= r < NREGS,
        s.next_instruction() matches Some(ins) && (ins is MoveIf || ins is LoadImmediate
            || ins is Subtract) && destination(ins) != Some(r as u8),
    ensures
        s.step().state.regs[r] == s.regs[r],
        s.step().state.regs.len() == NREGS,
        s.step().state.memory == s.memory,
        s.step().output == Seq::<u8>::empty(),
{
}

/// A little-endian word written at `a` reads back as the same word.
pub proof fn lemma_word_round_trip(mem: Seq<u8>, a: int, v: u32)
    requires
        0 <= a,
        a + 3 < mem.len(),
    ensures
        word_at(write_word(mem, a, v), a) == v,
{
    reveal_with_fuel(pow256, 4);
    let n = v as int;
    let w = write_word(mem, a, v);
    assert(w[a] == byte_of(v, 0) && w[a + 1] == byte_of(v, 1) && w[a + 2] == byte_of(v, 2)
        && w[a + 3] == byte_of(v, 3));
    assert(pow256(0) == 1 && pow256(1) == 0x100 && pow256(2) == 0x1_0000 && pow256(3)
        == 0x100_0000);
    assert(n / 1 == n);
    assert(byte_of(v, 0) as int == n % 0x100);
    assert(byte_of(v, 1) as int == n / 0x100 % 0x100);
    assert(byte_of(v, 2) as int == n / 0x1_0000 % 0x100);
    assert(byte_of(v, 3) as int == n / 0x100_0000 % 0x100);
    assert(n == n % 0x100 + 0x100 * (n / 0x100 % 0x100) + 0x1_0000 * (n / 0x1_0000 % 0x100)
        + 0x100_0000 * (n / 0x100_0000 % 0x100)) by (nonlinear_arith)
        requires
            0 <= n < 0x1_0000_0000,
    ;
}

/// Storing register `rj` at the address held in `ri`, then loading from the
/// same address into `rk`, leaves in `rk` exactly the value that was stored.
pub proof fn lemma_store_then_load(s: MachineState, ri: u8, rj: u8, rk: u8, rl: u8)
    requires
        s.wf(),
        is_reg(ri),
        is_reg(rj),
        is_reg(rk),
        is_reg(rl),
        word_fits(s.regs[ri as int]),
        s.regs[rl as int] == s.regs[ri as int],
    ensures
        ({
            let stored = s.execute(Instruction::Store { ri, rj });
            let loaded = stored.state.execute(Instruction::Load { ri: rk, rj: rl });
            &&& stored.result == Ok::<bool, Error>(false)
            &&& loaded.result == Ok::<bool, Error>(false)
            &&& loaded.state.regs[rk as int] == s.regs[rj as int]
        }),
{
    lemma_word_round_trip(s.memory, s.regs[ri as int] as int, s.regs[rj as int]);
}

/// An instruction with a register operand of 16 or more fails with
/// `MemAddressOutOfRange`. It changes nothing but the instruction pointer,
/// which has advanced past the instruction when the instruction fits in the
/// arena and is unchanged otherwise, and it emits nothing.
pub proof fn lemma_bad_register_rejected(s: MachineState)
    requires
        s.wf(),
        s.ip() < MEMORY_SIZE,
        s.next_instruction() matches Some(ins) && !ins.operands_valid(),
    ensures
        s.step().result == Err::<bool, Error>(Error::MemAddressOutOfRange),
        s.step().output == Seq::<u8>::empty(),
        ({
            let w = s.next_instruction()->Some_0.width_spec();
            if s.ip() + w <= MEMORY_SIZE {
                s.step().state == s.with_reg(0, (s.ip() + w) as u32)
            } else {
                s.step().state == s
            }
        }),
{
}

/// A program that is a single exit instruction at offset 0 terminates after
/// exactly one step: the run succeeds, the instruction pointer moves to 1 and
/// every other register keeps its value.
pub proof fn lemma_lone_exit_terminates(s: MachineState, fuel: nat)
    requires
        s.wf(),
        s.ip() == 0,
        s.memory[0] == 7,
        fuel >= 1,
    ensures
        s.step() == (Transition { state: s.with_reg(0, 1), output: seq![], result: Ok(true) }),
        s.run(fuel) == s.step(),
{
}

} // verus!
