//! The machine: a register file, a flat memory arena and the
//! fetch-decode-execute step that interprets the instruction set.
use vstd::prelude::*;

use crate::isa::{check_reg, decode_spec, Instruction, NREGS};
use crate::text::{as_signed, decimal, push_decimal, push_utf8_byte, utf8_of_byte};

verus! {

/// Size of the memory arena in bytes.
pub const MEMORY_SIZE: usize = 4096;

/// How many steps [`Machine::run_on`] performs at most before it gives
/// control back while the program is still running.
pub const STEP_LIMIT: u64 = 0xFFFF_FFFF_FFFF_FFFF;

/// What can go wrong while building or running a machine.
#[derive(Clone, Copy, Debug, PartialEq, Eq, Structural)]
pub enum Error {
    /// Attempt to create a machine with too large a memory
    MemoryOverflow,
    /// Attempt to set a register out of r0 to r15
    RegIndexOutOfRange,
    /// Error while writing to the output
    WriteError,
    /// Unknown instruction, or instruction pointer past the end of memory
    UnknownInstruction,
    /// Register operand or memory address out of range
    MemAddressOutOfRange,
}

/// The mathematical state of a machine: its registers and its memory.
pub struct MachineState {
    pub regs: Seq<u32>,
    pub memory: Seq<u8>,
}

/// What one step (or a run of steps) does: the state it leaves, the bytes it
/// emits and its result. For a step, `Ok(true)` means that the program
/// exited. For a run, `Ok(true)` means that the program exited and
/// `Ok(false)` that it was still running when the steps allowed ran out.
pub struct Transition {
    pub state: MachineState,
    pub output: Seq<u8>,
    pub result: Result<bool, Error>,
}

/// A transition that stops with `e`, leaving `s` and emitting nothing.
pub open spec fn fail(s: MachineState, e: Error) -> Transition {
    Transition { state: s, output: seq![], result: Err(e) }
}

/// A transition that leaves `s`, emits `output` and lets the program go on.
pub open spec fn proceed(s: MachineState, output: Seq<u8>) -> Transition {
    Transition { state: s, output, result: Ok(false) }
}

/// Whether a 4-byte access at address `a` stays inside the arena.
pub open spec fn word_fits(a: u32) -> bool {
    (a as int) + 3 < MEMORY_SIZE as int
}

/// The little-endian word stored at `a..a+4` in `mem`.
pub open spec fn word_at(mem: Seq<u8>, a: int) -> u32 {
    (mem[a] as int + 0x100 * mem[a + 1] + 0x1_0000 * mem[a + 2] + 0x100_0000 * mem[a + 3]) as u32
}

/// Byte `k` (0 = least significant) of `v`.
pub open spec fn byte_of(v: u32, k: nat) -> u8 {
    (v as nat / pow256(k) % 0x100) as u8
}

/// `256` to the power `k`.
pub open spec fn pow256(k: nat) -> nat
    decreases k,
{
    if k == 0 {
        1
    } else {
        0x100 * pow256((k - 1) as nat)
    }
}

/// `mem` with `v` written as a little-endian word at `a..a+4`.
pub open spec fn write_word(mem: Seq<u8>, a: int, v: u32) -> Seq<u8> {
    mem.update(a, byte_of(v, 0)).update(a + 1, byte_of(v, 1)).update(a + 2, byte_of(v, 2)).update(
        a + 3,
        byte_of(v, 3),
    )
}

/// The 16-bit two's-complement value `hi << 8 | lo`, sign-extended to 32 bits.
pub open spec fn sign_extend16(lo: u8, hi: u8) -> u32 {
    let v = lo as int + 0x100 * hi as int;
    if v < 0x8000 {
        v as u32
    } else {
        (v + 0xFFFF_0000) as u32
    }
}

/// `a - b` modulo 2^32.
pub open spec fn wrapping_sub(a: u32, b: u32) -> u32 {
    if a >= b {
        (a - b) as u32
    } else {
        (a - b + 0x1_0000_0000) as u32
    }
}

/// Whether a 4-byte access at address `a` stays inside the arena.
pub fn check_word(a: u32) -> (ok: bool)
    ensures
        ok == word_fits(a),
{
    (a as u64) + 3 < MEMORY_SIZE as u64
}

impl MachineState {
    /// Sixteen registers and a full arena.
    pub open spec fn wf(self) -> bool {
        self.regs.len() == NREGS && self.memory.len() == MEMORY_SIZE
    }

    /// The state of a machine built from `image`: all registers zero, memory
    /// holding `image` from offset 0 and zero after it.
    pub open spec fn initial(image: Seq<u8>) -> MachineState {
        MachineState {
            regs: Seq::new(NREGS as nat, |i: int| 0u32),
            memory: Seq::new(
                MEMORY_SIZE as nat,
                |i: int|
                    if i < image.len() {
                        image[i]
                    } else {
                        0u8
                    },
            ),
        }
    }

    /// The instruction pointer (register 0).
    pub open spec fn ip(self) -> int {
        self.regs[0] as int
    }

    /// The state with register `r` set to `v`.
    pub open spec fn with_reg(self, r: int, v: u32) -> MachineState {
        MachineState { regs: self.regs.update(r, v), memory: self.memory }
    }

    /// The byte at `i` in the fetch window: memory content inside the arena,
    /// zero past its end.
    pub open spec fn fetch_byte(self, i: int) -> u8 {
        if i < MEMORY_SIZE as int {
            self.memory[i]
        } else {
            0
        }
    }

    /// The instruction that the fetch window at the instruction pointer
    /// decodes to.
    pub open spec fn next_instruction(self) -> Option<Instruction> {
        let ip = self.ip();
        decode_spec(
            self.fetch_byte(ip),
            self.fetch_byte(ip + 1),
            self.fetch_byte(ip + 2),
            self.fetch_byte(ip + 3),
        )
    }

    /// Runs `ins` on a state whose instruction pointer has already been
    /// advanced past it.
    pub open spec fn execute(self, ins: Instruction) -> Transition {
        if !ins.operands_valid() {
            fail(self, Error::MemAddressOutOfRange)
        } else {
            match ins {
                Instruction::MoveIf { rd, rs, rc } => proceed(
                    if self.regs[rc as int] != 0 {
                        self.with_reg(rd as int, self.regs[rs as int])
                    } else {
                        self
                    },
                    seq![],
                ),
                Instruction::Store { ri, rj } => {
                    let a = self.regs[ri as int];
                    if !word_fits(a) {
                        fail(self, Error::MemAddressOutOfRange)
                    } else {
                        proceed(
                            MachineState {
                                regs: self.regs,
                                memory: write_word(self.memory, a as int, self.regs[rj as int]),
                            },
                            seq![],
                        )
                    }
                },
                Instruction::Load { ri, rj } => {
                    let a = self.regs[rj as int];
                    if !word_fits(a) {
                        fail(self, Error::MemAddressOutOfRange)
                    } else {
                        proceed(self.with_reg(ri as int, word_at(self.memory, a as int)), seq![])
                    }
                },
                Instruction::LoadImmediate { ri, lo, hi } => proceed(
                    self.with_reg(ri as int, sign_extend16(lo, hi)),
                    seq![],
                ),
                Instruction::Subtract { rd, ra, rb } => proceed(
                    self.with_reg(rd as int, wrapping_sub(self.regs[ra as int], self.regs[rb as int])),
                    seq![],
                ),
                Instruction::OutputChar { ri } => proceed(
                    self,
                    utf8_of_byte((self.regs[ri as int] % 0x100) as u8),
                ),
                Instruction::Exit => Transition { state: self, output: seq![], result: Ok(true) },
                Instruction::OutputNumber { ri } => proceed(
                    self,
                    decimal(as_signed(self.regs[ri as int])),
                ),
            }
        }
    }

    /// One fetch-decode-execute step. An instruction pointer past the arena
    /// or an unknown opcode fails with `UnknownInstruction`, and an
    /// instruction that would run past the arena's end fails with
    /// `MemAddressOutOfRange`, both leaving the state as it was: the zero
    /// padding of the fetch window never supplies operand bytes. Otherwise
    /// the instruction pointer advances by the instruction's width before
    /// the instruction runs.
    pub open spec fn step(self) -> Transition {
        let ip = self.ip();
        if ip >= MEMORY_SIZE as int {
            fail(self, Error::UnknownInstruction)
        } else {
            match self.next_instruction() {
                None => fail(self, Error::UnknownInstruction),
                Some(ins) => if ip + ins.width_spec() > MEMORY_SIZE as int {
                    fail(self, Error::MemAddressOutOfRange)
                } else {
                    self.with_reg(0, (ip + ins.width_spec()) as u32).execute(ins)
                },
            }
        }
    }

    /// At most `fuel` steps, stopping at the first step that exits or fails.
    pub open spec fn run(self, fuel: nat) -> Transition
        decreases fuel,
    {
        if fuel == 0 {
            proceed(self, seq![])
        } else {
            let t = self.step();
            match t.result {
                Ok(false) => {
                    let rest = t.state.run((fuel - 1) as nat);
                    Transition { state: rest.state, output: t.output + rest.output, result: rest.result }
                },
                _ => t,
            }
        }
    }
}

/// A virtual machine: sixteen 32-bit registers, register 0 being the
/// instruction pointer, and a memory arena of `MEMORY_SIZE` bytes.
pub struct Machine {
    regs: [u32; NREGS],
    machine_memory: [u8; MEMORY_SIZE],
}

impl View for Machine {
    type V = MachineState;

    closed spec fn view(&self) -> MachineState {
        MachineState { regs: self.regs@, memory: self.machine_memory@ }
    }
}

impl Machine {
    /// Every machine has sixteen registers and a full arena.
    pub proof fn lemma_wf(&self)
        ensures
            self@.wf(),
    {
    }

    /// Create a new machine in its reset state. The `memory` parameter will
    /// be copied at the beginning of the machine memory.
    ///
    /// # Errors
    /// This function returns an error when the memory exceeds `MEMORY_SIZE`.
    pub fn new(memory: &[u8]) -> (r: Result<Machine, Error>)
        ensures
            memory@.len() > MEMORY_SIZE ==> r == Err::<Machine, Error>(Error::MemoryOverflow),
            memory@.len() <= MEMORY_SIZE ==> r is Ok && r->Ok_0@ == MachineState::initial(
                memory@,
            ),
    {
        if memory.len() > MEMORY_SIZE {
            return Err(Error::MemoryOverflow);
        }
        let regs: [u32; NREGS] = [0u32; NREGS];
        let mut machine_memory: [u8; MEMORY_SIZE] = [0u8; MEMORY_SIZE];
        let end: usize = memory.len();
        let mut i: usize = 0;
        while i < end
            invariant
                end == memory@.len(),
                end <= MEMORY_SIZE,
                i <= end,
                machine_memory@.len() == MEMORY_SIZE,
                forall|k: int| 0 <= k < i ==> machine_memory@[k] == memory@[k],
                forall|k: int| i <= k < MEMORY_SIZE ==> machine_memory@[k] == 0u8,
            decreases end - i,
        {
            machine_memory[i] = memory[i];
            i = i + 1;
        }
        let m = Machine { regs, machine_memory };
        assert(m@.regs =~= MachineState::initial(memory@).regs);
        assert(m@.memory =~= MachineState::initial(memory@).memory);
        Ok(m)
    }

    /// The byte at `i` of the fetch window: zero past the end of memory.
    fn fetch_byte(&self, i: usize) -> (r: u8)
        ensures
            r == self@.fetch_byte(i as int),
    {
        if i < MEMORY_SIZE {
            self.machine_memory[i]
        } else {
            0
        }
    }

    /// Reads the little-endian word at `a..a+4`.
    fn read_word(&self, a: usize) -> (r: u32)
        requires
            a + 3 < MEMORY_SIZE,
        ensures
            r == word_at(self@.memory, a as int),
    {
        let b0 = self.machine_memory[a] as u32;
        let b1 = self.machine_memory[a + 1] as u32;
        let b2 = self.machine_memory[a + 2] as u32;
        let b3 = self.machine_memory[a + 3] as u32;
        b0 + 0x100 * b1 + 0x1_0000 * b2 + 0x100_0000 * b3
    }

    /// Writes `v` as a little-endian word at `a..a+4`.
    fn write_word(&mut self, a: usize, v: u32)
        requires
            a + 3 < MEMORY_SIZE,
        ensures
            final(self)@ == (MachineState {
                regs: old(self)@.regs,
                memory: write_word(old(self)@.memory, a as int, v),
            }),
    {
        assert(pow256(1) == 0x100 && pow256(2) == 0x1_0000 && pow256(3) == 0x100_0000) by {
            reveal_with_fuel(pow256, 4);
        }
        assert(pow256(0) == 1);
        self.machine_memory[a] = (v % 0x100) as u8;
        self.machine_memory[a + 1] = (v / 0x100 % 0x100) as u8;
        self.machine_memory[a + 2] = (v / 0x1_0000 % 0x100) as u8;
        self.machine_memory[a + 3] = (v / 0x100_0000 % 0x100) as u8;
        assert(self@.memory =~= write_word(old(self)@.memory, a as int, v));
    }

    /// Runs `ins` once the instruction pointer has been advanced past it.
    fn execute(&mut self, ins: Instruction, out: &mut Vec<u8>) -> (r: Result<bool, Error>)
        ensures
            final(self)@ == old(self)@.execute(ins).state,
            final(out)@ == old(out)@ + old(self)@.execute(ins).output,
            r == old(self)@.execute(ins).result,
    {
        let ghost s = self@;
        match ins {
            Instruction::MoveIf { rd, rs, rc } => {
                if !check_reg(rd) || !check_reg(rs) || !check_reg(rc) {
                    return Err(Error::MemAddressOutOfRange);
                }
                if self.regs[rc as usize] != 0 {
                    self.regs[rd as usize] = self.regs[rs as usize];
                }
                assert(out@ =~= old(out)@ + s.execute(ins).output);
                assert(self@.regs =~= s.execute(ins).state.regs);
                Ok(false)
            },
            Instruction::Store { ri, rj } => {
                if !check_reg(ri) || !check_reg(rj) {
                    return Err(Error::MemAddressOutOfRange);
                }
                let a = self.regs[ri as usize];
                if !check_word(a) {
                    return Err(Error::MemAddressOutOfRange);
                }
                let v = self.regs[rj as usize];
                self.write_word(a as usize, v);
                assert(out@ =~= old(out)@ + s.execute(ins).output);
                Ok(false)
            },
            Instruction::Load { ri, rj } => {
                if !check_reg(ri) || !check_reg(rj) {
                    return Err(Error::MemAddressOutOfRange);
                }
                let a = self.regs[rj as usize];
                if !check_word(a) {
                    return Err(Error::MemAddressOutOfRange);
                }
                let w = self.read_word(a as usize);
                self.regs[ri as usize] = w;
                assert(out@ =~= old(out)@ + s.execute(ins).output);
                assert(self@.regs =~= s.execute(ins).state.regs);
                Ok(false)
            },
            Instruction::LoadImmediate { ri, lo, hi } => {
                if !check_reg(ri) {
                    return Err(Error::MemAddressOutOfRange);
                }
                let half: u16 = lo as u16 + 0x100 * (hi as u16);
                let value: u32 = if half < 0x8000 {
                    half as u32
                } else {
                    half as u32 + 0xFFFF_0000
                };
                self.regs[ri as usize] = value;
                assert(out@ =~= old(out)@ + s.execute(ins).output);
                assert(self@.regs =~= s.execute(ins).state.regs);
                Ok(false)
            },
            Instruction::Subtract { rd, ra, rb } => {
                if !check_reg(rd) || !check_reg(ra) || !check_reg(rb) {
                    return Err(Error::MemAddressOutOfRange);
                }
                let value = self.regs[ra as usize].wrapping_sub(self.regs[rb as usize]);
                self.regs[rd as usize] = value;
                assert(out@ =~= old(out)@ + s.execute(ins).output);
                assert(self@.regs =~= s.execute(ins).state.regs);
                Ok(false)
            },
            Instruction::OutputChar { ri } => {
                if !check_reg(ri) {
                    return Err(Error::MemAddressOutOfRange);
                }
                push_utf8_byte((self.regs[ri as usize] % 0x100) as u8, out);
                Ok(false)
            },
            Instruction::Exit => {
                assert(out@ =~= old(out)@ + s.execute(ins).output);
                Ok(true)
            },
            Instruction::OutputNumber { ri } => {
                if !check_reg(ri) {
                    return Err(Error::MemAddressOutOfRange);
                }
                push_decimal(self.regs[ri as usize], out);
                Ok(false)
            },
        }
    }

    /// Execute the next instruction by doing the following steps:
    ///   - decode the instruction located at IP (register 0)
    ///   - increment the IP by the size of the instruction
    ///   - execute the decoded instruction
    ///
    /// Bytes that output instructions emit are appended to `out`.
    /// If an error happens at either of those steps, an error is
    /// returned.
    ///
    /// In case of success, `true` is returned if the program is
    /// terminated (upon encountering an exit instruction), or
    /// `false` if the execution must continue.
    pub fn step_on(&mut self, out: &mut Vec<u8>) -> (r: Result<bool, Error>)
        ensures
            final(self)@ == old(self)@.step().state,
            final(out)@ == old(out)@ + old(self)@.step().output,
            r == old(self)@.step().result,
    {
        let ip = self.regs[0] as usize;
        if ip >= MEMORY_SIZE {
            assert(out@ =~= old(out)@ + self@.step().output);
            return Err(Error::UnknownInstruction);
        }
        let decoded = Instruction::decode(
            self.fetch_byte(ip),
            self.fetch_byte(ip + 1),
            self.fetch_byte(ip + 2),
            self.fetch_byte(ip + 3),
        );
        let ins = match decoded {
            Some(ins) => ins,
            None => {
                assert(out@ =~= old(out)@ + self@.step().output);
                return Err(Error::UnknownInstruction);
            },
        };
        let width = ins.width();
        if ip + width > MEMORY_SIZE {
            assert(out@ =~= old(out)@ + self@.step().output);
            return Err(Error::MemAddressOutOfRange);
        }
        self.regs[0] = (ip + width) as u32;
        proof {
            assert(self@ == old(self)@.with_reg(0, (ip + width) as u32)) by {
                assert(self@.regs =~= old(self)@.regs.update(0, (ip + width) as u32));
            }
        }
        self.execute(ins, out)
    }

    /// Run until the program terminates or until an error happens, for at
    /// most `STEP_LIMIT` steps: a program still running after that many steps
    /// is left where it stands, and running it again resumes it.
    /// Bytes that output instructions emit are appended to `out`.
    pub fn run_on(&mut self, out: &mut Vec<u8>) -> (r: Result<(), Error>)
        ensures
            final(self)@ == old(self)@.run(STEP_LIMIT as nat).state,
            final(out)@ == old(out)@ + old(self)@.run(STEP_LIMIT as nat).output,
            r == (match old(self)@.run(STEP_LIMIT as nat).result {
                Ok(_) => Ok::<(), Error>(()),
                Err(e) => Err(e),
            }),
    {
        let mut steps: u64 = 0;
        while steps < STEP_LIMIT
            invariant
                steps <= STEP_LIMIT,
                old(self)@.run(STEP_LIMIT as nat).state == self@.run((STEP_LIMIT - steps) as nat).state,
                old(self)@.run(STEP_LIMIT as nat).result == self@.run((STEP_LIMIT - steps) as nat).result,
                old(out)@ + old(self)@.run(STEP_LIMIT as nat).output == out@ + self@.run(
                    (STEP_LIMIT - steps) as nat,
                ).output,
            decreases STEP_LIMIT - steps,
        {
            let ghost before = self@;
            let ghost out_before = out@;
            let r = self.step_on(out);
            match r {
                Ok(false) => {
                    proof {
                        let rest = self@.run((STEP_LIMIT - steps - 1) as nat);
                        assert(out_before + before.run((STEP_LIMIT - steps) as nat).output
                            =~= out@ + rest.output);
                    }
                    steps = steps + 1;
                },
                Ok(true) => {
                    assert(out@ =~= old(out)@ + old(self)@.run(STEP_LIMIT as nat).output);
                    return Ok(());
                },
                Err(e) => {
                    assert(out@ =~= old(out)@ + old(self)@.run(STEP_LIMIT as nat).output);
                    return Err(e);
                },
            }
        }
        assert(out@ =~= old(out)@ + old(self)@.run(STEP_LIMIT as nat).output);
        Ok(())
    }

    /// Reference onto the machine current set of registers.
    pub fn regs(&self) -> (r: &[u32])
        ensures
            r@ == self@.regs,
    {
        self.regs.as_slice()
    }

    /// Sets a register to the given value. Valid register indices are
    /// `0..NREGS`; any other index fails with `RegIndexOutOfRange` and leaves
    /// the machine unchanged.
    pub fn set_reg(&mut self, reg: usize, value: u32) -> (r: Result<(), Error>)
        ensures
            reg < NREGS ==> r == Ok::<(), Error>(()) && final(self)@ == old(self)@.with_reg(
                reg as int,
                value,
            ),
            reg >= NREGS ==> r == Err::<(), Error>(Error::RegIndexOutOfRange) && final(self)@
                == old(self)@,
    {
        if reg >= NREGS {
            return Err(Error::RegIndexOutOfRange);
        }
        self.regs[reg] = value;
        assert(self@.regs =~= old(self)@.regs.update(reg as int, value));
        Ok(())
    }

    /// Reference onto the machine current memory.
    pub fn memory(&self) -> (r: &[u8])
        ensures
            r@ == self@.memory,
    {
        self.machine_memory.as_slice()
    }
}

} // verus!
