//! The instruction set: decoding of an instruction window into a tagged
//! instruction, and the number of bytes each instruction occupies.
use vstd::prelude::*;

verus! {

/// Number of registers in the register file.
pub const NREGS: usize = 16;

/// A decoded instruction. Register operands are kept as raw bytes: whether
/// they name an existing register is checked when the instruction runs.
#[derive(Clone, Copy, Debug, PartialEq, Eq, Structural)]
pub enum Instruction {
    /// `rd <- rs` when `rc` is non-zero.
    MoveIf { rd: u8, rs: u8, rc: u8 },
    /// Write register `rj` as a little-endian word at the address held in `ri`.
    Store { ri: u8, rj: u8 },
    /// Read a little-endian word at the address held in `rj` into `ri`.
    Load { ri: u8, rj: u8 },
    /// `ri <- ` the sign-extended 16-bit value `hi << 8 | lo`.
    LoadImmediate { ri: u8, lo: u8, hi: u8 },
    /// `rd <- ra - rb`, wrapping.
    Subtract { rd: u8, ra: u8, rb: u8 },
    /// Emit the low byte of `ri` as one UTF-8 encoded character.
    OutputChar { ri: u8 },
    /// Stop the program.
    Exit,
    /// Emit the signed decimal text of `ri`.
    OutputNumber { ri: u8 },
}

/// The instruction that the four bytes of a window starting with opcode `op`
/// encode, if `op` is a known opcode.
pub open spec fn decode_spec(op: u8, b1: u8, b2: u8, b3: u8) -> Option<Instruction> {
    if op == 1 {
        Some(Instruction::MoveIf { rd: b1, rs: b2, rc: b3 })
    } else if op == 2 {
        Some(Instruction::Store { ri: b1, rj: b2 })
    } else if op == 3 {
        Some(Instruction::Load { ri: b1, rj: b2 })
    } else if op == 4 {
        Some(Instruction::LoadImmediate { ri: b1, lo: b2, hi: b3 })
    } else if op == 5 {
        Some(Instruction::Subtract { rd: b1, ra: b2, rb: b3 })
    } else if op == 6 {
        Some(Instruction::OutputChar { ri: b1 })
    } else if op == 7 {
        Some(Instruction::Exit)
    } else if op == 8 {
        Some(Instruction::OutputNumber { ri: b1 })
    } else {
        None
    }
}

/// Whether a register operand names one of the machine's registers.
pub open spec fn is_reg(r: u8) -> bool {
    (r as int) < NREGS as int
}

impl Instruction {
    /// Number of bytes the instruction occupies, which is also how far it
    /// advances the instruction pointer.
    pub open spec fn width_spec(self) -> nat {
        match self {
            Instruction::MoveIf { .. } => 4,
            Instruction::Store { .. } => 3,
            Instruction::Load { .. } => 3,
            Instruction::LoadImmediate { .. } => 4,
            Instruction::Subtract { .. } => 4,
            Instruction::OutputChar { .. } => 2,
            Instruction::Exit => 1,
            Instruction::OutputNumber { .. } => 2,
        }
    }

    /// Whether every register operand of the instruction names a register.
    pub open spec fn operands_valid(self) -> bool {
        match self {
            Instruction::MoveIf { rd, rs, rc } => is_reg(rd) && is_reg(rs) && is_reg(rc),
            Instruction::Store { ri, rj } => is_reg(ri) && is_reg(rj),
            Instruction::Load { ri, rj } => is_reg(ri) && is_reg(rj),
            Instruction::LoadImmediate { ri, .. } => is_reg(ri),
            Instruction::Subtract { rd, ra, rb } => is_reg(rd) && is_reg(ra) && is_reg(rb),
            Instruction::OutputChar { ri } => is_reg(ri),
            Instruction::Exit => true,
            Instruction::OutputNumber { ri } => is_reg(ri),
        }
    }

    /// Decodes the window `op, b1, b2, b3`; `None` for an unknown opcode.
    pub fn decode(op: u8, b1: u8, b2: u8, b3: u8) -> (r: Option<Instruction>)
        ensures
            r == decode_spec(op, b1, b2, b3),
    {
        match op {
            1 => Some(Instruction::MoveIf { rd: b1, rs: b2, rc: b3 }),
            2 => Some(Instruction::Store { ri: b1, rj: b2 }),
            3 => Some(Instruction::Load { ri: b1, rj: b2 }),
            4 => Some(Instruction::LoadImmediate { ri: b1, lo: b2, hi: b3 }),
            5 => Some(Instruction::Subtract { rd: b1, ra: b2, rb: b3 }),
            6 => Some(Instruction::OutputChar { ri: b1 }),
            7 => Some(Instruction::Exit),
            8 => Some(Instruction::OutputNumber { ri: b1 }),
            _ => None,
        }
    }

    /// Number of bytes the instruction occupies.
    pub fn width(&self) -> (r: usize)
        ensures
            r as nat == self.width_spec(),
    {
        match self {
            Instruction::MoveIf { .. } => 4,
            Instruction::Store { .. } => 3,
            Instruction::Load { .. } => 3,
            Instruction::LoadImmediate { .. } => 4,
            Instruction::Subtract { .. } => 4,
            Instruction::OutputChar { .. } => 2,
            Instruction::Exit => 1,
            Instruction::OutputNumber { .. } => 2,
        }
    }
}

/// Whether the register operand `r` names a register.
pub fn check_reg(r: u8) -> (ok: bool)
    ensures
        ok == is_reg(r),
{
    (r as usize) < NREGS
}

} // verus!
