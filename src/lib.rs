//! A small register-based bytecode virtual machine with a verified
//! fetch-decode-execute step.
//!
//! A [`Machine`] owns sixteen 32-bit registers (register 0 is the instruction
//! pointer) and a flat memory arena of [`MEMORY_SIZE`] bytes. Each step
//! decodes the instruction at the instruction pointer, advances the pointer
//! and runs the instruction; output instructions append bytes to a sink.

pub mod isa;
pub mod laws;
pub mod machine;
pub mod text;

pub use isa::{Instruction, NREGS};
pub use machine::{Error, Machine, MEMORY_SIZE, STEP_LIMIT};
