//! A CHIP-8 / SUPER-CHIP / XO-CHIP interpreter core: opcode decoding, the
//! per-instruction state transition, memory, behaviour quirks and the
//! per-frame scheduler with breakpoints.
use vstd::prelude::*;

pub mod chip8;
pub mod cpu;
pub mod instruction;
pub mod memory;
pub mod quirks;

pub use chip8::Chip8;

verus! {

} // verus!
