//! A virtual machine for the LC-3, a sixteen-bit teaching computer: the
//! register file, the memory with its memory-mapped keyboard, the decoder
//! and the semantics of every instruction, and the run loop.
//!
//! The machine does no input or output of its own. The host presses keys on
//! the keyboard of the memory, steps or runs the machine, and writes the
//! bytes that each step hands back.

pub mod effect;
pub mod error;
pub mod fields;
pub mod instructions;
pub mod keyboard;
pub mod memory;
pub mod opcodes;
pub mod registers;
pub mod traps;
pub mod utils;
pub mod vm;
