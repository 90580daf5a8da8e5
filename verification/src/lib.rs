//! Core of an emulator for the Sharp LR35902, the 8-bit CPU of a classic
//! handheld game console: a register file with 16-bit pairings and a flag
//! byte, a flat 64 KiB memory map, an instruction decoder over the primary
//! opcode space, an executor that updates registers, memory and flags and
//! reports the machine-cycle cost of each instruction, and a step loop that
//! glues them together.

pub mod cpu;
pub mod decoder;
pub mod executor;
pub mod machine;
pub mod memory;
pub mod utils;
