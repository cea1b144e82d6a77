//! An interpreter for the CHIP-8 instruction set: a memory unit with a monochrome
//! framebuffer, an instruction decoder, and the processor that executes decoded
//! instructions.

pub mod cpu;
pub mod keypad;
pub mod mmu;

pub use cpu::CPU;
pub use mmu::MMU;
