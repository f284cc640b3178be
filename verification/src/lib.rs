//! An interpreter core for the CHIP-8 virtual machine.
//!
//! The crate holds the machine itself: memory, registers, call stack, timers,
//! keypad snapshot and the 64x32 monochrome framebuffer, together with the
//! fetch-decode-execute cycle. Reading program images from disk, opening a
//! window and polling a keyboard are left to the program that drives it.

pub mod cpu;
pub mod error;
pub mod font;
pub mod gpu;
pub mod laws;
pub mod machine;
pub mod opcode;
pub mod screen;

pub use cpu::Cpu;
pub use error::Chip8Error;
pub use gpu::{Gpu, Square};
pub use machine::Machine;
pub use opcode::Instruction;
