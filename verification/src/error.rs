//! The ways in which loading or running a program can fail.

use vstd::prelude::*;

verus! {

/// Why the interpreter refused to load a program or to go on running it.
#[derive(Clone, Copy, Debug, PartialEq, Eq, Structural)]
pub enum Chip8Error {
    /// The program image does not fit between `0x200` and the end of memory.
    /// The machine that was asked to load it is left as it was.
    RomTooLarge,
    /// An instruction needs a byte at an address past the end of memory.
    OutOfBounds,
    /// The word `opcode`, fetched from address `pc`, encodes no instruction.
    UnknownOpcode { opcode: u16, pc: u16 },
    /// A return was executed while the call stack was empty.
    StackUnderflow,
    /// A call was executed while the call stack was full.
    StackOverflow,
}

} // verus!
