//! Instruction words and their decoding.
//!
//! A CHIP-8 instruction is one big-endian 16-bit word. Its top nibble picks the
//! family; the remaining three nibbles hold, depending on the family, a 12-bit
//! address `nnn`, a register index `x` and a byte `kk`, or two register indices
//! `x` and `y` and a nibble `n`.

use vstd::prelude::*;

verus! {

/// One decoded instruction. Register indices are below 16, addresses below
/// 4096 and sprite heights below 16 in every value that `decode` returns; see
/// `Instruction::valid`.
#[derive(Clone, Copy, Debug, PartialEq, Eq, Structural)]
pub enum Instruction {
    /// `0nnn`: transfer control to the routine at `nnn`.
    Sys { addr: u16 },
    /// `00E0`: clear the screen.
    Cls,
    /// `00EE`: return from a subroutine.
    Ret,
    /// `1nnn`: jump to `nnn`.
    Jmp { addr: u16 },
    /// `2nnn`: call the subroutine at `nnn`.
    Call { addr: u16 },
    /// `3xkk`: skip the next instruction if `Vx == kk`.
    SeVx { x: u8, val: u8 },
    /// `4xkk`: skip the next instruction if `Vx != kk`.
    SneVx { x: u8, val: u8 },
    /// `5xy0`: skip the next instruction if `Vx == Vy`.
    SeVxVy { x: u8, y: u8 },
    /// `6xkk`: `Vx = kk`.
    LdVx { x: u8, val: u8 },
    /// `7xkk`: `Vx = Vx + kk`, wrapping, without touching `VF`.
    AddVx { x: u8, val: u8 },
    /// `8xy0`: `Vx = Vy`.
    LdVxVy { x: u8, y: u8 },
    /// `8xy1`: `Vx = Vx | Vy`.
    OrVxVy { x: u8, y: u8 },
    /// `8xy2`: `Vx = Vx & Vy`.
    AndVxVy { x: u8, y: u8 },
    /// `8xy3`: `Vx = Vx ^ Vy`.
    XorVxVy { x: u8, y: u8 },
    /// `8xy4`: `Vx = Vx + Vy`, `VF` = carry.
    AddVxVy { x: u8, y: u8 },
    /// `8xy5`: `Vx = Vx - Vy`, `VF` = 1 when `Vx > Vy`.
    SubVxVy { x: u8, y: u8 },
    /// `8xy6`: `Vx = Vx >> 1`, `VF` = the bit shifted out. `y` is ignored.
    ShrVx { x: u8 },
    /// `8xy7`: `Vx = Vy - Vx`, `VF` = 1 when `Vy > Vx`.
    SubnVxVy { x: u8, y: u8 },
    /// `8xyE`: `Vx = Vx << 1`, `VF` = the bit shifted out. `y` is ignored.
    ShlVx { x: u8 },
    /// `9xy0`: skip the next instruction if `Vx != Vy`.
    SneVxVy { x: u8, y: u8 },
    /// `Annn`: `I = nnn`.
    LdI { addr: u16 },
    /// `Bnnn`: jump to `nnn + V0`.
    JpV0 { addr: u16 },
    /// `Cxkk`: `Vx` = a random byte masked with `kk`.
    RndVx { x: u8, val: u8 },
    /// `Dxyn`: draw the `n`-row sprite at `I` with its corner at `(Vx, Vy)`.
    DrwVxVy { x: u8, y: u8, n: u8 },
    /// `Ex9E`: skip the next instruction if the key named by `Vx` is down.
    SkpVx { x: u8 },
    /// `ExA1`: skip the next instruction if the key named by `Vx` is up.
    SknpVx { x: u8 },
    /// `Fx07`: `Vx` = delay timer.
    LdVxDt { x: u8 },
    /// `Fx0A`: wait for a key press and store the key in `Vx`.
    LdVxK { x: u8 },
    /// `Fx15`: delay timer = `Vx`.
    LdDtVx { x: u8 },
    /// `Fx18`: sound timer = `Vx`.
    LdStVx { x: u8 },
    /// `Fx1E`: `I = I + Vx`.
    AddIVx { x: u8 },
    /// `Fx29`: `I` = address of the glyph for the digit in `Vx`.
    LdFVx { x: u8 },
    /// `Fx33`: store the three decimal digits of `Vx` at `I`, `I+1`, `I+2`.
    LdBVx { x: u8 },
    /// `Fx55`: store `V0..=Vx` at `I..`.
    LdIVx { x: u8 },
    /// `Fx65`: load `V0..=Vx` from `I..`.
    LdVxI { x: u8 },
}

impl Instruction {
    /// Every field is in the range that its place in the instruction word
    /// allows: register indices and sprite heights fit a nibble, addresses fit
    /// twelve bits.
    pub open spec fn valid(self) -> bool {
        match self {
            Instruction::Cls | Instruction::Ret => true,
            Instruction::Sys { addr }
            | Instruction::Jmp { addr }
            | Instruction::Call { addr }
            | Instruction::LdI { addr }
            | Instruction::JpV0 { addr } => addr < 0x1000,
            Instruction::SeVx { x, val }
            | Instruction::SneVx { x, val }
            | Instruction::LdVx { x, val }
            | Instruction::AddVx { x, val }
            | Instruction::RndVx { x, val } => x < 16,
            Instruction::SeVxVy { x, y }
            | Instruction::LdVxVy { x, y }
            | Instruction::OrVxVy { x, y }
            | Instruction::AndVxVy { x, y }
            | Instruction::XorVxVy { x, y }
            | Instruction::AddVxVy { x, y }
            | Instruction::SubVxVy { x, y }
            | Instruction::SubnVxVy { x, y }
            | Instruction::SneVxVy { x, y } => x < 16 && y < 16,
            Instruction::DrwVxVy { x, y, n } => x < 16 && y < 16 && n < 16,
            Instruction::ShrVx { x }
            | Instruction::ShlVx { x }
            | Instruction::SkpVx { x }
            | Instruction::SknpVx { x }
            | Instruction::LdVxDt { x }
            | Instruction::LdVxK { x }
            | Instruction::LdDtVx { x }
            | Instruction::LdStVx { x }
            | Instruction::AddIVx { x }
            | Instruction::LdFVx { x }
            | Instruction::LdBVx { x }
            | Instruction::LdIVx { x }
            | Instruction::LdVxI { x } => x < 16,
        }
    }

    /// The instruction consumes a random byte when it is executed.
    pub open spec fn draws_random(self) -> bool {
        self is RndVx
    }
}

/// The top nibble of an instruction word: its family.
pub open spec fn op_family(op: u16) -> int {
    op as int / 0x1000
}

/// The second nibble of an instruction word: the register index `x`.
pub open spec fn op_x(op: u16) -> u8 {
    ((op as int / 0x100) % 0x10) as u8
}

/// The third nibble of an instruction word: the register index `y`.
pub open spec fn op_y(op: u16) -> u8 {
    ((op as int / 0x10) % 0x10) as u8
}

/// The last nibble of an instruction word.
pub open spec fn op_n(op: u16) -> u8 {
    (op as int % 0x10) as u8
}

/// The low byte of an instruction word: the immediate `kk`.
pub open spec fn op_kk(op: u16) -> u8 {
    (op as int % 0x100) as u8
}

/// The low twelve bits of an instruction word: the address `nnn`.
pub open spec fn op_nnn(op: u16) -> u16 {
    (op as int % 0x1000) as u16
}

/// The register-to-register instructions, family `8`, chosen by the last
/// nibble.
pub open spec fn decode_alu(op: u16) -> Option<Instruction> {
    let x = op_x(op);
    let y = op_y(op);
    let n = op_n(op);
    if n == 0x0 {
        Some(Instruction::LdVxVy { x, y })
    } else if n == 0x1 {
        Some(Instruction::OrVxVy { x, y })
    } else if n == 0x2 {
        Some(Instruction::AndVxVy { x, y })
    } else if n == 0x3 {
        Some(Instruction::XorVxVy { x, y })
    } else if n == 0x4 {
        Some(Instruction::AddVxVy { x, y })
    } else if n == 0x5 {
        Some(Instruction::SubVxVy { x, y })
    } else if n == 0x6 {
        Some(Instruction::ShrVx { x })
    } else if n == 0x7 {
        Some(Instruction::SubnVxVy { x, y })
    } else if n == 0xE {
        Some(Instruction::ShlVx { x })
    } else {
        None
    }
}

/// The timer, keypad and memory instructions, family `F`, chosen by the low
/// byte.
pub open spec fn decode_misc(op: u16) -> Option<Instruction> {
    let x = op_x(op);
    let kk = op_kk(op);
    if kk == 0x07 {
        Some(Instruction::LdVxDt { x })
    } else if kk == 0x0A {
        Some(Instruction::LdVxK { x })
    } else if kk == 0x15 {
        Some(Instruction::LdDtVx { x })
    } else if kk == 0x18 {
        Some(Instruction::LdStVx { x })
    } else if kk == 0x1E {
        Some(Instruction::AddIVx { x })
    } else if kk == 0x29 {
        Some(Instruction::LdFVx { x })
    } else if kk == 0x33 {
        Some(Instruction::LdBVx { x })
    } else if kk == 0x55 {
        Some(Instruction::LdIVx { x })
    } else if kk == 0x65 {
        Some(Instruction::LdVxI { x })
    } else {
        None
    }
}

/// The instruction that the word `op` encodes, or `None` where it encodes
/// none.
pub open spec fn decode_spec(op: u16) -> Option<Instruction> {
    let family = op_family(op);
    let x = op_x(op);
    let y = op_y(op);
    let n = op_n(op);
    let kk = op_kk(op);
    let addr = op_nnn(op);
    if family == 0x0 {
        if op == 0x00E0 {
            Some(Instruction::Cls)
        } else if op == 0x00EE {
            Some(Instruction::Ret)
        } else {
            Some(Instruction::Sys { addr })
        }
    } else if family == 0x1 {
        Some(Instruction::Jmp { addr })
    } else if family == 0x2 {
        Some(Instruction::Call { addr })
    } else if family == 0x3 {
        Some(Instruction::SeVx { x, val: kk })
    } else if family == 0x4 {
        Some(Instruction::SneVx { x, val: kk })
    } else if family == 0x5 {
        if n == 0 {
            Some(Instruction::SeVxVy { x, y })
        } else {
            None
        }
    } else if family == 0x6 {
        Some(Instruction::LdVx { x, val: kk })
    } else if family == 0x7 {
        Some(Instruction::AddVx { x, val: kk })
    } else if family == 0x8 {
        decode_alu(op)
    } else if family == 0x9 {
        if n == 0 {
            Some(Instruction::SneVxVy { x, y })
        } else {
            None
        }
    } else if family == 0xA {
        Some(Instruction::LdI { addr })
    } else if family == 0xB {
        Some(Instruction::JpV0 { addr })
    } else if family == 0xC {
        Some(Instruction::RndVx { x, val: kk })
    } else if family == 0xD {
        Some(Instruction::DrwVxVy { x, y, n })
    } else if family == 0xE {
        if kk == 0x9E {
            Some(Instruction::SkpVx { x })
        } else if kk == 0xA1 {
            Some(Instruction::SknpVx { x })
        } else {
            None
        }
    } else {
        decode_misc(op)
    }
}

/// Shifts and masks pick the same nibbles as division and remainder.
proof fn lemma_opcode_fields(op: u16)
    by (bit_vector)
    ensures
        (op >> 12) == op / 0x1000,
        ((op & 0x0F00) >> 8) == (op / 0x100) % 0x10,
        ((op & 0x00F0) >> 4) == (op / 0x10) % 0x10,
        (op & 0x000F) == op % 0x10,
        (op & 0x00FF) == op % 0x100,
        (op & 0x0FFF) == op % 0x1000,
{
}

/// Every instruction that a word decodes to has its fields in range.
pub proof fn lemma_decoded_is_valid(op: u16)
    ensures
        decode_spec(op) matches Some(instr) ==> instr.valid(),
{
}

/// Decodes one instruction word.
///
/// Returns `None` exactly for the words that encode no instruction.
pub fn decode(opcode: u16) -> (r: Option<Instruction>)
    ensures
        r == decode_spec(opcode),
        r matches Some(instr) ==> instr.valid(),
{
    proof {
        lemma_opcode_fields(opcode);
    }
    let family: u16 = opcode >> 12;
    let x: u8 = ((opcode & 0x0F00) >> 8) as u8;
    let y: u8 = ((opcode & 0x00F0) >> 4) as u8;
    let n: u8 = (opcode & 0x000F) as u8;
    let kk: u8 = (opcode & 0x00FF) as u8;
    let addr: u16 = opcode & 0x0FFF;
    match family {
        0x0 => match opcode {
            0x00E0 => Some(Instruction::Cls),
            0x00EE => Some(Instruction::Ret),
            _ => Some(Instruction::Sys { addr }),
        },
        0x1 => Some(Instruction::Jmp { addr }),
        0x2 => Some(Instruction::Call { addr }),
        0x3 => Some(Instruction::SeVx { x, val: kk }),
        0x4 => Some(Instruction::SneVx { x, val: kk }),
        0x5 => if n == 0 {
            Some(Instruction::SeVxVy { x, y })
        } else {
            None
        },
        0x6 => Some(Instruction::LdVx { x, val: kk }),
        0x7 => Some(Instruction::AddVx { x, val: kk }),
        0x8 => match n {
            0x0 => Some(Instruction::LdVxVy { x, y }),
            0x1 => Some(Instruction::OrVxVy { x, y }),
            0x2 => Some(Instruction::AndVxVy { x, y }),
            0x3 => Some(Instruction::XorVxVy { x, y }),
            0x4 => Some(Instruction::AddVxVy { x, y }),
            0x5 => Some(Instruction::SubVxVy { x, y }),
            0x6 => Some(Instruction::ShrVx { x }),
            0x7 => Some(Instruction::SubnVxVy { x, y }),
            0xE => Some(Instruction::ShlVx { x }),
            _ => None,
        },
        0x9 => if n == 0 {
            Some(Instruction::SneVxVy { x, y })
        } else {
            None
        },
        0xA => Some(Instruction::LdI { addr }),
        0xB => Some(Instruction::JpV0 { addr }),
        0xC => Some(Instruction::RndVx { x, val: kk }),
        0xD => Some(Instruction::DrwVxVy { x, y, n }),
        0xE => match kk {
            0x9E => Some(Instruction::SkpVx { x }),
            0xA1 => Some(Instruction::SknpVx { x }),
            _ => None,
        },
        _ => match kk {
            0x07 => Some(Instruction::LdVxDt { x }),
            0x0A => Some(Instruction::LdVxK { x }),
            0x15 => Some(Instruction::LdDtVx { x }),
            0x18 => Some(Instruction::LdStVx { x }),
            0x1E => Some(Instruction::AddIVx { x }),
            0x29 => Some(Instruction::LdFVx { x }),
            0x33 => Some(Instruction::LdBVx { x }),
            0x55 => Some(Instruction::LdIVx { x }),
            0x65 => Some(Instruction::LdVxI { x }),
            _ => None,
        },
    }
}

} // verus!
