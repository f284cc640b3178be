//! The mathematical model of the interpreter.
//!
//! `Machine` is the state of a CHIP-8 machine as a value: sequences for the
//! memories, machine integers for the registers. Every operation of the
//! interpreter is defined here as a function from states to states, and the
//! executable `Cpu` promises to follow these functions step for step.

use crate::error::Chip8Error;
use crate::font::{glyph_address, CHIP8_FONT_SET};
use crate::opcode::{decode_spec, Instruction};
use crate::screen::{blank, blit, collides};
use vstd::prelude::*;

verus! {

/// The address at which a program image is placed and at which execution
/// starts.
pub const PROGRAM_START: u16 = 0x200;

/// The largest program image that fits between `PROGRAM_START` and the end of
/// memory.
pub const MAX_ROM_SIZE: usize = 3584;

/// The number of return addresses that the call stack holds at most.
pub const STACK_LIMIT: usize = 16;

/// `v` reduced to eight bits.
pub open spec fn wrap_byte(v: int) -> u8 {
    (v % 0x100) as u8
}

/// `v` reduced to sixteen bits.
pub open spec fn wrap_word(v: int) -> u16 {
    (v % 0x1_0000) as u16
}

/// A condition as the value that the flag register takes for it.
pub open spec fn flag(cond: bool) -> u8 {
    if cond {
        1
    } else {
        0
    }
}

/// Key `k` is held down in the keypad snapshot `keys`. A number above `0xF`
/// names no key, and no key is never down.
pub open spec fn key_down(keys: Seq<bool>, k: int) -> bool {
    0 <= k < 16 && keys[k]
}

/// Key `k` is down in `now` and was up in `before`.
pub open spec fn newly_pressed(before: Seq<bool>, now: Seq<bool>, k: int) -> bool {
    0 <= k < 16 && now[k] && !before[k]
}

/// The lowest key from `from` upwards that is down in `now` and was up in
/// `before`.
pub open spec fn lowest_new_key(before: Seq<bool>, now: Seq<bool>, from: int) -> Option<u8>
    decreases 16 - from,
{
    if from < 0 || from >= 16 {
        None
    } else if newly_pressed(before, now, from) {
        Some(from as u8)
    } else {
        lowest_new_key(before, now, from + 1)
    }
}

/// An operation that may fail has followed its model: where the model gives
/// a state, the operation succeeded and left that state; where the model
/// gives an error, the operation returned it and left the state as it was.
pub open spec fn follows(
    model: Result<Machine, Chip8Error>,
    before: Machine,
    after: Machine,
    res: Result<(), Chip8Error>,
) -> bool {
    match model {
        Ok(m) => res is Ok && after == m,
        Err(e) => res == Err::<(), Chip8Error>(e) && after == before,
    }
}

/// The state of a machine.
#[verifier::ext_equal]
pub ghost struct Machine {
    /// Program counter: the address of the next instruction to fetch.
    pub pc: u16,
    /// Return addresses, the most recent call last.
    pub stack: Seq<u16>,
    /// Memory.
    pub ram: Seq<u8>,
    /// The registers `V0` to `VF`.
    pub registers: Seq<u8>,
    /// The index register `I`.
    pub i_register: u16,
    /// The instruction word fetched last.
    pub curr_opcode: u16,
    /// The framebuffer, row-major.
    pub screen: Seq<bool>,
    /// Delay timer.
    pub delay_timer: u16,
    /// Sound timer.
    pub sound_timer: u16,
    /// The keypad as the driver reported it last.
    pub keys: Seq<bool>,
    /// The register that waits for a key press, while one does.
    pub awaiting_key: Option<u8>,
    /// The keypad as it was when the wait for a key press last looked at it.
    pub wait_keys: Seq<bool>,
}

impl Machine {
    /// The state is one that a machine can be in.
    pub open spec fn wf(self) -> bool {
        &&& self.ram.len() == 4096
        &&& self.registers.len() == 16
        &&& self.screen.len() == 2048
        &&& self.keys.len() == 16
        &&& self.wait_keys.len() == 16
        &&& self.stack.len() <= STACK_LIMIT
        &&& self.delay_timer <= 0xFF
        &&& self.sound_timer <= 0xFF
        &&& (self.awaiting_key matches Some(x) ==> x < 16)
    }

    /// The state of a machine that has just been built round the program image
    /// `rom`: the font at the bottom of memory, the image from `0x200`, every
    /// other byte zero, and the program counter at the image's first
    /// instruction.
    pub open spec fn boot(rom: Seq<u8>) -> Machine {
        Machine {
            pc: PROGRAM_START,
            stack: Seq::empty(),
            ram: Seq::new(
                4096,
                |a: int|
                    if a < 80 {
                        CHIP8_FONT_SET@[a]
                    } else if 0x200 <= a < 0x200 + rom.len() {
                        rom[a - 0x200]
                    } else {
                        0u8
                    },
            ),
            registers: Seq::new(16, |i: int| 0u8),
            i_register: 0,
            curr_opcode: 0,
            screen: blank(),
            delay_timer: 0,
            sound_timer: 0,
            keys: Seq::new(16, |i: int| false),
            awaiting_key: None,
            wait_keys: Seq::new(16, |i: int| false),
        }
    }

    /// The value of register `Vx`.
    pub open spec fn v(self, x: u8) -> u8 {
        self.registers[x as int]
    }

    /// The state with `Vx` set to `value`.
    pub open spec fn with_register(self, x: u8, value: u8) -> Machine {
        Machine { registers: self.registers.update(x as int, value), ..self }
    }

    /// The state with the program counter set to `pc`.
    pub open spec fn with_pc(self, pc: u16) -> Machine {
        Machine { pc, ..self }
    }

    /// The state with the next instruction skipped if `cond` holds.
    pub open spec fn skip_if(self, cond: bool) -> Machine {
        if cond {
            self.with_pc(wrap_word(self.pc + 2))
        } else {
            self
        }
    }

    /// The state with `VF` set for `cond` and then `Vx` set to `value`. Where
    /// `x` is `0xF` the value is what stays.
    pub open spec fn with_flag_and_register(self, cond: bool, x: u8, value: u8) -> Machine {
        self.with_register(0xF, flag(cond)).with_register(x, value)
    }

    /// Fetch: the word at `adress` and `adress + 1`, high byte first, becomes
    /// the current instruction word and the program counter moves on by 2.
    pub open spec fn fetch(self, adress: u16) -> Result<Machine, Chip8Error> {
        if adress + 1 >= 4096 {
            Err(Chip8Error::OutOfBounds)
        } else {
            Ok(
                Machine {
                    curr_opcode: (self.ram[adress as int] * 0x100 + self.ram[adress + 1]) as u16,
                    pc: wrap_word(self.pc + 2),
                    ..self
                },
            )
        }
    }

    /// `00E0`.
    pub open spec fn cls(self) -> Machine {
        Machine { screen: blank(), ..self }
    }

    /// `00EE`.
    pub open spec fn ret(self) -> Result<Machine, Chip8Error> {
        if self.stack.len() == 0 {
            Err(Chip8Error::StackUnderflow)
        } else {
            Ok(Machine { pc: self.stack.last(), stack: self.stack.drop_last(), ..self })
        }
    }

    /// `1nnn`, and `0nnn`.
    pub open spec fn jmp(self, val: u16) -> Machine {
        self.with_pc(val)
    }

    /// `2nnn`.
    pub open spec fn call(self, adress: u16) -> Result<Machine, Chip8Error> {
        if self.stack.len() >= STACK_LIMIT {
            Err(Chip8Error::StackOverflow)
        } else {
            Ok(Machine { pc: adress, stack: self.stack.push(self.pc), ..self })
        }
    }

    /// `3xkk`.
    pub open spec fn se_vx(self, index: u8, val: u8) -> Machine {
        self.skip_if(self.v(index) == val)
    }

    /// `4xkk`.
    pub open spec fn sne_vx(self, index: u8, val: u8) -> Machine {
        self.skip_if(self.v(index) != val)
    }

    /// `5xy0`.
    pub open spec fn se_vx_vy(self, x: u8, y: u8) -> Machine {
        self.skip_if(self.v(x) == self.v(y))
    }

    /// `9xy0`.
    pub open spec fn sne_vx_vy(self, x: u8, y: u8) -> Machine {
        self.skip_if(self.v(x) != self.v(y))
    }

    /// `6xkk`.
    pub open spec fn ld_vx(self, index: u8, val: u8) -> Machine {
        self.with_register(index, val)
    }

    /// `7xkk`.
    pub open spec fn add_vx(self, index: u8, val: u8) -> Machine {
        self.with_register(index, wrap_byte(self.v(index) + val))
    }

    /// `8xy0`.
    pub open spec fn ld_vx_vy(self, x: u8, y: u8) -> Machine {
        self.with_register(x, self.v(y))
    }

    /// `8xy1`.
    pub open spec fn or_vx_vy(self, x: u8, y: u8) -> Machine {
        self.with_register(x, self.v(x) | self.v(y))
    }

    /// `8xy2`.
    pub open spec fn and_vx_vy(self, x: u8, y: u8) -> Machine {
        self.with_register(x, self.v(x) & self.v(y))
    }

    /// `8xy3`.
    pub open spec fn xor_vx_vy(self, x: u8, y: u8) -> Machine {
        self.with_register(x, self.v(x) ^ self.v(y))
    }

    /// `8xy4`.
    pub open spec fn add_vx_vy(self, x: u8, y: u8) -> Machine {
        self.with_flag_and_register(
            self.v(x) + self.v(y) > 0xFF,
            x,
            wrap_byte(self.v(x) + self.v(y)),
        )
    }

    /// `8xy5`.
    pub open spec fn sub_vx_vy(self, x: u8, y: u8) -> Machine {
        self.with_flag_and_register(self.v(x) > self.v(y), x, wrap_byte(self.v(x) - self.v(y)))
    }

    /// `8xy7`.
    pub open spec fn subn_vx_vy(self, x: u8, y: u8) -> Machine {
        self.with_flag_and_register(self.v(y) > self.v(x), x, wrap_byte(self.v(y) - self.v(x)))
    }

    /// `8xy6`.
    pub open spec fn shr_vx(self, x: u8) -> Machine {
        self.with_flag_and_register(self.v(x) % 2 == 1, x, self.v(x) / 2)
    }

    /// `8xyE`.
    pub open spec fn shl_vx(self, x: u8) -> Machine {
        self.with_flag_and_register(self.v(x) >= 0x80, x, wrap_byte(self.v(x) * 2))
    }

    /// `Annn`.
    pub open spec fn ld_i(self, val: u16) -> Machine {
        Machine { i_register: val, ..self }
    }

    /// `Bnnn`.
    pub open spec fn jp_v0(self, adress: u16) -> Machine {
        self.with_pc(wrap_word(adress + self.v(0)))
    }

    /// `Cxkk`, with `random` as the byte that was drawn.
    pub open spec fn rnd_vx(self, index: u8, val: u8, random: u8) -> Machine {
        self.with_register(index, random & val)
    }

    /// The `n` bytes of memory from `I` on: the sprite that a draw instruction
    /// reads.
    pub open spec fn sprite(self, n: u8) -> Seq<u8> {
        self.ram.subrange(self.i_register as int, self.i_register + n)
    }

    /// `Dxyn`.
    pub open spec fn drw_vx_vy(self, x: u8, y: u8, n: u8) -> Result<Machine, Chip8Error> {
        if self.i_register + n > 4096 {
            Err(Chip8Error::OutOfBounds)
        } else {
            let hit = collides(self.screen, self.v(x), self.v(y), self.sprite(n));
            Ok(
                Machine {
                    screen: blit(self.screen, self.v(x), self.v(y), self.sprite(n)),
                    ..self
                }.with_register(0xF, flag(hit)),
            )
        }
    }

    /// `Ex9E`.
    pub open spec fn skp_vx(self, index: u8) -> Machine {
        self.skip_if(key_down(self.keys, self.v(index) as int))
    }

    /// `ExA1`.
    pub open spec fn sknp_vx(self, index: u8) -> Machine {
        self.skip_if(!key_down(self.keys, self.v(index) as int))
    }

    /// `Fx07`.
    pub open spec fn ld_vx_dt(self, index: u8) -> Machine {
        self.with_register(index, self.delay_timer as u8)
    }

    /// `Fx0A`: the machine starts to wait for a key. The program counter goes
    /// back to the instruction, and the keypad as it is now is what a later
    /// press is told from.
    pub open spec fn ld_vx_k(self, index: u8) -> Machine {
        Machine {
            awaiting_key: Some(index),
            wait_keys: self.keys,
            pc: wrap_word(self.pc - 2),
            ..self
        }
    }

    /// `Fx15`.
    pub open spec fn ld_dt_vx(self, index: u8) -> Machine {
        Machine { delay_timer: self.v(index) as u16, ..self }
    }

    /// `Fx18`.
    pub open spec fn ld_st_vx(self, index: u8) -> Machine {
        Machine { sound_timer: self.v(index) as u16, ..self }
    }

    /// `Fx1E`.
    pub open spec fn add_i_vx(self, index: u8) -> Machine {
        Machine { i_register: wrap_word(self.i_register + self.v(index)), ..self }
    }

    /// `Fx29`.
    pub open spec fn ld_f_vx(self, index: u8) -> Machine {
        Machine { i_register: glyph_address(self.v(index)), ..self }
    }

    /// `Fx33`.
    pub open spec fn ld_b_vx(self, index: u8) -> Result<Machine, Chip8Error> {
        if self.i_register + 2 >= 4096 {
            Err(Chip8Error::OutOfBounds)
        } else {
            let value = self.v(index);
            let at = self.i_register as int;
            Ok(
                Machine {
                    ram: self.ram.update(at, value / 100).update(at + 1, (value / 10) % 10).update(
                        at + 2,
                        value % 10,
                    ),
                    ..self
                },
            )
        }
    }

    /// `Fx55`.
    pub open spec fn ld_i_vx(self, index: u8) -> Result<Machine, Chip8Error> {
        if self.i_register + index >= 4096 {
            Err(Chip8Error::OutOfBounds)
        } else {
            let at = self.i_register as int;
            Ok(
                Machine {
                    ram: Seq::new(
                        4096,
                        |a: int|
                            if at <= a <= at + index {
                                self.registers[a - at]
                            } else {
                                self.ram[a]
                            },
                    ),
                    ..self
                },
            )
        }
    }

    /// `Fx65`.
    pub open spec fn ld_vx_i(self, index: u8) -> Result<Machine, Chip8Error> {
        if self.i_register + index >= 4096 {
            Err(Chip8Error::OutOfBounds)
        } else {
            let at = self.i_register as int;
            Ok(
                Machine {
                    registers: Seq::new(
                        16,
                        |i: int|
                            if i <= index {
                                self.ram[at + i]
                            } else {
                                self.registers[i]
                            },
                    ),
                    ..self
                },
            )
        }
    }

    /// The state after `instr` has been executed, with `random` as the byte
    /// that a random draw gives. An instruction that fails leaves the state as
    /// it was.
    pub open spec fn execute(self, instr: Instruction, random: u8) -> Result<Machine, Chip8Error> {
        match instr {
            Instruction::Sys { addr } => Ok(self.jmp(addr)),
            Instruction::Cls => Ok(self.cls()),
            Instruction::Ret => self.ret(),
            Instruction::Jmp { addr } => Ok(self.jmp(addr)),
            Instruction::Call { addr } => self.call(addr),
            Instruction::SeVx { x, val } => Ok(self.se_vx(x, val)),
            Instruction::SneVx { x, val } => Ok(self.sne_vx(x, val)),
            Instruction::SeVxVy { x, y } => Ok(self.se_vx_vy(x, y)),
            Instruction::LdVx { x, val } => Ok(self.ld_vx(x, val)),
            Instruction::AddVx { x, val } => Ok(self.add_vx(x, val)),
            Instruction::LdVxVy { x, y } => Ok(self.ld_vx_vy(x, y)),
            Instruction::OrVxVy { x, y } => Ok(self.or_vx_vy(x, y)),
            Instruction::AndVxVy { x, y } => Ok(self.and_vx_vy(x, y)),
            Instruction::XorVxVy { x, y } => Ok(self.xor_vx_vy(x, y)),
            Instruction::AddVxVy { x, y } => Ok(self.add_vx_vy(x, y)),
            Instruction::SubVxVy { x, y } => Ok(self.sub_vx_vy(x, y)),
            Instruction::ShrVx { x } => Ok(self.shr_vx(x)),
            Instruction::SubnVxVy { x, y } => Ok(self.subn_vx_vy(x, y)),
            Instruction::ShlVx { x } => Ok(self.shl_vx(x)),
            Instruction::SneVxVy { x, y } => Ok(self.sne_vx_vy(x, y)),
            Instruction::LdI { addr } => Ok(self.ld_i(addr)),
            Instruction::JpV0 { addr } => Ok(self.jp_v0(addr)),
            Instruction::RndVx { x, val } => Ok(self.rnd_vx(x, val, random)),
            Instruction::DrwVxVy { x, y, n } => self.drw_vx_vy(x, y, n),
            Instruction::SkpVx { x } => Ok(self.skp_vx(x)),
            Instruction::SknpVx { x } => Ok(self.sknp_vx(x)),
            Instruction::LdVxDt { x } => Ok(self.ld_vx_dt(x)),
            Instruction::LdVxK { x } => Ok(self.ld_vx_k(x)),
            Instruction::LdDtVx { x } => Ok(self.ld_dt_vx(x)),
            Instruction::LdStVx { x } => Ok(self.ld_st_vx(x)),
            Instruction::AddIVx { x } => Ok(self.add_i_vx(x)),
            Instruction::LdFVx { x } => Ok(self.ld_f_vx(x)),
            Instruction::LdBVx { x } => self.ld_b_vx(x),
            Instruction::LdIVx { x } => self.ld_i_vx(x),
            Instruction::LdVxI { x } => self.ld_vx_i(x),
        }
    }

    /// The current instruction word is decoded and executed. A word that
    /// encodes no instruction is reported with the address it was fetched
    /// from, which is two below the program counter.
    pub open spec fn decode_and_execute(self, random: u8) -> Result<Machine, Chip8Error> {
        match decode_spec(self.curr_opcode) {
            None => Err(
                Chip8Error::UnknownOpcode { opcode: self.curr_opcode, pc: wrap_word(self.pc - 2) },
            ),
            Some(instr) => self.execute(instr, random),
        }
    }

    /// The current instruction word asks for a random byte.
    pub open spec fn draws_random(self) -> bool {
        decode_spec(self.curr_opcode) matches Some(instr) && instr.draws_random()
    }

    /// One look at the keypad by a machine that waits for a key. If a key is
    /// down that was up at the last look, the lowest such key goes to the
    /// waiting register, the wait ends and the program counter moves on past
    /// the instruction. If none is, the machine goes on waiting.
    pub open spec fn poll_key(self) -> Machine {
        match (self.awaiting_key, lowest_new_key(self.wait_keys, self.keys, 0)) {
            (Some(x), Some(k)) => Machine {
                registers: self.registers.update(x as int, k),
                awaiting_key: None,
                wait_keys: self.keys,
                pc: wrap_word(self.pc + 2),
                ..self
            },
            _ => Machine { wait_keys: self.keys, ..self },
        }
    }

    /// One cycle, with `random` as the byte that a random draw gives: the
    /// state afterwards and whether the cycle succeeded.
    ///
    /// A machine that waits for a key looks at the keypad and does nothing
    /// else. Any other machine fetches the word at the program counter,
    /// decodes and executes it. Where the fetch fails the state stays as it
    /// was; where the instruction fails the state is the one after the fetch.
    pub open spec fn run(self, random: u8) -> (Machine, Result<(), Chip8Error>) {
        if self.awaiting_key is Some {
            (self.poll_key(), Ok(()))
        } else {
            match self.fetch(self.pc) {
                Err(e) => (self, Err(e)),
                Ok(fetched) => match fetched.decode_and_execute(random) {
                    Ok(next) => (next, Ok(())),
                    Err(e) => (fetched, Err(e)),
                },
            }
        }
    }

    /// The next cycle asks for a random byte.
    pub open spec fn next_draws_random(self) -> bool {
        self.awaiting_key is None && (self.fetch(self.pc) matches Ok(fetched)
            && fetched.draws_random())
    }

    /// One tick of the 60 Hz clock: each timer that is not zero goes down by
    /// one.
    pub open spec fn tick_timers(self) -> Machine {
        Machine {
            delay_timer: if self.delay_timer > 0 {
                (self.delay_timer - 1) as u16
            } else {
                0
            },
            sound_timer: if self.sound_timer > 0 {
                (self.sound_timer - 1) as u16
            } else {
                0
            },
            ..self
        }
    }

    /// The state with the keypad snapshot replaced.
    pub open spec fn set_keys(self, keys: Seq<bool>) -> Machine {
        Machine { keys, ..self }
    }

    /// The cell in column `col` of row `row` is on.
    pub open spec fn pixel(self, col: int, row: int) -> bool {
        self.screen[row * 64 + col]
    }
}

} // verus!
