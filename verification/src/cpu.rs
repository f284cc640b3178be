//! The executable interpreter.
//!
//! `Cpu` owns the whole state of one machine. Its view is the `Machine` of the
//! model, and every method says in its contract which function of the model
//! it carries out.

use crate::error::Chip8Error;
use crate::font::CHIP8_FONT_SET;
use crate::machine::{
    flag, follows, lowest_new_key, Machine, MAX_ROM_SIZE, PROGRAM_START, STACK_LIMIT,
};
use crate::opcode::{decode, Instruction};
use crate::screen::{clear_screen, draw_sprite};
use rand::Rng;
use vstd::prelude::*;

verus! {

/// A CHIP-8 machine.
#[derive(Clone, Debug)]
pub struct Cpu {
    // Program counter
    pc: u16,
    // Return addresses, the most recent call last
    stack: Vec<u16>,
    // Memory
    ram: [u8; 4096],
    // Registers V0 to VF
    registers: [u8; 16],
    // Index register I
    i_register: u16,
    // The instruction word fetched last
    curr_opcode: u16,
    // Framebuffer, row-major
    screen_buffer: [bool; 2048],
    // Timers
    delta_timer: u16,
    sub_timer: u16,
    // Keypad as the driver reported it last
    keys: [bool; 16],
    // The register that waits for a key press, while one does
    awaiting_key: Option<u8>,
    // Keypad as the wait for a key press saw it last
    wait_keys: [bool; 16],
}

impl View for Cpu {
    type V = Machine;

    closed spec fn view(&self) -> Machine {
        Machine {
            pc: self.pc,
            stack: self.stack@,
            ram: self.ram@,
            registers: self.registers@,
            i_register: self.i_register,
            curr_opcode: self.curr_opcode,
            screen: self.screen_buffer@,
            delay_timer: self.delta_timer,
            sound_timer: self.sub_timer,
            keys: self.keys@,
            awaiting_key: self.awaiting_key,
            wait_keys: self.wait_keys@,
        }
    }
}

impl Cpu {
    /// The machine is in a state that a machine can be in. Every constructor
    /// establishes this and every method keeps it.
    pub open spec fn wf(&self) -> bool {
        self@.wf()
    }

    /// A machine built round a program image that fits.
    fn boot(rom: &[u8]) -> (cpu: Cpu)
        requires
            rom@.len() <= 3584,
        ensures
            cpu.wf(),
            cpu@ == Machine::boot(rom@),
    {
        let mut ram: [u8; 4096] = [0u8; 4096];
        let mut i: usize = 0;
        while i < 80
            invariant
                i <= 80,
                forall|a: int| 0 <= a < i ==> ram@[a] == CHIP8_FONT_SET@[a],
                forall|a: int| i <= a < 4096 ==> ram@[a] == 0,
            decreases 80 - i,
        {
            ram[i] = CHIP8_FONT_SET[i];
            i = i + 1;
        }
        let len: usize = rom.len();
        let mut j: usize = 0;
        while j < len
            invariant
                j <= len,
                len == rom@.len(),
                len <= 3584,
                forall|a: int| 0 <= a < 80 ==> ram@[a] == CHIP8_FONT_SET@[a],
                forall|a: int| 80 <= a < 0x200 ==> ram@[a] == 0,
                forall|a: int| 0x200 <= a < 0x200 + j ==> ram@[a] == rom@[a - 0x200],
                forall|a: int| 0x200 + j <= a < 4096 ==> ram@[a] == 0,
            decreases len - j,
        {
            ram[0x200 + j] = rom[j];
            j = j + 1;
        }
        let cpu = Cpu {
            pc: PROGRAM_START,
            stack: Vec::new(),
            ram,
            registers: [0u8; 16],
            i_register: 0,
            curr_opcode: 0,
            screen_buffer: [false; 2048],
            delta_timer: 0,
            sub_timer: 0,
            keys: [false; 16],
            awaiting_key: None,
            wait_keys: [false; 16],
        };
        assert(cpu@ =~= Machine::boot(rom@));
        cpu
    }

    /// Builds a machine: memory zeroed but for the font at the bottom and the
    /// program image from `0x200`, registers and timers zero, the stack empty,
    /// every key up, every pixel off, and the program counter at `0x200`.
    ///
    /// Without an image the machine is built all the same, with nothing loaded.
    /// An image of more than 3584 bytes does not fit and is refused.
    pub fn new(rom_file: Option<Vec<u8>>) -> (res: Result<Cpu, Chip8Error>)
        ensures
            match rom_file {
                None => res matches Ok(cpu) && cpu.wf() && cpu@ == Machine::boot(Seq::empty()),
                Some(rom) => if rom@.len() <= 3584 {
                    res matches Ok(cpu) && cpu.wf() && cpu@ == Machine::boot(rom@)
                } else {
                    res matches Err(e) && e == Chip8Error::RomTooLarge
                },
            },
    {
        match rom_file {
            None => {
                let empty: Vec<u8> = Vec::new();
                Ok(Cpu::boot(empty.as_slice()))
            },
            Some(rom) => {
                if rom.len() > MAX_ROM_SIZE {
                    Err(Chip8Error::RomTooLarge)
                } else {
                    Ok(Cpu::boot(rom.as_slice()))
                }
            },
        }
    }

    /// Loads a program image. The whole machine is built anew round it, as
    /// `new` would build it; nothing of the earlier state stays.
    ///
    /// An image of more than 3584 bytes is refused, and the machine is then
    /// left as it was.
    pub fn load(&mut self, rom_bytes: &[u8]) -> (res: Result<(), Chip8Error>)
        ensures
            rom_bytes@.len() <= 3584 ==> res is Ok && final(self).wf() && final(self)@
                == Machine::boot(rom_bytes@),
            rom_bytes@.len() > 3584 ==> res == Err::<(), Chip8Error>(Chip8Error::RomTooLarge)
                && *final(self) == *old(self),
    {
        if rom_bytes.len() > MAX_ROM_SIZE {
            Err(Chip8Error::RomTooLarge)
        } else {
            *self = Cpu::boot(rom_bytes);
            Ok(())
        }
    }

    /// The program counter.
    pub fn pc(&self) -> (r: u16)
        ensures
            r == self@.pc,
    {
        self.pc
    }

    /// The index register `I`.
    pub fn i_register(&self) -> (r: u16)
        ensures
            r == self@.i_register,
    {
        self.i_register
    }

    /// The instruction word that was fetched last.
    pub fn curr_opcode(&self) -> (r: u16)
        ensures
            r == self@.curr_opcode,
    {
        self.curr_opcode
    }

    /// The value of register `Vindex`.
    pub fn register(&self, index: u8) -> (r: u8)
        requires
            index < 16,
        ensures
            r == self@.v(index),
    {
        self.registers[index as usize]
    }

    /// The byte of memory at `adress`.
    pub fn memory(&self, adress: u16) -> (r: u8)
        requires
            adress < 4096,
        ensures
            r == self@.ram[adress as int],
    {
        self.ram[adress as usize]
    }

    /// The number of return addresses on the call stack.
    pub fn stack_depth(&self) -> (r: usize)
        ensures
            r == self@.stack.len(),
    {
        self.stack.len()
    }

    /// The delay timer.
    pub fn delay_timer(&self) -> (r: u8)
        requires
            self.wf(),
        ensures
            r == self@.delay_timer,
    {
        self.delta_timer as u8
    }

    /// The sound timer.
    pub fn sound_timer(&self) -> (r: u8)
        requires
            self.wf(),
        ensures
            r == self@.sound_timer,
    {
        self.sub_timer as u8
    }

    /// The register that waits for a key press, if the machine waits for one.
    pub fn awaiting_key(&self) -> (r: Option<u8>)
        ensures
            r == self@.awaiting_key,
    {
        self.awaiting_key
    }

    /// Whether key `key` is down in the keypad snapshot.
    pub fn key(&self, key: u8) -> (r: bool)
        requires
            key < 16,
        ensures
            r == self@.keys[key as int],
    {
        self.keys[key as usize]
    }

    /// Whether the pixel in column `col` of row `row` is on.
    pub fn pixel(&self, col: u8, row: u8) -> (r: bool)
        requires
            col < 64,
            row < 32,
        ensures
            r == self@.pixel(col as int, row as int),
    {
        self.screen_buffer[row as usize * 64 + col as usize]
    }
}

impl Cpu {
    /// Fetch: reads the instruction word at `adress`, high byte first, makes
    /// it the current word and moves the program counter on by 2.
    ///
    /// Fails with `OutOfBounds`, changing nothing, where the word's second
    /// byte would lie past the end of memory.
    pub fn fetch(&mut self, adress: u16) -> (res: Result<(), Chip8Error>)
        requires
            old(self).wf(),
        ensures
            final(self).wf(),
            follows(old(self)@.fetch(adress), old(self)@, final(self)@, res),
            res is Err <==> adress + 1 >= 4096,
    {
        if adress >= 4095 {
            return Err(Chip8Error::OutOfBounds);
        }
        let hi: u16 = self.ram[adress as usize] as u16;
        let lo: u16 = self.ram[adress as usize + 1] as u16;
        assert((hi << 8) | lo == hi * 0x100 + lo) by (bit_vector)
            requires
                hi < 0x100,
                lo < 0x100,
        ;
        self.curr_opcode = (hi << 8) | lo;
        self.pc = self.pc.wrapping_add(2);
        assert(self@ =~= old(self)@.fetch(adress)->Ok_0);
        Ok(())
    }

    /// `00E0`: turns every pixel off.
    pub fn cls(&mut self)
        requires
            old(self).wf(),
        ensures
            final(self).wf(),
            final(self)@ == old(self)@.cls(),
            forall|col: int, row: int|
                0 <= col < 64 && 0 <= row < 32 ==> !#[trigger] final(self)@.pixel(col, row),
    {
        clear_screen(&mut self.screen_buffer);
    }

    /// `00EE`: pops the most recent return address into the program counter.
    ///
    /// Fails with `StackUnderflow`, changing nothing, where the stack is
    /// empty.
    pub fn ret(&mut self) -> (res: Result<(), Chip8Error>)
        requires
            old(self).wf(),
        ensures
            final(self).wf(),
            follows(old(self)@.ret(), old(self)@, final(self)@, res),
            res is Err <==> old(self)@.stack.len() == 0,
    {
        match self.stack.pop() {
            None => Err(Chip8Error::StackUnderflow),
            Some(adress) => {
                self.pc = adress;
                assert(self@ =~= old(self)@.ret()->Ok_0);
                Ok(())
            },
        }
    }

    /// `2nnn`: pushes the program counter and jumps to `adress`.
    ///
    /// Fails with `StackOverflow`, changing nothing, where the stack already
    /// holds 16 return addresses.
    pub fn call(&mut self, adress: u16) -> (res: Result<(), Chip8Error>)
        requires
            old(self).wf(),
        ensures
            final(self).wf(),
            follows(old(self)@.call(adress), old(self)@, final(self)@, res),
            res is Err <==> old(self)@.stack.len() >= 16,
    {
        if self.stack.len() >= STACK_LIMIT {
            return Err(Chip8Error::StackOverflow);
        }
        self.stack.push(self.pc);
        self.pc = adress;
        assert(self@ =~= old(self)@.call(adress)->Ok_0);
        Ok(())
    }

    /// `1nnn` and `0nnn`: sets the program counter to `val`.
    pub fn jmp(&mut self, val: u16)
        requires
            old(self).wf(),
        ensures
            final(self).wf(),
            final(self)@ == old(self)@.jmp(val),
    {
        self.pc = val;
    }

    /// `Bnnn`: sets the program counter to `adress + V0`.
    pub fn jp_v0(&mut self, adress: u16)
        requires
            old(self).wf(),
        ensures
            final(self).wf(),
            final(self)@ == old(self)@.jp_v0(adress),
    {
        self.pc = adress.wrapping_add(self.registers[0] as u16);
    }

    /// Moves the program counter past the next instruction if `cond` holds.
    fn skip_if(&mut self, cond: bool)
        requires
            old(self).wf(),
        ensures
            final(self).wf(),
            final(self)@ == old(self)@.skip_if(cond),
    {
        if cond {
            self.pc = self.pc.wrapping_add(2);
        }
    }

    /// `3xkk`: skips the next instruction if `Vindex == val`.
    pub fn se_vx(&mut self, index: u8, val: u8)
        requires
            old(self).wf(),
            index < 16,
        ensures
            final(self).wf(),
            final(self)@ == old(self)@.se_vx(index, val),
    {
        let cond: bool = self.registers[index as usize] == val;
        self.skip_if(cond);
    }

    /// `4xkk`: skips the next instruction if `Vindex != val`.
    pub fn sne_vx(&mut self, index: u8, val: u8)
        requires
            old(self).wf(),
            index < 16,
        ensures
            final(self).wf(),
            final(self)@ == old(self)@.sne_vx(index, val),
    {
        let cond: bool = self.registers[index as usize] != val;
        self.skip_if(cond);
    }

    /// `5xy0`: skips the next instruction if `Vx == Vy`.
    pub fn se_vx_vy(&mut self, x: u8, y: u8)
        requires
            old(self).wf(),
            x < 16,
            y < 16,
        ensures
            final(self).wf(),
            final(self)@ == old(self)@.se_vx_vy(x, y),
    {
        let cond: bool = self.registers[x as usize] == self.registers[y as usize];
        self.skip_if(cond);
    }

    /// `9xy0`: skips the next instruction if `Vx != Vy`.
    pub fn sne_vx_vy(&mut self, x: u8, y: u8)
        requires
            old(self).wf(),
            x < 16,
            y < 16,
        ensures
            final(self).wf(),
            final(self)@ == old(self)@.sne_vx_vy(x, y),
    {
        let cond: bool = self.registers[x as usize] != self.registers[y as usize];
        self.skip_if(cond);
    }

    /// `6xkk`: `Vindex = val`.
    pub fn ld_vx(&mut self, index: u8, val: u8)
        requires
            old(self).wf(),
            index < 16,
        ensures
            final(self).wf(),
            final(self)@ == old(self)@.ld_vx(index, val),
    {
        self.registers[index as usize] = val;
    }

    /// `7xkk`: `Vindex = (Vindex + val) mod 256`. `VF` is not a flag here.
    pub fn add_vx(&mut self, index: u8, val: u8)
        requires
            old(self).wf(),
            index < 16,
        ensures
            final(self).wf(),
            final(self)@ == old(self)@.add_vx(index, val),
            final(self)@.v(index) == (old(self)@.v(index) + val) % 256,
    {
        self.registers[index as usize] = self.registers[index as usize].wrapping_add(val);
    }

    /// `8xy0`: `Vx = Vy`.
    pub fn ld_vx_vy(&mut self, x: u8, y: u8)
        requires
            old(self).wf(),
            x < 16,
            y < 16,
        ensures
            final(self).wf(),
            final(self)@ == old(self)@.ld_vx_vy(x, y),
    {
        self.registers[x as usize] = self.registers[y as usize];
    }

    /// `8xy1`: `Vx = Vx | Vy`.
    pub fn or_vx_vy(&mut self, x: u8, y: u8)
        requires
            old(self).wf(),
            x < 16,
            y < 16,
        ensures
            final(self).wf(),
            final(self)@ == old(self)@.or_vx_vy(x, y),
    {
        self.registers[x as usize] = self.registers[x as usize] | self.registers[y as usize];
    }

    /// `8xy2`: `Vx = Vx & Vy`.
    pub fn and_vx_vy(&mut self, x: u8, y: u8)
        requires
            old(self).wf(),
            x < 16,
            y < 16,
        ensures
            final(self).wf(),
            final(self)@ == old(self)@.and_vx_vy(x, y),
    {
        self.registers[x as usize] = self.registers[x as usize] & self.registers[y as usize];
    }

    /// `8xy3`: `Vx = Vx ^ Vy`.
    pub fn xor_vx_vy(&mut self, x: u8, y: u8)
        requires
            old(self).wf(),
            x < 16,
            y < 16,
        ensures
            final(self).wf(),
            final(self)@ == old(self)@.xor_vx_vy(x, y),
    {
        self.registers[x as usize] = self.registers[x as usize] ^ self.registers[y as usize];
    }

    /// Writes the flag to `VF` and then the result to `Vx`.
    fn set_flag_and_register(&mut self, cond: bool, x: u8, value: u8)
        requires
            old(self).wf(),
            x < 16,
        ensures
            final(self).wf(),
            final(self)@ == old(self)@.with_flag_and_register(cond, x, value),
    {
        self.registers[15] = if cond {
            1
        } else {
            0
        };
        self.registers[x as usize] = value;
    }

    /// `8xy4`: `Vx = (Vx + Vy) mod 256`, and `VF` is 1 exactly when the sum
    /// is above 255.
    ///
    /// The flag is written first and the sum last, so where `x` is `0xF` the
    /// register holds the sum.
    pub fn add_vx_vy(&mut self, x: u8, y: u8)
        requires
            old(self).wf(),
            x < 16,
            y < 16,
        ensures
            final(self).wf(),
            final(self)@ == old(self)@.add_vx_vy(x, y),
            final(self)@.v(x) == (old(self)@.v(x) + old(self)@.v(y)) % 256,
            x != 0xF ==> final(self)@.v(0xF) == flag(old(self)@.v(x) + old(self)@.v(y) > 255),
    {
        let a: u8 = self.registers[x as usize];
        let b: u8 = self.registers[y as usize];
        let carry: bool = a as u16 + b as u16 > 0xFF;
        self.set_flag_and_register(carry, x, a.wrapping_add(b));
    }

    /// `8xy5`: `Vx = (Vx - Vy) mod 256`, and `VF` is 1 exactly when `Vx > Vy`;
    /// equal operands give 0 and no flag.
    ///
    /// The flag is written first and the difference last, so where `x` is
    /// `0xF` the register holds the difference.
    pub fn sub_vx_vy(&mut self, x: u8, y: u8)
        requires
            old(self).wf(),
            x < 16,
            y < 16,
        ensures
            final(self).wf(),
            final(self)@ == old(self)@.sub_vx_vy(x, y),
            final(self)@.v(x) == (old(self)@.v(x) - old(self)@.v(y)) % 256,
            x != 0xF ==> final(self)@.v(0xF) == flag(old(self)@.v(x) > old(self)@.v(y)),
    {
        let a: u8 = self.registers[x as usize];
        let b: u8 = self.registers[y as usize];
        self.set_flag_and_register(a > b, x, a.wrapping_sub(b));
    }

    /// `8xy7`: `Vx = (Vy - Vx) mod 256`, and `VF` is 1 exactly when `Vy > Vx`.
    ///
    /// The flag is written first and the difference last, so where `x` is
    /// `0xF` the register holds the difference.
    pub fn subn_vx_vy(&mut self, x: u8, y: u8)
        requires
            old(self).wf(),
            x < 16,
            y < 16,
        ensures
            final(self).wf(),
            final(self)@ == old(self)@.subn_vx_vy(x, y),
            final(self)@.v(x) == (old(self)@.v(y) - old(self)@.v(x)) % 256,
            x != 0xF ==> final(self)@.v(0xF) == flag(old(self)@.v(y) > old(self)@.v(x)),
    {
        let a: u8 = self.registers[x as usize];
        let b: u8 = self.registers[y as usize];
        self.set_flag_and_register(b > a, x, b.wrapping_sub(a));
    }

    /// `8xy6`: `Vx = Vx >> 1`, and `VF` is the bit that was shifted out, the
    /// lowest bit of the old value.
    ///
    /// The flag is written first and the shifted value last, so where `x` is
    /// `0xF` the register holds the shifted value.
    pub fn shr_vx(&mut self, x: u8)
        requires
            old(self).wf(),
            x < 16,
        ensures
            final(self).wf(),
            final(self)@ == old(self)@.shr_vx(x),
            final(self)@.v(x) == old(self)@.v(x) >> 1,
            x != 0xF ==> final(self)@.v(0xF) == old(self)@.v(x) & 1,
    {
        let a: u8 = self.registers[x as usize];
        assert(a >> 1 == a / 2 && a & 1 == a % 2) by (bit_vector);
        self.set_flag_and_register(a & 1 == 1, x, a >> 1);
    }

    /// `8xyE`: `Vx = (Vx * 2) mod 256`, and `VF` is the bit that was shifted
    /// out, the highest bit of the old value.
    ///
    /// The flag is written first and the shifted value last, so where `x` is
    /// `0xF` the register holds the shifted value.
    pub fn shl_vx(&mut self, x: u8)
        requires
            old(self).wf(),
            x < 16,
        ensures
            final(self).wf(),
            final(self)@ == old(self)@.shl_vx(x),
            final(self)@.v(x) == (old(self)@.v(x) * 2) % 256,
            x != 0xF ==> final(self)@.v(0xF) == old(self)@.v(x) >> 7,
    {
        let a: u8 = self.registers[x as usize];
        assert((a << 1) == (a * 2) % 256 && (a >> 7 == 1 <==> a >= 0x80) && (a >> 7 == 0 <==> a
            < 0x80)) by (bit_vector);
        self.set_flag_and_register(a >> 7 == 1, x, a << 1);
    }

    /// `Annn`: `I = val`.
    pub fn ld_i(&mut self, val: u16)
        requires
            old(self).wf(),
        ensures
            final(self).wf(),
            final(self)@ == old(self)@.ld_i(val),
    {
        self.i_register = val;
    }

    /// `Cxkk` once the random byte has been drawn: `Vindex = random & val`.
    pub fn rnd_vx(&mut self, index: u8, val: u8, random: u8)
        requires
            old(self).wf(),
            index < 16,
        ensures
            final(self).wf(),
            final(self)@ == old(self)@.rnd_vx(index, val, random),
    {
        self.registers[index as usize] = random & val;
    }
}

impl Cpu {
    /// `Dxyn`: draws the `n` bytes of memory from `I` on as a sprite with its
    /// top left corner at `(Vx, Vy)`. Every cell under a set sprite pixel is
    /// toggled, the coordinates wrapping round the screen's edges, and `VF`
    /// becomes 1 if a cell that was on went off, 0 otherwise.
    ///
    /// Fails with `OutOfBounds`, changing nothing, where the sprite would run
    /// past the end of memory.
    pub fn drw_vx_vy(&mut self, x: u8, y: u8, n: u8) -> (res: Result<(), Chip8Error>)
        requires
            old(self).wf(),
            x < 16,
            y < 16,
            n < 16,
        ensures
            final(self).wf(),
            follows(old(self)@.drw_vx_vy(x, y, n), old(self)@, final(self)@, res),
            res is Err <==> old(self)@.i_register + n > 4096,
    {
        let start: usize = self.i_register as usize;
        let end: usize = start + n as usize;
        if end > 4096 {
            return Err(Chip8Error::OutOfBounds);
        }
        let px: u8 = self.registers[x as usize];
        let py: u8 = self.registers[y as usize];
        let hit: bool = draw_sprite(&mut self.screen_buffer, px, py, &self.ram[start..end]);
        self.registers[15] = if hit {
            1
        } else {
            0
        };
        assert(self@ =~= old(self)@.drw_vx_vy(x, y, n)->Ok_0);
        Ok(())
    }

    /// `Ex9E`: skips the next instruction if the key whose number is in
    /// `Vindex` is down. A number above `0xF` names no key.
    pub fn skp_vx(&mut self, index: u8)
        requires
            old(self).wf(),
            index < 16,
        ensures
            final(self).wf(),
            final(self)@ == old(self)@.skp_vx(index),
    {
        let key: u8 = self.registers[index as usize];
        let down: bool = key < 16 && self.keys[key as usize];
        self.skip_if(down);
    }

    /// `ExA1`: skips the next instruction if the key whose number is in
    /// `Vindex` is not down. A number above `0xF` names no key.
    pub fn sknp_vx(&mut self, index: u8)
        requires
            old(self).wf(),
            index < 16,
        ensures
            final(self).wf(),
            final(self)@ == old(self)@.sknp_vx(index),
    {
        let key: u8 = self.registers[index as usize];
        let down: bool = key < 16 && self.keys[key as usize];
        self.skip_if(!down);
    }

    /// `Fx07`: `Vindex` = delay timer.
    pub fn ld_vx_dt(&mut self, index: u8)
        requires
            old(self).wf(),
            index < 16,
        ensures
            final(self).wf(),
            final(self)@ == old(self)@.ld_vx_dt(index),
    {
        self.registers[index as usize] = self.delta_timer as u8;
    }

    /// `Fx0A`: starts the wait for a key press. The program counter goes back
    /// by 2, onto this instruction, and stays there until `run` sees a key go
    /// down; `Vindex` then takes that key's number.
    pub fn ld_vx_k(&mut self, index: u8)
        requires
            old(self).wf(),
            index < 16,
        ensures
            final(self).wf(),
            final(self)@ == old(self)@.ld_vx_k(index),
    {
        self.awaiting_key = Some(index);
        self.wait_keys = self.keys;
        self.pc = self.pc.wrapping_sub(2);
    }

    /// `Fx15`: delay timer = `Vindex`.
    pub fn ld_dt_vx(&mut self, index: u8)
        requires
            old(self).wf(),
            index < 16,
        ensures
            final(self).wf(),
            final(self)@ == old(self)@.ld_dt_vx(index),
    {
        self.delta_timer = self.registers[index as usize] as u16;
    }

    /// `Fx18`: sound timer = `Vindex`.
    pub fn ld_st_vx(&mut self, index: u8)
        requires
            old(self).wf(),
            index < 16,
        ensures
            final(self).wf(),
            final(self)@ == old(self)@.ld_st_vx(index),
    {
        self.sub_timer = self.registers[index as usize] as u16;
    }

    /// `Fx1E`: `I = (I + Vindex) mod 65536`. No flag is set.
    pub fn add_i_vx(&mut self, index: u8)
        requires
            old(self).wf(),
            index < 16,
        ensures
            final(self).wf(),
            final(self)@ == old(self)@.add_i_vx(index),
    {
        self.i_register = self.i_register.wrapping_add(self.registers[index as usize] as u16);
    }

    /// `Fx29`: `I = Vindex * 5`, the address of the glyph for the digit in
    /// `Vindex`.
    pub fn ld_f_vx(&mut self, index: u8)
        requires
            old(self).wf(),
            index < 16,
        ensures
            final(self).wf(),
            final(self)@ == old(self)@.ld_f_vx(index),
    {
        self.i_register = self.registers[index as usize] as u16 * 5;
    }

    /// `Fx33`: stores the hundreds, tens and units of `Vindex` at `I`, `I + 1`
    /// and `I + 2`.
    ///
    /// Fails with `OutOfBounds`, changing nothing, where `I + 2` lies past the
    /// end of memory.
    pub fn ld_b_vx(&mut self, index: u8) -> (res: Result<(), Chip8Error>)
        requires
            old(self).wf(),
            index < 16,
        ensures
            final(self).wf(),
            follows(old(self)@.ld_b_vx(index), old(self)@, final(self)@, res),
            res is Err <==> old(self)@.i_register + 2 >= 4096,
    {
        let at: usize = self.i_register as usize;
        if at + 2 >= 4096 {
            return Err(Chip8Error::OutOfBounds);
        }
        let value: u8 = self.registers[index as usize];
        self.ram[at] = value / 100;
        self.ram[at + 1] = (value / 10) % 10;
        self.ram[at + 2] = value % 10;
        assert(self@ =~= old(self)@.ld_b_vx(index)->Ok_0);
        Ok(())
    }

    /// `Fx55`: stores `V0` to `Vindex`, in this order, at `I` and the
    /// addresses after it. `I` keeps its value.
    ///
    /// Fails with `OutOfBounds`, changing nothing, where `I + index` lies past
    /// the end of memory.
    pub fn ld_i_vx(&mut self, index: u8) -> (res: Result<(), Chip8Error>)
        requires
            old(self).wf(),
            index < 16,
        ensures
            final(self).wf(),
            follows(old(self)@.ld_i_vx(index), old(self)@, final(self)@, res),
            res is Err <==> old(self)@.i_register + index >= 4096,
    {
        let at: usize = self.i_register as usize;
        if at + index as usize >= 4096 {
            return Err(Chip8Error::OutOfBounds);
        }
        let mut i: usize = 0;
        while i <= index as usize
            invariant
                i <= index + 1,
                index < 16,
                at + index < 4096,
                forall|a: int| at <= a < at + i ==> self.ram@[a] == self.registers@[a - at],
                forall|a: int|
                    0 <= a < 4096 && !(at <= a < at + i) ==> self.ram@[a] == old(self).ram@[a],
                self.registers == old(self).registers,
                self.pc == old(self).pc,
                self.stack == old(self).stack,
                self.i_register == old(self).i_register,
                self.curr_opcode == old(self).curr_opcode,
                self.screen_buffer == old(self).screen_buffer,
                self.delta_timer == old(self).delta_timer,
                self.sub_timer == old(self).sub_timer,
                self.keys == old(self).keys,
                self.awaiting_key == old(self).awaiting_key,
                self.wait_keys == old(self).wait_keys,
            decreases index + 1 - i,
        {
            self.ram[at + i] = self.registers[i];
            i = i + 1;
        }
        assert(self@ =~= old(self)@.ld_i_vx(index)->Ok_0);
        Ok(())
    }

    /// `Fx65`: loads `V0` to `Vindex`, in this order, from `I` and the
    /// addresses after it. `I` keeps its value.
    ///
    /// Fails with `OutOfBounds`, changing nothing, where `I + index` lies past
    /// the end of memory.
    pub fn ld_vx_i(&mut self, index: u8) -> (res: Result<(), Chip8Error>)
        requires
            old(self).wf(),
            index < 16,
        ensures
            final(self).wf(),
            follows(old(self)@.ld_vx_i(index), old(self)@, final(self)@, res),
            res is Err <==> old(self)@.i_register + index >= 4096,
    {
        let at: usize = self.i_register as usize;
        if at + index as usize >= 4096 {
            return Err(Chip8Error::OutOfBounds);
        }
        let mut i: usize = 0;
        while i <= index as usize
            invariant
                i <= index + 1,
                index < 16,
                at + index < 4096,
                forall|k: int| 0 <= k < i ==> self.registers@[k] == self.ram@[at + k],
                forall|k: int| i <= k < 16 ==> self.registers@[k] == old(self).registers@[k],
                self.ram == old(self).ram,
                self.pc == old(self).pc,
                self.stack == old(self).stack,
                self.i_register == old(self).i_register,
                self.curr_opcode == old(self).curr_opcode,
                self.screen_buffer == old(self).screen_buffer,
                self.delta_timer == old(self).delta_timer,
                self.sub_timer == old(self).sub_timer,
                self.keys == old(self).keys,
                self.awaiting_key == old(self).awaiting_key,
                self.wait_keys == old(self).wait_keys,
            decreases index + 1 - i,
        {
            self.registers[i] = self.ram[at + i];
            i = i + 1;
        }
        assert(self@ =~= old(self)@.ld_vx_i(index)->Ok_0);
        Ok(())
    }
}

/// Draws one byte from the thread-local generator of the `rand` crate, with
/// `rand::thread_rng` and `Rng::gen_range` over the whole range of a byte.
/// Nothing is claimed of the byte that comes back: two calls may differ.
#[verifier::external_body]
fn random_byte() -> (r: u8) {
    rand::thread_rng().gen_range(0..=255u8)
}

impl Cpu {
    /// Executes one decoded instruction, with `random` as the byte that a
    /// random draw gives. Only `RndVx` looks at `random`.
    ///
    /// The instructions that can fail are `Ret` (`StackUnderflow`), `Call`
    /// (`StackOverflow`) and those that address memory through `I`
    /// (`OutOfBounds`); a failed instruction changes nothing.
    pub fn execute(&mut self, instr: Instruction, random: u8) -> (res: Result<(), Chip8Error>)
        requires
            old(self).wf(),
            instr.valid(),
        ensures
            final(self).wf(),
            follows(old(self)@.execute(instr, random), old(self)@, final(self)@, res),
    {
        match instr {
            Instruction::Sys { addr } => {
                self.jmp(addr);
                Ok(())
            },
            Instruction::Cls => {
                self.cls();
                Ok(())
            },
            Instruction::Ret => self.ret(),
            Instruction::Jmp { addr } => {
                self.jmp(addr);
                Ok(())
            },
            Instruction::Call { addr } => self.call(addr),
            Instruction::SeVx { x, val } => {
                self.se_vx(x, val);
                Ok(())
            },
            Instruction::SneVx { x, val } => {
                self.sne_vx(x, val);
                Ok(())
            },
            Instruction::SeVxVy { x, y } => {
                self.se_vx_vy(x, y);
                Ok(())
            },
            Instruction::LdVx { x, val } => {
                self.ld_vx(x, val);
                Ok(())
            },
            Instruction::AddVx { x, val } => {
                self.add_vx(x, val);
                Ok(())
            },
            Instruction::LdVxVy { x, y } => {
                self.ld_vx_vy(x, y);
                Ok(())
            },
            Instruction::OrVxVy { x, y } => {
                self.or_vx_vy(x, y);
                Ok(())
            },
            Instruction::AndVxVy { x, y } => {
                self.and_vx_vy(x, y);
                Ok(())
            },
            Instruction::XorVxVy { x, y } => {
                self.xor_vx_vy(x, y);
                Ok(())
            },
            Instruction::AddVxVy { x, y } => {
                self.add_vx_vy(x, y);
                Ok(())
            },
            Instruction::SubVxVy { x, y } => {
                self.sub_vx_vy(x, y);
                Ok(())
            },
            Instruction::ShrVx { x } => {
                self.shr_vx(x);
                Ok(())
            },
            Instruction::SubnVxVy { x, y } => {
                self.subn_vx_vy(x, y);
                Ok(())
            },
            Instruction::ShlVx { x } => {
                self.shl_vx(x);
                Ok(())
            },
            Instruction::SneVxVy { x, y } => {
                self.sne_vx_vy(x, y);
                Ok(())
            },
            Instruction::LdI { addr } => {
                self.ld_i(addr);
                Ok(())
            },
            Instruction::JpV0 { addr } => {
                self.jp_v0(addr);
                Ok(())
            },
            Instruction::RndVx { x, val } => {
                self.rnd_vx(x, val, random);
                Ok(())
            },
            Instruction::DrwVxVy { x, y, n } => self.drw_vx_vy(x, y, n),
            Instruction::SkpVx { x } => {
                self.skp_vx(x);
                Ok(())
            },
            Instruction::SknpVx { x } => {
                self.sknp_vx(x);
                Ok(())
            },
            Instruction::LdVxDt { x } => {
                self.ld_vx_dt(x);
                Ok(())
            },
            Instruction::LdVxK { x } => {
                self.ld_vx_k(x);
                Ok(())
            },
            Instruction::LdDtVx { x } => {
                self.ld_dt_vx(x);
                Ok(())
            },
            Instruction::LdStVx { x } => {
                self.ld_st_vx(x);
                Ok(())
            },
            Instruction::AddIVx { x } => {
                self.add_i_vx(x);
                Ok(())
            },
            Instruction::LdFVx { x } => {
                self.ld_f_vx(x);
                Ok(())
            },
            Instruction::LdBVx { x } => self.ld_b_vx(x),
            Instruction::LdIVx { x } => self.ld_i_vx(x),
            Instruction::LdVxI { x } => self.ld_vx_i(x),
        }
    }

    /// Decodes the current instruction word and executes it. A random draw is
    /// made where the word asks for one, and only there.
    ///
    /// Fails with `UnknownOpcode`, naming the word and the address two below
    /// the program counter, where the word encodes no instruction, and
    /// otherwise as `execute` does. A failure changes nothing.
    ///
    /// What is stated holds for some byte in place of the random draw; where
    /// the word asks for none, the byte does not matter and the outcome is the
    /// one that the model gives for any byte.
    pub fn decode_and_execute(&mut self) -> (res: Result<(), Chip8Error>)
        requires
            old(self).wf(),
        ensures
            final(self).wf(),
            exists|random: u8|
                follows(
                    #[trigger] old(self)@.decode_and_execute(random),
                    old(self)@,
                    final(self)@,
                    res,
                ),
            !old(self)@.draws_random() ==> follows(
                old(self)@.decode_and_execute(0),
                old(self)@,
                final(self)@,
                res,
            ),
    {
        match decode(self.curr_opcode) {
            None => {
                let res = Err(
                    Chip8Error::UnknownOpcode {
                        opcode: self.curr_opcode,
                        pc: self.pc.wrapping_sub(2),
                    },
                );
                assert(follows(old(self)@.decode_and_execute(0), old(self)@, self@, res));
                res
            },
            Some(instr) => {
                let random: u8 = match instr {
                    Instruction::RndVx { .. } => random_byte(),
                    _ => 0,
                };
                let res = self.execute(instr, random);
                assert(follows(old(self)@.decode_and_execute(random), old(self)@, self@, res));
                res
            },
        }
    }

    /// Finds the lowest key that is down now and was up when the wait for a
    /// key last looked.
    fn find_new_key(&self) -> (r: Option<u8>)
        ensures
            r == lowest_new_key(self@.wait_keys, self@.keys, 0),
    {
        let mut k: u8 = 16;
        let mut found: Option<u8> = None;
        while k > 0
            invariant
                k <= 16,
                found == lowest_new_key(self.wait_keys@, self.keys@, k as int),
            decreases k,
        {
            k = k - 1;
            if self.keys[k as usize] && !self.wait_keys[k as usize] {
                found = Some(k);
            }
        }
        found
    }

    /// One look at the keypad by a machine that waits for a key. If a key is
    /// down that was up at the last look, the lowest such key goes to the
    /// waiting register, the wait ends and the program counter moves on by 2,
    /// past the instruction that waited. If none is, the machine goes on
    /// waiting. Either way the keypad as it is now is what the next look
    /// compares with. A machine that does not wait only takes note of the
    /// keypad.
    pub fn poll_key(&mut self)
        requires
            old(self).wf(),
        ensures
            final(self).wf(),
            final(self)@ == old(self)@.poll_key(),
    {
        let found = self.find_new_key();
        match (self.awaiting_key, found) {
            (Some(x), Some(k)) => {
                self.registers[x as usize] = k;
                self.awaiting_key = None;
                self.pc = self.pc.wrapping_add(2);
            },
            _ => {},
        }
        self.wait_keys = self.keys;
    }

    /// One cycle of the machine.
    ///
    /// A machine that waits for a key looks at the keypad, as `poll_key` says,
    /// and does nothing else; this never fails. Any other machine fetches the
    /// instruction word at the program counter, decodes it and executes it.
    /// Where the fetch fails nothing changes; where decoding or executing
    /// fails the machine is left as the fetch left it.
    ///
    /// What is stated holds for some byte in place of the random draw; where
    /// the cycle makes none, the outcome is the one that the model gives for
    /// any byte.
    pub fn run(&mut self) -> (res: Result<(), Chip8Error>)
        requires
            old(self).wf(),
        ensures
            final(self).wf(),
            exists|random: u8| #[trigger] old(self)@.run(random) == (final(self)@, res),
            !old(self)@.next_draws_random() ==> old(self)@.run(0) == (final(self)@, res),
    {
        if self.awaiting_key.is_some() {
            self.poll_key();
            assert(old(self)@.run(0) == (self@, Ok::<(), Chip8Error>(())));
            return Ok(());
        }
        let adress: u16 = self.pc;
        match self.fetch(adress) {
            Err(e) => {
                assert(old(self)@.run(0) == (self@, Err::<(), Chip8Error>(e)));
                Err(e)
            },
            Ok(()) => {
                let ghost fetched = self@;
                let done = self.decode_and_execute();
                let res = match done {
                    Ok(_) => Ok(()),
                    Err(e) => Err(e),
                };
                proof {
                    let random = choose|random: u8|
                        follows(#[trigger] fetched.decode_and_execute(random), fetched, self@, done);
                    assert(old(self)@.fetch(old(self)@.pc) == Ok::<Machine, Chip8Error>(fetched));
                    assert(old(self)@.run(random) == (self@, res));
                    if !old(self)@.next_draws_random() {
                        assert(old(self)@.run(0) == (self@, res));
                    }
                }
                res
            },
        }
    }

    /// One tick of the 60 Hz clock: the delay timer and the sound timer each
    /// go down by one, unless they are zero already. Nothing else changes, and
    /// `run` never ticks.
    pub fn tick_timers(&mut self)
        requires
            old(self).wf(),
        ensures
            final(self).wf(),
            final(self)@ == old(self)@.tick_timers(),
    {
        if self.delta_timer > 0 {
            self.delta_timer = self.delta_timer - 1;
        }
        if self.sub_timer > 0 {
            self.sub_timer = self.sub_timer - 1;
        }
    }

    /// Replaces the keypad snapshot: `keys[k]` says whether key `k` is down.
    pub fn set_keys(&mut self, keys: [bool; 16])
        requires
            old(self).wf(),
        ensures
            final(self).wf(),
            final(self)@ == old(self)@.set_keys(keys@),
    {
        self.keys = keys;
    }

    /// A copy of the framebuffer as a flat array in row-major order: the
    /// pixel in column `col` of row `row` is at index `row * 64 + col`.
    pub fn get_framebuffer(&self) -> (pixels: [bool; 2048])
        ensures
            pixels@ == self@.screen,
    {
        self.screen_buffer
    }

    /// A copy of the framebuffer as a grid of 64 columns of 32 pixels each:
    /// `grid[col][row]` says whether the pixel in column `col` of row `row` is
    /// on.
    pub fn get_scree_buffer(&self) -> (grid: Vec<Vec<bool>>)
        ensures
            grid@.len() == 64,
            forall|col: int| 0 <= col < 64 ==> (#[trigger] grid@[col])@.len() == 32,
            forall|col: int, row: int|
                0 <= col < 64 && 0 <= row < 32 ==> grid@[col]@[row] == #[trigger] self@.pixel(
                    col,
                    row,
                ),
    {
        let mut grid: Vec<Vec<bool>> = Vec::new();
        let mut col: usize = 0;
        while col < 64
            invariant
                col <= 64,
                grid@.len() == col,
                forall|c: int| 0 <= c < col ==> (#[trigger] grid@[c])@.len() == 32,
                forall|c: int, r: int|
                    0 <= c < col && 0 <= r < 32 ==> grid@[c]@[r] == #[trigger] self@.pixel(c, r),
            decreases 64 - col,
        {
            let mut column: Vec<bool> = Vec::new();
            let mut row: usize = 0;
            while row < 32
                invariant
                    col < 64,
                    row <= 32,
                    column@.len() == row,
                    forall|r: int| 0 <= r < row ==> column@[r] == self@.pixel(col as int, r),
                decreases 32 - row,
            {
                column.push(self.screen_buffer[row * 64 + col]);
                row = row + 1;
            }
            grid.push(column);
            col = col + 1;
        }
        grid
    }
}

} // verus!
