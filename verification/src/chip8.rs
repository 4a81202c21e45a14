//! The executable machine.

use crate::canvas::canvas_pixels;
use crate::laws::lemma_step_without_random;
use crate::machine::{
    address_of, painted, sprite_cell, wrap8, Machine, StepError, CHARACTERS, DISPLAY_SIZE,
    FONT_SIZE, MAX_ROM_SIZE, MEMORY_SIZE, PROGRAM_START,
};
use crate::rom::Rom;
use drawille::Canvas;
use vstd::prelude::*;

verus! {

/// Pixels in a line of the display.
pub const WIDTH_PIX: usize = 64;

/// Lines of the display.
pub const HEIGHT_PIX: usize = 32;

/// A program that is too long to be loaded: `len` bytes, more than
/// `MAX_ROM_SIZE`.
#[derive(Clone, Copy, Debug, PartialEq, Eq, Structural)]
pub struct RomTooLarge {
    pub len: usize,
}

/// Chip 8 emulator state
#[derive(Debug, PartialEq)]
pub struct Chip8 {
    pub memory: [u8; MEMORY_SIZE],
    pub registers: [u8; 16],
    /// register for storing memory addresses
    pub i: u16,
    pub input: u8,
    /// these two registers are decremented once a cycle
    pub delay: u8,
    pub sound: u8,
    pub program_counter: u16,
    /// the stack stores the address that should be returned to
    pub stack: [u16; 16],
    pub stack_pointer: u8,
    pub display: [u8; DISPLAY_SIZE],
    pub rom: Rom,
    /// a preview of what was drawn, in braille dots
    pub canvas: Canvas,
}

impl View for Chip8 {
    type V = Machine;

    open spec fn view(&self) -> Machine {
        Machine {
            memory: self.memory@,
            registers: self.registers@,
            i: self.i,
            input: self.input,
            delay: self.delay,
            sound: self.sound,
            program_counter: self.program_counter,
            stack: self.stack@,
            stack_pointer: self.stack_pointer,
            display: self.display@,
            canvas: canvas_pixels(self.canvas),
        }
    }
}

impl Clone for Chip8 {
    /// A copy in the same state, with a copy of the program image and a copy
    /// of the canvas.
    fn clone(&self) -> (copy: Chip8)
        ensures
            copy@ == self@,
            copy.rom.name == self.rom.name,
            copy.rom.contents@ == self.rom.contents@,
    {
        Chip8 {
            memory: self.memory,
            registers: self.registers,
            i: self.i,
            input: self.input,
            delay: self.delay,
            sound: self.sound,
            program_counter: self.program_counter,
            stack: self.stack,
            stack_pointer: self.stack_pointer,
            display: self.display,
            rom: self.rom.clone(),
            canvas: self.canvas.clone(),
        }
    }
}

/// The view of an executable machine has the sizes of the machine, so what
/// the laws say of a well-formed machine holds of it.
pub proof fn lemma_view_wf(chip8: Chip8)
    ensures
        chip8@.wf(),
{
}

/// How a machine stands after an operation that was to make `expected` of it:
/// where that is a machine, the operation succeeded and left that machine;
/// where it is an error, the operation returned the error and changed
/// nothing. The program image stays either way.
pub open spec fn outcome(
    before: Chip8,
    expected: Result<Machine, StepError>,
    result: Result<(), StepError>,
    after: Chip8,
) -> bool {
    match expected {
        Ok(machine) => result is Ok && after@ == machine && after.rom == before.rom,
        Err(error) => result == Err::<(), StepError>(error) && after == before,
    }
}

/// The address that the nibbles `a1`, `a2` and `a3` spell, `a1` on top. An
/// argument above 15 is not cut down to a nibble: the upper bits of `a1` go
/// above the twelve bits of an address, those of `a2` are lost and those of
/// `a3` run into the place of `a2`.
pub fn assemble_addr(a1: u8, a2: u8, a3: u8) -> (address: u16)
    ensures
        address == ((a1 as u16) << 8) | (((a2 << 4) | a3) as u16),
        a1 < 16 && a2 < 16 && a3 < 16 ==> address == address_of(a1, a2, a3),
{
    let a_low: u16 = ((a2 << 4) | a3) as u16;
    let address = ((a1 as u16) << 8) | a_low;
    assert(a1 < 16 && a2 < 16 && a3 < 16 ==> (((a1 as u16) << 8) | (((a2 << 4) | a3) as u16)) == a1
        * 256 + a2 * 16 + a3) by (bit_vector);
    address
}

impl Chip8 {
    /// Loads `rom` into a new machine. A program of more than `MAX_ROM_SIZE`
    /// bytes does not fit and is turned down.
    pub fn new(rom: Rom) -> (made: Result<Chip8, RomTooLarge>)
        ensures
            rom.contents.len() <= MAX_ROM_SIZE ==> made is Ok,
            rom.contents.len() > MAX_ROM_SIZE ==> made == Err::<Chip8, RomTooLarge>(
                RomTooLarge { len: rom.contents.len() },
            ),
            made matches Ok(chip8) ==> {
                &&& chip8@ == Machine::initial(rom.contents@)
                &&& chip8.rom == rom
                &&& chip8@.memory.subrange(0, FONT_SIZE as int) == CHARACTERS@
                &&& chip8@.memory.subrange(
                    PROGRAM_START as int,
                    PROGRAM_START + rom.contents.len(),
                ) == rom.contents@
            },
    {
        let len = rom.contents.len();
        if len > MAX_ROM_SIZE {
            return Err(RomTooLarge { len });
        }
        let mut memory = [0u8;MEMORY_SIZE];
        let mut k: usize = 0;
        while k < len
            invariant
                len == rom.contents.len(),
                len <= MAX_ROM_SIZE,
                k <= len,
                forall|a: int|
                    0 <= a < MEMORY_SIZE ==> memory[a] == if PROGRAM_START <= a < PROGRAM_START
                        + k {
                        rom.contents[a - PROGRAM_START]
                    } else {
                        0u8
                    },
            decreases len - k,
        {
            memory[PROGRAM_START + k] = rom.contents[k];
            k += 1;
        }
        let mut k: usize = 0;
        while k < FONT_SIZE
            invariant
                len == rom.contents.len(),
                len <= MAX_ROM_SIZE,
                k <= FONT_SIZE,
                forall|a: int|
                    0 <= a < MEMORY_SIZE ==> memory[a] == if a < k {
                        CHARACTERS[a]
                    } else if PROGRAM_START <= a < PROGRAM_START + len {
                        rom.contents[a - PROGRAM_START]
                    } else {
                        0u8
                    },
            decreases FONT_SIZE - k,
        {
            memory[k] = CHARACTERS[k];
            k += 1;
        }
        let chip8 = Chip8 {
            memory,
            registers: [0;16],
            i: 0,
            input: 0,
            delay: 0,
            sound: 0,
            program_counter: PROGRAM_START as u16,
            stack: [0;16],
            stack_pointer: 0,
            display: [0;DISPLAY_SIZE],
            rom,
            canvas: Canvas::new(WIDTH_PIX as u32, HEIGHT_PIX as u32),
        };
        assert(chip8@ =~= Machine::initial(rom.contents@));
        assert(chip8@.memory.subrange(0, FONT_SIZE as int) =~= CHARACTERS@);
        assert(chip8@.memory.subrange(PROGRAM_START as int, PROGRAM_START + rom.contents.len())
            =~= rom.contents@);
        Ok(chip8)
    }

    /// Writes `data` into memory from `start_location` on.
    pub fn set_memory(&mut self, start_location: u16, data: Vec<u8>)
        requires
            start_location + data.len() <= MEMORY_SIZE,
        ensures
            final(self)@ == (Machine {
                memory: Seq::new(
                    MEMORY_SIZE as nat,
                    |a: int|
                        if start_location <= a < start_location + data.len() {
                            data[a - start_location]
                        } else {
                            old(self).memory[a]
                        },
                ),
                ..old(self)@
            }),
            final(self).rom == old(self).rom,
            final(self).canvas == old(self).canvas,
    {
        let start = start_location as usize;
        let mut k: usize = 0;
        while k < data.len()
            invariant
                start == start_location,
                start + data.len() <= MEMORY_SIZE,
                k <= data.len(),
                forall|a: int|
                    0 <= a < MEMORY_SIZE ==> self.memory[a] == if start <= a < start + k {
                        data[a - start]
                    } else {
                        old(self).memory[a]
                    },
                *self == (Chip8 { memory: self.memory, ..*old(self) }),
            decreases data.len() - k,
        {
            self.memory[start + k] = data[k];
            k += 1;
        }
    }

    /// Lowers each timer that is not zero by one.
    fn tick(&mut self)
        ensures
            final(self)@ == old(self)@.ticked(),
            final(self).rom == old(self).rom,
    {
        if self.delay > 0 {
            self.delay -= 1;
        }
        if self.sound > 0 {
            self.sound -= 1;
        }
    }

    /// Moves the program counter past the instruction, and past the one
    /// after it too if `skip` holds.
    fn skip_if(&mut self, skip: bool)
        ensures
            final(self)@ == old(self)@.skipping(skip),
            final(self).rom == old(self).rom,
    {
        if skip {
            self.program_counter = self.program_counter.wrapping_add(4);
        } else {
            self.program_counter = self.program_counter.wrapping_add(2);
        }
    }

    /// Clears the display.
    fn op_00e0(&mut self)
        ensures
            final(self)@ == old(self)@.op_00e0(),
            final(self).rom == old(self).rom,
    {
        let mut cell: usize = 0;
        while cell < DISPLAY_SIZE
            invariant
                cell <= DISPLAY_SIZE,
                forall|c: int| 0 <= c < cell ==> self.display[c] == 0,
                *self == (Chip8 { display: self.display, ..*old(self) }),
            decreases DISPLAY_SIZE - cell,
        {
            self.display[cell] = 0;
            cell += 1;
        }
        self.skip_if(false);
    }

    /// Returns from a call.
    fn op_00ee(&mut self) -> (result: Result<(), StepError>)
        ensures
            outcome(*old(self), old(self)@.op_00ee(), result, *final(self)),
    {
        if self.stack_pointer >= 16 {
            return Err(StepError::StackOutOfRange { program_counter: self.program_counter });
        }
        self.program_counter = self.stack[self.stack_pointer as usize].wrapping_add(2);
        self.stack_pointer = self.stack_pointer.wrapping_sub(1);
        Ok(())
    }

    /// Jumps to `address`.
    fn op_1nnn(&mut self, address: u16)
        ensures
            final(self)@ == old(self)@.op_1nnn(address),
            final(self).rom == old(self).rom,
    {
        self.program_counter = address;
    }

    /// Calls the routine at `address`.
    fn op_2nnn(&mut self, address: u16) -> (result: Result<(), StepError>)
        ensures
            outcome(*old(self), old(self)@.op_2nnn(address), result, *final(self)),
    {
        let pointer = self.stack_pointer.wrapping_add(1);
        if pointer >= 16 {
            return Err(StepError::StackOutOfRange { program_counter: self.program_counter });
        }
        self.stack_pointer = pointer;
        self.stack[pointer as usize] = self.program_counter;
        self.program_counter = address;
        Ok(())
    }

    /// Skips the next instruction if Vx is `kk`.
    fn op_3xkk(&mut self, x: u8, kk: u8)
        requires
            x < 16,
        ensures
            final(self)@ == old(self)@.op_3xkk(x, kk),
            final(self).rom == old(self).rom,
    {
        self.skip_if(self.registers[x as usize] == kk);
    }

    /// Skips the next instruction if Vx is not `kk`.
    fn op_4xkk(&mut self, x: u8, kk: u8)
        requires
            x < 16,
        ensures
            final(self)@ == old(self)@.op_4xkk(x, kk),
            final(self).rom == old(self).rom,
    {
        self.skip_if(self.registers[x as usize] != kk);
    }

    /// Skips the next instruction if Vx is Vy.
    fn op_5xy0(&mut self, x: u8, y: u8)
        requires
            x < 16,
            y < 16,
        ensures
            final(self)@ == old(self)@.op_5xy0(x, y),
            final(self).rom == old(self).rom,
    {
        self.skip_if(self.registers[x as usize] == self.registers[y as usize]);
    }

    /// Puts `kk` in Vx.
    fn op_6xkk(&mut self, x: u8, kk: u8)
        requires
            x < 16,
        ensures
            final(self)@ == old(self)@.op_6xkk(x, kk),
            final(self).rom == old(self).rom,
    {
        self.registers[x as usize] = kk;
        self.skip_if(false);
    }

    /// Adds `kk` to Vx.
    fn op_7xkk(&mut self, x: u8, kk: u8)
        requires
            x < 16,
        ensures
            final(self)@ == old(self)@.op_7xkk(x, kk),
            final(self).rom == old(self).rom,
    {
        self.registers[x as usize] = self.registers[x as usize].wrapping_add(kk);
        self.skip_if(false);
    }

    /// Adds Vy to Vx.
    fn op_8xy0(&mut self, x: u8, y: u8)
        requires
            x < 16,
            y < 16,
        ensures
            final(self)@ == old(self)@.op_8xy0(x, y),
            final(self).rom == old(self).rom,
    {
        self.registers[x as usize] = self.registers[x as usize].wrapping_add(
            self.registers[y as usize],
        );
        self.skip_if(false);
    }

    /// ORs Vy into Vx.
    fn op_8xy1(&mut self, x: u8, y: u8)
        requires
            x < 16,
            y < 16,
        ensures
            final(self)@ == old(self)@.op_8xy1(x, y),
            final(self).rom == old(self).rom,
    {
        self.registers[x as usize] = self.registers[x as usize] | self.registers[y as usize];
        self.skip_if(false);
    }

    /// ANDs Vy into Vx.
    fn op_8xy2(&mut self, x: u8, y: u8)
        requires
            x < 16,
            y < 16,
        ensures
            final(self)@ == old(self)@.op_8xy2(x, y),
            final(self).rom == old(self).rom,
    {
        self.registers[x as usize] = self.registers[x as usize] & self.registers[y as usize];
        self.skip_if(false);
    }

    /// XORs Vy into Vx.
    fn op_8xy3(&mut self, x: u8, y: u8)
        requires
            x < 16,
            y < 16,
        ensures
            final(self)@ == old(self)@.op_8xy3(x, y),
            final(self).rom == old(self).rom,
    {
        self.registers[x as usize] = self.registers[x as usize] ^ self.registers[y as usize];
        self.skip_if(false);
    }

    /// Adds Vy to Vx and keeps the carry in VF.
    fn op_8xy4(&mut self, x: u8, y: u8)
        requires
            x < 16,
            y < 16,
        ensures
            final(self)@ == old(self)@.op_8xy4(x, y),
            final(self).rom == old(self).rom,
    {
        let vx = self.registers[x as usize];
        let vy = self.registers[y as usize];
        self.registers[x as usize] = vx.wrapping_add(vy);
        self.registers[15] = if vx as u16 + vy as u16 > 0xFF {
            1
        } else {
            0
        };
        self.skip_if(false);
    }

    /// Takes Vy from Vx and keeps in VF whether nothing was borrowed.
    fn op_8xy5(&mut self, x: u8, y: u8)
        requires
            x < 16,
            y < 16,
        ensures
            final(self)@ == old(self)@.op_8xy5(x, y),
            final(self).rom == old(self).rom,
    {
        let vx = self.registers[x as usize];
        let vy = self.registers[y as usize];
        self.registers[x as usize] = vx.wrapping_sub(vy);
        self.registers[15] = if vx >= vy {
            1
        } else {
            0
        };
        self.skip_if(false);
    }

    /// Puts Vx OR 1 in VF and shifts Vx right.
    fn op_8xy6(&mut self, x: u8)
        requires
            x < 16,
        ensures
            final(self)@ == old(self)@.op_8xy6(x),
            final(self).rom == old(self).rom,
    {
        self.registers[15] = self.registers[x as usize] | 1;
        self.registers[x as usize] = self.registers[x as usize] >> 1;
        self.skip_if(false);
    }

    /// Puts Vy less Vx in Vx and keeps in VF whether nothing was borrowed.
    fn op_8xy7(&mut self, x: u8, y: u8)
        requires
            x < 16,
            y < 16,
        ensures
            final(self)@ == old(self)@.op_8xy7(x, y),
            final(self).rom == old(self).rom,
    {
        let vx = self.registers[x as usize];
        let vy = self.registers[y as usize];
        self.registers[x as usize] = vy.wrapping_sub(vx);
        self.registers[15] = if vy >= vx {
            1
        } else {
            0
        };
        self.skip_if(false);
    }

    /// Puts Vx OR 8 in VF and shifts Vx left.
    fn op_8xye(&mut self, x: u8)
        requires
            x < 16,
        ensures
            final(self)@ == old(self)@.op_8xye(x),
            final(self).rom == old(self).rom,
    {
        self.registers[15] = self.registers[x as usize] | 8;
        self.registers[x as usize] = self.registers[x as usize] << 1;
        self.skip_if(false);
    }

    /// Skips the next instruction if Vx is not Vy.
    fn op_9xy0(&mut self, x: u8, y: u8)
        requires
            x < 16,
            y < 16,
        ensures
            final(self)@ == old(self)@.op_9xy0(x, y),
            final(self).rom == old(self).rom,
    {
        self.skip_if(self.registers[x as usize] != self.registers[y as usize]);
    }

    /// Puts `address` in the address register.
    fn op_annn(&mut self, address: u16)
        ensures
            final(self)@ == old(self)@.op_annn(address),
            final(self).rom == old(self).rom,
    {
        self.i = address;
        self.skip_if(false);
    }

    /// Jumps to V0 plus `address`, and on by two.
    fn op_bnnn(&mut self, address: u16)
        ensures
            final(self)@ == old(self)@.op_bnnn(address),
            final(self).rom == old(self).rom,
    {
        self.program_counter = (self.registers[0] as u16).wrapping_add(address);
        self.skip_if(false);
    }

    /// Puts `random` AND `kk` in Vx.
    fn op_cxkk(&mut self, x: u8, kk: u8, random: u8)
        requires
            x < 16,
        ensures
            final(self)@ == old(self)@.op_cxkk(x, kk, random),
            final(self).rom == old(self).rom,
    {
        self.registers[x as usize] = random & kk;
        self.skip_if(false);
    }

    /// Puts the eight dots of `byte` on the canvas, from `(x, y)` to the
    /// right.
    fn paint_row(&mut self, x: u8, y: u8, byte: u8)
        ensures
            canvas_pixels(final(self).canvas) == painted(
                canvas_pixels(old(self).canvas),
                x as int,
                y as int,
                byte,
                8,
            ),
            *final(self) == (Chip8 { canvas: final(self).canvas, ..*old(self) }),
    {
        let mut dot: u8 = 0;
        while dot < 8
            invariant
                dot <= 8,
                canvas_pixels(self.canvas) == painted(
                    canvas_pixels(old(self).canvas),
                    x as int,
                    y as int,
                    byte,
                    dot as int,
                ),
                *self == (Chip8 { canvas: self.canvas, ..*old(self) }),
            decreases 8 - dot,
        {
            if (byte >> (7 - dot)) & 1 == 1 {
                self.canvas.set(x as u32 + dot as u32, y as u32);
            } else {
                self.canvas.unset(x as u32 + dot as u32, y as u32);
            }
            dot += 1;
        }
    }

    /// Draws line `row` of the sprite at the address register at `(px, py)`
    /// and says whether that cleared a pixel.
    fn draw_row(&mut self, px: u8, py: u8, row: u8) -> (erased: bool)
        requires
            old(self).i + row < MEMORY_SIZE,
        ensures
            final(self)@ == old(self)@.draw_row(px, py, row as int),
            erased == old(self)@.row_erases(px, py, row as int),
            final(self).rom == old(self).rom,
    {
        let line = py.wrapping_add(row);
        let cell = (px as usize / 8 + (line as usize * 8) % 256) % 256;
        assert(line == wrap8(py + row));
        assert(cell == sprite_cell(px, py, row as int));
        let sprite = self.memory[self.i as usize + row as usize];
        let erased = (self.display[cell] & sprite) != 0;
        let lit = self.display[cell] ^ sprite;
        self.display[cell] = lit;
        self.paint_row(px, line, lit);
        erased
    }

    /// Draws the sprite of `n` lines at the address register at `(Vx, Vy)`.
    fn op_dxyn(&mut self, x: u8, y: u8, n: u8) -> (result: Result<(), StepError>)
        requires
            x < 16,
            y < 16,
            n < 16,
        ensures
            outcome(*old(self), old(self)@.op_dxyn(x, y, n), result, *final(self)),
    {
        if n > 0 && self.i as usize + n as usize > MEMORY_SIZE {
            return Err(StepError::MemoryOutOfRange { program_counter: self.program_counter });
        }
        let px = self.registers[x as usize];
        let py = self.registers[y as usize];
        let mut changed = false;
        let mut row: u8 = 0;
        while row < n
            invariant
                row <= n,
                n > 0 ==> old(self).i + n <= MEMORY_SIZE,
                self.i == old(self).i,
                self@ == old(self)@.draw_rows(px, py, row as nat),
                changed == old(self)@.erases(px, py, row as nat),
                self.rom == old(self).rom,
            decreases n - row,
        {
            let erased = self.draw_row(px, py, row);
            changed = changed || erased;
            row += 1;
        }
        self.registers[15] = if changed {
            1
        } else {
            0
        };
        self.skip_if(false);
        Ok(())
    }

    /// Skips the next instruction if the key held down is Vx.
    fn op_ex9e(&mut self, x: u8)
        requires
            x < 16,
        ensures
            final(self)@ == old(self)@.op_ex9e(x),
            final(self).rom == old(self).rom,
    {
        self.skip_if(self.input == self.registers[x as usize]);
    }

    /// Skips the next instruction if the key held down is not Vx.
    fn op_exa1(&mut self, x: u8)
        requires
            x < 16,
        ensures
            final(self)@ == old(self)@.op_exa1(x),
            final(self).rom == old(self).rom,
    {
        self.skip_if(self.input != self.registers[x as usize]);
    }

    /// Puts the delay timer in Vx.
    fn op_fx07(&mut self, x: u8)
        requires
            x < 16,
        ensures
            final(self)@ == old(self)@.op_fx07(x),
            final(self).rom == old(self).rom,
    {
        self.registers[x as usize] = self.delay;
        self.skip_if(false);
    }

    /// Puts the key held down in Vx.
    fn op_fx0a(&mut self, x: u8)
        requires
            x < 16,
        ensures
            final(self)@ == old(self)@.op_fx0a(x),
            final(self).rom == old(self).rom,
    {
        self.registers[x as usize] = self.input;
        self.skip_if(false);
    }

    /// Puts Vx in the delay timer.
    fn op_fx15(&mut self, x: u8)
        requires
            x < 16,
        ensures
            final(self)@ == old(self)@.op_fx15(x),
            final(self).rom == old(self).rom,
    {
        self.delay = self.registers[x as usize];
        self.skip_if(false);
    }

    /// Puts Vx in the sound timer.
    fn op_fx18(&mut self, x: u8)
        requires
            x < 16,
        ensures
            final(self)@ == old(self)@.op_fx18(x),
            final(self).rom == old(self).rom,
    {
        self.sound = self.registers[x as usize];
        self.skip_if(false);
    }

    /// Adds Vx to the address register.
    fn op_fx1e(&mut self, x: u8)
        requires
            x < 16,
        ensures
            final(self)@ == old(self)@.op_fx1e(x),
            final(self).rom == old(self).rom,
    {
        self.i = self.i.wrapping_add(self.registers[x as usize] as u16);
        self.skip_if(false);
    }

    /// Points the address register at the glyph of Vx.
    fn op_fx29(&mut self, x: u8)
        requires
            x < 16,
        ensures
            final(self)@ == old(self)@.op_fx29(x),
            final(self).rom == old(self).rom,
    {
        self.i = self.registers[x as usize] as u16 * 5;
        self.skip_if(false);
    }

    /// Stores the three decimal digits of Vx at the address register.
    fn op_fx33(&mut self, x: u8) -> (result: Result<(), StepError>)
        requires
            x < 16,
        ensures
            outcome(*old(self), old(self)@.op_fx33(x), result, *final(self)),
    {
        let start = self.i as usize;
        if start + 3 > MEMORY_SIZE {
            return Err(StepError::MemoryOutOfRange { program_counter: self.program_counter });
        }
        let value = self.registers[x as usize];
        self.memory[start] = value / 100;
        self.memory[start + 1] = (value % 100) / 10;
        self.memory[start + 2] = value % 10;
        self.skip_if(false);
        Ok(())
    }

    /// Stores V0 to Vx at the address register.
    fn op_fx55(&mut self, x: u8) -> (result: Result<(), StepError>)
        requires
            x < 16,
        ensures
            outcome(*old(self), old(self)@.op_fx55(x), result, *final(self)),
    {
        let start = self.i as usize;
        if start + x as usize >= MEMORY_SIZE {
            return Err(StepError::MemoryOutOfRange { program_counter: self.program_counter });
        }
        let mut k: usize = 0;
        while k <= x as usize
            invariant
                x < 16,
                start == self.i,
                start + x < MEMORY_SIZE,
                k <= x + 1,
                forall|a: int|
                    0 <= a < MEMORY_SIZE ==> self.memory[a] == if start <= a < start + k {
                        old(self).registers[a - start]
                    } else {
                        old(self).memory[a]
                    },
                *self == (Chip8 { memory: self.memory, ..*old(self) }),
            decreases x + 1 - k,
        {
            self.memory[start + k] = self.registers[k];
            k += 1;
        }
        self.skip_if(false);
        assert(self@ =~= old(self)@.op_fx55(x)->Ok_0);
        Ok(())
    }

    /// Loads V0 to Vx from the address register.
    fn op_fx65(&mut self, x: u8) -> (result: Result<(), StepError>)
        requires
            x < 16,
        ensures
            outcome(*old(self), old(self)@.op_fx65(x), result, *final(self)),
    {
        let start = self.i as usize;
        if start + x as usize >= MEMORY_SIZE {
            return Err(StepError::MemoryOutOfRange { program_counter: self.program_counter });
        }
        let mut k: usize = 0;
        while k <= x as usize
            invariant
                x < 16,
                start == self.i,
                start + x < MEMORY_SIZE,
                k <= x + 1,
                forall|r: int|
                    0 <= r < 16 ==> self.registers[r] == if r < k {
                        old(self).memory[start + r]
                    } else {
                        old(self).registers[r]
                    },
                *self == (Chip8 { registers: self.registers, ..*old(self) }),
            decreases x + 1 - k,
        {
            self.registers[k] = self.memory[start + k];
            k += 1;
        }
        self.skip_if(false);
        assert(self@ =~= old(self)@.op_fx65(x)->Ok_0);
        Ok(())
    }

    /// Carries out the instruction with the nibbles `n1` to `n4`.
    fn execute(&mut self, n1: u8, n2: u8, n3: u8, n4: u8, random: u8) -> (result: Result<
        (),
        StepError,
    >)
        requires
            n1 < 16,
            n2 < 16,
            n3 < 16,
            n4 < 16,
        ensures
            outcome(
                *old(self),
                old(self)@.execute(n1, n2, n3, n4, random),
                result,
                *final(self),
            ),
    {
        proof {
            reveal(Machine::execute);
        }
        let x = n2;
        let y = n3;
        let kk = n3 << 4 | n4;
        let nnn = assemble_addr(n2, n3, n4);
        assert(n3 < 16 && n4 < 16 ==> (n3 << 4 | n4) == n3 * 16 + n4) by (bit_vector);
        match (n1, n2, n3, n4) {
            (0x0, 0x0, 0xE, 0x0) => {
                self.op_00e0();
                Ok(())
            },
            (0x0, 0x0, 0xE, 0xE) => self.op_00ee(),
            (0x1, _, _, _) => {
                self.op_1nnn(nnn);
                Ok(())
            },
            (0x2, _, _, _) => self.op_2nnn(nnn),
            (0x3, _, _, _) => {
                self.op_3xkk(x, kk);
                Ok(())
            },
            (0x4, _, _, _) => {
                self.op_4xkk(x, kk);
                Ok(())
            },
            (0x5, _, _, 0x0) => {
                self.op_5xy0(x, y);
                Ok(())
            },
            (0x6, _, _, _) => {
                self.op_6xkk(x, kk);
                Ok(())
            },
            (0x7, _, _, _) => {
                self.op_7xkk(x, kk);
                Ok(())
            },
            (0x8, _, _, 0x0) => {
                self.op_8xy0(x, y);
                Ok(())
            },
            (0x8, _, _, 0x1) => {
                self.op_8xy1(x, y);
                Ok(())
            },
            (0x8, _, _, 0x2) => {
                self.op_8xy2(x, y);
                Ok(())
            },
            (0x8, _, _, 0x3) => {
                self.op_8xy3(x, y);
                Ok(())
            },
            (0x8, _, _, 0x4) => {
                self.op_8xy4(x, y);
                Ok(())
            },
            (0x8, _, _, 0x5) => {
                self.op_8xy5(x, y);
                Ok(())
            },
            (0x8, _, _, 0x6) => {
                self.op_8xy6(x);
                Ok(())
            },
            (0x8, _, _, 0x7) => {
                self.op_8xy7(x, y);
                Ok(())
            },
            (0x8, _, _, 0xE) => {
                self.op_8xye(x);
                Ok(())
            },
            (0x9, _, _, 0x0) => {
                self.op_9xy0(x, y);
                Ok(())
            },
            (0xA, _, _, _) => {
                self.op_annn(nnn);
                Ok(())
            },
            (0xB, _, _, _) => {
                self.op_bnnn(nnn);
                Ok(())
            },
            (0xC, _, _, _) => {
                self.op_cxkk(x, kk, random);
                Ok(())
            },
            (0xD, _, _, _) => self.op_dxyn(x, y, n4),
            (0xE, _, 0x9, 0xE) => {
                self.op_ex9e(x);
                Ok(())
            },
            (0xE, _, 0xA, 0x1) => {
                self.op_exa1(x);
                Ok(())
            },
            (0xF, _, 0x0, 0x7) => {
                self.op_fx07(x);
                Ok(())
            },
            (0xF, _, 0x0, 0xA) => {
                self.op_fx0a(x);
                Ok(())
            },
            (0xF, _, 0x1, 0x5) => {
                self.op_fx15(x);
                Ok(())
            },
            (0xF, _, 0x1, 0x8) => {
                self.op_fx18(x);
                Ok(())
            },
            (0xF, _, 0x1, 0xE) => {
                self.op_fx1e(x);
                Ok(())
            },
            (0xF, _, 0x2, 0x9) => {
                self.op_fx29(x);
                Ok(())
            },
            (0xF, _, 0x3, 0x3) => self.op_fx33(x),
            (0xF, _, 0x5, 0x5) => self.op_fx55(x),
            (0xF, _, 0x6, 0x5) => self.op_fx65(x),
            _ => Err(
                StepError::UnknownOpcode { n1, n2, n3, n4, program_counter: self.program_counter },
            ),
        }
    }

    /// Whether the next instruction is the one that draws a random byte.
    pub fn draws_random(&self) -> (drawn: bool)
        ensures
            drawn == self@.draws_random(),
    {
        let pc = self.program_counter as usize;
        if pc + 1 < MEMORY_SIZE {
            let byte = self.memory[pc];
            assert(((byte & 0xF0) >> 4) == byte / 16) by (bit_vector);
            (byte & 0xF0) >> 4 == 0xC
        } else {
            false
        }
    }

    /// Runs one cycle in which the instruction that draws a random byte, if
    /// it is the one to run, draws `random`: fetches the instruction at the
    /// program counter, carries it out and lets the timers tick. Where the
    /// cycle cannot be carried out, the machine stays as it was and the error
    /// says why.
    pub fn step_with(&mut self, random: u8) -> (result: Result<(), StepError>)
        ensures
            outcome(*old(self), old(self)@.step(random), result, *final(self)),
    {
        let pc = self.program_counter as usize;
        if pc + 1 >= MEMORY_SIZE {
            return Err(StepError::MemoryOutOfRange { program_counter: self.program_counter });
        }
        let byte_1 = self.memory[pc];
        let n1 = (byte_1 & 0xF0) >> 4;
        let n2 = byte_1 & 0x0F;
        let byte_2 = self.memory[pc + 1];
        let n3 = (byte_2 & 0xF0) >> 4;
        let n4 = byte_2 & 0x0F;
        assert(((byte_1 & 0xF0) >> 4) == byte_1 / 16 && (byte_1 & 0x0F) == byte_1 % 16)
            by (bit_vector);
        assert(((byte_2 & 0xF0) >> 4) == byte_2 / 16 && (byte_2 & 0x0F) == byte_2 % 16)
            by (bit_vector);
        match self.execute(n1, n2, n3, n4, random) {
            Ok(()) => {
                self.tick();
                Ok(())
            },
            Err(error) => Err(error),
        }
    }

    /// Runs one cycle. The random byte, where the instruction asks for one,
    /// comes from the `rand` crate, so that cycle has one of the 256 outcomes
    /// of `step_with`; any other cycle has the one outcome that `step_with`
    /// has with every byte.
    pub fn step(&mut self) -> (result: Result<(), StepError>)
        ensures
            exists|random: u8|
                outcome(*old(self), #[trigger] old(self)@.step(random), result, *final(self)),
            !old(self)@.draws_random() ==> forall|random: u8|
                outcome(*old(self), #[trigger] old(self)@.step(random), result, *final(self)),
    {
        let random = if self.draws_random() {
            random_byte()
        } else {
            0
        };
        let result = self.step_with(random);
        proof {
            if !old(self)@.draws_random() {
                assert forall|other: u8|
                    outcome(
                        *old(self),
                        #[trigger] old(self)@.step(other),
                        result,
                        *self,
                    ) by {
                    lemma_step_without_random(old(self)@, random, other);
                }
            }
        }
        result
    }
}

/// Draws a byte from `rand::random`, the generator that the `rand` crate
/// keeps for the thread. Nothing is claimed of the byte.
#[verifier::external_body]
fn random_byte() -> (byte: u8) {
    rand::random::<u8>()
}

} // verus!
