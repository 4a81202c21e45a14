//! The machine as a mathematical value, and what one cycle does to it.
//!
//! Nothing here runs: the executable machine in `chip8` is proved to follow
//! these definitions instruction by instruction.

use vstd::prelude::*;

verus! {

/// Bytes of memory.
pub const MEMORY_SIZE: usize = 4096;

/// Where a program is loaded; the bytes below are kept for the interpreter.
pub const PROGRAM_START: usize = 0x200;

/// The longest program that fits above `PROGRAM_START`.
pub const MAX_ROM_SIZE: usize = 3584;

/// Bytes of the packed display: thirty-two lines of eight bytes.
pub const DISPLAY_SIZE: usize = 256;

/// Bytes of the glyphs: sixteen glyphs of five lines.
pub const FONT_SIZE: usize = 80;

/// The glyphs of the sixteen hexadecimal digits: five lines each, one byte a
/// line, the four pixels of a line in the byte's upper half.
pub const CHARACTERS: [u8; FONT_SIZE] = [
    0xF0, 0x90, 0x90, 0x90, 0xF0, // 0
    0x20, 0x60, 0x20, 0x20, 0x70, // 1
    0xF0, 0x10, 0xF0, 0x80, 0xF0, // 2
    0xF0, 0x10, 0xF0, 0x10, 0xF0, // 3
    0x90, 0x90, 0xF0, 0x10, 0x10, // 4
    0xF0, 0x80, 0xF0, 0x10, 0xF0, // 5
    0xF0, 0x80, 0xF0, 0x90, 0xF0, // 6
    0xF0, 0x10, 0x20, 0x40, 0x40, // 7
    0xF0, 0x90, 0xF0, 0x90, 0xF0, // 8
    0xF0, 0x90, 0xF0, 0x10, 0xF0, // 9
    0xF0, 0x90, 0xF0, 0x90, 0x90, // a
    0xE0, 0x90, 0xE0, 0x90, 0xE0, // b
    0xF0, 0x80, 0x80, 0x80, 0xF0, // c
    0xE0, 0x90, 0x90, 0x90, 0xE0, // d
    0xF0, 0x80, 0xF0, 0x80, 0xF0, // e
    0xF0, 0x80, 0xF0, 0x80, 0x80, // f
];

/// Why a cycle could not be carried out. The machine is left as it was.
#[derive(Clone, Copy, Debug, PartialEq, Eq, Structural)]
pub enum StepError {
    /// The four nibbles at `program_counter` are no instruction.
    UnknownOpcode { n1: u8, n2: u8, n3: u8, n4: u8, program_counter: u16 },
    /// The instruction at `program_counter`, or the fetch of it, reaches past
    /// the end of memory.
    MemoryOutOfRange { program_counter: u16 },
    /// The call or return at `program_counter` needs a stack slot that does
    /// not exist.
    StackOutOfRange { program_counter: u16 },
}

/// `v` reduced to eight bits.
pub open spec fn wrap8(v: int) -> u8 {
    (v % 0x100) as u8
}

/// `v` reduced to sixteen bits.
pub open spec fn wrap16(v: int) -> u16 {
    (v % 0x1_0000) as u16
}

/// The upper four bits of a byte.
pub open spec fn high_nibble(byte: u8) -> u8 {
    byte / 16
}

/// The lower four bits of a byte.
pub open spec fn low_nibble(byte: u8) -> u8 {
    byte % 16
}

/// The byte that two nibbles spell.
pub open spec fn byte_of(n1: u8, n2: u8) -> u8 {
    (n1 * 16 + n2) as u8
}

/// The address that three nibbles spell.
pub open spec fn address_of(n1: u8, n2: u8, n3: u8) -> u16 {
    (n1 * 256 + n2 * 16 + n3) as u16
}

/// Whether four nibbles are an instruction of the machine.
pub open spec fn is_instruction(n1: u8, n2: u8, n3: u8, n4: u8) -> bool {
    match (n1, n2, n3, n4) {
        (0x0, 0x0, 0xE, 0x0) => true,
        (0x0, 0x0, 0xE, 0xE) => true,
        (0x1, _, _, _) => true,
        (0x2, _, _, _) => true,
        (0x3, _, _, _) => true,
        (0x4, _, _, _) => true,
        (0x5, _, _, 0x0) => true,
        (0x6, _, _, _) => true,
        (0x7, _, _, _) => true,
        (0x8, _, _, 0x0) => true,
        (0x8, _, _, 0x1) => true,
        (0x8, _, _, 0x2) => true,
        (0x8, _, _, 0x3) => true,
        (0x8, _, _, 0x4) => true,
        (0x8, _, _, 0x5) => true,
        (0x8, _, _, 0x6) => true,
        (0x8, _, _, 0x7) => true,
        (0x8, _, _, 0xE) => true,
        (0x9, _, _, 0x0) => true,
        (0xA, _, _, _) => true,
        (0xB, _, _, _) => true,
        (0xC, _, _, _) => true,
        (0xD, _, _, _) => true,
        (0xE, _, 0x9, 0xE) => true,
        (0xE, _, 0xA, 0x1) => true,
        (0xF, _, 0x0, 0x7) => true,
        (0xF, _, 0x0, 0xA) => true,
        (0xF, _, 0x1, 0x5) => true,
        (0xF, _, 0x1, 0x8) => true,
        (0xF, _, 0x1, 0xE) => true,
        (0xF, _, 0x2, 0x9) => true,
        (0xF, _, 0x3, 0x3) => true,
        (0xF, _, 0x5, 0x5) => true,
        (0xF, _, 0x6, 0x5) => true,
        _ => false,
    }
}

/// The display byte that line `row` of a sprite drawn at `(px, py)` lands on.
/// The sum is taken in eight bits, so it always names one of the 256 bytes;
/// the column is `px / 8`, whatever the lower three bits of `px` are.
pub open spec fn sprite_cell(px: u8, py: u8, row: int) -> int {
    wrap8(px / 8 + wrap8(wrap8(py + row) * 8)) as int
}

/// Whether dot `dot` of a line of eight, counted from the left, is lit in
/// `byte`: whether bit `7 - dot` of the byte is 1.
pub open spec fn dot_lit(byte: u8, dot: int) -> bool {
    (byte >> ((7 - dot) as u8)) & 1 == 1
}

/// The canvas after the first `dots` dots of one line of eight have been put
/// on it at `(x, y)`, `(x + 1, y)` and so on: a dot that is lit in `byte` is
/// set, one that is not is cleared, and the rest of the canvas stays.
pub open spec fn painted(canvas: Set<(int, int)>, x: int, y: int, byte: u8, dots: int) -> Set<
    (int, int),
> {
    Set::new(
        |p: (int, int)|
            if p.1 == y && x <= p.0 < x + dots {
                dot_lit(byte, p.0 - x)
            } else {
                canvas.contains(p)
            },
    )
}

/// The whole state of a machine.
#[verifier::ext_equal]
pub struct Machine {
    /// 4096 bytes.
    pub memory: Seq<u8>,
    /// V0 to VF.
    pub registers: Seq<u8>,
    /// The address register.
    pub i: u16,
    /// The key that is held down, as the host last wrote it.
    pub input: u8,
    /// The delay timer.
    pub delay: u8,
    /// The sound timer.
    pub sound: u8,
    /// Where the next instruction is fetched.
    pub program_counter: u16,
    /// Sixteen return addresses.
    pub stack: Seq<u16>,
    /// The slot of the return address pushed last.
    pub stack_pointer: u8,
    /// 256 bytes, eight to a line, one bit a pixel.
    pub display: Seq<u8>,
    /// The pixels that are set on the preview canvas.
    pub canvas: Set<(int, int)>,
}

impl Machine {
    /// The parts have the sizes of the machine.
    pub open spec fn wf(self) -> bool {
        &&& self.memory.len() == MEMORY_SIZE
        &&& self.registers.len() == 16
        &&& self.stack.len() == 16
        &&& self.display.len() == DISPLAY_SIZE
    }

    /// The machine as it stands when `rom` has been loaded: the glyphs at the
    /// bottom of memory, the program from `PROGRAM_START` on, the program
    /// counter at its first byte and everything else zero.
    pub open spec fn initial(rom: Seq<u8>) -> Machine {
        Machine {
            memory: Seq::new(
                MEMORY_SIZE as nat,
                |a: int|
                    if a < FONT_SIZE {
                        CHARACTERS[a]
                    } else if PROGRAM_START <= a < PROGRAM_START + rom.len() {
                        rom[a - PROGRAM_START]
                    } else {
                        0u8
                    },
            ),
            registers: Seq::new(16, |k: int| 0u8),
            i: 0,
            input: 0,
            delay: 0,
            sound: 0,
            program_counter: PROGRAM_START as u16,
            stack: Seq::new(16, |k: int| 0u16),
            stack_pointer: 0,
            display: Seq::new(DISPLAY_SIZE as nat, |c: int| 0u8),
            canvas: Set::empty(),
        }
    }

    /// Register `x`.
    pub open spec fn v(self, x: u8) -> u8 {
        self.registers[x as int]
    }

    /// The machine with `value` in register `x`.
    pub open spec fn with_v(self, x: u8, value: u8) -> Machine {
        Machine { registers: self.registers.update(x as int, value), ..self }
    }

    /// The machine with the program counter at `address`.
    pub open spec fn at(self, address: u16) -> Machine {
        Machine { program_counter: address, ..self }
    }

    /// The machine with the program counter moved on by `bytes`.
    pub open spec fn advanced(self, bytes: int) -> Machine {
        self.at(wrap16(self.program_counter + bytes))
    }

    /// The machine with the program counter past the instruction, and past
    /// the one after it too if `skip` holds.
    pub open spec fn skipping(self, skip: bool) -> Machine {
        if skip {
            self.advanced(4)
        } else {
            self.advanced(2)
        }
    }

    /// 00E0: every pixel of the display is cleared.
    pub open spec fn op_00e0(self) -> Machine {
        Machine { display: Seq::new(DISPLAY_SIZE as nat, |c: int| 0u8), ..self }.advanced(2)
    }

    /// 00EE: the program goes on two bytes after the address in the stack
    /// slot that the stack pointer names, and the pointer moves down by one,
    /// from 0 to 255. With the pointer at 16 or more there is no such slot.
    pub open spec fn op_00ee(self) -> Result<Machine, StepError> {
        if self.stack_pointer < 16 {
            Ok(
                Machine {
                    stack_pointer: wrap8(self.stack_pointer - 1),
                    ..self
                }.at(wrap16(self.stack[self.stack_pointer as int] + 2)),
            )
        } else {
            Err(StepError::StackOutOfRange { program_counter: self.program_counter })
        }
    }

    /// 1nnn: the program goes on at `address`.
    pub open spec fn op_1nnn(self, address: u16) -> Machine {
        self.at(address)
    }

    /// 2nnn: the stack pointer moves up by one, from 255 to 0; the address of
    /// this instruction is put in the slot it then names, and the program goes
    /// on at `address`. With the pointer moved to 16 or more there is no such
    /// slot.
    pub open spec fn op_2nnn(self, address: u16) -> Result<Machine, StepError> {
        let pointer = wrap8(self.stack_pointer + 1);
        if pointer < 16 {
            Ok(
                Machine {
                    stack_pointer: pointer,
                    stack: self.stack.update(pointer as int, self.program_counter),
                    ..self
                }.at(address),
            )
        } else {
            Err(StepError::StackOutOfRange { program_counter: self.program_counter })
        }
    }

    /// 3xkk: the next instruction is skipped if Vx is `kk`.
    pub open spec fn op_3xkk(self, x: u8, kk: u8) -> Machine {
        self.skipping(self.v(x) == kk)
    }

    /// 4xkk: the next instruction is skipped if Vx is not `kk`.
    pub open spec fn op_4xkk(self, x: u8, kk: u8) -> Machine {
        self.skipping(self.v(x) != kk)
    }

    /// 5xy0: the next instruction is skipped if Vx is Vy.
    pub open spec fn op_5xy0(self, x: u8, y: u8) -> Machine {
        self.skipping(self.v(x) == self.v(y))
    }

    /// 6xkk: Vx becomes `kk`.
    pub open spec fn op_6xkk(self, x: u8, kk: u8) -> Machine {
        self.with_v(x, kk).advanced(2)
    }

    /// 7xkk: `kk` is added to Vx, in eight bits.
    pub open spec fn op_7xkk(self, x: u8, kk: u8) -> Machine {
        self.with_v(x, wrap8(self.v(x) + kk)).advanced(2)
    }

    /// 8xy0: Vy is added to Vx, in eight bits, and no flag is kept.
    pub open spec fn op_8xy0(self, x: u8, y: u8) -> Machine {
        self.with_v(x, wrap8(self.v(x) + self.v(y))).advanced(2)
    }

    /// 8xy1: Vx becomes Vx OR Vy.
    pub open spec fn op_8xy1(self, x: u8, y: u8) -> Machine {
        self.with_v(x, self.v(x) | self.v(y)).advanced(2)
    }

    /// 8xy2: Vx becomes Vx AND Vy.
    pub open spec fn op_8xy2(self, x: u8, y: u8) -> Machine {
        self.with_v(x, self.v(x) & self.v(y)).advanced(2)
    }

    /// 8xy3: Vx becomes Vx XOR Vy.
    pub open spec fn op_8xy3(self, x: u8, y: u8) -> Machine {
        self.with_v(x, self.v(x) ^ self.v(y)).advanced(2)
    }

    /// 8xy4: Vy is added to Vx, in eight bits; then VF becomes 1 if the sum
    /// did not fit and 0 if it did.
    pub open spec fn op_8xy4(self, x: u8, y: u8) -> Machine {
        let sum = self.v(x) + self.v(y);
        self.with_v(x, wrap8(sum)).with_v(
            15,
            if sum > 0xFF {
                1
            } else {
                0
            },
        ).advanced(2)
    }

    /// 8xy5: Vy is taken from Vx, in eight bits; then VF becomes 1 if nothing
    /// had to be borrowed and 0 if something had.
    pub open spec fn op_8xy5(self, x: u8, y: u8) -> Machine {
        let difference = self.v(x) - self.v(y);
        self.with_v(x, wrap8(difference)).with_v(
            15,
            if difference >= 0 {
                1
            } else {
                0
            },
        ).advanced(2)
    }

    /// 8xy6: VF becomes Vx OR 1; then Vx is shifted right by one bit.
    pub open spec fn op_8xy6(self, x: u8) -> Machine {
        let flagged = self.with_v(15, self.v(x) | 1);
        flagged.with_v(x, flagged.v(x) >> 1).advanced(2)
    }

    /// 8xy7: Vx becomes Vy less Vx, in eight bits; then VF becomes 1 if
    /// nothing had to be borrowed and 0 if something had.
    pub open spec fn op_8xy7(self, x: u8, y: u8) -> Machine {
        let difference = self.v(y) - self.v(x);
        self.with_v(x, wrap8(difference)).with_v(
            15,
            if difference >= 0 {
                1
            } else {
                0
            },
        ).advanced(2)
    }

    /// 8xyE: VF becomes Vx OR 8; then Vx is shifted left by one bit.
    pub open spec fn op_8xye(self, x: u8) -> Machine {
        let flagged = self.with_v(15, self.v(x) | 8);
        flagged.with_v(x, flagged.v(x) << 1).advanced(2)
    }

    /// 9xy0: the next instruction is skipped if Vx is not Vy.
    pub open spec fn op_9xy0(self, x: u8, y: u8) -> Machine {
        self.skipping(self.v(x) != self.v(y))
    }

    /// Annn: the address register becomes `address`.
    pub open spec fn op_annn(self, address: u16) -> Machine {
        Machine { i: address, ..self }.advanced(2)
    }

    /// Bnnn: the program counter becomes V0 plus `address`, and the cycle then
    /// moves it on by two like after any instruction that is no jump or call.
    pub open spec fn op_bnnn(self, address: u16) -> Machine {
        self.at(wrap16(self.v(0) + address)).advanced(2)
    }

    /// Cxkk: Vx becomes `random` AND `kk`.
    pub open spec fn op_cxkk(self, x: u8, kk: u8, random: u8) -> Machine {
        self.with_v(x, random & kk).advanced(2)
    }

    /// Line `row` of the sprite at the address register.
    pub open spec fn sprite_line(self, row: int) -> u8 {
        self.memory[self.i + row]
    }

    /// The machine after line `row` of the sprite at the address register
    /// has been drawn at `(px, py)`: the line is XORed onto its display byte,
    /// and the eight dots of the byte that results are put on the canvas from
    /// `(px, py + row)` to the right.
    pub open spec fn draw_row(self, px: u8, py: u8, row: int) -> Machine {
        let cell = sprite_cell(px, py, row);
        let byte = self.display[cell] ^ self.sprite_line(row);
        Machine {
            display: self.display.update(cell, byte),
            canvas: painted(self.canvas, px as int, wrap8(py + row) as int, byte, 8),
            ..self
        }
    }

    /// Whether drawing line `row` of the sprite at `(px, py)` clears a pixel
    /// that is set: whether the line and its display byte have a bit in
    /// common.
    pub open spec fn row_erases(self, px: u8, py: u8, row: int) -> bool {
        (self.display[sprite_cell(px, py, row)] & self.sprite_line(row)) != 0
    }

    /// The machine after the first `rows` lines of the sprite have been drawn
    /// at `(px, py)`, one after the other.
    pub open spec fn draw_rows(self, px: u8, py: u8, rows: nat) -> Machine
        decreases rows,
    {
        if rows == 0 {
            self
        } else {
            self.draw_rows(px, py, (rows - 1) as nat).draw_row(px, py, rows - 1)
        }
    }

    /// Whether drawing the first `rows` lines of the sprite at `(px, py)`
    /// clears a pixel that was set when its line was drawn.
    pub open spec fn erases(self, px: u8, py: u8, rows: nat) -> bool
        decreases rows,
    {
        if rows == 0 {
            false
        } else {
            self.erases(px, py, (rows - 1) as nat) || self.draw_rows(
                px,
                py,
                (rows - 1) as nat,
            ).row_erases(px, py, rows - 1)
        }
    }

    /// Dxyn: the `n` lines of the sprite at the address register are drawn at
    /// `(Vx, Vy)`; then VF becomes 1 if that cleared a pixel and 0 if not. A
    /// sprite of one line or more has to lie within memory.
    pub open spec fn op_dxyn(self, x: u8, y: u8, n: u8) -> Result<Machine, StepError> {
        if n == 0 || self.i + n <= MEMORY_SIZE {
            let drawn = self.draw_rows(self.v(x), self.v(y), n as nat);
            Ok(
                drawn.with_v(
                    15,
                    if self.erases(self.v(x), self.v(y), n as nat) {
                        1
                    } else {
                        0
                    },
                ).advanced(2),
            )
        } else {
            Err(StepError::MemoryOutOfRange { program_counter: self.program_counter })
        }
    }

    /// Ex9E: the next instruction is skipped if the key held down is Vx.
    pub open spec fn op_ex9e(self, x: u8) -> Machine {
        self.skipping(self.input == self.v(x))
    }

    /// ExA1: the next instruction is skipped if the key held down is not Vx.
    pub open spec fn op_exa1(self, x: u8) -> Machine {
        self.skipping(self.input != self.v(x))
    }

    /// Fx07: Vx becomes the delay timer.
    pub open spec fn op_fx07(self, x: u8) -> Machine {
        self.with_v(x, self.delay).advanced(2)
    }

    /// Fx0A: Vx becomes the key held down; the machine does not wait for one.
    pub open spec fn op_fx0a(self, x: u8) -> Machine {
        self.with_v(x, self.input).advanced(2)
    }

    /// Fx15: the delay timer becomes Vx.
    pub open spec fn op_fx15(self, x: u8) -> Machine {
        Machine { delay: self.v(x), ..self }.advanced(2)
    }

    /// Fx18: the sound timer becomes Vx.
    pub open spec fn op_fx18(self, x: u8) -> Machine {
        Machine { sound: self.v(x), ..self }.advanced(2)
    }

    /// Fx1E: Vx is added to the address register, in sixteen bits.
    pub open spec fn op_fx1e(self, x: u8) -> Machine {
        Machine { i: wrap16(self.i + self.v(x)), ..self }.advanced(2)
    }

    /// Fx29: the address register becomes the address of the glyph of Vx,
    /// five times Vx.
    pub open spec fn op_fx29(self, x: u8) -> Machine {
        Machine { i: (self.v(x) * 5) as u16, ..self }.advanced(2)
    }

    /// Fx33: the hundreds, tens and units of Vx are stored in the three bytes
    /// at the address register, which have to lie within memory.
    pub open spec fn op_fx33(self, x: u8) -> Result<Machine, StepError> {
        if self.i + 3 <= MEMORY_SIZE {
            let value = self.v(x);
            Ok(
                Machine {
                    memory: self.memory.update(self.i as int, value / 100).update(
                        self.i + 1,
                        (value % 100) / 10,
                    ).update(self.i + 2, value % 10),
                    ..self
                }.advanced(2),
            )
        } else {
            Err(StepError::MemoryOutOfRange { program_counter: self.program_counter })
        }
    }

    /// Fx55: V0 to Vx are stored in the bytes from the address register on,
    /// which have to lie within memory.
    pub open spec fn op_fx55(self, x: u8) -> Result<Machine, StepError> {
        if self.i + x < MEMORY_SIZE {
            Ok(
                Machine {
                    memory: Seq::new(
                        MEMORY_SIZE as nat,
                        |a: int|
                            if self.i <= a <= self.i + x {
                                self.registers[a - self.i]
                            } else {
                                self.memory[a]
                            },
                    ),
                    ..self
                }.advanced(2),
            )
        } else {
            Err(StepError::MemoryOutOfRange { program_counter: self.program_counter })
        }
    }

    /// Fx65: V0 to Vx are loaded from the bytes from the address register on,
    /// which have to lie within memory.
    pub open spec fn op_fx65(self, x: u8) -> Result<Machine, StepError> {
        if self.i + x < MEMORY_SIZE {
            Ok(
                Machine {
                    registers: Seq::new(
                        16,
                        |k: int|
                            if k <= x {
                                self.memory[self.i + k]
                            } else {
                                self.registers[k]
                            },
                    ),
                    ..self
                }.advanced(2),
            )
        } else {
            Err(StepError::MemoryOutOfRange { program_counter: self.program_counter })
        }
    }

    /// What the instruction with the nibbles `n1` to `n4` makes of the
    /// machine, the program counter included, or why it cannot be carried out.
    /// `random` is the byte that Cxkk draws. The table is long, so a proof
    /// sees it only where it asks for it with `reveal(Machine::execute)`.
    #[verifier::opaque]
    pub open spec fn execute(self, n1: u8, n2: u8, n3: u8, n4: u8, random: u8) -> Result<
        Machine,
        StepError,
    > {
        let x = n2;
        let y = n3;
        let kk = byte_of(n3, n4);
        let nnn = address_of(n2, n3, n4);
        match (n1, n2, n3, n4) {
            (0x0, 0x0, 0xE, 0x0) => Ok(self.op_00e0()),
            (0x0, 0x0, 0xE, 0xE) => self.op_00ee(),
            (0x1, _, _, _) => Ok(self.op_1nnn(nnn)),
            (0x2, _, _, _) => self.op_2nnn(nnn),
            (0x3, _, _, _) => Ok(self.op_3xkk(x, kk)),
            (0x4, _, _, _) => Ok(self.op_4xkk(x, kk)),
            (0x5, _, _, 0x0) => Ok(self.op_5xy0(x, y)),
            (0x6, _, _, _) => Ok(self.op_6xkk(x, kk)),
            (0x7, _, _, _) => Ok(self.op_7xkk(x, kk)),
            (0x8, _, _, 0x0) => Ok(self.op_8xy0(x, y)),
            (0x8, _, _, 0x1) => Ok(self.op_8xy1(x, y)),
            (0x8, _, _, 0x2) => Ok(self.op_8xy2(x, y)),
            (0x8, _, _, 0x3) => Ok(self.op_8xy3(x, y)),
            (0x8, _, _, 0x4) => Ok(self.op_8xy4(x, y)),
            (0x8, _, _, 0x5) => Ok(self.op_8xy5(x, y)),
            (0x8, _, _, 0x6) => Ok(self.op_8xy6(x)),
            (0x8, _, _, 0x7) => Ok(self.op_8xy7(x, y)),
            (0x8, _, _, 0xE) => Ok(self.op_8xye(x)),
            (0x9, _, _, 0x0) => Ok(self.op_9xy0(x, y)),
            (0xA, _, _, _) => Ok(self.op_annn(nnn)),
            (0xB, _, _, _) => Ok(self.op_bnnn(nnn)),
            (0xC, _, _, _) => Ok(self.op_cxkk(x, kk, random)),
            (0xD, _, _, _) => self.op_dxyn(x, y, n4),
            (0xE, _, 0x9, 0xE) => Ok(self.op_ex9e(x)),
            (0xE, _, 0xA, 0x1) => Ok(self.op_exa1(x)),
            (0xF, _, 0x0, 0x7) => Ok(self.op_fx07(x)),
            (0xF, _, 0x0, 0xA) => Ok(self.op_fx0a(x)),
            (0xF, _, 0x1, 0x5) => Ok(self.op_fx15(x)),
            (0xF, _, 0x1, 0x8) => Ok(self.op_fx18(x)),
            (0xF, _, 0x1, 0xE) => Ok(self.op_fx1e(x)),
            (0xF, _, 0x2, 0x9) => Ok(self.op_fx29(x)),
            (0xF, _, 0x3, 0x3) => self.op_fx33(x),
            (0xF, _, 0x5, 0x5) => self.op_fx55(x),
            (0xF, _, 0x6, 0x5) => self.op_fx65(x),
            _ => Err(
                StepError::UnknownOpcode { n1, n2, n3, n4, program_counter: self.program_counter },
            ),
        }
    }

    /// The machine with each timer that is not zero one lower.
    pub open spec fn ticked(self) -> Machine {
        Machine {
            delay: if self.delay > 0 {
                (self.delay - 1) as u8
            } else {
                0
            },
            sound: if self.sound > 0 {
                (self.sound - 1) as u8
            } else {
                0
            },
            ..self
        }
    }

    /// Whether the two bytes of the next instruction lie within memory.
    pub open spec fn can_fetch(self) -> bool {
        self.program_counter + 1 < MEMORY_SIZE
    }

    /// The first byte of the next instruction.
    pub open spec fn first_byte(self) -> u8 {
        self.memory[self.program_counter as int]
    }

    /// The second byte of the next instruction.
    pub open spec fn second_byte(self) -> u8 {
        self.memory[self.program_counter + 1]
    }

    /// The first nibble of the next instruction.
    pub open spec fn n1(self) -> u8 {
        high_nibble(self.first_byte())
    }

    /// The second nibble of the next instruction: x, where it names a
    /// register.
    pub open spec fn n2(self) -> u8 {
        low_nibble(self.first_byte())
    }

    /// The third nibble of the next instruction: y, where it names a
    /// register.
    pub open spec fn n3(self) -> u8 {
        high_nibble(self.second_byte())
    }

    /// The fourth nibble of the next instruction.
    pub open spec fn n4(self) -> u8 {
        low_nibble(self.second_byte())
    }

    /// The address that the last three nibbles of the next instruction
    /// spell.
    pub open spec fn nnn(self) -> u16 {
        address_of(self.n2(), self.n3(), self.n4())
    }

    /// Whether the next instruction is Cxkk, the one that draws a random
    /// byte.
    pub open spec fn draws_random(self) -> bool {
        self.can_fetch() && self.n1() == 0xC
    }

    /// Whether the next instruction is Fx15, the one that sets the delay
    /// timer.
    pub open spec fn sets_delay(self) -> bool {
        &&& self.can_fetch()
        &&& self.n1() == 0xF
        &&& self.second_byte() == 0x15
    }

    /// Whether the next instruction is Fx18, the one that sets the sound
    /// timer.
    pub open spec fn sets_sound(self) -> bool {
        &&& self.can_fetch()
        &&& self.n1() == 0xF
        &&& self.second_byte() == 0x18
    }

    /// One cycle: the instruction at the program counter is fetched, split
    /// into its four nibbles and carried out, and then the timers tick. Where
    /// the fetch or the instruction fails, the error says why.
    pub open spec fn step(self, random: u8) -> Result<Machine, StepError> {
        if self.can_fetch() {
            match self.execute(self.n1(), self.n2(), self.n3(), self.n4(), random) {
                Ok(next) => Ok(next.ticked()),
                Err(error) => Err(error),
            }
        } else {
            Err(StepError::MemoryOutOfRange { program_counter: self.program_counter })
        }
    }

    /// As many cycles as `randoms` has bytes, one after the other, each with
    /// its byte of `randoms` to draw; the first cycle that fails ends the run
    /// with its error.
    pub open spec fn run(self, randoms: Seq<u8>) -> Result<Machine, StepError>
        decreases randoms.len(),
    {
        if randoms.len() == 0 {
            Ok(self)
        } else {
            match self.run(randoms.drop_last()) {
                Ok(machine) => machine.step(randoms.last()),
                Err(error) => Err(error),
            }
        }
    }
}

} // verus!
