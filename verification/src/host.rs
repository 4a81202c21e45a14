//! What a host decides between cycles: whether the machine runs, which key
//! is held down, and which part of the program it shows.

use crate::chip8::{outcome, Chip8, RomTooLarge};
use crate::machine::{Machine, StepError, MAX_ROM_SIZE, MEMORY_SIZE};
use crate::rom::Rom;
use crate::widget::{key_code, KEYS};
use vstd::prelude::*;

verus! {

/// Whether the machine runs.
#[derive(Clone, Copy, Debug, PartialEq, Eq, Structural)]
pub enum Mode {
    Running,
    Paused,
}

impl Mode {
    /// The other mode.
    pub open spec fn other(self) -> Mode {
        match self {
            Mode::Running => Mode::Paused,
            Mode::Paused => Mode::Running,
        }
    }

    /// The other mode.
    pub fn toggled(self) -> (mode: Mode)
        ensures
            mode == self.other(),
    {
        match self {
            Mode::Running => Mode::Paused,
            Mode::Paused => Mode::Running,
        }
    }
}

/// Where a line of the program listing stands to the program counter.
#[derive(Clone, Copy, Debug, PartialEq, Eq, Structural)]
pub enum Place {
    /// Below the program counter.
    Before,
    /// At the program counter.
    Current,
    /// Above the program counter.
    After,
}

/// One instruction of the program listing.
#[derive(Clone, Copy, Debug, PartialEq, Eq, Structural)]
pub struct ProgramLine {
    pub address: usize,
    pub byte_1: u8,
    pub byte_2: u8,
    pub place: Place,
}

/// Lines of the program listing.
pub const LISTING_LINES: usize = 16;

/// A machine and what its host keeps beside it.
#[derive(Debug, PartialEq)]
pub struct App {
    pub chip8: Chip8,
    pub tick_count: u64,
    pub mode: Mode,
}

impl Clone for App {
    /// A copy with a copy of the machine, the same count and the same mode.
    fn clone(&self) -> (copy: App)
        ensures
            copy.chip8@ == self.chip8@,
            copy.chip8.rom.name == self.chip8.rom.name,
            copy.chip8.rom.contents@ == self.chip8.rom.contents@,
            copy.tick_count == self.tick_count,
            copy.mode == self.mode,
    {
        App { chip8: self.chip8.clone(), tick_count: self.tick_count, mode: self.mode }
    }
}

impl App {
    /// A host for a new machine with `rom` loaded, paused or running.
    pub fn new(rom: Rom, paused: bool) -> (made: Result<App, RomTooLarge>)
        ensures
            rom.contents.len() <= MAX_ROM_SIZE ==> made is Ok,
            made matches Ok(app) ==> {
                &&& app.chip8@ == Machine::initial(rom.contents@)
                &&& app.chip8.rom == rom
                &&& app.tick_count == 0
                &&& app.mode == if paused {
                    Mode::Paused
                } else {
                    Mode::Running
                }
            },
            rom.contents.len() > MAX_ROM_SIZE ==> made == Err::<App, RomTooLarge>(
                RomTooLarge { len: rom.contents.len() },
            ),
    {
        let initial_mode = match paused {
            true => Mode::Paused,
            false => Mode::Running,
        };
        match Chip8::new(rom) {
            Ok(chip8) => Ok(App { chip8, tick_count: 0, mode: initial_mode }),
            Err(error) => Err(error),
        }
    }

    /// The host in the other mode.
    pub fn toggle_mode(self) -> (toggled: App)
        ensures
            toggled == (App { mode: self.mode.other(), ..self }),
    {
        let mut toggled = self;
        toggled.mode = toggled.mode.toggled();
        toggled
    }

    /// Takes a key of the keyboard: the space bar changes the mode, a key of
    /// `KEYS` becomes the machine's key held down, any other key does
    /// nothing.
    pub fn press(&mut self, key: char)
        ensures
            key == ' ' ==> *final(self) == (App { mode: old(self).mode.other(), ..*old(self) }),
            key != ' ' ==> forall|place: int|
                0 <= place < 16 && KEYS[place] == key ==> *final(self) == (App {
                    chip8: Chip8 { input: place as u8, ..old(self).chip8 },
                    ..*old(self)
                }),
            key != ' ' && (forall|place: int| 0 <= place < 16 ==> KEYS[place] != key)
                ==> *final(self) == *old(self),
    {
        if key == ' ' {
            self.mode = self.mode.toggled();
        } else {
            match key_code(key) {
                Some(code) => {
                    self.chip8.input = code;
                },
                None => {},
            }
        }
    }

    /// Counts a tick of the host's clock, around from the highest count to
    /// 0, and runs a cycle if the machine is running: one of the cycles that
    /// `Chip8::step` may run.
    pub fn on_tick(&mut self) -> (result: Result<(), StepError>)
        ensures
            final(self).tick_count == if old(self).tick_count == u64::MAX {
                0
            } else {
                old(self).tick_count + 1
            },
            final(self).mode == old(self).mode,
            old(self).mode == Mode::Paused ==> result is Ok && final(self).chip8
                == old(self).chip8,
            old(self).mode == Mode::Running ==> exists|random: u8|
                outcome(
                    old(self).chip8,
                    #[trigger] old(self).chip8@.step(random),
                    result,
                    final(self).chip8,
                ),
            old(self).mode == Mode::Running && !old(self).chip8@.draws_random() ==> forall|
                random: u8,
            |
                outcome(
                    old(self).chip8,
                    #[trigger] old(self).chip8@.step(random),
                    result,
                    final(self).chip8,
                ),
    {
        self.tick_count = self.tick_count.wrapping_add(1);
        match self.mode {
            Mode::Running => self.chip8.step(),
            Mode::Paused => Ok(()),
        }
    }

    /// Line `index` of the listing: the instruction `index - 2` instructions
    /// past the program counter.
    pub open spec fn program_line(self, index: int) -> ProgramLine {
        let address = self.chip8.program_counter - 4 + 2 * index;
        ProgramLine {
            address: address as usize,
            byte_1: self.chip8.memory[address],
            byte_2: self.chip8.memory[address + 1],
            place: if index < 2 {
                Place::Before
            } else if index == 2 {
                Place::Current
            } else {
                Place::After
            },
        }
    }

    /// The program around the program counter: two instructions before it,
    /// the one at it and thirteen after it. All of them have to lie within
    /// memory.
    pub fn program_lines(&self) -> (lines: Vec<ProgramLine>)
        requires
            4 <= self.chip8.program_counter,
            self.chip8.program_counter + 28 <= MEMORY_SIZE,
        ensures
            lines.len() == LISTING_LINES,
            forall|index: int|
                0 <= index < LISTING_LINES ==> lines[index] == #[trigger] self.program_line(index),
    {
        let pc = self.chip8.program_counter as usize;
        let mut lines: Vec<ProgramLine> = Vec::new();
        let mut index: usize = 0;
        while index < LISTING_LINES
            invariant
                pc == self.chip8.program_counter,
                4 <= pc,
                pc + 28 <= MEMORY_SIZE,
                index <= LISTING_LINES,
                lines.len() == index,
                forall|earlier: int|
                    0 <= earlier < index ==> lines[earlier] == #[trigger] self.program_line(
                        earlier,
                    ),
            decreases LISTING_LINES - index,
        {
            let address = pc - 4 + 2 * index;
            let place = if address < pc {
                Place::Before
            } else if address == pc {
                Place::Current
            } else {
                Place::After
            };
            lines.push(
                ProgramLine {
                    address,
                    byte_1: self.chip8.memory[address],
                    byte_2: self.chip8.memory[address + 1],
                    place,
                },
            );
            index += 1;
        }
        lines
    }
}

} // verus!
