//! A CHIP-8 virtual machine whose instruction cycle is verified with Verus.
//!
//! - `machine` defines the machine as a mathematical value and says, for each
//!   instruction, what a cycle makes of it.
//! - `chip8` is the machine that runs: `Chip8::step` is proved to do what
//!   `machine` says, and never panics.
//! - `laws` proves what holds of every machine: calls and returns pair up,
//!   drawing twice undoes itself, timers run down.
//! - `canvas` states what the machine relies on of the `drawille` canvas that
//!   it draws a preview on.
//! - `screen`, `widget`, `host`, `cli` and `rom` hold what a front end needs
//!   besides: pixels, the keypad, the run mode, the options and the program
//!   image.

pub mod canvas;
pub mod chip8;
pub mod cli;
pub mod host;
pub mod laws;
pub mod machine;
pub mod rom;
pub mod screen;
pub mod widget;
