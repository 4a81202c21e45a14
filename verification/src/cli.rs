//! What a host is told on its command line.

use crate::host::Mode;
use vstd::prelude::*;

verus! {

/// The options of a run.
#[derive(Clone, Debug, PartialEq, Eq)]
pub struct Cli {
    /// Where the program image lies.
    pub rom_path: String,
    /// Whether the machine waits until it is told to run.
    pub paused: bool,
}

impl Cli {
    /// The mode in which the run begins.
    pub fn mode(&self) -> (mode: Mode)
        ensures
            mode == if self.paused {
                Mode::Paused
            } else {
                Mode::Running
            },
    {
        match self.paused {
            true => Mode::Paused,
            false => Mode::Running,
        }
    }
}

} // verus!
