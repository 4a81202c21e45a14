//! A program image together with the name it is shown under.

use vstd::prelude::*;

verus! {

/// A program for the machine: its bytes, and a name for title bars.
#[derive(Debug, PartialEq, Eq)]
pub struct Rom {
    pub name: String,
    pub contents: Vec<u8>,
}

impl Clone for Rom {
    /// A copy with the same name and the same bytes.
    fn clone(&self) -> (copy: Rom)
        ensures
            copy.name == self.name,
            copy.contents@ == self.contents@,
    {
        let contents = self.contents.clone();
        assert(contents@ =~= self.contents@);
        Rom { name: self.name.clone(), contents }
    }
}

impl Rom {
    /// Makes an image of `contents` that goes by `name`.
    pub fn new(name: String, contents: Vec<u8>) -> (rom: Rom)
        ensures
            rom.name == name,
            rom.contents == contents,
    {
        Rom { name, contents }
    }

    /// The name of the image.
    pub fn name(&self) -> (name: &str)
        ensures
            name@ == self.name@,
    {
        self.name.as_str()
    }
}

} // verus!
