//! The sixteen keys of the machine and the keys of a keyboard that stand for
//! them.

use vstd::prelude::*;

verus! {

/// The keyboard keys that stand for the machine's keys 0 to 15, in that
/// order: the four rows of the left of a keyboard.
pub const KEYS: [char; 16] = [
    '1', '2', '3', '4',
    'q', 'w', 'e', 'r',
    'a', 's', 'd', 'f',
    'z', 'x', 'c', 'v',
];

/// The machine's key that the keyboard key `key` stands for: its place in
/// `KEYS`, if it has one.
pub fn key_code(key: char) -> (code: Option<u8>)
    ensures
        code matches Some(place) ==> place < 16 && KEYS[place as int] == key,
        code is None ==> forall|place: int| 0 <= place < 16 ==> KEYS[place] != key,
{
    let mut place: u8 = 0;
    while place < 16
        invariant
            place <= 16,
            forall|earlier: int| 0 <= earlier < place ==> KEYS[earlier] != key,
        decreases 16 - place,
    {
        if KEYS[place as usize] == key {
            return Some(place);
        }
        place += 1;
    }
    None
}

/// No keyboard key stands for two of the machine's keys, so `key_code` has
/// one answer.
pub proof fn lemma_keys_differ(place_1: int, place_2: int)
    requires
        0 <= place_1 < place_2 < 16,
    ensures
        KEYS[place_1] != KEYS[place_2],
{
}

/// One key of the keypad as it is shown.
#[derive(Clone, Copy, Debug, PartialEq, Eq, Structural)]
pub struct KeyCell {
    /// The keyboard key.
    pub key: char,
    /// Columns to the right of the keypad's left edge.
    pub column: u16,
    /// Lines below the keypad's top.
    pub row: u16,
    /// Whether this is the key held down.
    pub selected: bool,
}

/// Displays all 16 possible input keys, 0..F.
/// The selected input is highlighted.
#[derive(Clone, Copy, Debug, PartialEq, Eq, Structural)]
pub struct HexInput {
    pub input: u8,
}

impl HexInput {
    pub fn new(input: u8) -> (keypad: HexInput)
        ensures
            keypad.input == input,
    {
        HexInput { input }
    }

    /// Key `place` of the keypad: four keys to a line, three columns a key,
    /// the key held down selected.
    pub open spec fn cell(self, place: int) -> KeyCell {
        KeyCell {
            key: KEYS[place],
            column: ((place % 4) * 3) as u16,
            row: (place / 4) as u16,
            selected: place == self.input,
        }
    }

    /// The sixteen keys, in the machine's order.
    pub fn cells(&self) -> (cells: Vec<KeyCell>)
        ensures
            cells.len() == 16,
            forall|place: int| 0 <= place < 16 ==> cells[place] == #[trigger] self.cell(place),
    {
        let mut cells: Vec<KeyCell> = Vec::new();
        let mut place: usize = 0;
        while place < 16
            invariant
                place <= 16,
                cells.len() == place,
                forall|earlier: int|
                    0 <= earlier < place ==> cells[earlier] == #[trigger] self.cell(earlier),
            decreases 16 - place,
        {
            cells.push(
                KeyCell {
                    key: KEYS[place],
                    column: ((place % 4) * 3) as u16,
                    row: (place / 4) as u16,
                    selected: place == self.input as usize,
                },
            );
            place += 1;
        }
        cells
    }
}

} // verus!
