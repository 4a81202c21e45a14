//! The display as a host shows it: pixel by pixel, or as an image.

use crate::chip8::{Chip8, HEIGHT_PIX, WIDTH_PIX};
use crate::machine::{dot_lit, Machine};
use vstd::prelude::*;

verus! {

impl Machine {
    /// Whether the pixel in column `x` of line `y` is lit: each line is eight
    /// bytes, and a byte's highest bit is its leftmost pixel.
    pub open spec fn pixel(self, x: int, y: int) -> bool {
        dot_lit(self.display[y * 8 + x / 8], x % 8)
    }

    /// Byte `index` of the display as an image of four bytes a pixel, line
    /// by line: red, green and blue are 255 where the pixel is lit and 0
    /// where it is not, and the fourth byte is 255.
    pub open spec fn rgba_byte(self, index: int) -> u8 {
        if index % 4 == 3 || self.pixel((index / 4) % 64, (index / 4) / 64) {
            0xFF
        } else {
            0x00
        }
    }
}

impl Chip8 {
    /// Whether the pixel in column `x` of line `y` is lit.
    pub fn pixel(&self, x: usize, y: usize) -> (lit: bool)
        requires
            x < WIDTH_PIX,
            y < HEIGHT_PIX,
        ensures
            lit == self@.pixel(x as int, y as int),
    {
        let byte = self.display[y * 8 + x / 8];
        (byte >> (7 - (x % 8) as u8)) & 1 == 1
    }

    /// The display as an image of 64 by 32 pixels, four bytes a pixel.
    pub fn rgba(&self) -> (image: Vec<u8>)
        ensures
            image.len() == 4 * 2048,
            forall|index: int|
                0 <= index < image.len() ==> image[index] == #[trigger] self@.rgba_byte(index),
    {
        let mut image: Vec<u8> = Vec::new();
        let mut pixel: usize = 0;
        while pixel < 2048
            invariant
                pixel <= 2048,
                image.len() == 4 * pixel,
                forall|index: int|
                    0 <= index < image.len() ==> image[index] == #[trigger] self@.rgba_byte(index),
            decreases 2048 - pixel,
        {
            let shade: u8 = if self.pixel(pixel % 64, pixel / 64) {
                0xFF
            } else {
                0x00
            };
            image.push(shade);
            image.push(shade);
            image.push(shade);
            image.push(0xFF);
            pixel += 1;
        }
        image
    }
}

} // verus!
