//! RGBA pixel value type and the buffer-layout constants shared by the
//! canvas and the row writers.

use vstd::prelude::*;

verus! {

/// Number of bytes one pixel occupies in a raw buffer (R, G, B, A).
pub const BYTES_PER_PIXEL: usize = 4;

/// Alpha value of a fully transparent pixel.
pub const TRANSPARENT: u8 = 0;

/// Alpha value of a fully opaque pixel.
pub const OPAQUE: u8 = 255;

/// One RGBA pixel.  A plain value type with no identity; unwritten canvas
/// pixels keep the transparent sentinel value.
#[derive(Debug, Clone, Copy, PartialEq, Eq, Structural)]
pub struct Pixel {
    pub red: u8,
    pub green: u8,
    pub blue: u8,
    pub alpha: u8,
}

impl Pixel {
    /// Fully opaque pixel from three color channels.
    pub fn rgb(red: u8, green: u8, blue: u8) -> (r: Pixel)
        ensures
            r == (Pixel { red, green, blue, alpha: OPAQUE }),
    {
        Pixel { red, green, blue, alpha: OPAQUE }
    }

    /// Pixel with an explicit alpha channel.
    pub fn rgba(red: u8, green: u8, blue: u8, alpha: u8) -> (r: Pixel)
        ensures
            r == (Pixel { red, green, blue, alpha }),
    {
        Pixel { red, green, blue, alpha }
    }

    /// Fully opaque pixel from three color channels.
    pub fn new(red: u8, green: u8, blue: u8) -> (r: Pixel)
        ensures
            r == (Pixel { red, green, blue, alpha: OPAQUE }),
    {
        Pixel { red, green, blue, alpha: OPAQUE }
    }

    /// The transparent sentinel every canvas pixel starts out as.
    pub fn transparent() -> (r: Pixel)
        ensures
            r == (Pixel { red: 0, green: 0, blue: 0, alpha: TRANSPARENT }),
    {
        Pixel { red: 0, green: 0, blue: 0, alpha: TRANSPARENT }
    }

    pub fn red(&self) -> (r: u8)
        ensures
            r == self.red,
    {
        self.red
    }

    pub fn green(&self) -> (r: u8)
        ensures
            r == self.green,
    {
        self.green
    }

    pub fn blue(&self) -> (r: u8)
        ensures
            r == self.blue,
    {
        self.blue
    }

    pub fn alpha(&self) -> (r: u8)
        ensures
            r == self.alpha,
    {
        self.alpha
    }
}

} // verus!
