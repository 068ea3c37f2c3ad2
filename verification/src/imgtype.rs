//! The two kinds of pixel an image can hold.

use vstd::prelude::*;

verus! {

/// A `Gray` pixel contains a single `u16` value indicating brightness.
#[derive(Clone, Copy, Debug, PartialEq, Eq)]
pub struct Gray {
    pub value: u16,
}

/// An `Rgb` pixel contains three `u16` values, for the red, green and blue
/// channels respectively.
#[derive(Clone, Copy, Debug, PartialEq, Eq)]
pub struct Rgb {
    pub red: u16,
    pub green: u16,
    pub blue: u16,
}

/// The kind of image being built, carried by a pixel of that kind.
#[derive(Clone, Copy, Debug, PartialEq, Eq)]
pub enum ImageType {
    Gray(Gray),
    Rgb(Rgb),
}

/// The byte that stands for a channel value in encoded output: the value
/// itself up to 255, and 255 for everything above.
pub open spec fn clamped(value: u16) -> u8 {
    if value > 255 {
        255u8
    } else {
        value as u8
    }
}

/// Saturates a channel value to one byte.
pub fn clamp_channel(value: u16) -> (byte: u8)
    ensures
        byte == clamped(value),
        value <= 255 ==> byte == value,
        value > 255 ==> byte == 255,
{
    if value > 255 {
        255
    } else {
        value as u8
    }
}

impl Gray {
    /// The three channel values a gray pixel stands for: its brightness on
    /// each of red, green and blue.
    pub open spec fn channels(self) -> (u16, u16, u16) {
        (self.value, self.value, self.value)
    }
}

impl Rgb {
    /// The three channel values of a colour pixel.
    pub open spec fn channels(self) -> (u16, u16, u16) {
        (self.red, self.green, self.blue)
    }
}

} // verus!
