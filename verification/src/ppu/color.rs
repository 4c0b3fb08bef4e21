//! A pixel color: one of the four monochrome shades, or a 15-bit RGB555
//! color kept as three 5-bit components.

use vstd::prelude::*;

verus! {

#[derive(Clone, Copy, Debug, PartialEq, Eq, Structural)]
pub enum Color {
    White,
    LightGray,
    DarkGray,
    Black,
    Rgb(u8, u8, u8),
}

impl Color {
    /// The monochrome shade a 2-bit palette field names.
    pub open spec fn spec_from_mono(value: u8) -> Color {
        if value % 4 == 0 {
            Color::White
        } else if value % 4 == 1 {
            Color::LightGray
        } else if value % 4 == 2 {
            Color::DarkGray
        } else {
            Color::Black
        }
    }

    /// The 2-bit field naming a monochrome shade.
    pub open spec fn spec_mono_bits(self) -> u8 {
        match self {
            Color::White => 0,
            Color::LightGray => 1,
            Color::DarkGray => 2,
            Color::Black => 3,
            Color::Rgb(_, _, _) => 0,
        }
    }

    /// The red, green and blue components handed to the host.
    pub open spec fn spec_rgb(self) -> (u8, u8, u8) {
        match self {
            Color::Rgb(r, g, b) => (r, g, b),
            Color::Black => (0, 0, 0),
            Color::LightGray => (0xD3, 0xD3, 0xD3),
            Color::DarkGray => (0xA9, 0xA9, 0xA9),
            Color::White => (0xFF, 0xFF, 0xFF),
        }
    }

    /// The host pixel word: red, green and blue packed high to low.
    pub open spec fn spec_rgb_word(self) -> u32 {
        let (r, g, b) = self.spec_rgb();
        (r * 0x10000 + g * 0x100 + b) as u32
    }

    /// The low byte of the RGB555 encoding: red in bits 0-4, the low three
    /// green bits above it.
    pub open spec fn spec_low(self) -> u8 {
        match self {
            Color::Rgb(r, g, _) => (r % 32 + (g % 8) * 32) as u8,
            _ => 0,
        }
    }

    /// The high byte of the RGB555 encoding: the high two green bits, then
    /// blue in bits 2-6.
    pub open spec fn spec_high(self) -> u8 {
        match self {
            Color::Rgb(_, g, b) => (g % 32 / 8 + (b % 32) * 4) as u8,
            _ => 0,
        }
    }

    pub fn u8_to_monochrome(value: u8) -> (r: Color)
        ensures
            r == Color::spec_from_mono(value),
    {
        let v = value % 4;
        if v == 0 {
            Color::White
        } else if v == 1 {
            Color::LightGray
        } else if v == 2 {
            Color::DarkGray
        } else {
            Color::Black
        }
    }

    /// The 2-bit field of a monochrome shade; only meaningful for the four
    /// shades.
    pub fn monochrome_color_to_u8(&self) -> (r: u8)
        requires
            !(self is Rgb),
        ensures
            r == self.spec_mono_bits(),
    {
        match *self {
            Color::White => 0,
            Color::LightGray => 1,
            Color::DarkGray => 2,
            Color::Black => 3,
            Color::Rgb(_, _, _) => 0,
        }
    }

    /// A fresh color-palette entry; the hardware powers on with all palette
    /// memory reading white.
    pub fn new() -> (r: Color)
        ensures
            r == Color::Rgb(0xFF, 0xFF, 0xFF),
    {
        Color::Rgb(0xFF, 0xFF, 0xFF)
    }

    /// Load the low RGB555 byte: red and the low three green bits.
    pub fn set_low(&mut self, low: u8)
        requires
            *old(self) is Rgb,
        ensures
            *final(self) == (match *old(self) {
                Color::Rgb(r, g, b) => Color::Rgb((low % 32) as u8, (g - g % 8 + low / 32) as u8, b),
                c => c,
            }),
    {
        match *self {
            Color::Rgb(_, g, b) => {
                let red = low % 32;
                let half_green = (g - g % 8) + low / 32;
                *self = Color::Rgb(red, half_green, b);
            }
            _ => {}
        }
    }

    /// Load the high RGB555 byte: the high two green bits and blue.
    pub fn set_high(&mut self, high: u8)
        requires
            *old(self) is Rgb,
        ensures
            *final(self) == (match *old(self) {
                Color::Rgb(r, g, b) => Color::Rgb(
                    r,
                    (g % 8 + (high % 4) * 8) as u8,
                    (high / 4 % 32) as u8,
                ),
                c => c,
            }),
    {
        match *self {
            Color::Rgb(r, g, _) => {
                let half_green = g % 8 + (high % 4) * 8;
                let blue = high / 4 % 32;
                *self = Color::Rgb(r, half_green, blue);
            }
            _ => {}
        }
    }

    pub fn get_low(&self) -> (r: u8)
        requires
            *self is Rgb,
        ensures
            r == self.spec_low(),
    {
        match *self {
            Color::Rgb(red, g, _) => red % 32 + (g % 8) * 32,
            _ => 0,
        }
    }

    pub fn get_high(&self) -> (r: u8)
        requires
            *self is Rgb,
        ensures
            r == self.spec_high(),
    {
        match *self {
            Color::Rgb(_, g, b) => g % 32 / 8 + (b % 32) * 4,
            _ => 0,
        }
    }

    pub fn get_rgb_values(&self) -> (r: (u8, u8, u8))
        ensures
            r == self.spec_rgb(),
    {
        match *self {
            Color::Rgb(r, g, b) => (r, g, b),
            Color::Black => (0, 0, 0),
            Color::LightGray => (0xD3, 0xD3, 0xD3),
            Color::DarkGray => (0xA9, 0xA9, 0xA9),
            Color::White => (0xFF, 0xFF, 0xFF),
        }
    }

    /// The host pixel word: red, green and blue packed high to low.
    pub fn rgb_word(&self) -> (r: u32)
        ensures
            r == self.spec_rgb_word(),
    {
        let (red, g, b) = self.get_rgb_values();
        (red as u32) * 0x10000 + (g as u32) * 0x100 + (b as u32)
    }
}

} // verus!
