//! Palettes: the monochrome registers BGP/OBP0/OBP1 packing four 2-bit
//! shades, and the Color palette memories of eight 4-entry RGB555 palettes
//! behind an auto-incrementing index register.

use vstd::prelude::*;

use crate::ppu::color::Color;

verus! {

/// One monochrome palette register: four shades, two bits each.
#[derive(Clone, Copy, Debug)]
pub struct MonoColorPalette {
    pub colors: (Color, Color, Color, Color),
}

impl MonoColorPalette {
    /// The shade for a 2-bit color index.
    pub open spec fn spec_color(self, index: int) -> Color {
        if index == 0 {
            self.colors.0
        } else if index == 1 {
            self.colors.1
        } else if index == 2 {
            self.colors.2
        } else {
            self.colors.3
        }
    }

    /// The packed register byte.
    pub open spec fn spec_byte(self) -> u8 {
        (self.colors.0.spec_mono_bits() + self.colors.1.spec_mono_bits() * 4
            + self.colors.2.spec_mono_bits() * 16 + self.colors.3.spec_mono_bits() * 64) as u8
    }

    /// The palette a register write installs.
    pub open spec fn spec_parse(val: u8) -> MonoColorPalette {
        MonoColorPalette {
            colors: (
                Color::spec_from_mono((val % 4) as u8),
                Color::spec_from_mono((val / 4 % 4) as u8),
                Color::spec_from_mono((val / 16 % 4) as u8),
                Color::spec_from_mono((val / 64) as u8),
            ),
        }
    }

    /// None of the four entries is an RGB color.
    pub open spec fn inv(self) -> bool {
        !(self.colors.0 is Rgb) && !(self.colors.1 is Rgb) && !(self.colors.2 is Rgb) && !(
        self.colors.3 is Rgb)
    }

    /// The identity mapping, as at reset.
    pub fn new() -> (r: MonoColorPalette)
        ensures
            r == (MonoColorPalette {
                colors: (Color::White, Color::LightGray, Color::DarkGray, Color::Black),
            }),
            r.inv(),
    {
        MonoColorPalette { colors: (Color::White, Color::LightGray, Color::DarkGray, Color::Black) }
    }

    pub fn read(&self) -> (r: u8)
        requires
            self.inv(),
        ensures
            r == self.spec_byte(),
    {
        self.colors.0.monochrome_color_to_u8() + self.colors.1.monochrome_color_to_u8() * 4
            + self.colors.2.monochrome_color_to_u8() * 16 + self.colors.3.monochrome_color_to_u8()
            * 64
    }

    pub fn write(&mut self, val: u8)
        ensures
            *final(self) == MonoColorPalette::spec_parse(val),
            final(self).inv(),
    {
        self.colors.0 = Color::u8_to_monochrome(val % 4);
        self.colors.1 = Color::u8_to_monochrome(val / 4 % 4);
        self.colors.2 = Color::u8_to_monochrome(val / 16 % 4);
        self.colors.3 = Color::u8_to_monochrome(val / 64);
    }

    pub fn get_color(&self, index: usize) -> (r: Color)
        ensures
            r == self.spec_color(index as int),
    {
        if index == 0 {
            self.colors.0
        } else if index == 1 {
            self.colors.1
        } else if index == 2 {
            self.colors.2
        } else {
            self.colors.3
        }
    }

    /// The four shades as one palette array.
    pub fn get_color_array(&self) -> (r: [Color; 4])
        ensures
            r@ =~= Seq::new(4, |i: int| self.spec_color(i)),
    {
        let r = [self.colors.0, self.colors.1, self.colors.2, self.colors.3];
        proof {
            assert(r@ =~= Seq::new(4, |i: int| self.spec_color(i)));
        }
        r
    }
}

/// One Color palette memory: eight palettes of four RGB555 entries, with
/// the 6-bit auto-incrementing index register in front of the data port.
pub struct ColorPalette {
    pub colors: Vec<Vec<Color>>,
    pub color_index: usize,
    pub auto_inc: bool,
}

/// A Color palette memory as mathematical values.
#[verifier::ext_equal]
pub ghost struct ColorPaletteView {
    pub colors: Seq<Seq<Color>>,
    pub color_index: int,
    pub auto_inc: bool,
}

impl View for ColorPalette {
    type V = ColorPaletteView;

    open spec fn view(&self) -> ColorPaletteView {
        ColorPaletteView {
            colors: Seq::new(self.colors@.len(), |p: int| self.colors@[p]@),
            color_index: self.color_index as int,
            auto_inc: self.auto_inc,
        }
    }
}

impl ColorPaletteView {
    /// The byte the data port yields: one half of the entry the index
    /// register points at, low byte for even indices.
    pub open spec fn spec_data_byte(self) -> u8 {
        let entry = self.colors[self.color_index / 8][self.color_index % 8 / 2];
        if self.color_index % 2 == 0 {
            entry.spec_low()
        } else {
            entry.spec_high()
        }
    }

    /// The memory after a data-port write: one half of the pointed-at entry
    /// replaced, and the index bumped when auto-increment is on.
    pub open spec fn spec_data_write(self, val: u8) -> ColorPaletteView {
        let p = self.color_index / 8;
        let c = self.color_index % 8 / 2;
        let entry = self.colors[p][c];
        let updated = if self.color_index % 2 == 0 {
            match entry {
                Color::Rgb(r, g, b) => Color::Rgb(
                    (val % 32) as u8,
                    (g - g % 8 + val / 32) as u8,
                    b,
                ),
                other => other,
            }
        } else {
            match entry {
                Color::Rgb(r, g, b) => Color::Rgb(
                    r,
                    (g % 8 + (val % 4) * 8) as u8,
                    (val / 4 % 32) as u8,
                ),
                other => other,
            }
        };
        ColorPaletteView {
            colors: self.colors.update(p, self.colors[p].update(c, updated)),
            color_index: if self.auto_inc {
                (self.color_index + 1) % 0x40
            } else {
                self.color_index
            },
            ..self
        }
    }
}

impl ColorPalette {
    /// Every entry of every palette is an RGB color, the shape is eight by
    /// four, and the index register stays in its six bits.
    pub open spec fn inv(&self) -> bool {
        &&& self.colors@.len() == 8
        &&& forall|p: int| 0 <= p < 8 ==> (#[trigger] self.colors@[p])@.len() == 4
        &&& forall|p: int, c: int|
            0 <= p < 8 && 0 <= c < 4 ==> (#[trigger] self.colors@[p]@[c]) is Rgb
        &&& self.color_index < 0x40
    }

    /// All entries white, index zero, auto-increment off.
    pub fn new() -> (r: ColorPalette)
        ensures
            r.inv(),
            r@.color_index == 0,
            !r@.auto_inc,
            forall|p: int, c: int|
                0 <= p < 8 && 0 <= c < 4 ==> r@.colors[p][c] == Color::Rgb(0xFF, 0xFF, 0xFF),
    {
        let mut colors: Vec<Vec<Color>> = Vec::new();
        while colors.len() < 8
            invariant
                colors@.len() <= 8,
                forall|p: int|
                    0 <= p < colors@.len() ==> (#[trigger] colors@[p])@ =~= Seq::new(
                        4, |c: int| Color::Rgb(0xFF, 0xFF, 0xFF),
                    ),
            decreases 8 - colors@.len(),
        {
            let mut palette: Vec<Color> = Vec::new();
            palette.push(Color::new());
            palette.push(Color::new());
            palette.push(Color::new());
            palette.push(Color::new());
            proof {
                assert(palette@ =~= Seq::new(4, |c: int| Color::Rgb(0xFF, 0xFF, 0xFF)));
            }
            colors.push(palette);
        }
        ColorPalette { colors, color_index: 0, auto_inc: false }
    }

    /// The index register: the 6-bit index plus the auto-increment bit.
    pub fn read_index_reg(&self) -> (r: u8)
        requires
            self.inv(),
        ensures
            r == self@.color_index + (if self@.auto_inc { 0x80 as int } else { 0 }),
    {
        (self.color_index as u8) + (if self.auto_inc { 0x80u8 } else { 0 })
    }

    pub fn write_index_reg(&mut self, val: u8)
        ensures
            final(self)@ == (ColorPaletteView {
                color_index: val as int % 0x40,
                auto_inc: val / 128 == 1,
                ..old(self)@
            }),
            old(self).inv() ==> final(self).inv(),
    {
        self.auto_inc = val / 128 == 1;
        self.color_index = (val % 0x40) as usize;
        proof {
            assert(self@ =~= (ColorPaletteView {
                color_index: val as int % 0x40,
                auto_inc: val / 128 == 1,
                ..old(self)@
            }));
        }
    }

    /// Read the data port: one half of the entry under the index register.
    pub fn read_data_reg(&self) -> (r: u8)
        requires
            self.inv(),
        ensures
            r == self@.spec_data_byte(),
    {
        let palette_index = self.color_index / 8;
        let color_index = self.color_index % 8;
        if color_index % 2 == 0 {
            self.colors[palette_index][color_index / 2].get_low()
        } else {
            self.colors[palette_index][color_index / 2].get_high()
        }
    }

    /// Write the data port: one half of the entry under the index register,
    /// bumping the index when auto-increment is on.
    pub fn write_data_reg(&mut self, val: u8)
        requires
            old(self).inv(),
        ensures
            final(self).inv(),
            final(self)@ == old(self)@.spec_data_write(val),
    {
        let palette_index = self.color_index / 8;
        let color_index = self.color_index % 8;
        let mut entry: Color = self.colors[palette_index][color_index / 2];
        if color_index % 2 == 0 {
            entry.set_low(val);
        } else {
            entry.set_high(val);
        }
        self.colors[palette_index][color_index / 2] = entry;
        if self.auto_inc {
            self.color_index = (self.color_index + 1) % 0x40;
        }
        proof {
            assert(self@ =~~= old(self)@.spec_data_write(val));
        }
    }

    /// The four entries of one palette (the index is taken modulo eight).
    pub fn get_palette(&self, index: usize) -> (r: [Color; 4])
        requires
            self.inv(),
        ensures
            r@ =~= self@.colors[index as int % 8],
    {
        let p = index % 8;
        let r = [self.colors[p][0], self.colors[p][1], self.colors[p][2], self.colors[p][3]];
        proof {
            assert(r@ =~= self@.colors[index as int % 8]);
        }
        r
    }

    /// One entry of the palette under the index register.
    pub fn get_color(&self, index: usize) -> (r: Color)
        requires
            self.inv(),
            index < 4,
        ensures
            r == self@.colors[self@.color_index / 8][index as int],
    {
        self.colors[self.color_index / 8][index]
    }
}

} // verus!
