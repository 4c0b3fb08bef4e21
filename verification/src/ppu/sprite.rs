//! A sprite pulled out of OAM: screen position, tile index, and its
//! attribute bits with the palette already resolved to owned colors.

use vstd::prelude::*;

use crate::ppu::color::Color;
use crate::ppu::color_palette::{ColorPalette, MonoColorPalette};
use crate::ppu::Ppu;

verus! {

pub const OAM_BASE: u16 = 0xFE00;

#[derive(Clone, Copy, Debug)]
pub struct Attributes {
    pub palette: [Color; 4],
    pub vram_bank: usize,
    pub palette_number: usize,
    pub x_flip: bool,
    pub y_flip: bool,
    pub priority: bool,
}

impl Attributes {
    /// Color-mode attributes from a background or sprite attribute byte:
    /// palette in bits 0-2, VRAM bank in bit 3, flips in bits 5-6, priority
    /// in bit 7.
    pub fn new(val: u8, color_palette: &ColorPalette) -> (r: Attributes)
        requires
            color_palette.inv(),
        ensures
            r.palette@ =~= color_palette@.colors[val as int % 8],
            r.vram_bank == val / 8 % 2,
            r.palette_number == val % 8,
            r.x_flip == (val / 32 % 2 == 1),
            r.y_flip == (val / 64 % 2 == 1),
            r.priority == (val / 128 == 1),
    {
        Attributes {
            palette: color_palette.get_palette((val % 8) as usize),
            vram_bank: (val / 8 % 2) as usize,
            palette_number: (val % 8) as usize,
            x_flip: val / 32 % 2 == 1,
            y_flip: val / 64 % 2 == 1,
            priority: val / 128 == 1,
        }
    }

    /// The fixed monochrome background attributes: bank 0, the BGP palette,
    /// no flips, no priority.
    pub fn new_normal_gb(mono_color_palette: &MonoColorPalette) -> (r: Attributes)
        ensures
            r.palette@ =~= Seq::new(4, |i: int| mono_color_palette.spec_color(i)),
            r.vram_bank == 0,
            r.palette_number == 0,
            !r.x_flip,
            !r.y_flip,
            !r.priority,
    {
        Attributes {
            palette: mono_color_palette.get_color_array(),
            vram_bank: 0,
            palette_number: 0,
            x_flip: false,
            y_flip: false,
            priority: false,
        }
    }

    /// Monochrome sprite attributes: OBP0 or OBP1 per bit 4, flips in bits
    /// 5-6, priority in bit 7.
    pub fn new_new_normal_gb_sprite(
        val: u8,
        mono_cp_0: &MonoColorPalette,
        mono_cp_1: &MonoColorPalette,
    ) -> (r: Attributes)
        ensures
            r.palette@ =~= Seq::new(
                4,
                |i: int|
                    if val / 16 % 2 == 0 {
                        mono_cp_0.spec_color(i)
                    } else {
                        mono_cp_1.spec_color(i)
                    },
            ),
            r.vram_bank == 0,
            r.palette_number == val / 16 % 2,
            r.x_flip == (val / 32 % 2 == 1),
            r.y_flip == (val / 64 % 2 == 1),
            r.priority == (val / 128 == 1),
    {
        let palette = if val / 16 % 2 == 0 {
            mono_cp_0.get_color_array()
        } else {
            mono_cp_1.get_color_array()
        };
        Attributes {
            palette,
            vram_bank: 0,
            palette_number: (val / 16 % 2) as usize,
            x_flip: val / 32 % 2 == 1,
            y_flip: val / 64 % 2 == 1,
            priority: val / 128 == 1,
        }
    }
}

pub struct Sprite {
    pub y: i32,
    pub x: i32,
    pub tile_index: u16,
    pub attributes: Attributes,
}

impl Sprite {
    /// The sprite's tile index with bit 0 forced clear when sprites are 16
    /// pixels tall.
    pub open spec fn spec_tile_index(raw: u8, big_sprites: bool) -> u16 {
        if big_sprites {
            (raw - raw % 2) as u16
        } else {
            raw as u16
        }
    }

    /// The Color-mode sprite at the given OAM slot.
    pub fn new(index: u16, big_sprites: bool, ppu: &Ppu, color_palette: &ColorPalette) -> (r:
        Sprite)
        requires
            index < 40,
            ppu.inv_core(),
            color_palette.inv(),
        ensures
            r.y == ppu@.oam[index as int * 4] - 16,
            r.x == ppu@.oam[index as int * 4 + 1] - 8,
            r.tile_index == Sprite::spec_tile_index(ppu@.oam[index as int * 4 + 2], big_sprites),
            ({
                let val = ppu@.oam[index as int * 4 + 3];
                &&& r.attributes.palette@ =~= color_palette@.colors[val as int % 8]
                &&& r.attributes.vram_bank == val / 8 % 2
                &&& r.attributes.x_flip == (val / 32 % 2 == 1)
                &&& r.attributes.y_flip == (val / 64 % 2 == 1)
                &&& r.attributes.priority == (val / 128 == 1)
            }),
    {
        let raw_tile = ppu.read_oma(OAM_BASE + 2 + index * 4);
        Sprite {
            y: ppu.read_oma(OAM_BASE + index * 4) as i32 - 16,
            x: ppu.read_oma(OAM_BASE + 1 + index * 4) as i32 - 8,
            tile_index: (if big_sprites {
                raw_tile - raw_tile % 2
            } else {
                raw_tile
            }) as u16,
            attributes: Attributes::new(ppu.read_oma(OAM_BASE + 3 + index * 4), color_palette),
        }
    }

    /// The monochrome sprite at the given OAM slot.
    pub fn new_normal_gb(
        index: u16,
        big_sprites: bool,
        ppu: &Ppu,
        mono_cp_0: &MonoColorPalette,
        mono_cp_1: &MonoColorPalette,
    ) -> (r: Sprite)
        requires
            index < 40,
            ppu.inv_core(),
        ensures
            r.y == ppu@.oam[index as int * 4] - 16,
            r.x == ppu@.oam[index as int * 4 + 1] - 8,
            r.tile_index == Sprite::spec_tile_index(ppu@.oam[index as int * 4 + 2], big_sprites),
            ({
                let val = ppu@.oam[index as int * 4 + 3];
                &&& r.attributes.palette@ =~= Seq::new(
                    4,
                    |i: int|
                        if val / 16 % 2 == 0 {
                            mono_cp_0.spec_color(i)
                        } else {
                            mono_cp_1.spec_color(i)
                        },
                )
                &&& r.attributes.vram_bank == 0
                &&& r.attributes.x_flip == (val / 32 % 2 == 1)
                &&& r.attributes.y_flip == (val / 64 % 2 == 1)
                &&& r.attributes.priority == (val / 128 == 1)
            }),
    {
        let raw_tile = ppu.read_oma(OAM_BASE + 2 + index * 4);
        Sprite {
            y: ppu.read_oma(OAM_BASE + index * 4) as i32 - 16,
            x: ppu.read_oma(OAM_BASE + 1 + index * 4) as i32 - 8,
            tile_index: (if big_sprites {
                raw_tile - raw_tile % 2
            } else {
                raw_tile
            }) as u16,
            attributes: Attributes::new_new_normal_gb_sprite(
                ppu.read_oma(OAM_BASE + 3 + index * 4),
                mono_cp_0,
                mono_cp_1,
            ),
        }
    }
}

} // verus!
