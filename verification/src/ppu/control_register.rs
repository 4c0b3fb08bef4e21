//! The LCDC control register (FF40) as its eight named bits.

use vstd::prelude::*;

verus! {

#[derive(Clone, Copy, Debug, PartialEq, Eq, Structural)]
pub struct ControlRegister {
    pub display_enabled: bool,
    pub window_tile_map_select: bool,
    pub window_display_enabled: bool,
    pub bg_and_win_tile_data_select: bool,
    pub bg_tile_map_select: bool,
    pub sprite_size: bool,
    pub sprit_display_enabled: bool,
    pub bg_and_win_display: bool,
}

impl ControlRegister {
    /// The register parsed from a byte, bit 0 (background display) up to
    /// bit 7 (display enable).
    pub open spec fn spec_parse(val: u8) -> ControlRegister {
        ControlRegister {
            bg_and_win_display: val % 2 == 1,
            sprit_display_enabled: val / 2 % 2 == 1,
            sprite_size: val / 4 % 2 == 1,
            bg_tile_map_select: val / 8 % 2 == 1,
            bg_and_win_tile_data_select: val / 16 % 2 == 1,
            window_display_enabled: val / 32 % 2 == 1,
            window_tile_map_select: val / 64 % 2 == 1,
            display_enabled: val / 128 % 2 == 1,
        }
    }

    /// The register packed back into its byte.
    pub open spec fn spec_byte(self) -> u8 {
        ((if self.bg_and_win_display { 1 as int } else { 0 }) + (if self.sprit_display_enabled {
            2 as int
        } else {
            0
        }) + (if self.sprite_size { 4 as int } else { 0 }) + (if self.bg_tile_map_select {
            8 as int
        } else {
            0
        }) + (if self.bg_and_win_tile_data_select { 16 as int } else { 0 }) + (
        if self.window_display_enabled {
            32 as int
        } else {
            0
        }) + (if self.window_tile_map_select { 64 as int } else { 0 }) + (if self.display_enabled {
            128 as int
        } else {
            0
        })) as u8
    }

    /// Every bit clear, as on power-on.
    pub fn new() -> (r: ControlRegister)
        ensures
            r == ControlRegister::spec_parse(0),
    {
        ControlRegister {
            display_enabled: false,
            window_tile_map_select: false,
            window_display_enabled: false,
            bg_and_win_tile_data_select: false,
            bg_tile_map_select: false,
            sprite_size: false,
            sprit_display_enabled: false,
            bg_and_win_display: false,
        }
    }

    pub fn set(&mut self, val: u8)
        ensures
            *final(self) == ControlRegister::spec_parse(val),
    {
        self.bg_and_win_display = val % 2 == 1;
        self.sprit_display_enabled = val / 2 % 2 == 1;
        self.sprite_size = val / 4 % 2 == 1;
        self.bg_tile_map_select = val / 8 % 2 == 1;
        self.bg_and_win_tile_data_select = val / 16 % 2 == 1;
        self.window_display_enabled = val / 32 % 2 == 1;
        self.window_tile_map_select = val / 64 % 2 == 1;
        self.display_enabled = val / 128 % 2 == 1;
    }

    pub fn get(&self) -> (r: u8)
        ensures
            r == self.spec_byte(),
    {
        (if self.bg_and_win_display { 1u8 } else { 0 }) + (if self.sprit_display_enabled {
            2u8
        } else {
            0
        }) + (if self.sprite_size { 4u8 } else { 0 }) + (if self.bg_tile_map_select {
            8u8
        } else {
            0
        }) + (if self.bg_and_win_tile_data_select { 16u8 } else { 0 }) + (
        if self.window_display_enabled {
            32u8
        } else {
            0
        }) + (if self.window_tile_map_select { 64u8 } else { 0 }) + (if self.display_enabled {
            128u8
        } else {
            0
        })
    }

    /// The background tile-map base: 0x9C00 or 0x9800 per LCDC bit 3.
    pub fn get_bg_tile_index_adder(&self) -> (r: u16)
        ensures
            r == (if self.bg_tile_map_select { 0x9C00 as int } else { 0x9800 }),
    {
        if self.bg_tile_map_select {
            0x9C00
        } else {
            0x9800
        }
    }

    /// The window tile-map base: 0x9C00 or 0x9800 per LCDC bit 6.
    pub fn get_window_tile_index_adder(&self) -> (r: u16)
        ensures
            r == (if self.window_tile_map_select { 0x9C00 as int } else { 0x9800 }),
    {
        if self.window_tile_map_select {
            0x9C00
        } else {
            0x9800
        }
    }

    /// The tile-data base for background and window: the unsigned block at
    /// 0x8000, or the signed block around 0x9000, per LCDC bit 4.
    pub fn get_bg_tile_adder(&self) -> (r: u16)
        ensures
            r == (if self.bg_and_win_tile_data_select { 0x8000 as int } else { 0x9000 }),
    {
        if self.bg_and_win_tile_data_select {
            0x8000
        } else {
            0x9000
        }
    }
}

} // verus!
