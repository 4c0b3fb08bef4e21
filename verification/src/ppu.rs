//! The picture-processing unit: two VRAM banks, OAM, the four-state mode
//! machine, the per-line renderer composing background, window and sprites,
//! and the palette and control registers.

pub mod color;
pub mod color_palette;
pub mod control_register;
pub mod dma;
pub mod sprite;
pub mod status_register;

use vstd::prelude::*;

use crate::emulator::GameBoyMode;
use crate::hardware::DISPLAY_WIDTH;
use crate::ic::Irq;
use crate::mmu::{IoDevice, MemRead, MemWrite};
use crate::ppu::color::Color;
use crate::ppu::color_palette::{ColorPalette, ColorPaletteView, MonoColorPalette};
use crate::ppu::control_register::ControlRegister;
use crate::ppu::sprite::{Attributes, Sprite};
use crate::ppu::status_register::{PpuMode, StatusRegister};

verus! {

pub const H_BLANK_CLOCK_CYCLES: u32 = 204;

pub const V_BLANK_CLOCK_CYCLES: u32 = 456;

pub const OAM_CLOCK_CYCLES: u32 = 80;

pub const VRAM_CLOCK_CYCLES: u32 = 172;

/// T-cycles in one full frame: 154 scan lines of 456 cycles.
pub const FRAME_CLOCK_CYCLES: u32 = 70224;

pub const VRAM_BANK_SIZE: usize = 0x2000;

pub const OMA_TABLE_SIZE: usize = 0xA0;

/// How a background pixel constrains the sprite on top of it.
#[derive(Clone, Copy, Debug, PartialEq, Eq, Structural)]
pub enum BackGroundColorPriority {
    /// Color index 0: a sprite always wins.
    ColorZero,
    /// The tile's priority bit was set: the background always wins.
    HighPriority,
    /// The sprite's own priority bit decides.
    NormalPriority,
}

/// The PPU as mathematical values.
#[verifier::ext_equal]
pub ghost struct PpuView {
    pub clock: u32,
    pub game_boy_mode: GameBoyMode,
    pub selected_vram_bank: int,
    pub vram: Seq<Seq<u8>>,
    pub oam: Seq<u8>,
    pub line: u8,
    pub line_compare: u8,
    pub x_scroll: u8,
    pub y_scroll: u8,
    pub window_y_pos: u8,
    pub window_x_pos: u8,
    pub status_register: StatusRegister,
    pub control_register: ControlRegister,
    pub bg_mono_palette: MonoColorPalette,
    pub object_mono_palette_0: MonoColorPalette,
    pub object_mono_palette_1: MonoColorPalette,
    pub bg_color_palette: ColorPaletteView,
    pub object_color_palette: ColorPaletteView,
}

/// Everything the per-line renderer reads; the mode machine's timing state
/// is deliberately not part of it.
#[verifier::ext_equal]
pub ghost struct RenderView {
    pub game_boy_mode: GameBoyMode,
    pub vram: Seq<Seq<u8>>,
    pub oam: Seq<u8>,
    pub x_scroll: u8,
    pub y_scroll: u8,
    pub window_y_pos: u8,
    pub window_x_pos: u8,
    pub control_register: ControlRegister,
    pub bg_mono_palette: MonoColorPalette,
    pub object_mono_palette_0: MonoColorPalette,
    pub object_mono_palette_1: MonoColorPalette,
    pub bg_color_palette: ColorPaletteView,
    pub object_color_palette: ColorPaletteView,
}

/// The mode machine's timing state: the mode, the scan line and the cycles
/// accumulated inside the mode.
#[verifier::ext_equal]
pub ghost struct PpuTiming {
    pub mode: PpuMode,
    pub line: u8,
    pub clock: int,
}

/// Bit `i` (0 = least significant) of a byte.
pub open spec fn spec_bit(b: u8, i: int) -> int {
    if i == 0 {
        b as int % 2
    } else if i == 1 {
        b as int / 2 % 2
    } else if i == 2 {
        b as int / 4 % 2
    } else if i == 3 {
        b as int / 8 % 2
    } else if i == 4 {
        b as int / 16 % 2
    } else if i == 5 {
        b as int / 32 % 2
    } else if i == 6 {
        b as int / 64 % 2
    } else {
        b as int / 128 % 2
    }
}

/// Bit `i` (0 = least significant) of a byte.
pub fn bit_of(b: u8, i: u16) -> (r: u8)
    requires
        i < 8,
    ensures
        r == spec_bit(b, i as int),
        r <= 1,
{
    if i == 0 {
        b % 2
    } else if i == 1 {
        b / 2 % 2
    } else if i == 2 {
        b / 4 % 2
    } else if i == 3 {
        b / 8 % 2
    } else if i == 4 {
        b / 16 % 2
    } else if i == 5 {
        b / 32 % 2
    } else if i == 6 {
        b / 64 % 2
    } else {
        b / 128 % 2
    }
}

/// How many T-cycles the given mode lasts before it advances.
pub open spec fn spec_mode_duration(mode: PpuMode) -> int {
    match mode {
        PpuMode::OAM => 80,
        PpuMode::VRAM => 172,
        PpuMode::HorizontalBlanking => 204,
        PpuMode::VerticalBlanking => 456,
    }
}

/// One transition of the mode machine, taken when the accumulated clock
/// reaches the current mode's duration.
pub open spec fn spec_transition(mode: PpuMode, line: u8) -> (PpuMode, u8) {
    match mode {
        PpuMode::OAM => (PpuMode::VRAM, line),
        PpuMode::VRAM => (PpuMode::HorizontalBlanking, line),
        PpuMode::HorizontalBlanking => {
            if line + 1 >= 144 {
                (PpuMode::VerticalBlanking, (line + 1) as u8)
            } else {
                (PpuMode::OAM, (line + 1) as u8)
            }
        }
        PpuMode::VerticalBlanking => {
            if line + 1 > 153 {
                (PpuMode::OAM, 0)
            } else {
                (PpuMode::VerticalBlanking, (line + 1) as u8)
            }
        }
    }
}

/// The timing state after all the transitions the accumulated clock pays
/// for; what remains of the clock stays accumulated.
pub open spec fn spec_drain(t: PpuTiming) -> PpuTiming
    decreases t.clock,
{
    if t.clock < spec_mode_duration(t.mode) || t.clock < 0 {
        t
    } else {
        let (m2, l2) = spec_transition(t.mode, t.line);
        spec_drain(PpuTiming { mode: m2, line: l2, clock: t.clock - spec_mode_duration(t.mode) })
    }
}

/// Whether draining raises the v-blank interrupt, i.e. some transition
/// enters vertical blanking.
pub open spec fn spec_drain_vblank(t: PpuTiming) -> bool
    decreases t.clock,
{
    if t.clock < spec_mode_duration(t.mode) || t.clock < 0 {
        false
    } else {
        let (m2, l2) = spec_transition(t.mode, t.line);
        (t.mode is HorizontalBlanking && m2 is VerticalBlanking) || spec_drain_vblank(
            PpuTiming { mode: m2, line: l2, clock: t.clock - spec_mode_duration(t.mode) },
        )
    }
}

/// How many transitions enter vertical blanking while draining.
pub open spec fn spec_drain_vblank_count(t: PpuTiming) -> nat
    decreases t.clock,
{
    if t.clock < spec_mode_duration(t.mode) || t.clock < 0 {
        0
    } else {
        let (m2, l2) = spec_transition(t.mode, t.line);
        (if t.mode is HorizontalBlanking && m2 is VerticalBlanking {
            1 as nat
        } else {
            0
        }) + spec_drain_vblank_count(
            PpuTiming { mode: m2, line: l2, clock: t.clock - spec_mode_duration(t.mode) },
        )
    }
}


/// Whether one transition from `t` raises the LCD-stat interrupt, for the
/// given STAT enables and compare line.
pub open spec fn spec_step_stat(t: PpuTiming, stat: StatusRegister, lyc: u8) -> bool {
    let (m2, l2) = spec_transition(t.mode, t.line);
    ||| (m2 is HorizontalBlanking && stat.h_blank_int)
    ||| (t.mode is HorizontalBlanking && m2 is VerticalBlanking && stat.v_blank_int)
    ||| (m2 is OAM && !(t.mode is OAM) && stat.oam_int)
    ||| (stat.coincidence_int && l2 == lyc)
}

/// Whether draining raises the LCD-stat interrupt, for the given STAT
/// enables and compare line: entering H-blank, v-blank or OAM scan with the
/// matching enable set, or any transition landing on the compare line while
/// the coincidence source is enabled.
pub open spec fn spec_drain_stat(t: PpuTiming, stat: StatusRegister, lyc: u8) -> bool
    decreases t.clock,
{
    if t.clock < spec_mode_duration(t.mode) || t.clock < 0 {
        false
    } else {
        let (m2, l2) = spec_transition(t.mode, t.line);
        spec_step_stat(t, stat, lyc) || spec_drain_stat(
            PpuTiming { mode: m2, line: l2, clock: t.clock - spec_mode_duration(t.mode) },
            stat,
            lyc,
        )
    }
}

/// Whether draining takes any transition at all.
pub open spec fn spec_drain_stepped(t: PpuTiming) -> bool {
    t.clock >= spec_mode_duration(t.mode)
}

/// The scan lines rendered while draining: one for each transition out of
/// the VRAM mode, with the line it was taken on.
pub open spec fn spec_drain_lines(t: PpuTiming) -> Seq<u8>
    decreases t.clock,
{
    if t.clock < spec_mode_duration(t.mode) || t.clock < 0 {
        Seq::empty()
    } else {
        let (m2, l2) = spec_transition(t.mode, t.line);
        let rest = spec_drain_lines(
            PpuTiming { mode: m2, line: l2, clock: t.clock - spec_mode_duration(t.mode) },
        );
        if t.mode is VRAM {
            Seq::empty().push(t.line) + rest
        } else {
            rest
        }
    }
}

impl RenderView {
    /// The pixel the screen shows where neither background nor window is
    /// drawn: white on the Classic model, entry 0 of color palette 0 on the
    /// Color model.
    pub open spec fn spec_blank_pixel(self) -> u32 {
        if self.game_boy_mode is Color {
            self.bg_color_palette.colors[0][0].spec_rgb_word()
        } else {
            Color::White.spec_rgb_word()
        }
    }

    /// The color index of the pixel at `(x_offset, y_offset)` inside the
    /// tile whose 16 bytes start at VRAM offset `tile_offset` of `bank`:
    /// the low bit from byte `2 * y_offset`, the high bit from the byte
    /// after, both at bit `7 - x_offset`.
    pub open spec fn spec_tile_color(
        self,
        tile_offset: int,
        x_offset: int,
        y_offset: int,
        bank: int,
    ) -> int {
        let l = self.vram[bank][tile_offset + y_offset * 2];
        let h = self.vram[bank][tile_offset + y_offset * 2 + 1];
        spec_bit(l, 7 - x_offset) + 2 * spec_bit(h, 7 - x_offset)
    }

    /// The VRAM offset of the first byte of background or window tile
    /// number `tile_index`, per the LCDC data-select bit: the unsigned
    /// block at 0x8000, or the signed block around 0x9000.
    pub open spec fn spec_tile_data_offset(self, tile_index: u8) -> int {
        if self.control_register.bg_and_win_tile_data_select {
            tile_index * 16
        } else {
            if tile_index < 128 {
                0x1000 + tile_index * 16
            } else {
                0x800 + (tile_index - 128) * 16
            }
        }
    }

    /// Whether the window covers pixel `x` of line `ly`: the window is
    /// enabled and the pixel lies at or past the window origin.
    pub open spec fn spec_in_window(self, ly: u8, x: int) -> bool {
        &&& self.control_register.window_display_enabled
        &&& ly >= self.window_y_pos
        &&& x + 7 >= self.window_x_pos
    }

    /// Whether the background is drawn at all.
    pub open spec fn spec_draw_bg(self) -> bool {
        self.game_boy_mode is Color || self.control_register.bg_and_win_display
    }

    /// The background or window pixel at `x` of line `ly` and its priority
    /// class.
    pub open spec fn spec_bg_pixel(self, ly: u8, x: int) -> (u32, BackGroundColorPriority) {
        if !self.spec_draw_bg() {
            (self.spec_blank_pixel(), BackGroundColorPriority::NormalPriority)
        } else {
            let (map_base, py, px) = if self.spec_in_window(ly, x) {
                (
                    if self.control_register.window_tile_map_select {
                        0x1C00 as int
                    } else {
                        0x1800
                    },
                    ly - self.window_y_pos,
                    x + 7 - self.window_x_pos,
                )
            } else {
                (
                    if self.control_register.bg_tile_map_select {
                        0x1C00 as int
                    } else {
                        0x1800
                    },
                    (ly + self.y_scroll) % 256,
                    (x + self.x_scroll) % 256,
                )
            };
            let map_offset = map_base + (py / 8) * 32 + px / 8;
            let attr = self.vram[1][map_offset];
            let color_mode = self.game_boy_mode is Color;
            let bank: int = if color_mode {
                attr as int / 8 % 2
            } else {
                0
            };
            let x_flip = color_mode && attr / 32 % 2 == 1;
            let y_flip = color_mode && attr / 64 % 2 == 1;
            let attr_priority = color_mode && attr / 128 == 1;
            let tile_index = self.vram[0][map_offset];
            let tile_offset = self.spec_tile_data_offset(tile_index);
            let yo = if y_flip {
                7 - py % 8
            } else {
                py % 8
            };
            let xo = if x_flip {
                7 - px % 8
            } else {
                px % 8
            };
            let ci = self.spec_tile_color(tile_offset, xo, yo, bank);
            let prio = if ci == 0 {
                BackGroundColorPriority::ColorZero
            } else if attr_priority {
                BackGroundColorPriority::HighPriority
            } else {
                BackGroundColorPriority::NormalPriority
            };
            let color = if color_mode {
                self.bg_color_palette.colors[attr as int % 8][ci]
            } else {
                self.bg_mono_palette.spec_color(ci)
            };
            (color.spec_rgb_word(), prio)
        }
    }

    /// The background and window pass of line `ly`: 160 pixels with their
    /// priority classes.
    pub open spec fn spec_bg_line(self, ly: u8) -> (Seq<u32>, Seq<BackGroundColorPriority>) {
        (
            Seq::new(160, |x: int| self.spec_bg_pixel(ly, x).0),
            Seq::new(160, |x: int| self.spec_bg_pixel(ly, x).1),
        )
    }

    /// The sprite height under the current LCDC size bit.
    pub open spec fn spec_sprite_height(self) -> int {
        if self.control_register.sprite_size {
            16
        } else {
            8
        }
    }

    /// Whether OAM entry `s` covers line `ly` vertically.
    pub open spec fn spec_sprite_on_line(self, ly: u8, s: int) -> bool {
        let y = self.oam[s * 4] - 16;
        y <= ly < y + self.spec_sprite_height()
    }

    /// The color a visible pixel of sprite `s` shows for color index `ci`.
    pub open spec fn spec_sprite_color(self, s: int, ci: int) -> Color {
        let at = self.oam[s * 4 + 3];
        if self.game_boy_mode is Color {
            self.object_color_palette.colors[at as int % 8][ci]
        } else if at / 16 % 2 == 0 {
            self.object_mono_palette_0.spec_color(ci)
        } else {
            self.object_mono_palette_1.spec_color(ci)
        }
    }

    /// Line `ly` after sprite `s` is drawn over it (assuming the sprite
    /// passed the per-line filters): each pixel the sprite covers with a
    /// non-transparent color that the background does not outrank.
    pub open spec fn spec_sprite_apply(self, ly: u8, px: Seq<u32>, bg: Seq<
        BackGroundColorPriority,
    >, s: int) -> Seq<u32> {
        let sy = self.oam[s * 4] - 16;
        let sx = self.oam[s * 4 + 1] - 8;
        let raw_tile = self.oam[s * 4 + 2];
        let at = self.oam[s * 4 + 3];
        let tile: int = if self.control_register.sprite_size {
            (raw_tile - raw_tile % 2) as int
        } else {
            raw_tile as int
        };
        let bank: int = if self.game_boy_mode is Color {
            at as int / 8 % 2
        } else {
            0
        };
        let x_flip = at / 32 % 2 == 1;
        let y_flip = at / 64 % 2 == 1;
        let behind_bg = at / 128 == 1;
        let tile_y = if y_flip {
            self.spec_sprite_height() - 1 - (ly - sy)
        } else {
            ly - sy
        };
        Seq::new(
            px.len(),
            |x: int|
                {
                    if sx <= x < sx + 8 {
                        let bitpos = if x_flip {
                            x - sx
                        } else {
                            7 - (x - sx)
                        };
                        let l = self.vram[bank][tile * 16 + tile_y * 2];
                        let h = self.vram[bank][tile * 16 + tile_y * 2 + 1];
                        let ci = spec_bit(l, bitpos) + 2 * spec_bit(h, bitpos);
                        if ci == 0 {
                            px[x]
                        } else if self.control_register.bg_and_win_display && (
                        bg[x] is HighPriority || (bg[x] is NormalPriority && behind_bg)) {
                            px[x]
                        } else {
                            self.spec_sprite_color(s, ci).spec_rgb_word()
                        }
                    } else {
                        px[x]
                    }
                },
        )
    }

    /// The sprite pass from OAM entry `s` on: each entry that covers the
    /// line and is among its first ten is drawn over the accumulated line.
    pub open spec fn spec_sprites_from(self, ly: u8, px: Seq<u32>, bg: Seq<
        BackGroundColorPriority,
    >, s: int) -> Seq<u32>
        decreases 40 - s,
    {
        if s < 0 || s >= 40 {
            px
        } else {
            let px2 = if self.spec_sprite_on_line(ly, s) && spec_sprites_before(self, ly, s) < 10 {
                self.spec_sprite_apply(ly, px, bg, s)
            } else {
                px
            };
            self.spec_sprites_from(ly, px2, bg, s + 1)
        }
    }

    /// The full renderer for line `ly`: the background and window pass,
    /// then the sprite pass when sprites are enabled.
    pub open spec fn spec_render_line(self, ly: u8) -> Seq<u32> {
        let (px, bg) = self.spec_bg_line(ly);
        if self.control_register.sprit_display_enabled {
            self.spec_sprites_from(ly, px, bg, 0)
        } else {
            px
        }
    }
}

/// How many of the OAM entries before `s` cover line `ly`.
pub open spec fn spec_sprites_before(v: RenderView, ly: u8, s: int) -> int
    decreases s,
{
    if s <= 0 {
        0
    } else {
        spec_sprites_before(v, ly, s - 1) + (if v.spec_sprite_on_line(ly, s - 1) {
            1 as int
        } else {
            0
        })
    }
}

pub struct Ppu {
    pub clock: u32,
    pub game_boy_mode: GameBoyMode,
    pub selected_vram_bank: usize,
    pub vram: Vec<Vec<u8>>,
    pub oma_table: Vec<u8>,
    pub line: u8,
    pub line_compare: u8,
    pub x_scroll: u8,
    pub y_scroll: u8,
    pub window_y_pos: u8,
    pub window_x_pos: u8,
    pub status_register: StatusRegister,
    pub control_register: ControlRegister,
    pub bg_mono_palette: MonoColorPalette,
    pub object_mono_palette_0: MonoColorPalette,
    pub object_mono_palette_1: MonoColorPalette,
    pub bg_color_palette: ColorPalette,
    pub object_color_palette: ColorPalette,
}

impl View for Ppu {
    type V = PpuView;

    open spec fn view(&self) -> PpuView {
        PpuView {
            clock: self.clock,
            game_boy_mode: self.game_boy_mode,
            selected_vram_bank: self.selected_vram_bank as int,
            vram: Seq::new(self.vram@.len(), |b: int| self.vram@[b]@),
            oam: self.oma_table@,
            line: self.line,
            line_compare: self.line_compare,
            x_scroll: self.x_scroll,
            y_scroll: self.y_scroll,
            window_y_pos: self.window_y_pos,
            window_x_pos: self.window_x_pos,
            status_register: self.status_register,
            control_register: self.control_register,
            bg_mono_palette: self.bg_mono_palette,
            object_mono_palette_0: self.object_mono_palette_0,
            object_mono_palette_1: self.object_mono_palette_1,
            bg_color_palette: self.bg_color_palette@,
            object_color_palette: self.object_color_palette@,
        }
    }
}

impl PpuView {
    /// The renderer's projection of the PPU state.
    pub open spec fn render_view(self) -> RenderView {
        RenderView {
            game_boy_mode: self.game_boy_mode,
            vram: self.vram,
            oam: self.oam,
            x_scroll: self.x_scroll,
            y_scroll: self.y_scroll,
            window_y_pos: self.window_y_pos,
            window_x_pos: self.window_x_pos,
            control_register: self.control_register,
            bg_mono_palette: self.bg_mono_palette,
            object_mono_palette_0: self.object_mono_palette_0,
            object_mono_palette_1: self.object_mono_palette_1,
            bg_color_palette: self.bg_color_palette,
            object_color_palette: self.object_color_palette,
        }
    }

    /// The mode machine's timing state.
    pub open spec fn timing(self) -> PpuTiming {
        PpuTiming { mode: self.status_register.mode, line: self.line, clock: self.clock as int }
    }
}

impl Ppu {
    /// Everything `inv` asks except the clock bound.
    pub open spec fn inv_core(&self) -> bool {
        &&& self.vram@.len() == 2
        &&& forall|b: int| 0 <= b < 2 ==> (#[trigger] self.vram@[b])@.len() == 0x2000
        &&& self.oma_table@.len() == 0xA0
        &&& self.selected_vram_bank <= 1
        &&& self.bg_color_palette.inv()
        &&& self.object_color_palette.inv()
        &&& self.bg_mono_palette.inv()
        &&& self.object_mono_palette_0.inv()
        &&& self.object_mono_palette_1.inv()
        &&& self.line <= 153
        &&& (self.status_register.mode is VerticalBlanking ==> self.line >= 144)
        &&& (!(self.status_register.mode is VerticalBlanking) ==> self.line <= 143)
    }

    pub open spec fn inv(&self) -> bool {
        self.inv_core() && self.clock < 0x1000_0000
    }

    /// Zeroed memories, line 0, OAM scan, as at reset.
    pub fn new(game_boy_mode: GameBoyMode) -> (r: Ppu)
        ensures
            r.inv(),
            r@.game_boy_mode == game_boy_mode,
            r@.clock == 0,
            r@.line == 0,
            r@.line_compare == 0,
            r@.status_register == (StatusRegister {
                mode: PpuMode::OAM,
                coincidence_flag: false,
                h_blank_int: false,
                v_blank_int: false,
                oam_int: false,
                coincidence_int: false,
            }),
            r@.control_register == ControlRegister::spec_parse(0),
            r@.selected_vram_bank == 0,
            forall|b: int, i: int| 0 <= b < 2 && 0 <= i < 0x2000 ==> r@.vram[b][i] == 0,
            forall|i: int| 0 <= i < 0xA0 ==> r@.oam[i] == 0,
            r@.bg_mono_palette == (MonoColorPalette {
                colors: (Color::White, Color::LightGray, Color::DarkGray, Color::Black),
            }),
    {
        let mut vram: Vec<Vec<u8>> = Vec::new();
        let bank0: Vec<u8> = vec![0u8; VRAM_BANK_SIZE];
        let bank1: Vec<u8> = vec![0u8; VRAM_BANK_SIZE];
        vram.push(bank0);
        vram.push(bank1);
        let oma_table: Vec<u8> = vec![0u8; OMA_TABLE_SIZE];
        Ppu {
            clock: 0,
            game_boy_mode,
            selected_vram_bank: 0,
            vram,
            oma_table,
            line: 0,
            line_compare: 0,
            x_scroll: 0,
            y_scroll: 0,
            window_y_pos: 0,
            window_x_pos: 0,
            status_register: StatusRegister::new(),
            control_register: ControlRegister::new(),
            bg_mono_palette: MonoColorPalette::new(),
            object_mono_palette_0: MonoColorPalette::new(),
            object_mono_palette_1: MonoColorPalette::new(),
            bg_color_palette: ColorPalette::new(),
            object_color_palette: ColorPalette::new(),
        }
    }

    /// One byte of the given VRAM bank, addressed by bus address.
    pub fn read_from_vram(&self, bank_index: usize, adder: u16) -> (r: u8)
        requires
            self.inv_core(),
            bank_index <= 1,
            0x8000 <= adder < 0xA000,
        ensures
            r == self@.vram[bank_index as int][adder - 0x8000],
    {
        self.vram[bank_index][(adder - 0x8000) as usize]
    }

    /// Write one byte of the given VRAM bank, addressed by bus address.
    pub fn write_to_vram(&mut self, bank_index: usize, adder: u16, value: u8)
        requires
            old(self).inv(),
            bank_index <= 1,
            0x8000 <= adder < 0xA000,
        ensures
            final(self).inv(),
            final(self)@ == (PpuView {
                vram: old(self)@.vram.update(
                    bank_index as int,
                    old(self)@.vram[bank_index as int].update(adder - 0x8000, value),
                ),
                ..old(self)@
            }),
    {
        self.vram[bank_index][(adder - 0x8000) as usize] = value;
        proof {
            assert(self@ =~~= (PpuView {
                vram: old(self)@.vram.update(
                    bank_index as int,
                    old(self)@.vram[bank_index as int].update(adder - 0x8000, value),
                ),
                ..old(self)@
            }));
        }
    }

    /// One byte of OAM, addressed by bus address.
    pub fn read_oma(&self, addr: u16) -> (r: u8)
        requires
            self.inv_core(),
            0xFE00 <= addr < 0xFEA0,
        ensures
            r == self@.oam[addr - 0xFE00],
    {
        self.oma_table[(addr - 0xFE00) as usize]
    }

    /// Write one byte of OAM directly, as the DMA engine does, bypassing
    /// the mode gate that applies to processor writes.
    pub fn write_oma_direct(&mut self, addr: u16, value: u8)
        requires
            old(self).inv(),
            0xFE00 <= addr < 0xFEA0,
        ensures
            final(self).inv(),
            final(self)@ == (PpuView {
                oam: old(self)@.oam.update(addr - 0xFE00, value),
                ..old(self)@
            }),
    {
        self.oma_table[(addr - 0xFE00) as usize] = value;
        proof {
            assert(self@ =~~= (PpuView {
                oam: old(self)@.oam.update(addr - 0xFE00, value),
                ..old(self)@
            }));
        }
    }

    /// Write one byte of the selected VRAM bank directly, as the DMA engine
    /// does, bypassing the mode gate that applies to processor writes.
    pub fn write_vram_direct(&mut self, addr: u16, value: u8)
        requires
            old(self).inv(),
            0x8000 <= addr < 0xA000,
        ensures
            final(self).inv(),
            final(self)@ == (PpuView {
                vram: old(self)@.vram.update(
                    old(self)@.selected_vram_bank,
                    old(self)@.vram[old(self)@.selected_vram_bank].update(addr - 0x8000, value),
                ),
                ..old(self)@
            }),
    {
        let bank = self.selected_vram_bank;
        self.write_to_vram(bank, addr, value);
    }

    /// The current mode and the clock accumulated inside it.
    pub fn get_status(&self) -> (r: (PpuMode, u32))
        ensures
            r == (self@.status_register.mode, self@.clock),
    {
        (self.status_register.mode, self.clock)
    }

    /// Set the accumulated clock; the DMA engine hands back what it did not
    /// consume.
    pub fn set_clock(&mut self, clock: u32)
        requires
            old(self).inv(),
            clock < 0x1000_0000,
        ensures
            final(self).inv(),
            final(self)@ == (PpuView { clock, ..old(self)@ }),
    {
        self.clock = clock;
    }
}

impl Ppu {
    /// The background or window pixel at `x` of the current line, and its
    /// priority class.
    #[verifier::rlimit(100)]
    #[verifier::spinoff_prover]
    fn bg_pixel(&self, x: usize) -> (r: (u32, BackGroundColorPriority))
        requires
            self.inv_core(),
            x < 160,
        ensures
            r == self@.render_view().spec_bg_pixel(self@.line, x as int),
    {
        let color_mode = matches!(self.game_boy_mode, GameBoyMode::Color);
        let draw_bg = color_mode || self.control_register.bg_and_win_display;
        let in_window = self.control_register.window_display_enabled && self.line
            >= self.window_y_pos && (x as u16) + 7 >= self.window_x_pos as u16;

        if !draw_bg {
            return (self.blank_pixel(), BackGroundColorPriority::NormalPriority);
        }

        let (map_base, py, px): (u16, u16, u16) = if in_window {
            (
                if self.control_register.window_tile_map_select {
                    0x1C00
                } else {
                    0x1800
                },
                (self.line - self.window_y_pos) as u16,
                (x as u16) + 7 - (self.window_x_pos as u16),
            )
        } else {
            (
                if self.control_register.bg_tile_map_select {
                    0x1C00
                } else {
                    0x1800
                },
                ((self.line as u16) + (self.y_scroll as u16)) % 256,
                ((x as u16) + (self.x_scroll as u16)) % 256,
            )
        };
        let map_offset = map_base + (py / 8) * 32 + px / 8;
        let attr = self.vram[1][map_offset as usize];
        let bank: usize = if color_mode {
            ((attr / 8) % 2) as usize
        } else {
            0
        };
        let x_flip = color_mode && attr / 32 % 2 == 1;
        let y_flip = color_mode && attr / 64 % 2 == 1;
        let attr_priority = color_mode && attr / 128 == 1;
        let tile_index = self.vram[0][map_offset as usize];
        let tile_offset: u16 = if self.control_register.bg_and_win_tile_data_select {
            (tile_index as u16) * 16
        } else {
            if tile_index < 128 {
                0x1000 + (tile_index as u16) * 16
            } else {
                0x800 + ((tile_index - 128) as u16) * 16
            }
        };
        let yo = if y_flip {
            7 - py % 8
        } else {
            py % 8
        };
        let xo = if x_flip {
            7 - px % 8
        } else {
            px % 8
        };
        let l = self.vram[bank][(tile_offset + yo * 2) as usize];
        let h = self.vram[bank][(tile_offset + yo * 2 + 1) as usize];
        let ci = bit_of(l, 7 - xo) + 2 * bit_of(h, 7 - xo);
        let prio = if ci == 0 {
            BackGroundColorPriority::ColorZero
        } else if attr_priority {
            BackGroundColorPriority::HighPriority
        } else {
            BackGroundColorPriority::NormalPriority
        };
        let color = if color_mode {
            let palette = self.bg_color_palette.get_palette((attr % 8) as usize);
            palette[ci as usize]
        } else {
            self.bg_mono_palette.get_color(ci as usize)
        };
        (color.rgb_word(), prio)
    }

    /// The pixel shown where neither background nor window is drawn.
    fn blank_pixel(&self) -> (r: u32)
        requires
            self.inv_core(),
        ensures
            r == self@.render_view().spec_blank_pixel(),
    {
        if matches!(self.game_boy_mode, GameBoyMode::Color) {
            let palette = self.bg_color_palette.get_palette(0);
            palette[0].rgb_word()
        } else {
            Color::White.rgb_word()
        }
    }

    /// The background and window pass: fill the 160-pixel line buffer and
    /// return each pixel's priority class.
    pub fn draw_background_and_window_line(&self, line_vector: &mut Vec<u32>) -> (r: Vec<
        BackGroundColorPriority,
    >)
        requires
            self.inv_core(),
            old(line_vector)@.len() == 160,
        ensures
            final(line_vector)@ =~= self@.render_view().spec_bg_line(self@.line).0,
            r@ =~= self@.render_view().spec_bg_line(self@.line).1,
    {
        let mut gb_priority: Vec<BackGroundColorPriority> = Vec::new();
        let mut x: usize = 0;
        while x < DISPLAY_WIDTH
            invariant
                self.inv_core(),
                x <= 160,
                line_vector@.len() == 160,
                gb_priority@.len() == x,
                forall|j: int|
                    0 <= j < x ==> line_vector@[j] == self@.render_view().spec_bg_pixel(
                        self@.line, j,
                    ).0,
                forall|j: int|
                    0 <= j < x ==> gb_priority@[j] == self@.render_view().spec_bg_pixel(
                        self@.line, j,
                    ).1,
            decreases 160 - x,
        {
            let (c, p) = self.bg_pixel(x);
            line_vector[x] = c;
            gb_priority.push(p);
            x = x + 1;
        }
        gb_priority
    }

    /// Draw sprite `s` over the line buffer: each of its eight columns that
    /// lands on screen with a non-transparent color the background does not
    /// outrank.
    fn draw_one_sprite(&self, line_vector: &mut Vec<u32>, bg_vector: &Vec<
        BackGroundColorPriority,
    >, s: usize)
        requires
            self.inv_core(),
            s < 40,
            old(line_vector)@.len() == 160,
            bg_vector@.len() == 160,
            self@.render_view().spec_sprite_on_line(self@.line, s as int),
        ensures
            final(line_vector)@ =~= self@.render_view().spec_sprite_apply(
                self@.line,
                old(line_vector)@,
                bg_vector@,
                s as int,
            ),
    {
        let ghost rv = self@.render_view();
        let ghost ly = self@.line;
        let big = self.control_register.sprite_size;
        let sprite_hight: i32 = if big {
            16
        } else {
            8
        };
        let sprite = if matches!(self.game_boy_mode, GameBoyMode::Color) {
            Sprite::new(s as u16, big, self, &self.object_color_palette)
        } else {
            Sprite::new_normal_gb(
                s as u16,
                big,
                self,
                &self.object_mono_palette_0,
                &self.object_mono_palette_1,
            )
        };
        let line = self.line as i32;
        let tile_y: u16 = if sprite.attributes.y_flip {
            (sprite_hight - 1 - (line - sprite.y)) as u16
        } else {
            (line - sprite.y) as u16
        };
        let tile_adder: u16 = sprite.tile_index * 16 + tile_y * 2;
        let tile_byte_low = self.vram[sprite.attributes.vram_bank][tile_adder as usize];
        let tile_byte_high = self.vram[sprite.attributes.vram_bank][(tile_adder + 1) as usize];

        let mut xi: i32 = 0;
        while xi < 8
            invariant
                self.inv_core(),
                0 <= xi <= 8,
                s < 40,
                rv == self@.render_view(),
                ly == self@.line,
                rv.spec_sprite_on_line(ly, s as int),
                big == rv.control_register.sprite_size,
                line_vector@.len() == 160,
                old(line_vector)@.len() == 160,
                bg_vector@.len() == 160,
                -16 <= sprite.x < 256,
                forall|j: int|
                    0 <= j < 160 && sprite.x <= j < sprite.x + xi ==> line_vector@[j]
                        == rv.spec_sprite_apply(ly, old(line_vector)@, bg_vector@, s as int)[j],
                forall|j: int|
                    0 <= j < 160 && !(sprite.x <= j < sprite.x + xi) ==> line_vector@[j] == old(line_vector)@[j],
                ({
                    let at = rv.oam[s as int * 4 + 3];
                    &&& sprite.x == rv.oam[s as int * 4 + 1] - 8
                    &&& sprite.y == rv.oam[s as int * 4] - 16
                    &&& sprite.tile_index == Sprite::spec_tile_index(
                        rv.oam[s as int * 4 + 2],
                        big,
                    )
                    &&& sprite.attributes.x_flip == (at / 32 % 2 == 1)
                    &&& sprite.attributes.y_flip == (at / 64 % 2 == 1)
                    &&& sprite.attributes.priority == (at / 128 == 1)
                    &&& sprite.attributes.vram_bank == (if rv.game_boy_mode is Color {
                        at / 8 % 2
                    } else {
                        0
                    })
                    &&& forall|ci: int|
                        0 <= ci < 4 ==> sprite.attributes.palette@[ci] == rv.spec_sprite_color(
                            s as int,
                            ci,
                        )
                }),
                tile_byte_low == rv.vram[sprite.attributes.vram_bank as int][
                    sprite.tile_index * 16 + tile_y * 2
                ],
                tile_byte_high == rv.vram[sprite.attributes.vram_bank as int][
                    sprite.tile_index * 16 + tile_y * 2 + 1
                ],
                tile_y == (if sprite.attributes.y_flip {
                    rv.spec_sprite_height() - 1 - (ly - sprite.y)
                } else {
                    ly - sprite.y
                }),
            decreases 8 - xi,
        {
            let x = sprite.x + xi;
            if 0 <= x && x < DISPLAY_WIDTH as i32 {
                let bitpos: u16 = if sprite.attributes.x_flip {
                    xi as u16
                } else {
                    (7 - xi) as u16
                };
                let ci = bit_of(tile_byte_low, bitpos) + 2 * bit_of(tile_byte_high, bitpos);
                if ci != 0 {
                    let bg_class = bg_vector[x as usize];
                    let bg_wins = self.control_register.bg_and_win_display && (matches!(
                        bg_class,
                        BackGroundColorPriority::HighPriority,
                    ) || (matches!(bg_class, BackGroundColorPriority::NormalPriority)
                        && sprite.attributes.priority));
                    if !bg_wins {
                        let color = sprite.attributes.palette[ci as usize];
                        line_vector[x as usize] = color.rgb_word();
                    }
                }
                proof {
                    let xj = x as int;
                    let px0 = old(line_vector)@;
                    let apply = rv.spec_sprite_apply(ly, px0, bg_vector@, s as int);
                    let at = rv.oam[s as int * 4 + 3];
                    let sy2 = rv.oam[s as int * 4] - 16;
                    let sx2 = rv.oam[s as int * 4 + 1] - 8;
                    let raw2 = rv.oam[s as int * 4 + 2];
                    let tile2: int = if rv.control_register.sprite_size {
                        (raw2 - raw2 % 2) as int
                    } else {
                        raw2 as int
                    };
                    let bank2: int = if rv.game_boy_mode is Color {
                        at as int / 8 % 2
                    } else {
                        0
                    };
                    let ty2 = if at / 64 % 2 == 1 {
                        rv.spec_sprite_height() - 1 - (ly - sy2)
                    } else {
                        ly - sy2
                    };
                    let bp2 = if at / 32 % 2 == 1 {
                        xj - sx2
                    } else {
                        7 - (xj - sx2)
                    };
                    let l2 = rv.vram[bank2][tile2 * 16 + ty2 * 2];
                    let h2 = rv.vram[bank2][tile2 * 16 + ty2 * 2 + 1];
                    let ci2 = spec_bit(l2, bp2) + 2 * spec_bit(h2, bp2);
                    assert(sprite.x == sx2);
                    assert(tile_byte_low == rv.vram[sprite.attributes.vram_bank as int][
                        sprite.tile_index * 16 + tile_y * 2
                    ]);
                    assert(sprite.attributes.vram_bank as int == bank2);
                    assert(sprite.tile_index as int == tile2);
                    assert(tile_y as int == ty2);
                    assert(l2 == tile_byte_low);
                    assert(h2 == tile_byte_high);
                    assert(bp2 == bitpos as int);
                    assert(ci2 == ci as int);
                    assert(apply[xj] == (if ci2 == 0 {
                        px0[xj]
                    } else if rv.control_register.bg_and_win_display && (
                    bg_vector@[xj] is HighPriority || (bg_vector@[xj] is NormalPriority && at / 128
                        == 1)) {
                        px0[xj]
                    } else {
                        rv.spec_sprite_color(s as int, ci2).spec_rgb_word()
                    }));
                    assert(line_vector@[x as int] == rv.spec_sprite_apply(
                        ly,
                        old(line_vector)@,
                        bg_vector@,
                        s as int,
                    )[x as int]);
                }
            }
            xi = xi + 1;
        }
        proof {
            assert(line_vector@ =~= rv.spec_sprite_apply(
                ly,
                old(line_vector)@,
                bg_vector@,
                s as int,
            ));
        }
    }

    /// The sprite pass: draw, in OAM order, each sprite that covers the
    /// line and is among the first ten that do.
    pub fn draw_sprites_line(&self, line_vector: &mut Vec<u32>, bg_vector: &Vec<
        BackGroundColorPriority,
    >)
        requires
            self.inv_core(),
            old(line_vector)@.len() == 160,
            bg_vector@.len() == 160,
        ensures
            final(line_vector)@.len() == 160,
            final(line_vector)@ =~= (if self@.control_register.sprit_display_enabled {
                self@.render_view().spec_sprites_from(
                    self@.line,
                    old(line_vector)@,
                    bg_vector@,
                    0,
                )
            } else {
                old(line_vector)@
            }),
    {
        let ghost rv = self@.render_view();
        let ghost ly = self@.line;
        if !self.control_register.sprit_display_enabled {
            return ;
        }

        let sprite_hight: i32 = if self.control_register.sprite_size {
            16
        } else {
            8
        };
        let line = self.line as i32;
        let mut on_line_count: u32 = 0;
        let mut s: usize = 0;
        while s < 40
            invariant
                self.inv_core(),
                s <= 40,
                line_vector@.len() == 160,
                old(line_vector)@.len() == 160,
                bg_vector@.len() == 160,
                rv == self@.render_view(),
                ly == self@.line,
                line == ly as i32,
                sprite_hight as int == rv.spec_sprite_height(),
                on_line_count <= s,
                on_line_count == spec_sprites_before(rv, ly, s as int),
                rv.spec_sprites_from(ly, old(line_vector)@, bg_vector@, 0)
                    =~= rv.spec_sprites_from(ly, line_vector@, bg_vector@, s as int),
            decreases 40 - s,
        {
            let sy = self.oma_table[s * 4] as i32 - 16;
            let on_line = sy <= line && line < sy + sprite_hight;
            if on_line && on_line_count < 10 {
                self.draw_one_sprite(line_vector, bg_vector, s);
            }
            if on_line {
                on_line_count = on_line_count + 1;
            }
            s = s + 1;
        }
    }

    /// Render the current scan line: the background and window pass, then
    /// the sprite pass.
    pub fn draw_line(&self) -> (r: Vec<u32>)
        requires
            self.inv_core(),
        ensures
            r@ =~= self@.render_view().spec_render_line(self@.line),
            r@.len() == 160,
    {
        let mut line_vector: Vec<u32> = vec![0u32; DISPLAY_WIDTH];
        let bg_vec = self.draw_background_and_window_line(&mut line_vector);
        self.draw_sprites_line(&mut line_vector, &bg_vec);
        line_vector
    }

    /// Credit `clock` T-cycles to the mode machine and take every
    /// transition they pay for, rendering a scan line at each exit from the
    /// VRAM mode and raising the v-blank and LCD-stat interrupts the
    /// transitions call for.
    #[verifier::rlimit(100)]
    #[verifier::spinoff_prover]
    pub fn cycle(&mut self, irq: &mut Irq, clock: u32) -> (lines: Vec<(u8, Vec<u32>)>)
        requires
            old(self).inv(),
            clock <= 0x0100_0000,
        ensures
            final(self).inv(),
            ({
                let t0 = PpuTiming {
                    mode: old(self)@.status_register.mode,
                    line: old(self)@.line,
                    clock: old(self)@.clock + clock,
                };
                let t2 = spec_drain(t0);
                &&& final(self)@ == (PpuView {
                    clock: t2.clock as u32,
                    line: t2.line,
                    status_register: StatusRegister {
                        mode: t2.mode,
                        coincidence_flag: final(self)@.status_register.coincidence_flag,
                        ..old(self)@.status_register
                    },
                    ..old(self)@
                })
                &&& final(self)@.status_register.coincidence_flag == (if spec_drain_stepped(t0) {
                    t2.line == old(self)@.line_compare
                } else {
                    old(self)@.status_register.coincidence_flag
                })
                &&& *final(irq) == (Irq {
                    lines: crate::ic::Interrupts {
                        v_blank: old(irq).lines.v_blank || spec_drain_vblank(t0),
                        lcd_stat: old(irq).lines.lcd_stat || spec_drain_stat(
                            t0,
                            old(self)@.status_register,
                            old(self)@.line_compare,
                        ),
                        ..old(irq).lines
                    },
                })
                &&& lines@.len() == spec_drain_lines(t0).len()
                &&& forall|i: int|
                    0 <= i < lines@.len() ==> lines@[i].0 == spec_drain_lines(t0)[i]
                        && lines@[i].1@ =~= old(self)@.render_view().spec_render_line(
                        spec_drain_lines(t0)[i],
                    )
            }),
    {
        let ghost t0 = PpuTiming {
            mode: old(self)@.status_register.mode,
            line: old(self)@.line,
            clock: old(self)@.clock + clock,
        };
        let ghost rv = old(self)@.render_view();
        let ghost stat0 = old(self)@.status_register;
        let ghost lyc0 = old(self)@.line_compare;
        let ghost coin0 = old(self)@.status_register.coincidence_flag;
        let ghost mut raised_vb: bool = false;
        let ghost mut raised_st: bool = false;
        let ghost mut stepped: bool = false;
        let mut lines: Vec<(u8, Vec<u32>)> = Vec::new();
        self.clock = self.clock + clock;

        loop
            invariant
                self.inv_core(),
                self@.clock <= t0.clock,
                t0.clock < 0x1100_0000,
                self@ == (PpuView {
                    clock: self@.clock,
                    line: self@.line,
                    status_register: StatusRegister {
                        mode: self@.status_register.mode,
                        coincidence_flag: self@.status_register.coincidence_flag,
                        ..stat0
                    },
                    ..old(self)@
                }),
                rv == old(self)@.render_view(),
                stat0 == old(self)@.status_register,
                lyc0 == old(self)@.line_compare,
                coin0 == stat0.coincidence_flag,
                spec_drain(t0) == spec_drain(self@.timing()),
                spec_drain_vblank(t0) == (raised_vb || spec_drain_vblank(self@.timing())),
                spec_drain_stat(t0, stat0, lyc0) == (raised_st || spec_drain_stat(
                    self@.timing(),
                    stat0,
                    lyc0,
                )),
                spec_drain_stepped(t0) == (stepped || spec_drain_stepped(self@.timing())),
                *irq == (Irq {
                    lines: crate::ic::Interrupts {
                        v_blank: old(irq).lines.v_blank || raised_vb,
                        lcd_stat: old(irq).lines.lcd_stat || raised_st,
                        ..old(irq).lines
                    },
                }),
                self@.status_register.coincidence_flag == (if stepped {
                    self@.line == lyc0
                } else {
                    coin0
                }),
                spec_drain_lines(t0) =~= Seq::new(lines@.len(), |i: int| lines@[i].0)
                    + spec_drain_lines(self@.timing()),
                forall|i: int|
                    0 <= i < lines@.len() ==> (#[trigger] lines@[i]).1@ =~= rv.spec_render_line(
                        lines@[i].0,
                    ),
            ensures
                self@.clock < spec_mode_duration(self@.status_register.mode),
            decreases self.clock,
        {
            let ghost tcur = self@.timing();
            let ghost lys = Seq::new(lines@.len(), |i: int| lines@[i].0);
            let duration: u32 = match self.status_register.mode {
                PpuMode::OAM => OAM_CLOCK_CYCLES,
                PpuMode::VRAM => VRAM_CLOCK_CYCLES,
                PpuMode::HorizontalBlanking => H_BLANK_CLOCK_CYCLES,
                PpuMode::VerticalBlanking => V_BLANK_CLOCK_CYCLES,
            };
            if self.clock < duration {
                break ;
            }
            let ghost vb_now = tcur.mode is HorizontalBlanking && spec_transition(
                tcur.mode,
                tcur.line,
            ).0 is VerticalBlanking;
            let ghost st_now = spec_step_stat(tcur, stat0, lyc0);
            let out = self.advance_one(irq);
            proof {
                raised_vb = raised_vb || vb_now;
                raised_st = raised_st || st_now;
                stepped = true;
                if out is Some {
                    assert(Seq::new(lines@.len() + 1, |i: int| (if i < lines@.len() {
                        lines@[i]
                    } else {
                        out->0
                    }).0) =~= lys.push(tcur.line));
                }
            }
            match out {
                Option::Some(pair) => {
                    lines.push(pair);
                    proof {
                        assert(Seq::new(lines@.len(), |i: int| lines@[i].0) =~= lys.push(
                            tcur.line,
                        ));
                        assert(lys + spec_drain_lines(tcur) =~= lys.push(tcur.line)
                            + spec_drain_lines(self@.timing()));
                    }
                }
                Option::None => {
                    proof {
                        assert(Seq::new(lines@.len(), |i: int| lines@[i].0) =~= lys);
                    }
                }
            }
        }
        proof {
            let tc = self@.timing();
            assert(spec_drain(tc) == tc);
            assert(!spec_drain_vblank(tc));
            assert(!spec_drain_stat(tc, stat0, lyc0));
            assert(spec_drain_lines(tc) =~= Seq::<u8>::empty());
            assert(spec_drain_lines(t0) =~= Seq::new(lines@.len(), |i: int| lines@[i].0));
        }
        lines
    }

    /// Take exactly one mode-machine transition (the accumulated clock must
    /// cover the current mode), raising the interrupts it calls for and
    /// rendering the scan line when leaving the VRAM mode.
    #[verifier::rlimit(100)]
    #[verifier::spinoff_prover]
    fn advance_one(&mut self, irq: &mut Irq) -> (out: Option<(u8, Vec<u32>)>)
        requires
            old(self).inv_core(),
            old(self)@.clock < 0x1100_0000,
            old(self)@.clock >= spec_mode_duration(old(self)@.status_register.mode),
        ensures
            final(self).inv_core(),
            ({
                let t = old(self)@.timing();
                let (m2, l2) = spec_transition(t.mode, t.line);
                &&& final(self)@ == (PpuView {
                    clock: (t.clock - spec_mode_duration(t.mode)) as u32,
                    line: l2,
                    status_register: StatusRegister {
                        mode: m2,
                        coincidence_flag: l2 == old(self)@.line_compare,
                        ..old(self)@.status_register
                    },
                    ..old(self)@
                })
                &&& *final(irq) == (Irq {
                    lines: crate::ic::Interrupts {
                        v_blank: old(irq).lines.v_blank || (t.mode is HorizontalBlanking
                            && m2 is VerticalBlanking),
                        lcd_stat: old(irq).lines.lcd_stat || spec_step_stat(
                            t,
                            old(self)@.status_register,
                            old(self)@.line_compare,
                        ),
                        ..old(irq).lines
                    },
                })
                &&& (t.mode is VRAM ==> out is Some && ({
                    let p = out->0;
                    p.0 == t.line && p.1@ =~= old(self)@.render_view().spec_render_line(t.line)
                }))
                &&& (!(t.mode is VRAM) ==> out is None)
            }),
    {
        let duration: u32 = match self.status_register.mode {
            PpuMode::OAM => OAM_CLOCK_CYCLES,
            PpuMode::VRAM => VRAM_CLOCK_CYCLES,
            PpuMode::HorizontalBlanking => H_BLANK_CLOCK_CYCLES,
            PpuMode::VerticalBlanking => V_BLANK_CLOCK_CYCLES,
        };
        self.clock = self.clock - duration;
        let mut out: Option<(u8, Vec<u32>)> = None;
        match self.status_register.mode {
            PpuMode::OAM => {
                self.status_register.mode = PpuMode::VRAM;
            }
            PpuMode::VRAM => {
                let rendered = self.draw_line();
                out = Some((self.line, rendered));
                if self.status_register.h_blank_int {
                    irq.lcd_stat(true);
                }
                self.status_register.mode = PpuMode::HorizontalBlanking;
            }
            PpuMode::HorizontalBlanking => {
                self.line = self.line + 1;
                if self.line >= 144 {
                    irq.v_blank(true);
                    if self.status_register.v_blank_int {
                        irq.lcd_stat(true);
                    }
                    self.status_register.mode = PpuMode::VerticalBlanking;
                } else {
                    if self.status_register.oam_int {
                        irq.lcd_stat(true);
                    }
                    self.status_register.mode = PpuMode::OAM;
                }
            }
            PpuMode::VerticalBlanking => {
                self.line = self.line + 1;
                if self.line > 153 {
                    self.line = 0;
                    if self.status_register.oam_int {
                        irq.lcd_stat(true);
                    }
                    self.status_register.mode = PpuMode::OAM;
                }
            }
        }
        self.status_register.coincidence_flag = self.line == self.line_compare;
        if self.status_register.coincidence_int && self.line == self.line_compare {
            irq.lcd_stat(true);
        }
        out
    }
}

impl IoDevice for Ppu {
    open spec fn inv(&self) -> bool {
        Ppu::inv(self)
    }

    open spec fn spec_read(v: PpuView, addr: u16) -> MemRead {
        if 0x8000 <= addr <= 0x9FFF {
            MemRead::Read(v.vram[v.selected_vram_bank][addr - 0x8000])
        } else if 0xFE00 <= addr <= 0xFE9F {
            MemRead::Read(v.oam[addr - 0xFE00])
        } else if addr == 0xFF40 {
            MemRead::Read(v.control_register.spec_byte())
        } else if addr == 0xFF41 {
            MemRead::Read(v.status_register.spec_byte())
        } else if addr == 0xFF42 {
            MemRead::Read(v.y_scroll)
        } else if addr == 0xFF43 {
            MemRead::Read(v.x_scroll)
        } else if addr == 0xFF44 {
            MemRead::Read(v.line)
        } else if addr == 0xFF45 {
            MemRead::Read(v.line_compare)
        } else if addr == 0xFF47 {
            MemRead::Read(v.bg_mono_palette.spec_byte())
        } else if addr == 0xFF48 {
            MemRead::Read(v.object_mono_palette_0.spec_byte())
        } else if addr == 0xFF49 {
            MemRead::Read(v.object_mono_palette_1.spec_byte())
        } else if addr == 0xFF4A {
            MemRead::Read(v.window_y_pos)
        } else if addr == 0xFF4B {
            MemRead::Read(v.window_x_pos)
        } else if addr == 0xFF4F {
            MemRead::Read(v.selected_vram_bank as u8)
        } else if addr == 0xFF68 {
            MemRead::Read(
                (v.bg_color_palette.color_index + (if v.bg_color_palette.auto_inc {
                    0x80 as int
                } else {
                    0
                })) as u8,
            )
        } else if addr == 0xFF69 {
            MemRead::Read(v.bg_color_palette.spec_data_byte())
        } else if addr == 0xFF6A {
            MemRead::Read(
                (v.object_color_palette.color_index + (if v.object_color_palette.auto_inc {
                    0x80 as int
                } else {
                    0
                })) as u8,
            )
        } else if addr == 0xFF6B {
            MemRead::Read(v.object_color_palette.spec_data_byte())
        } else {
            MemRead::Ignore
        }
    }

    open spec fn spec_write(v: PpuView, addr: u16, value: u8) -> PpuView {
        if 0x8000 <= addr <= 0x9FFF {
            if v.status_register.mode is VRAM {
                v
            } else {
                PpuView {
                    vram: v.vram.update(
                        v.selected_vram_bank,
                        v.vram[v.selected_vram_bank].update(addr - 0x8000, value),
                    ),
                    ..v
                }
            }
        } else if 0xFE00 <= addr <= 0xFE9F {
            if v.status_register.mode is VRAM || v.status_register.mode is OAM {
                v
            } else {
                PpuView { oam: v.oam.update(addr - 0xFE00, value), ..v }
            }
        } else if addr == 0xFF40 {
            PpuView { control_register: ControlRegister::spec_parse(value), ..v }
        } else if addr == 0xFF41 {
            PpuView {
                status_register: StatusRegister {
                    h_blank_int: value / 8 % 2 == 1,
                    v_blank_int: value / 16 % 2 == 1,
                    oam_int: value / 32 % 2 == 1,
                    coincidence_int: value / 64 % 2 == 1,
                    ..v.status_register
                },
                ..v
            }
        } else if addr == 0xFF42 {
            PpuView { y_scroll: value, ..v }
        } else if addr == 0xFF43 {
            PpuView { x_scroll: value, ..v }
        } else if addr == 0xFF44 {
            v
        } else if addr == 0xFF45 {
            PpuView { line_compare: value, ..v }
        } else if addr == 0xFF47 {
            PpuView { bg_mono_palette: MonoColorPalette::spec_parse(value), ..v }
        } else if addr == 0xFF48 {
            PpuView { object_mono_palette_0: MonoColorPalette::spec_parse(value), ..v }
        } else if addr == 0xFF49 {
            PpuView { object_mono_palette_1: MonoColorPalette::spec_parse(value), ..v }
        } else if addr == 0xFF4A {
            PpuView { window_y_pos: value, ..v }
        } else if addr == 0xFF4B {
            PpuView { window_x_pos: value, ..v }
        } else if addr == 0xFF4F {
            PpuView {
                selected_vram_bank: if v.game_boy_mode is Color {
                    value as int % 2
                } else {
                    0
                },
                ..v
            }
        } else if addr == 0xFF68 {
            PpuView {
                bg_color_palette: ColorPaletteView {
                    color_index: value as int % 0x40,
                    auto_inc: value / 128 == 1,
                    ..v.bg_color_palette
                },
                ..v
            }
        } else if addr == 0xFF69 {
            PpuView { bg_color_palette: v.bg_color_palette.spec_data_write(value), ..v }
        } else if addr == 0xFF6A {
            PpuView {
                object_color_palette: ColorPaletteView {
                    color_index: value as int % 0x40,
                    auto_inc: value / 128 == 1,
                    ..v.object_color_palette
                },
                ..v
            }
        } else if addr == 0xFF6B {
            PpuView { object_color_palette: v.object_color_palette.spec_data_write(value), ..v }
        } else {
            v
        }
    }

    open spec fn spec_handles_write(v: PpuView, addr: u16, value: u8) -> bool {
        (0x8000 <= addr <= 0x9FFF) || (0xFE00 <= addr <= 0xFE9F) || (0xFF40 <= addr <= 0xFF45) || (
        0xFF47 <= addr <= 0xFF4B) || addr == 0xFF4F || (0xFF68 <= addr <= 0xFF6B)
    }

    fn read_byte(&self, addr: u16) -> (r: MemRead) {
        if 0x8000 <= addr && addr <= 0x9FFF {
            MemRead::Read(self.read_from_vram(self.selected_vram_bank, addr))
        } else if 0xFE00 <= addr && addr <= 0xFE9F {
            MemRead::Read(self.read_oma(addr))
        } else if addr == 0xFF40 {
            MemRead::Read(self.control_register.get())
        } else if addr == 0xFF41 {
            MemRead::Read(self.status_register.get())
        } else if addr == 0xFF42 {
            MemRead::Read(self.y_scroll)
        } else if addr == 0xFF43 {
            MemRead::Read(self.x_scroll)
        } else if addr == 0xFF44 {
            MemRead::Read(self.line)
        } else if addr == 0xFF45 {
            MemRead::Read(self.line_compare)
        } else if addr == 0xFF47 {
            MemRead::Read(self.bg_mono_palette.read())
        } else if addr == 0xFF48 {
            MemRead::Read(self.object_mono_palette_0.read())
        } else if addr == 0xFF49 {
            MemRead::Read(self.object_mono_palette_1.read())
        } else if addr == 0xFF4A {
            MemRead::Read(self.window_y_pos)
        } else if addr == 0xFF4B {
            MemRead::Read(self.window_x_pos)
        } else if addr == 0xFF4F {
            MemRead::Read(self.selected_vram_bank as u8)
        } else if addr == 0xFF68 {
            MemRead::Read(self.bg_color_palette.read_index_reg())
        } else if addr == 0xFF69 {
            MemRead::Read(self.bg_color_palette.read_data_reg())
        } else if addr == 0xFF6A {
            MemRead::Read(self.object_color_palette.read_index_reg())
        } else if addr == 0xFF6B {
            MemRead::Read(self.object_color_palette.read_data_reg())
        } else {
            MemRead::Ignore
        }
    }

    fn write_byte(&mut self, addr: u16, value: u8) -> (r: MemWrite) {
        if 0x8000 <= addr && addr <= 0x9FFF {
            if !matches!(self.status_register.mode, PpuMode::VRAM) {
                let bank = self.selected_vram_bank;
                self.write_to_vram(bank, addr, value);
            }
            MemWrite::Write
        } else if 0xFE00 <= addr && addr <= 0xFE9F {
            if !matches!(self.status_register.mode, PpuMode::VRAM) && !matches!(
                self.status_register.mode,
                PpuMode::OAM,
            ) {
                self.oma_table[(addr - 0xFE00) as usize] = value;
                proof {
                    assert(self@ =~~= (PpuView {
                        oam: old(self)@.oam.update(addr - 0xFE00, value),
                        ..old(self)@
                    }));
                }
            }
            MemWrite::Write
        } else if addr == 0xFF40 {
            self.control_register.set(value);
            MemWrite::Write
        } else if addr == 0xFF41 {
            self.status_register.set(value);
            MemWrite::Write
        } else if addr == 0xFF42 {
            self.y_scroll = value;
            MemWrite::Write
        } else if addr == 0xFF43 {
            self.x_scroll = value;
            MemWrite::Write
        } else if addr == 0xFF44 {
            MemWrite::Write
        } else if addr == 0xFF45 {
            self.line_compare = value;
            MemWrite::Write
        } else if addr == 0xFF47 {
            self.bg_mono_palette.write(value);
            MemWrite::Write
        } else if addr == 0xFF48 {
            self.object_mono_palette_0.write(value);
            MemWrite::Write
        } else if addr == 0xFF49 {
            self.object_mono_palette_1.write(value);
            MemWrite::Write
        } else if addr == 0xFF4A {
            self.window_y_pos = value;
            MemWrite::Write
        } else if addr == 0xFF4B {
            self.window_x_pos = value;
            MemWrite::Write
        } else if addr == 0xFF4F {
            self.selected_vram_bank = if matches!(self.game_boy_mode, GameBoyMode::Color) {
                (value % 2) as usize
            } else {
                0
            };
            MemWrite::Write
        } else if addr == 0xFF68 {
            self.bg_color_palette.write_index_reg(value);
            MemWrite::Write
        } else if addr == 0xFF69 {
            self.bg_color_palette.write_data_reg(value);
            MemWrite::Write
        } else if addr == 0xFF6A {
            self.object_color_palette.write_index_reg(value);
            MemWrite::Write
        } else if addr == 0xFF6B {
            self.object_color_palette.write_data_reg(value);
            MemWrite::Write
        } else {
            MemWrite::Ignore
        }
    }
}


} // verus!
