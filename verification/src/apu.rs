//! The audio unit's bus surface: two tone channels, the wave channel and
//! the noise channel at FF10-FF3F, with the mixer registers at FF24-FF26.
//! The mixer produces integer amplitudes; turning them into host samples is
//! the host's concern.

pub mod frame_sequencer;
pub mod noise;
pub mod sound_length;
pub mod tone;
pub mod volume;
pub mod wave;

use vstd::prelude::*;

use crate::apu::noise::Noise;
use crate::apu::tone::Tone;
use crate::apu::wave::{Wave, WaveView};
use crate::mmu::{IoDevice, MemRead, MemWrite};
use crate::processor::TCycles;

verus! {

/// The FF24 register: output level and the cartridge sound input bit for
/// each side.
#[derive(Clone, Copy, Debug, PartialEq, Eq, Structural)]
pub struct ChanelControlRegister {
    pub left_vin: bool,
    pub right_vin: bool,
    pub left_level: u8,
    pub right_level: u8,
}

impl ChanelControlRegister {
    pub open spec fn inv(&self) -> bool {
        self.left_level <= 7 && self.right_level <= 7
    }

    pub open spec fn spec_byte(self) -> u8 {
        (self.right_level + (if self.right_vin { 8 as int } else { 0 }) + self.left_level * 16 + (
        if self.left_vin {
            0x80 as int
        } else {
            0
        })) as u8
    }

    pub open spec fn spec_parse(val: u8) -> ChanelControlRegister {
        ChanelControlRegister {
            right_level: (val % 8) as u8,
            right_vin: val / 8 % 2 == 1,
            left_level: (val / 16 % 8) as u8,
            left_vin: val / 128 % 2 == 1,
        }
    }

    pub fn write(&mut self, val: u8)
        ensures
            *final(self) == ChanelControlRegister::spec_parse(val),
            final(self).inv(),
    {
        self.right_level = val % 8;
        self.right_vin = val / 8 % 2 == 1;
        self.left_level = val / 16 % 8;
        self.left_vin = val / 128 % 2 == 1;
    }

    pub fn read(&self) -> (r: u8)
        requires
            self.inv(),
        ensures
            r == self.spec_byte(),
    {
        self.right_level + (if self.right_vin { 8u8 } else { 0 }) + self.left_level * 16 + (
        if self.left_vin {
            0x80u8
        } else {
            0
        })
    }
}

/// The FF25 register: which channel feeds which side.
#[derive(Clone, Copy, Debug, PartialEq, Eq, Structural)]
pub struct SoundDirectionRegister {
    pub tone1_right: bool,
    pub tone2_right: bool,
    pub wave_right: bool,
    pub noise_right: bool,
    pub tone1_left: bool,
    pub tone2_left: bool,
    pub wave_left: bool,
    pub noise_left: bool,
}

impl SoundDirectionRegister {
    pub open spec fn spec_byte(self) -> u8 {
        ((if self.tone1_right { 1 as int } else { 0 }) + (if self.tone2_right { 2 as int } else { 0 })
            + (if self.wave_right { 4 as int } else { 0 }) + (if self.noise_right {
            8 as int
        } else {
            0
        }) + (if self.tone1_left { 16 as int } else { 0 }) + (if self.tone2_left {
            32 as int
        } else {
            0
        }) + (if self.wave_left { 64 as int } else { 0 }) + (if self.noise_left {
            128 as int
        } else {
            0
        })) as u8
    }

    pub open spec fn spec_parse(val: u8) -> SoundDirectionRegister {
        SoundDirectionRegister {
            tone1_right: val % 2 == 1,
            tone2_right: val / 2 % 2 == 1,
            wave_right: val / 4 % 2 == 1,
            noise_right: val / 8 % 2 == 1,
            tone1_left: val / 16 % 2 == 1,
            tone2_left: val / 32 % 2 == 1,
            wave_left: val / 64 % 2 == 1,
            noise_left: val / 128 % 2 == 1,
        }
    }

    pub fn write(&mut self, val: u8)
        ensures
            *final(self) == SoundDirectionRegister::spec_parse(val),
    {
        self.tone1_right = val % 2 == 1;
        self.tone2_right = val / 2 % 2 == 1;
        self.wave_right = val / 4 % 2 == 1;
        self.noise_right = val / 8 % 2 == 1;
        self.tone1_left = val / 16 % 2 == 1;
        self.tone2_left = val / 32 % 2 == 1;
        self.wave_left = val / 64 % 2 == 1;
        self.noise_left = val / 128 % 2 == 1;
    }

    pub fn read(&self) -> (r: u8)
        ensures
            r == self.spec_byte(),
    {
        (if self.tone1_right { 1u8 } else { 0 }) + (if self.tone2_right { 2u8 } else { 0 }) + (
        if self.wave_right {
            4u8
        } else {
            0
        }) + (if self.noise_right { 8u8 } else { 0 }) + (if self.tone1_left { 16u8 } else { 0 })
            + (if self.tone2_left { 32u8 } else { 0 }) + (if self.wave_left { 64u8 } else { 0 })
            + (if self.noise_left { 128u8 } else { 0 })
    }
}

pub struct Apu {
    pub sound_direction: SoundDirectionRegister,
    pub chanel_control: ChanelControlRegister,
    pub tone1: Tone,
    pub tone2: Tone,
    pub wave: Wave,
    pub noise: Noise,
    pub is_sound_enabled: bool,
    pub emulator_cycle_frequency: u32,
    pub pcm_sample_rate: u32,
    pub clock: TCycles,
}

/// The audio unit as mathematical values.
#[verifier::ext_equal]
pub ghost struct ApuView {
    pub sound_direction: SoundDirectionRegister,
    pub chanel_control: ChanelControlRegister,
    pub tone1: Tone,
    pub tone2: Tone,
    pub wave: WaveView,
    pub noise: Noise,
    pub is_sound_enabled: bool,
    pub emulator_cycle_frequency: u32,
    pub pcm_sample_rate: u32,
    pub clock: TCycles,
}

impl View for Apu {
    type V = ApuView;

    open spec fn view(&self) -> ApuView {
        ApuView {
            sound_direction: self.sound_direction,
            chanel_control: self.chanel_control,
            tone1: self.tone1,
            tone2: self.tone2,
            wave: self.wave@,
            noise: self.noise,
            is_sound_enabled: self.is_sound_enabled,
            emulator_cycle_frequency: self.emulator_cycle_frequency,
            pcm_sample_rate: self.pcm_sample_rate,
            clock: self.clock,
        }
    }
}

impl Apu {
    /// A silent unit; `pcm_sample_rate` is the host's sample rate in Hz.
    pub fn new(emulator_cycle_frequency: u32, pcm_sample_rate: u32) -> (r: Apu)
        requires
            pcm_sample_rate > 0,
        ensures
            r.inv(),
            !r.is_sound_enabled,
            r.emulator_cycle_frequency == emulator_cycle_frequency,
            r.pcm_sample_rate == pcm_sample_rate,
    {
        Apu {
            sound_direction: SoundDirectionRegister {
                tone1_right: false,
                tone2_right: false,
                wave_right: false,
                noise_right: false,
                tone1_left: false,
                tone2_left: false,
                wave_left: false,
                noise_left: false,
            },
            chanel_control: ChanelControlRegister {
                left_vin: false,
                right_vin: false,
                left_level: 0,
                right_level: 0,
            },
            tone1: Tone::new(true),
            tone2: Tone::new(false),
            wave: Wave::new(),
            noise: Noise::new(),
            is_sound_enabled: false,
            emulator_cycle_frequency,
            pcm_sample_rate,
            clock: 0,
        }
    }

    /// Credit `clocks` T-cycles to the four channels and mix their
    /// amplitudes; returns a PCM sample for the host once enough cycles for
    /// one sample period have passed, and `None` otherwise or while sound
    /// is disabled.
    pub fn cycle(&mut self, clocks: TCycles) -> (sample: Option<u16>)
        requires
            old(self).inv(),
            clocks < 0x10000,
            old(self).clock + clocks < 0x8000_0000,
            old(self).tone1.clock + clocks < 0x8000_0000,
            old(self).tone1.frame_sequencer.clock + clocks < 0x8000_0000,
            old(self).tone2.clock + clocks < 0x8000_0000,
            old(self).tone2.frame_sequencer.clock + clocks < 0x8000_0000,
            old(self).wave.clock + clocks < 0x8000_0000,
            old(self).wave.frame_sequencer.clock + clocks < 0x8000_0000,
            old(self).noise.clock + clocks < 0x8000_0000,
            old(self).noise.frame_sequencer.clock + clocks < 0x8000_0000,
        ensures
            final(self).inv(),
            !old(self).is_sound_enabled ==> *final(self) == *old(self) && sample is None,
            sample is Some ==> sample->0 <= 4 * 15 * 7,
    {
        if !self.is_sound_enabled {
            return None;
        }

        self.clock = self.clock + clocks;

        let highest_volume = if self.chanel_control.right_level >= self.chanel_control.left_level {
            self.chanel_control.right_level as u16
        } else {
            self.chanel_control.left_level as u16
        };

        let mut amplitude: u16 = 0;

        let a1 = self.tone1.cycle(clocks);
        if self.sound_direction.tone1_left || self.sound_direction.tone1_right {
            proof {
                assert(a1 * highest_volume <= 105) by (nonlinear_arith)
                    requires
                        a1 <= 15,
                        highest_volume <= 7,
                ;
            }
            amplitude = amplitude + a1 * highest_volume;
        }
        let a2 = self.tone2.cycle(clocks);
        if self.sound_direction.tone2_left || self.sound_direction.tone2_right {
            proof {
                assert(a2 * highest_volume <= 105) by (nonlinear_arith)
                    requires
                        a2 <= 15,
                        highest_volume <= 7,
                ;
            }
            amplitude = amplitude + a2 * highest_volume;
        }
        let a3 = self.wave.cycle(clocks);
        if self.sound_direction.wave_left || self.sound_direction.wave_right {
            proof {
                assert(a3 * highest_volume <= 105) by (nonlinear_arith)
                    requires
                        a3 <= 15,
                        highest_volume <= 7,
                ;
            }
            amplitude = amplitude + a3 * highest_volume;
        }
        let a4 = self.noise.cycle(clocks);
        if self.sound_direction.noise_left || self.sound_direction.noise_right {
            proof {
                assert(a4 * highest_volume <= 105) by (nonlinear_arith)
                    requires
                        a4 <= 15,
                        highest_volume <= 7,
                ;
            }
            amplitude = amplitude + a4 * highest_volume;
        }

        let tcycles_to_output_rate = self.emulator_cycle_frequency / self.pcm_sample_rate;

        if self.clock >= tcycles_to_output_rate {
            self.clock = self.clock - tcycles_to_output_rate;
            Some(amplitude)
        } else {
            None
        }
    }
}

impl IoDevice for Apu {
    open spec fn inv(&self) -> bool {
        &&& self.tone1.inv()
        &&& self.tone2.inv()
        &&& self.wave.inv()
        &&& self.noise.inv()
        &&& self.chanel_control.inv()
        &&& self.pcm_sample_rate > 0
    }

    open spec fn spec_read(v: ApuView, addr: u16) -> MemRead {
        if 0xFF10 <= addr <= 0xFF14 {
            MemRead::Read(v.tone1.spec_read_at(addr - 0xFF10))
        } else if 0xFF15 <= addr <= 0xFF19 {
            MemRead::Read(v.tone2.spec_read_at(addr - 0xFF15))
        } else if 0xFF1A <= addr <= 0xFF1E {
            MemRead::Read(v.wave.spec_read_at(addr - 0xFF1A))
        } else if 0xFF1F <= addr <= 0xFF23 {
            MemRead::Read(v.noise.spec_read_at(addr - 0xFF1F))
        } else if addr == 0xFF24 {
            MemRead::Read(v.chanel_control.spec_byte())
        } else if addr == 0xFF25 {
            MemRead::Read(v.sound_direction.spec_byte())
        } else if addr == 0xFF26 {
            MemRead::Read(
                ((if v.is_sound_enabled { 0x80 as int } else { 0 }) + (if v.tone1.channel_enabled {
                    1 as int
                } else {
                    0
                }) + (if v.tone2.channel_enabled { 2 as int } else { 0 }) + (
                if v.wave.channel_enabled {
                    4 as int
                } else {
                    0
                }) + (if v.noise.channel_enabled { 8 as int } else { 0 })) as u8,
            )
        } else if 0xFF30 <= addr <= 0xFF3F {
            MemRead::Read(v.wave.spec_read_at(addr - 0xFF1A))
        } else {
            MemRead::Ignore
        }
    }

    open spec fn spec_write(v: ApuView, addr: u16, value: u8) -> ApuView {
        if 0xFF10 <= addr <= 0xFF14 {
            ApuView { tone1: v.tone1.spec_write_at(addr - 0xFF10, value), ..v }
        } else if 0xFF15 <= addr <= 0xFF19 {
            ApuView { tone2: v.tone2.spec_write_at(addr - 0xFF15, value), ..v }
        } else if 0xFF1A <= addr <= 0xFF1E {
            ApuView { wave: v.wave.spec_write_at(addr - 0xFF1A, value), ..v }
        } else if 0xFF1F <= addr <= 0xFF23 {
            ApuView { noise: v.noise.spec_write_at(addr - 0xFF1F, value), ..v }
        } else if addr == 0xFF24 {
            ApuView { chanel_control: ChanelControlRegister::spec_parse(value), ..v }
        } else if addr == 0xFF25 {
            ApuView { sound_direction: SoundDirectionRegister::spec_parse(value), ..v }
        } else if addr == 0xFF26 {
            ApuView { is_sound_enabled: value / 128 % 2 == 1, ..v }
        } else if 0xFF30 <= addr <= 0xFF3F {
            ApuView { wave: v.wave.spec_write_at(addr - 0xFF1A, value), ..v }
        } else {
            v
        }
    }

    open spec fn spec_handles_write(v: ApuView, addr: u16, value: u8) -> bool {
        (0xFF10 <= addr <= 0xFF26) || (0xFF30 <= addr <= 0xFF3F)
    }

    fn read_byte(&self, addr: u16) -> (r: MemRead) {
        if 0xFF10 <= addr && addr <= 0xFF14 {
            MemRead::Read(self.tone1.read_byte(0xFF10, addr))
        } else if 0xFF15 <= addr && addr <= 0xFF19 {
            MemRead::Read(self.tone2.read_byte(0xFF15, addr))
        } else if 0xFF1A <= addr && addr <= 0xFF1E {
            MemRead::Read(self.wave.read_byte(0xFF1A, addr))
        } else if 0xFF1F <= addr && addr <= 0xFF23 {
            MemRead::Read(self.noise.read_byte(0xFF1F, addr))
        } else if addr == 0xFF24 {
            MemRead::Read(self.chanel_control.read())
        } else if addr == 0xFF25 {
            MemRead::Read(self.sound_direction.read())
        } else if addr == 0xFF26 {
            MemRead::Read(
                (if self.is_sound_enabled { 0x80u8 } else { 0 }) + (if self.tone1.channel_enabled {
                    1u8
                } else {
                    0
                }) + (if self.tone2.channel_enabled { 2u8 } else { 0 }) + (
                if self.wave.channel_enabled {
                    4u8
                } else {
                    0
                }) + (if self.noise.channel_enabled { 8u8 } else { 0 }),
            )
        } else if 0xFF30 <= addr && addr <= 0xFF3F {
            MemRead::Read(self.wave.read_byte(0xFF1A, addr))
        } else {
            MemRead::Ignore
        }
    }

    fn write_byte(&mut self, addr: u16, value: u8) -> (r: MemWrite) {
        if 0xFF10 <= addr && addr <= 0xFF14 {
            self.tone1.write_byte(0xFF10, addr, value);
            MemWrite::Write
        } else if 0xFF15 <= addr && addr <= 0xFF19 {
            self.tone2.write_byte(0xFF15, addr, value);
            MemWrite::Write
        } else if 0xFF1A <= addr && addr <= 0xFF1E {
            self.wave.write_byte(0xFF1A, addr, value);
            MemWrite::Write
        } else if 0xFF1F <= addr && addr <= 0xFF23 {
            self.noise.write_byte(0xFF1F, addr, value);
            MemWrite::Write
        } else if addr == 0xFF24 {
            self.chanel_control.write(value);
            MemWrite::Write
        } else if addr == 0xFF25 {
            self.sound_direction.write(value);
            MemWrite::Write
        } else if addr == 0xFF26 {
            self.is_sound_enabled = value / 128 % 2 == 1;
            MemWrite::Write
        } else if 0xFF30 <= addr && addr <= 0xFF3F {
            self.wave.write_byte(0xFF1A, addr, value);
            MemWrite::Write
        } else {
            MemWrite::Ignore
        }
    }
}

} // verus!
