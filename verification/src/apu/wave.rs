//! The wave channel: a 32-sample, 4-bit waveform RAM played back at a
//! programmable frequency with a two-bit volume shift.

use vstd::prelude::*;

use crate::apu::frame_sequencer::FrameSequencer;
use crate::apu::sound_length::SoundLength;
use crate::processor::{TCycles, T_CYCLE_FREQUENCY};

verus! {

pub const WAVE_PATTERN_RAM_SIZE: usize = 32;

pub const MAX_WAVE_LEN: u8 = 255;

pub struct Wave {
    pub channel_enabled: bool,
    pub frequency: u16,
    pub volume: u8,
    pub wave_index: usize,
    pub clock: TCycles,
    pub sound_length: SoundLength,
    pub frame_sequencer: FrameSequencer,
    pub wave_pattern_ram: [u8; 16],
}

/// The wave channel as mathematical values.
#[verifier::ext_equal]
pub ghost struct WaveView {
    pub channel_enabled: bool,
    pub frequency: u16,
    pub volume: u8,
    pub wave_index: int,
    pub clock: TCycles,
    pub sound_length: SoundLength,
    pub frame_sequencer: FrameSequencer,
    pub ram: Seq<u8>,
}

impl View for Wave {
    type V = WaveView;

    open spec fn view(&self) -> WaveView {
        WaveView {
            channel_enabled: self.channel_enabled,
            frequency: self.frequency,
            volume: self.volume,
            wave_index: self.wave_index as int,
            clock: self.clock,
            sound_length: self.sound_length,
            frame_sequencer: self.frame_sequencer,
            ram: self.wave_pattern_ram@,
        }
    }
}

impl WaveView {
    /// The register byte at the given offset: the five control registers,
    /// or a byte of the waveform RAM at offsets 0x16-0x25.
    pub open spec fn spec_read_at(self, offset: int) -> u8 {
        if offset == 0 {
            if self.channel_enabled {
                0xFF
            } else {
                0x7F
            }
        } else if offset == 1 {
            0xFF
        } else if offset == 2 {
            (self.volume * 32 + 0x9F) as u8
        } else if offset == 3 {
            0xFF
        } else if offset == 4 {
            if self.sound_length.dec_sound_len {
                0xFB
            } else {
                0xBB
            }
        } else {
            self.ram[offset - 0x16]
        }
    }

    /// The channel state after a write of `val` at the given offset.
    pub open spec fn spec_write_at(self, offset: int, val: u8) -> WaveView {
        if offset == 0 {
            WaveView { channel_enabled: val / 128 == 1, ..self }
        } else if offset == 1 {
            WaveView {
                sound_length: SoundLength { sound_len: (val % 255) as u8, ..self.sound_length },
                ..self
            }
        } else if offset == 2 {
            WaveView { volume: (val / 32 % 4) as u8, ..self }
        } else if offset == 3 {
            WaveView { frequency: (self.frequency - self.frequency % 256 + val) as u16, ..self }
        } else if offset == 4 {
            let base = if val / 128 == 1 {
                WaveView {
                    frame_sequencer: FrameSequencer { clock: 0, current_cycle: 0 },
                    sound_length: SoundLength { sound_len: self.sound_length.max_len,
                        ..self.sound_length },
                    wave_index: 0,
                    clock: 0,
                    channel_enabled: true,
                    ..self
                }
            } else {
                self
            };
            WaveView {
                frequency: ((val % 4) * 256 + self.frequency % 256) as u16,
                sound_length: SoundLength { dec_sound_len: val / 64 % 2 == 1,
                    ..base.sound_length },
                ..base
            }
        } else if 0x16 <= offset <= 0x25 {
            WaveView { ram: self.ram.update(offset - 0x16, val), ..self }
        } else {
            self
        }
    }
}

impl Wave {
    pub open spec fn inv(&self) -> bool {
        &&& self.sound_length.inv()
        &&& self.sound_length.max_len == 255
        &&& self.frame_sequencer.current_cycle < 8
        &&& self.volume <= 3
        &&& self.wave_index < 32
        &&& self.frequency <= 2047
    }

    pub fn new() -> (r: Wave)
        ensures
            r.inv(),
            !r.channel_enabled,
            r.frequency == 0,
            r@.ram =~= Seq::new(16, |i: int| 0u8),
    {
        Wave {
            channel_enabled: false,
            frequency: 0,
            volume: 0,
            wave_index: 0,
            clock: 0,
            sound_length: SoundLength::new(MAX_WAVE_LEN),
            frame_sequencer: FrameSequencer::new(),
            wave_pattern_ram: [0u8; 16],
        }
    }

    /// The register byte at offset `addr - base_addr`: the five control
    /// registers, or one byte of the waveform RAM at offsets 0x16-0x25.
    pub fn read_byte(&self, base_addr: u16, addr: u16) -> (r: u8)
        requires
            self.inv(),
            base_addr <= addr,
            addr - base_addr <= 4 || 0x16 <= addr - base_addr <= 0x25,
        ensures
            r == self@.spec_read_at(addr - base_addr),
    {
        let offset = addr - base_addr;
        if offset == 0 {
            if self.channel_enabled {
                0xFF
            } else {
                0x7F
            }
        } else if offset == 1 {
            0xFF
        } else if offset == 2 {
            self.volume * 32 + 0x9F
        } else if offset == 3 {
            0xFF
        } else if offset == 4 {
            if self.sound_length.dec_sound_len {
                0xFB
            } else {
                0xBB
            }
        } else {
            self.wave_pattern_ram[(offset - 0x16) as usize]
        }
    }

    /// Write the register byte at offset `addr - base_addr`: enable, length,
    /// volume, the two frequency bytes (bit 7 of the last retriggers), or a
    /// byte of the waveform RAM.
    pub fn write_byte(&mut self, base_addr: u16, addr: u16, val: u8)
        requires
            old(self).inv(),
            base_addr <= addr,
            addr - base_addr <= 4 || 0x16 <= addr - base_addr <= 0x25,
        ensures
            final(self).inv(),
            final(self)@ == old(self)@.spec_write_at(addr - base_addr, val),
    {
        let offset = addr - base_addr;
        if offset == 0 {
            self.channel_enabled = val / 128 == 1;
        } else if offset == 1 {
            self.sound_length.set_length(val);
        } else if offset == 2 {
            self.volume = val / 32 % 4;
        } else if offset == 3 {
            proof {
                assert(self.frequency - self.frequency % 256 <= 1792) by (nonlinear_arith)
                    requires
                        self.frequency <= 2047,
                ;
            }
            self.frequency = self.frequency - self.frequency % 256 + (val as u16);
        } else if offset == 4 {
            if val / 128 == 1 {
                self.enable_channel();
            }
            self.frequency = ((val as u16) % 4) * 256 + self.frequency % 256;
            self.sound_length.dec_sound_len = val / 64 % 2 == 1;
        } else {
            self.wave_pattern_ram[(offset - 0x16) as usize] = val;
        }
        proof {
            assert(self@ =~= old(self)@.spec_write_at(addr - base_addr, val));
        }
    }

    /// Retrigger the channel: restart the sequencer, the length counter and
    /// the waveform position.
    fn enable_channel(&mut self)
        ensures
            *final(self) == (Wave {
                frame_sequencer: FrameSequencer { clock: 0, current_cycle: 0 },
                sound_length: SoundLength { sound_len: old(self).sound_length.max_len,
                    ..old(self).sound_length },
                wave_index: 0,
                clock: 0,
                channel_enabled: true,
                ..*old(self)
            }),
    {
        self.frame_sequencer.reset();
        self.sound_length.reset();
        self.wave_index = 0;
        self.clock = 0;
        self.channel_enabled = true;
    }

    /// T-cycles per waveform sample at the current frequency.
    fn get_t_cycle_ratio(&self) -> (r: u32)
        requires
            self.frequency <= 2047,
        ensures
            r == T_CYCLE_FREQUENCY as int / ((2048 - self.frequency) * 64),
    {
        T_CYCLE_FREQUENCY / ((2048 - self.frequency as u32) * 64)
    }

    /// Credit `clocks` T-cycles and produce the channel's current amplitude,
    /// 0 when the channel is silent.
    pub fn cycle(&mut self, clocks: TCycles) -> (amplitude: u16)
        requires
            old(self).inv(),
            clocks < 0x10000,
            old(self).clock + clocks < 0x8000_0000,
            old(self).frame_sequencer.clock + clocks < 0x8000_0000,
        ensures
            final(self).inv(),
            amplitude <= 15,
            !old(self).channel_enabled ==> *final(self) == *old(self) && amplitude == 0,
    {
        if !self.channel_enabled {
            return 0;
        }

        self.clock = self.clock + clocks;

        if self.frame_sequencer.cycle(clocks) {
            if self.frame_sequencer.current_cycle % 2 == 0 {
                let mut enabled = self.channel_enabled;
                self.sound_length.cycle(&mut enabled);
                self.channel_enabled = enabled;
            }
        }

        let ratio = self.get_t_cycle_ratio();
        if self.clock >= ratio {
            self.clock = self.clock - ratio;
            self.wave_index = (self.wave_index + 1) % WAVE_PATTERN_RAM_SIZE;
        }

        if self.volume != 0 {
            let current_amplitude_byte = self.wave_pattern_ram[self.wave_index / 2];
            let current_amplitude = if self.wave_index % 2 == 0 {
                current_amplitude_byte % 16
            } else {
                current_amplitude_byte / 16
            };
            if self.volume == 1 {
                (current_amplitude / 2) as u16
            } else if self.volume == 2 {
                (current_amplitude / 4) as u16
            } else {
                (current_amplitude / 8) as u16
            }
        } else {
            0
        }
    }
}

} // verus!
