//! A square-wave tone channel (with an optional frequency sweep on the
//! first channel): duty pattern, length counter, volume envelope.

use vstd::prelude::*;

use crate::apu::frame_sequencer::FrameSequencer;
use crate::apu::sound_length::SoundLength;
use crate::apu::volume::Volume;
use crate::processor::{TCycles, T_CYCLE_FREQUENCY};

verus! {

pub const MAX_TONE_VOLUME: u32 = 15;

pub const MAX_SOUND_LEN: u8 = 64;

/// One step of the selected duty waveform: 1 when the square wave is high
/// at step `idx` of eight.
pub open spec fn spec_wave_sample(pattern: u8, idx: int) -> u16 {
    if pattern == 0 {
        if idx == 0 {
            1
        } else {
            0
        }
    } else if pattern == 1 {
        if idx == 0 || idx == 7 {
            1
        } else {
            0
        }
    } else if pattern == 2 {
        if idx == 0 || idx >= 5 {
            1
        } else {
            0
        }
    } else {
        if 1 <= idx <= 6 {
            1
        } else {
            0
        }
    }
}

/// The duty waveforms: one eighth, one quarter, one half or three quarters
/// of each period high.
pub fn wave_sample(pattern: u8, idx: usize) -> (r: u16)
    requires
        pattern <= 3,
        idx < 8,
    ensures
        r == spec_wave_sample(pattern, idx as int),
        r <= 1,
{
    if pattern == 0 {
        if idx == 0 {
            1
        } else {
            0
        }
    } else if pattern == 1 {
        if idx == 0 || idx == 7 {
            1
        } else {
            0
        }
    } else if pattern == 2 {
        if idx == 0 || idx >= 5 {
            1
        } else {
            0
        }
    } else {
        if 1 <= idx && idx <= 6 {
            1
        } else {
            0
        }
    }
}

pub struct Tone {
    pub clock: TCycles,
    pub channel_enabled: bool,
    pub sweep_enabled: bool,
    pub currant_sweep_cycle: u8,
    pub sweep_time: u8,
    pub sweep_increase: bool,
    pub sweep_shift: u8,
    pub selected_wave_pattern: u8,
    pub currant_wave_cycle: usize,
    pub frequency: u16,
    pub volume: Volume,
    pub sound_length: SoundLength,
    pub frame_sequencer: FrameSequencer,
}


impl Tone {
    /// The register byte at the given offset of the channel's five
    /// registers.
    pub open spec fn spec_read_at(self, offset: int) -> u8 {
        if offset == 0 {
            if self.sweep_enabled {
                (self.sweep_shift + (if self.sweep_increase { 8 as int } else { 0 })
                    + self.sweep_time * 16 + 0x80) as u8
            } else {
                0xFF
            }
        } else if offset == 1 {
            (0x3F + self.selected_wave_pattern * 64) as u8
        } else if offset == 2 {
            self.volume.spec_read()
        } else if offset == 3 {
            0xFF
        } else {
            if self.sound_length.dec_sound_len {
                0xFB
            } else {
                0xBB
            }
        }
    }

    /// The channel state after a write of `val` at the given offset.
    pub open spec fn spec_write_at(self, offset: int, val: u8) -> Tone {
        if offset == 0 {
            if self.sweep_enabled {
                Tone {
                    sweep_shift: (val % 8) as u8,
                    sweep_increase: val / 8 % 2 == 1,
                    sweep_time: (val / 16 % 8) as u8,
                    ..self
                }
            } else {
                self
            }
        } else if offset == 1 {
            Tone {
                sound_length: SoundLength { sound_len: (val % 64) as u8, ..self.sound_length },
                selected_wave_pattern: (val / 64) as u8,
                ..self
            }
        } else if offset == 2 {
            Tone {
                volume: Volume {
                    envelope_counter: (val % 4) as u8,
                    vol_envelope_increase: val / 4 % 2 == 1,
                    volume: (val / 16) as u8,
                    initial_volume: (val / 16) as u8,
                },
                ..self
            }
        } else if offset == 3 {
            Tone { frequency: (self.frequency - self.frequency % 256 + val) as u16, ..self }
        } else {
            let base = if val / 128 == 1 {
                Tone {
                    volume: Volume { volume: self.volume.initial_volume, ..self.volume },
                    frame_sequencer: FrameSequencer { clock: 0, current_cycle: 0 },
                    currant_wave_cycle: 0,
                    clock: 0,
                    channel_enabled: true,
                    ..self
                }
            } else {
                self
            };
            Tone {
                frequency: ((val % 4) * 256 + self.frequency % 256) as u16,
                sound_length: SoundLength { dec_sound_len: val / 64 % 2 == 1,
                    ..self.sound_length },
                ..base
            }
        }
    }
}

impl Tone {
    pub open spec fn inv(&self) -> bool {
        &&& self.volume.inv()
        &&& self.sound_length.inv()
        &&& self.sound_length.max_len == 64
        &&& self.frame_sequencer.current_cycle < 8
        &&& self.selected_wave_pattern <= 3
        &&& self.currant_wave_cycle < 8
        &&& self.sweep_time <= 7
        &&& self.sweep_shift <= 7
        &&& self.currant_sweep_cycle <= 7
        &&& self.frequency <= 4095
        &&& (self.channel_enabled ==> self.frequency <= 2047)
    }

    pub fn new(sweep_enabled: bool) -> (r: Tone)
        ensures
            r.inv(),
            !r.channel_enabled,
            r.sweep_enabled == sweep_enabled,
            r.frequency == 0,
    {
        Tone {
            clock: 0,
            channel_enabled: false,
            sweep_enabled,
            currant_sweep_cycle: 0,
            sweep_time: 0,
            sweep_increase: false,
            sweep_shift: 0,
            selected_wave_pattern: 0,
            currant_wave_cycle: 0,
            frequency: 0,
            volume: Volume::new(),
            sound_length: SoundLength::new(MAX_SOUND_LEN),
            frame_sequencer: FrameSequencer::new(),
        }
    }

    /// The register byte at offset `addr - base_addr` of the channel's five
    /// registers (unreadable ones read back their fixed mask bits).
    pub fn read_byte(&self, base_addr: u16, addr: u16) -> (r: u8)
        requires
            self.inv(),
            base_addr <= addr <= base_addr + 4,
        ensures
            r == self.spec_read_at(addr - base_addr),
    {
        let offset = addr - base_addr;
        if offset == 0 {
            if self.sweep_enabled {
                self.sweep_shift + (if self.sweep_increase { 8u8 } else { 0 }) + self.sweep_time
                    * 16 + 0x80
            } else {
                0xFF
            }
        } else if offset == 1 {
            0x3F + self.selected_wave_pattern * 64
        } else if offset == 2 {
            self.volume.read()
        } else if offset == 3 {
            0xFF
        } else {
            if self.sound_length.dec_sound_len {
                0xFB
            } else {
                0xBB
            }
        }
    }

    /// Write the register byte at offset `addr - base_addr`: sweep control,
    /// length and duty, envelope, and the two frequency bytes; bit 7 of the
    /// last register retriggers the channel.
    pub fn write_byte(&mut self, base_addr: u16, addr: u16, val: u8)
        requires
            old(self).inv(),
            base_addr <= addr <= base_addr + 4,
        ensures
            final(self).inv(),
            *final(self) == old(self).spec_write_at(addr - base_addr, val),
    {
        let offset = addr - base_addr;
        if offset == 0 {
            if self.sweep_enabled {
                self.sweep_shift = val % 8;
                self.sweep_increase = val / 8 % 2 == 1;
                self.sweep_time = val / 16 % 8;
            }
        } else if offset == 1 {
            self.sound_length.set_length(val % 64);
            self.selected_wave_pattern = val / 64;
        } else if offset == 2 {
            self.volume.write(val);
        } else if offset == 3 {
            proof {
                assert(self.frequency - self.frequency % 256 <= 3840) by (nonlinear_arith)
                    requires
                        self.frequency <= 4095,
                ;
            }
            self.frequency = self.frequency - self.frequency % 256 + (val as u16);
        } else if offset == 4 {
            if val / 128 == 1 {
                self.enable_channel();
            }
            self.frequency = ((val as u16) % 4) * 256 + self.frequency % 256;
            self.sound_length.dec_sound_len = val / 64 % 2 == 1;
        }
    }

    /// One sweep step: when the sweep runs, shift the frequency up or down
    /// by its `1 / 2^shift` fraction, silencing the channel when it leaves
    /// the valid range.
    fn cycle_sweep(&mut self)
        requires
            old(self).inv(),
            old(self).frequency <= 2047,
        ensures
            final(self).inv(),
    {
        if !self.sweep_enabled || self.sweep_time == 0 {
            return ;
        }

        self.currant_sweep_cycle = self.currant_sweep_cycle + 1;

        if self.currant_sweep_cycle >= self.sweep_time {
            self.currant_sweep_cycle = 0;

            let sh: u32 = self.sweep_shift as u32;
            proof {
                assert(1u16 << sh >= 1) by (bit_vector)
                    requires
                        sh <= 7,
                ;
            }
            let sweep_change = self.frequency / (1u16 << sh);

            if self.sweep_increase {
                self.frequency = self.frequency + sweep_change;
            } else {
                self.frequency = self.frequency - sweep_change;
            }

            if self.frequency > 2047 {
                self.channel_enabled = false;
            }
        }
    }

    /// T-cycles per eighth of the square period at the current frequency.
    fn get_t_cycle_ratio(&self) -> (r: u32)
        requires
            self.frequency <= 2047,
        ensures
            r == T_CYCLE_FREQUENCY as int / ((2048 - self.frequency) * 32),
    {
        T_CYCLE_FREQUENCY / ((2048 - self.frequency as u32) * 32)
    }

    /// Retrigger the channel: reload the envelope, restart the sequencer
    /// and the waveform.
    fn enable_channel(&mut self)
        requires
            old(self).inv(),
        ensures
            *final(self) == (Tone {
                volume: Volume { volume: old(self).volume.initial_volume, ..old(self).volume },
                frame_sequencer: FrameSequencer { clock: 0, current_cycle: 0 },
                currant_wave_cycle: 0,
                clock: 0,
                channel_enabled: true,
                ..*old(self)
            }),
    {
        self.volume.reset();
        self.frame_sequencer.reset();
        self.currant_wave_cycle = 0;
        self.clock = 0;
        self.channel_enabled = true;
    }

    /// Credit `clocks` T-cycles and produce the channel's current amplitude,
    /// 0 when the channel is silent.
    pub fn cycle(&mut self, clocks: TCycles) -> (amplitude: u16)
        requires
            old(self).inv(),
            clocks < 0x10000,
            old(self).clock + clocks < 0x8000_0000,
            old(self).frame_sequencer.clock + clocks < 0x8000_0000,
        ensures
            final(self).inv(),
            amplitude <= 15,
            !old(self).channel_enabled ==> *final(self) == *old(self) && amplitude == 0,
    {
        if !self.channel_enabled {
            return 0;
        }

        self.clock = self.clock + clocks;

        if self.frame_sequencer.cycle(clocks) {
            if self.frame_sequencer.current_cycle % 2 == 0 {
                let mut enabled = self.channel_enabled;
                self.sound_length.cycle(&mut enabled);
                self.channel_enabled = enabled;
            }
            if self.frame_sequencer.current_cycle == 7 {
                self.volume.cycle();
            }
            if self.frame_sequencer.current_cycle == 2 || self.frame_sequencer.current_cycle == 6 {
                self.cycle_sweep();
            }
        }

        if !self.channel_enabled {
            return 0;
        }

        let ratio = self.get_t_cycle_ratio();
        if self.clock >= ratio {
            self.clock = self.clock - ratio;
            self.currant_wave_cycle = (self.currant_wave_cycle + 1) % 8;
        }

        let w = wave_sample(self.selected_wave_pattern, self.currant_wave_cycle);
        let v = self.volume.volume as u16;
        proof {
            assert(w * v <= 15) by (nonlinear_arith)
                requires
                    w <= 1,
                    v <= 15,
            ;
        }
        w * v
    }
}

} // verus!
