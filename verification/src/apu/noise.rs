//! The noise channel: a 15-bit feedback shift register clocked at a
//! programmable rate, with the usual length counter and volume envelope.

use vstd::prelude::*;

use crate::apu::frame_sequencer::FrameSequencer;
use crate::apu::sound_length::SoundLength;
use crate::apu::volume::Volume;
use crate::processor::{TCycles, T_CYCLE_FREQUENCY};

verus! {

pub const MAX_SOUND_LEN: u8 = 64;

pub struct Noise {
    pub channel_enabled: bool,
    pub last_lower_bit: u16,
    pub frequency: u8,
    pub width_mode: bool,
    pub frequency_divider: u8,
    pub shift_register: u16,
    pub clock: TCycles,
    pub volume: Volume,
    pub sound_length: SoundLength,
    pub frame_sequencer: FrameSequencer,
}


impl Noise {
    /// The register byte at the given offset of the channel's five
    /// registers.
    pub open spec fn spec_read_at(self, offset: int) -> u8 {
        if offset == 0 {
            0xFF
        } else if offset == 1 {
            0xFF
        } else if offset == 2 {
            self.volume.spec_read()
        } else if offset == 3 {
            (self.frequency_divider + (if self.width_mode { 4 as int } else { 0 })
                + self.frequency * 16) as u8
        } else {
            if self.sound_length.dec_sound_len {
                0xFB
            } else {
                0xBB
            }
        }
    }

    /// The channel state after a write of `val` at the given offset.
    pub open spec fn spec_write_at(self, offset: int, val: u8) -> Noise {
        if offset == 0 {
            self
        } else if offset == 1 {
            Noise {
                sound_length: SoundLength { sound_len: (val % 32 % 64) as u8,
                    ..self.sound_length },
                ..self
            }
        } else if offset == 2 {
            Noise {
                volume: Volume {
                    envelope_counter: (val % 4) as u8,
                    vol_envelope_increase: val / 4 % 2 == 1,
                    volume: (val / 16) as u8,
                    initial_volume: (val / 16) as u8,
                },
                ..self
            }
        } else if offset == 3 {
            Noise {
                frequency_divider: (val % 4) as u8,
                width_mode: val / 4 % 2 == 1,
                frequency: (val / 16) as u8,
                ..self
            }
        } else {
            let base = if val / 128 == 1 {
                Noise {
                    frame_sequencer: FrameSequencer { clock: 0, current_cycle: 0 },
                    sound_length: SoundLength { sound_len: self.sound_length.max_len,
                        ..self.sound_length },
                    shift_register: 1,
                    clock: 0,
                    channel_enabled: true,
                    ..self
                }
            } else {
                self
            };
            Noise {
                sound_length: SoundLength { dec_sound_len: val / 64 % 2 == 1,
                    ..base.sound_length },
                ..base
            }
        }
    }
}

impl Noise {
    pub open spec fn inv(&self) -> bool {
        &&& self.volume.inv()
        &&& self.sound_length.inv()
        &&& self.sound_length.max_len == 64
        &&& self.frame_sequencer.current_cycle < 8
        &&& self.frequency <= 15
        &&& self.frequency_divider <= 3
        &&& self.shift_register < 0x8000
        &&& self.last_lower_bit <= 1
    }

    pub fn new() -> (r: Noise)
        ensures
            r.inv(),
            !r.channel_enabled,
            r.shift_register == 1,
    {
        Noise {
            channel_enabled: false,
            last_lower_bit: 0,
            frequency: 0,
            width_mode: false,
            frequency_divider: 0,
            shift_register: 1,
            clock: 0,
            volume: Volume::new(),
            sound_length: SoundLength::new(MAX_SOUND_LEN),
            frame_sequencer: FrameSequencer::new(),
        }
    }

    /// The register byte at offset `addr - base_addr` of the channel's five
    /// registers.
    pub fn read_byte(&self, base_addr: u16, addr: u16) -> (r: u8)
        requires
            self.inv(),
            base_addr <= addr <= base_addr + 4,
        ensures
            r == self.spec_read_at(addr - base_addr),
    {
        let offset = addr - base_addr;
        if offset == 0 {
            0xFF
        } else if offset == 1 {
            0xFF
        } else if offset == 2 {
            self.volume.read()
        } else if offset == 3 {
            self.frequency_divider + (if self.width_mode { 4u8 } else { 0 }) + self.frequency * 16
        } else {
            if self.sound_length.dec_sound_len {
                0xFB
            } else {
                0xBB
            }
        }
    }

    /// Write the register byte at offset `addr - base_addr`: length,
    /// envelope, rate control; bit 7 of the last register retriggers.
    pub fn write_byte(&mut self, base_addr: u16, addr: u16, val: u8)
        requires
            old(self).inv(),
            base_addr <= addr <= base_addr + 4,
        ensures
            final(self).inv(),
            *final(self) == old(self).spec_write_at(addr - base_addr, val),
    {
        let offset = addr - base_addr;
        if offset == 0 {
            // the first register of this channel is unmapped
        } else if offset == 1 {
            self.sound_length.set_length(val % 32);
        } else if offset == 2 {
            self.volume.write(val);
        } else if offset == 3 {
            self.frequency_divider = val % 4;
            self.width_mode = val / 4 % 2 == 1;
            self.frequency = val / 16;
        } else if offset == 4 {
            if val / 128 == 1 {
                self.enable_channel();
            }
            self.sound_length.dec_sound_len = val / 64 % 2 == 1;
        }
    }

    /// T-cycles per shift-register step at the current rate controls.
    fn get_t_cycle_ratio(&self) -> (r: u32)
        requires
            self.frequency <= 15,
            self.frequency_divider <= 3,
    {
        let base = (T_CYCLE_FREQUENCY / 4) / (self.frequency_divider as u32 + 1);
        let div: u32 = if self.frequency == 0 {
            2
        } else if self.frequency == 1 {
            4
        } else if self.frequency == 2 {
            8
        } else if self.frequency == 3 {
            16
        } else if self.frequency == 4 {
            32
        } else if self.frequency == 5 {
            64
        } else if self.frequency == 6 {
            128
        } else if self.frequency == 7 {
            256
        } else if self.frequency == 8 {
            512
        } else if self.frequency == 9 {
            1024
        } else if self.frequency == 10 {
            2048
        } else if self.frequency == 11 {
            4096
        } else if self.frequency == 12 {
            8192
        } else if self.frequency == 13 {
            16384
        } else if self.frequency == 14 {
            32768
        } else {
            65536
        };
        base / div
    }

    /// Retrigger the channel: restart the sequencer, the length counter and
    /// the shift register.
    fn enable_channel(&mut self)
        ensures
            *final(self) == (Noise {
                frame_sequencer: FrameSequencer { clock: 0, current_cycle: 0 },
                sound_length: SoundLength { sound_len: old(self).sound_length.max_len,
                    ..old(self).sound_length },
                shift_register: 1,
                clock: 0,
                channel_enabled: true,
                ..*old(self)
            }),
    {
        self.frame_sequencer.reset();
        self.sound_length.reset();
        self.shift_register = 1;
        self.clock = 0;
        self.channel_enabled = true;
    }

    /// Credit `clocks` T-cycles and produce the channel's current amplitude,
    /// 0 when the channel is silent.
    pub fn cycle(&mut self, clocks: TCycles) -> (amplitude: u16)
        requires
            old(self).inv(),
            clocks < 0x10000,
            old(self).clock + clocks < 0x8000_0000,
            old(self).frame_sequencer.clock + clocks < 0x8000_0000,
        ensures
            final(self).inv(),
            amplitude <= 15,
            !old(self).channel_enabled ==> *final(self) == *old(self) && amplitude == 0,
    {
        if !self.channel_enabled {
            return 0;
        }

        self.clock = self.clock + clocks;

        if self.frame_sequencer.cycle(clocks) {
            if self.frame_sequencer.current_cycle % 2 == 0 {
                let mut enabled = self.channel_enabled;
                self.sound_length.cycle(&mut enabled);
                self.channel_enabled = enabled;
            }
            if self.frame_sequencer.current_cycle == 7 {
                self.volume.cycle();
            }
        }

        let ratio = self.get_t_cycle_ratio();
        if self.clock >= ratio {
            self.clock = self.clock - ratio;

            let sr = self.shift_register;
            self.last_lower_bit = sr % 2;

            let bit0 = sr % 2;
            let bit1 = sr / 2 % 2;
            let feedback: u16 = if bit0 != bit1 {
                1
            } else {
                0
            };

            let mut next = sr / 2 + feedback * 0x4000;
            if self.width_mode {
                next = next - (next / 64 % 2) * 64 + feedback * 64;
            }
            self.shift_register = next;
        }

        let llb = self.last_lower_bit;
        let v = self.volume.volume as u16;
        proof {
            assert(llb * v <= 15) by (nonlinear_arith)
                requires
                    llb <= 1,
                    v <= 15,
            ;
        }
        llb * v
    }
}

} // verus!
