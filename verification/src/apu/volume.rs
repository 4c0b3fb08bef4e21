//! The volume envelope shared by the tone and noise channels.

use vstd::prelude::*;

verus! {

#[derive(Clone, Copy, Debug, PartialEq, Eq, Structural)]
pub struct Volume {
    pub initial_volume: u8,
    pub volume: u8,
    pub vol_envelope_increase: bool,
    pub envelope_counter: u8,
}

impl Volume {
    /// Well-formedness: the packed register byte must fit.
    pub open spec fn inv(&self) -> bool {
        self.volume <= 15 && self.initial_volume <= 15 && self.envelope_counter <= 3
    }

    pub fn new() -> (r: Volume)
        ensures
            r == (Volume {
                initial_volume: 0,
                volume: 0,
                vol_envelope_increase: false,
                envelope_counter: 0,
            }),
            r.inv(),
    {
        Volume { initial_volume: 0, volume: 0, vol_envelope_increase: false, envelope_counter: 0 }
    }

    /// One envelope step: while the counter runs and the volume is strictly
    /// between the rails, move it one step and use up one count.
    pub fn cycle(&mut self)
        requires
            old(self).inv(),
        ensures
            final(self).inv(),
            old(self).envelope_counter == 0 ==> *final(self) == *old(self),
            old(self).envelope_counter != 0 && (old(self).volume == 15 || old(self).volume == 0)
                ==> *final(self) == (Volume { envelope_counter: 0, ..*old(self) }),
            old(self).envelope_counter != 0 && 0 < old(self).volume < 15 ==> *final(self) == (
            Volume {
                volume: if old(self).vol_envelope_increase {
                    (old(self).volume + 1) as u8
                } else {
                    (old(self).volume - 1) as u8
                },
                envelope_counter: (old(self).envelope_counter - 1) as u8,
                ..*old(self)
            }),
    {
        if self.envelope_counter == 0 {
            return ;
        }
        if self.volume == 15 || self.volume == 0 {
            self.envelope_counter = 0;
            return ;
        }
        if self.vol_envelope_increase {
            self.volume = self.volume + 1;
        } else {
            self.volume = self.volume - 1;
        }
        self.envelope_counter = self.envelope_counter - 1;
    }

    /// The packed envelope register byte.
    pub open spec fn spec_read(self) -> u8 {
        (self.envelope_counter + (if self.vol_envelope_increase { 4 as int } else { 0 })
            + self.volume * 16) as u8
    }

    pub fn read(&self) -> (r: u8)
        requires
            self.inv(),
        ensures
            r == self.spec_read(),
    {
        self.envelope_counter + (if self.vol_envelope_increase { 4u8 } else { 0 }) + self.volume
            * 16
    }

    pub fn write(&mut self, val: u8)
        ensures
            *final(self) == (Volume {
                envelope_counter: (val % 4) as u8,
                vol_envelope_increase: val / 4 % 2 == 1,
                volume: (val / 16) as u8,
                initial_volume: (val / 16) as u8,
            }),
            final(self).inv(),
    {
        self.envelope_counter = val % 4;
        self.vol_envelope_increase = val / 4 % 2 == 1;
        self.volume = val / 16;
        self.initial_volume = self.volume;
    }

    /// Reload the running volume from the one last written.
    pub fn reset(&mut self)
        ensures
            *final(self) == (Volume { volume: old(self).initial_volume, ..*old(self) }),
    {
        self.volume = self.initial_volume;
    }
}

} // verus!
