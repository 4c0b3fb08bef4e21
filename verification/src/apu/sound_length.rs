//! The length counter shared by all sound channels: while counting is
//! enabled it runs down once per frame-sequencer step pair and silences the
//! channel when it hits zero.

use vstd::prelude::*;

verus! {

#[derive(Clone, Copy, Debug, PartialEq, Eq, Structural)]
pub struct SoundLength {
    pub sound_len: u8,
    pub dec_sound_len: bool,
    pub max_len: u8,
}

impl SoundLength {
    pub open spec fn inv(&self) -> bool {
        self.max_len > 0
    }

    pub fn new(max_len: u8) -> (r: SoundLength)
        ensures
            r == (SoundLength { sound_len: 0, dec_sound_len: false, max_len }),
    {
        SoundLength { sound_len: 0, dec_sound_len: false, max_len }
    }

    /// One length step: when counting is enabled, either run the counter
    /// down or, at zero, silence the channel.
    pub fn cycle(&mut self, channel_enabled: &mut bool)
        ensures
            !old(self).dec_sound_len ==> *final(self) == *old(self) && *final(channel_enabled)
                == *old(channel_enabled),
            old(self).dec_sound_len && old(self).sound_len == 0 ==> *final(self) == *old(self)
                && *final(channel_enabled) == false,
            old(self).dec_sound_len && old(self).sound_len != 0 ==> *final(self) == (SoundLength {
                sound_len: (old(self).sound_len - 1) as u8,
                ..*old(self)
            }) && *final(channel_enabled) == *old(channel_enabled),
    {
        if !self.dec_sound_len {
            return ;
        }
        if self.sound_len == 0 {
            *channel_enabled = false;
        } else {
            self.sound_len = self.sound_len - 1;
        }
    }

    /// Reload the counter to its full length.
    pub fn reset(&mut self)
        ensures
            *final(self) == (SoundLength { sound_len: old(self).max_len, ..*old(self) }),
    {
        self.sound_len = self.max_len;
    }

    /// Load the counter from a register write, reduced modulo the channel's
    /// maximum length.
    pub fn set_length(&mut self, val: u8)
        requires
            old(self).inv(),
        ensures
            *final(self) == (SoundLength {
                sound_len: (val % old(self).max_len) as u8,
                ..*old(self)
            }),
    {
        self.sound_len = val % self.max_len;
    }
}

} // verus!
