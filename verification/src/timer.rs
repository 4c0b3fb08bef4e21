//! The timer: a free-running divider at FF04 that steps every 256 T-cycles,
//! and a programmable counter at FF05 that steps at one of four rates chosen
//! by FF07, reloads from FF06 on overflow and raises the timer interrupt.

use vstd::prelude::*;

use crate::ic::Irq;
use crate::mmu::{IoDevice, MemRead, MemWrite};

verus! {

pub const CYCLES_PER_DIVIDER: u32 = 256;

#[derive(Clone, Copy, Debug, PartialEq, Eq, Structural)]
pub struct Timer {
    pub divider: u8,
    pub divider_clock: u32,
    pub timer: u8,
    pub timer_clock: u32,
    pub timer_modulo: u8,
    pub timer_enabled: bool,
    pub timer_speed: u32,
}

impl View for Timer {
    type V = Timer;

    open spec fn view(&self) -> Timer {
        *self
    }
}

/// The counter value after stepping `steps` times from `timer`, reloading
/// from `modulo` on each overflow, together with whether any overflow
/// happened.
pub open spec fn spec_timer_steps(timer: u8, modulo: u8, steps: nat) -> (u8, bool)
    decreases steps,
{
    if steps == 0 {
        (timer, false)
    } else {
        let (t, raised) = spec_timer_steps(timer, modulo, (steps - 1) as nat);
        if t == 255 {
            (modulo, true)
        } else {
            ((t + 1) as u8, raised)
        }
    }
}

/// The FF07 control byte: the rate select in the low two bits and the
/// enable in bit 2.
pub open spec fn spec_speed_bits(speed: u32) -> u8 {
    if speed == 1024 {
        0
    } else if speed == 16 {
        1
    } else if speed == 64 {
        2
    } else {
        3
    }
}

impl Timer {
    /// Both counters stopped at zero, as on power-on.
    pub fn new() -> (r: Timer)
        ensures
            r == (Timer {
                divider: 0,
                divider_clock: 0,
                timer: 0,
                timer_clock: 0,
                timer_modulo: 0,
                timer_enabled: false,
                timer_speed: 1024,
            }),
            r.inv(),
    {
        Timer {
            divider: 0,
            divider_clock: 0,
            timer: 0,
            timer_clock: 0,
            timer_modulo: 0,
            timer_enabled: false,
            timer_speed: 1024,
        }
    }

    /// Credit `clock` T-cycles to both counters. The divider steps once per
    /// 256 cycles; the counter, when enabled, steps once per `timer_speed`
    /// cycles and raises the timer interrupt on overflow.
    pub fn cycle(&mut self, irq: &mut Irq, clock: u32)
        requires
            old(self).inv(),
            old(self).divider_clock + clock < 0x8000_0000,
            old(self).timer_clock + clock < 0x8000_0000,
        ensures
            final(self).inv(),
            final(self).divider_clock == (old(self).divider_clock + clock) % 256,
            final(self).divider == (old(self).divider + (old(self).divider_clock + clock) / 256)
                % 256,
            final(self).timer_modulo == old(self).timer_modulo,
            final(self).timer_enabled == old(self).timer_enabled,
            final(self).timer_speed == old(self).timer_speed,
            !old(self).timer_enabled ==> final(self).timer == old(self).timer
                && final(self).timer_clock == old(self).timer_clock && *final(irq) == *old(irq),
            old(self).timer_enabled ==> {
                let steps = ((old(self).timer_clock + clock) / old(self).timer_speed as int) as nat;
                let (t, raised) = spec_timer_steps(old(self).timer, old(self).timer_modulo, steps);
                &&& final(self).timer == t
                &&& final(self).timer_clock == (old(self).timer_clock + clock) % (
                    old(self).timer_speed as int)
                &&& *final(irq) == (Irq {
                    lines: crate::ic::Interrupts {
                        timer: old(irq).lines.timer || raised,
                        ..old(irq).lines
                    },
                })
            },
    {
        let ghost dtotal = old(self).divider_clock + clock;
        let ghost d0 = old(self).divider as int;
        self.divider_clock = self.divider_clock + clock;
        while self.divider_clock >= CYCLES_PER_DIVIDER
            invariant
                dtotal < 0x8000_0000,
                self.divider_clock <= dtotal,
                (dtotal - self.divider_clock) % 256 == 0,
                self.divider == (old(self).divider + (dtotal - self.divider_clock) / 256) % 256,
                *self == (Timer { divider: self.divider, divider_clock: self.divider_clock,
                    ..*old(self) }),
            decreases self.divider_clock,
        {
            let ghost dc0 = self.divider_clock as int;
            let ghost done = (dtotal - dc0) / 256;
            proof {
                assert(dtotal - dc0 == done * 256) by (nonlinear_arith)
                    requires
                        0 <= dc0 <= dtotal,
                        (dtotal - dc0) % 256 == 0,
                        done == (dtotal - dc0) / 256,
                ;
            }
            self.divider_clock = self.divider_clock - CYCLES_PER_DIVIDER;
            self.divider = ((self.divider as u32 + 1) % 256) as u8;
            proof {
                assert((dtotal - self.divider_clock) / 256 == done + 1 && (dtotal
                    - self.divider_clock) % 256 == 0) by (nonlinear_arith)
                    requires
                        done >= 0,
                        dtotal - self.divider_clock == done * 256 + 256,
                ;
                assert(((d0 + done) % 256 + 1) % 256 == (d0 + done + 1) % 256)
                    by (nonlinear_arith);
            }
        }
        proof {
            assert(self.divider_clock < 256 && (dtotal - self.divider_clock) % 256 == 0);
            assert((dtotal - self.divider_clock) / 256 == dtotal / 256 && self.divider_clock
                == dtotal % 256) by (nonlinear_arith)
                requires
                    0 <= self.divider_clock < 256,
                    (dtotal - self.divider_clock) % 256 == 0,
                    0 <= dtotal,
            ;
        }

        if !self.timer_enabled {
            return ;
        }

        let ghost base = *self;
        let ghost total = old(self).timer_clock + clock;
        let ghost speed = old(self).timer_speed as int;
        self.timer_clock = self.timer_clock + clock;
        while self.timer_clock >= self.timer_speed
            invariant
                self.inv(),
                speed == self.timer_speed as int,
                total < 0x8000_0000,
                self.timer_clock <= total,
                (total - self.timer_clock) % speed == 0,
                self.timer_modulo == old(self).timer_modulo,
                ({
                    let (t, r) = spec_timer_steps(
                        old(self).timer,
                        old(self).timer_modulo,
                        ((total - self.timer_clock) / speed) as nat,
                    );
                    self.timer == t && irq.lines == (crate::ic::Interrupts {
                        timer: old(irq).lines.timer || r,
                        ..old(irq).lines
                    })
                }),
                *self == (Timer { timer: self.timer, timer_clock: self.timer_clock, ..base }),
            decreases self.timer_clock,
        {
            let ghost tc0 = self.timer_clock as int;
            let ghost done = (total - tc0) / speed;
            let ghost prev = spec_timer_steps(old(self).timer, old(self).timer_modulo, done as nat);
            proof {
                assert(total - tc0 == done * speed) by (nonlinear_arith)
                    requires
                        speed > 0,
                        0 <= tc0 <= total,
                        (total - tc0) % speed == 0,
                        done == (total - tc0) / speed,
                ;
            }
            self.timer_clock = self.timer_clock - self.timer_speed;
            if self.timer == 255 {
                self.timer = self.timer_modulo;
                irq.timer(true);
            } else {
                self.timer = self.timer + 1;
            }
            proof {
                assert((total - self.timer_clock) / speed == done + 1 && (total
                    - self.timer_clock) % speed == 0) by (nonlinear_arith)
                    requires
                        speed > 0,
                        done >= 0,
                        total - self.timer_clock == done * speed + speed,
                ;
                assert(spec_timer_steps(
                    old(self).timer,
                    old(self).timer_modulo,
                    (done + 1) as nat,
                ) == (if prev.0 == 255 {
                    (old(self).timer_modulo, true)
                } else {
                    ((prev.0 + 1) as u8, prev.1)
                }));
            }
        }
        proof {
            assert((total - self.timer_clock) / speed == total / speed && self.timer_clock == total
                % speed) by (nonlinear_arith)
                requires
                    speed > 0,
                    0 <= self.timer_clock < speed,
                    (total - self.timer_clock) % speed == 0,
                    0 <= total,
            ;
        }
    }
}

impl IoDevice for Timer {
    open spec fn inv(&self) -> bool {
        self.timer_speed == 1024 || self.timer_speed == 16 || self.timer_speed == 64
            || self.timer_speed == 256
    }

    open spec fn spec_read(v: Timer, addr: u16) -> MemRead {
        if addr == 0xFF04 {
            MemRead::Read(v.divider)
        } else if addr == 0xFF05 {
            MemRead::Read(v.timer)
        } else if addr == 0xFF06 {
            MemRead::Read(v.timer_modulo)
        } else if addr == 0xFF07 {
            MemRead::Read(
                (spec_speed_bits(v.timer_speed) + if v.timer_enabled { 4 as int } else { 0 }) as u8,
            )
        } else {
            MemRead::Ignore
        }
    }

    open spec fn spec_write(v: Timer, addr: u16, value: u8) -> Timer {
        if addr == 0xFF04 {
            Timer { divider: 0, ..v }
        } else if addr == 0xFF05 {
            Timer { timer: value, ..v }
        } else if addr == 0xFF06 {
            Timer { timer_modulo: value, ..v }
        } else if addr == 0xFF07 {
            Timer {
                timer_enabled: value / 4 % 2 == 1,
                timer_speed: if value % 4 == 0 {
                    1024
                } else if value % 4 == 1 {
                    16
                } else if value % 4 == 2 {
                    64
                } else {
                    256
                },
                ..v
            }
        } else {
            v
        }
    }

    open spec fn spec_handles_write(v: Timer, addr: u16, value: u8) -> bool {
        0xFF04 <= addr <= 0xFF07
    }

    fn read_byte(&self, addr: u16) -> (r: MemRead) {
        if addr == 0xFF04 {
            MemRead::Read(self.divider)
        } else if addr == 0xFF05 {
            MemRead::Read(self.timer)
        } else if addr == 0xFF06 {
            MemRead::Read(self.timer_modulo)
        } else if addr == 0xFF07 {
            let bits: u8 = if self.timer_speed == 1024 {
                0
            } else if self.timer_speed == 16 {
                1
            } else if self.timer_speed == 64 {
                2
            } else {
                3
            };
            MemRead::Read(bits + if self.timer_enabled { 4u8 } else { 0 })
        } else {
            MemRead::Ignore
        }
    }

    fn write_byte(&mut self, addr: u16, value: u8) -> (r: MemWrite) {
        if addr == 0xFF04 {
            self.divider = 0;
            MemWrite::Write
        } else if addr == 0xFF05 {
            self.timer = value;
            MemWrite::Write
        } else if addr == 0xFF06 {
            self.timer_modulo = value;
            MemWrite::Write
        } else if addr == 0xFF07 {
            self.timer_enabled = value / 4 % 2 == 1;
            self.timer_speed = if value % 4 == 0 {
                1024
            } else if value % 4 == 1 {
                16
            } else if value % 4 == 2 {
                64
            } else {
                256
            };
            MemWrite::Write
        } else {
            MemWrite::Ignore
        }
    }
}

} // verus!
