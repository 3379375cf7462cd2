use vstd::prelude::*;

verus! {

/// Square channel with frequency sweep.
pub struct Ch1 {
    pub sweep_period: u8,
    pub sweep_negate: bool,
    pub sweep_shift: u8,
    pub duty: u8,
    pub length_load: u8,
    pub env_initial: u8,
    pub env_add: bool,
    pub env_period: u8,
    pub freq_low: u8,
    pub freq_high: u8,
    pub length_enable: bool,
    pub enabled: bool,
    pub freq_timer: u16,
    pub duty_pos: u8,
    pub length_counter: u8,
    pub env_volume: u8,
    pub env_timer: u8,
    pub sweep_timer: u8,
    pub sweep_shadow: u16,
    pub sweep_enabled: bool,
}

/// Square channel.
pub struct Ch2 {
    pub duty: u8,
    pub length_load: u8,
    pub env_initial: u8,
    pub env_add: bool,
    pub env_period: u8,
    pub freq_low: u8,
    pub freq_high: u8,
    pub length_enable: bool,
    pub enabled: bool,
    pub freq_timer: u16,
    pub duty_pos: u8,
    pub length_counter: u8,
    pub env_volume: u8,
    pub env_timer: u8,
}

/// Wave channel.
pub struct Ch3 {
    pub dac_on: bool,
    pub length_load: u8,
    pub output_level: u8,
    pub freq_low: u8,
    pub freq_high: u8,
    pub length_enable: bool,
    pub enabled: bool,
    pub freq_timer: u16,
    pub wave_pos: u8,
    pub length_counter: u16,
    pub wave_ram: [u8; 16],
}

/// Noise channel.
pub struct Ch4 {
    pub length_load: u8,
    pub env_initial: u8,
    pub env_add: bool,
    pub env_period: u8,
    pub clock_shift: u8,
    pub lfsr_width: bool,
    pub divisor_code: u8,
    pub length_enable: bool,
    pub enabled: bool,
    pub freq_timer: u16,
    pub lfsr: u16,
    pub length_counter: u8,
    pub env_volume: u8,
    pub env_timer: u8,
}

/// The integer state of the audio unit: registers, channel timers and the 512 Hz frame
/// sequencer. Turning it into samples is done by the caller from `channel_outputs`.
pub struct Apu {
    pub enabled: bool,
    pub ch1: Ch1,
    pub ch2: Ch2,
    pub ch3: Ch3,
    pub ch4: Ch4,
    pub nr50: u8,
    pub nr51: u8,
    pub fs_cycles: u32,
    pub fs_step: u8,
}

/// The 11-bit frequency value of a channel: low byte plus bits 2-0 of the high byte.
pub open spec fn freq11_spec(lo: u8, hi: u8) -> u16 {
    (lo as int + (hi as int % 8) * 256) as u16
}

/// Noise divisor for a divisor code.
pub open spec fn ch4_divisor_spec(code: u8) -> u16 {
    if code == 0 {
        8
    } else if code < 7 {
        (code as int * 16) as u16
    } else {
        112
    }
}

/// Square-wave duty patterns: 12.5 %, 25 %, 50 %, 75 %.
pub open spec fn duty_bit(duty: u8, pos: u8) -> u8 {
    let d = duty % 4;
    let p = pos % 8;
    if d == 0 {
        if p == 7 {
            1
        } else {
            0
        }
    } else if d == 1 {
        if p == 0 || p == 7 {
            1
        } else {
            0
        }
    } else if d == 2 {
        if p == 0 || p >= 4 {
            1
        } else {
            0
        }
    } else {
        if p == 0 || p == 7 {
            0
        } else {
            1
        }
    }
}

/// Ranges of the register fields a write extracts.
proof fn lemma_register_fields(val: u8)
    ensures
        val & 0x07 < 16,
        val & 0x3F <= 63,
        (val >> 4) & 0x0F < 32,
{
    assert(val & 0x07 < 16 && val & 0x3F <= 63 && (val >> 4) & 0x0F < 32) by (bit_vector);
}

/// One step of the envelope timer: with a non-zero period the timer counts down, and on
/// reaching zero is reloaded and moves the volume one step towards 15 or 0.
pub open spec fn env_step(period: u8, timer: u8, add: bool, volume: u8) -> (u8, u8) {
    if period > 0 {
        let t = (timer - 1) as u8;
        if t == 0 {
            let v = if add && volume < 15 {
                (volume + 1) as u8
            } else if !add && volume > 0 {
                (volume - 1) as u8
            } else {
                volume
            };
            (period, v)
        } else {
            (t, volume)
        }
    } else {
        (timer, volume)
    }
}

impl Ch1 {
    /// The channel as the unit powers on: every register and counter zero or false.
    pub open spec fn at_power_on(self) -> bool {
        self == (Ch1 {
            sweep_period: 0,
            sweep_negate: false,
            sweep_shift: 0,
            duty: 0,
            length_load: 0,
            env_initial: 0,
            env_add: false,
            env_period: 0,
            freq_low: 0,
            freq_high: 0,
            length_enable: false,
            enabled: false,
            freq_timer: 0,
            duty_pos: 0,
            length_counter: 0,
            env_volume: 0,
            env_timer: 0,
            sweep_timer: 0,
            sweep_shadow: 0,
            sweep_enabled: false,
        })
    }

    fn new() -> (r: Ch1)
        ensures
            r.at_power_on(),
            r.wf(),
            !r.enabled,
    {
        Ch1 {
            sweep_period: 0,
            sweep_negate: false,
            sweep_shift: 0,
            duty: 0,
            length_load: 0,
            env_initial: 0,
            env_add: false,
            env_period: 0,
            freq_low: 0,
            freq_high: 0,
            length_enable: false,
            enabled: false,
            freq_timer: 0,
            duty_pos: 0,
            length_counter: 0,
            env_volume: 0,
            env_timer: 0,
            sweep_timer: 0,
            sweep_shadow: 0,
            sweep_enabled: false,
        }
    }

    pub open spec fn wf(self) -> bool {
        &&& self.sweep_shadow <= 0x7FF
        &&& self.sweep_shift < 16
        &&& self.duty_pos < 8
    }

    pub open spec fn freq(self) -> u16 {
        freq11_spec(self.freq_low, self.freq_high)
    }

    fn freq11(&self) -> (r: u16)
        ensures
            r == self.freq(),
            r < 2048,
    {
        freq11(self.freq_low, self.freq_high)
    }
}

impl Ch2 {
    /// The channel as the unit powers on: every register and counter zero or false.
    pub open spec fn at_power_on(self) -> bool {
        self == (Ch2 {
            duty: 0,
            length_load: 0,
            env_initial: 0,
            env_add: false,
            env_period: 0,
            freq_low: 0,
            freq_high: 0,
            length_enable: false,
            enabled: false,
            freq_timer: 0,
            duty_pos: 0,
            length_counter: 0,
            env_volume: 0,
            env_timer: 0,
        })
    }

    fn new() -> (r: Ch2)
        ensures
            r.at_power_on(),
            r.wf(),
            !r.enabled,
    {
        Ch2 {
            duty: 0,
            length_load: 0,
            env_initial: 0,
            env_add: false,
            env_period: 0,
            freq_low: 0,
            freq_high: 0,
            length_enable: false,
            enabled: false,
            freq_timer: 0,
            duty_pos: 0,
            length_counter: 0,
            env_volume: 0,
            env_timer: 0,
        }
    }

    pub open spec fn wf(self) -> bool {
        self.duty_pos < 8
    }

    pub open spec fn freq(self) -> u16 {
        freq11_spec(self.freq_low, self.freq_high)
    }

    fn freq11(&self) -> (r: u16)
        ensures
            r == self.freq(),
            r < 2048,
    {
        freq11(self.freq_low, self.freq_high)
    }
}

impl Ch3 {
    /// The channel as the unit powers on: every register and counter zero or false, wave RAM zeroed.
    pub open spec fn at_power_on(self) -> bool {
        &&& self == (Ch3 {
            dac_on: false,
            length_load: 0,
            output_level: 0,
            freq_low: 0,
            freq_high: 0,
            length_enable: false,
            enabled: false,
            freq_timer: 0,
            wave_pos: 0,
            length_counter: 0,
            wave_ram: self.wave_ram,
        })
        &&& forall|i: int| 0 <= i < 16 ==> self.wave_ram[i] == 0
    }

    fn new() -> (r: Ch3)
        ensures
            r.at_power_on(),
            r.wf(),
            !r.enabled,
            forall|i: int| 0 <= i < 16 ==> r.wave_ram[i] == 0,
    {
        Ch3 {
            dac_on: false,
            length_load: 0,
            output_level: 0,
            freq_low: 0,
            freq_high: 0,
            length_enable: false,
            enabled: false,
            freq_timer: 0,
            wave_pos: 0,
            length_counter: 0,
            wave_ram: [0; 16],
        }
    }

    pub open spec fn wf(self) -> bool {
        self.wave_pos < 32
    }

    pub open spec fn freq(self) -> u16 {
        freq11_spec(self.freq_low, self.freq_high)
    }

    fn freq11(&self) -> (r: u16)
        ensures
            r == self.freq(),
            r < 2048,
    {
        freq11(self.freq_low, self.freq_high)
    }
}

impl Ch4 {
    /// The channel as the unit powers on: every register and counter zero or false, the noise LFSR all ones (0x7FFF).
    pub open spec fn at_power_on(self) -> bool {
        self == (Ch4 {
            length_load: 0,
            env_initial: 0,
            env_add: false,
            env_period: 0,
            clock_shift: 0,
            lfsr_width: false,
            divisor_code: 0,
            length_enable: false,
            enabled: false,
            freq_timer: 0,
            lfsr: 0x7FFF,
            length_counter: 0,
            env_volume: 0,
            env_timer: 0,
        })
    }

    fn new() -> (r: Ch4)
        ensures
            r.at_power_on(),
            r.wf(),
            !r.enabled,
    {
        Ch4 {
            length_load: 0,
            env_initial: 0,
            env_add: false,
            env_period: 0,
            clock_shift: 0,
            lfsr_width: false,
            divisor_code: 0,
            length_enable: false,
            enabled: false,
            freq_timer: 0,
            lfsr: 0x7FFF,
            length_counter: 0,
            env_volume: 0,
            env_timer: 0,
        }
    }

    pub open spec fn wf(self) -> bool {
        self.clock_shift < 32
    }
}


impl Ch1 {
    /// A length-counter clock: an enabled, non-zero counter counts down and silences the
    /// channel on reaching zero.
    pub open spec fn length_tick(self) -> Ch1 {
        if self.length_enable && self.length_counter > 0 {
            Ch1 {
                length_counter: (self.length_counter - 1) as u8,
                enabled: if self.length_counter == 1 {
                    false
                } else {
                    self.enabled
                },
                ..self
            }
        } else {
            self
        }
    }

    fn tick_length(&mut self)
        ensures
            *final(self) == old(self).length_tick(),
    {
        if self.length_enable && self.length_counter > 0 {
            self.length_counter -= 1;
            if self.length_counter == 0 {
                self.enabled = false;
            }
        }
    }

    pub open spec fn env_tick(self) -> Ch1 {
        let (t, v) = env_step(self.env_period, self.env_timer, self.env_add, self.env_volume);
        Ch1 { env_timer: t, env_volume: v, ..self }
    }

    fn tick_envelope(&mut self)
        requires
            old(self).env_period > 0 ==> old(self).env_timer > 0,
        ensures
            *final(self) == old(self).env_tick(),
    {
        tick_env_volume(self.env_period, &mut self.env_timer, self.env_add, &mut self.env_volume);
    }
}

impl Ch2 {
    /// A length-counter clock: an enabled, non-zero counter counts down and silences the
    /// channel on reaching zero.
    pub open spec fn length_tick(self) -> Ch2 {
        if self.length_enable && self.length_counter > 0 {
            Ch2 {
                length_counter: (self.length_counter - 1) as u8,
                enabled: if self.length_counter == 1 {
                    false
                } else {
                    self.enabled
                },
                ..self
            }
        } else {
            self
        }
    }

    fn tick_length(&mut self)
        ensures
            *final(self) == old(self).length_tick(),
    {
        if self.length_enable && self.length_counter > 0 {
            self.length_counter -= 1;
            if self.length_counter == 0 {
                self.enabled = false;
            }
        }
    }

    pub open spec fn env_tick(self) -> Ch2 {
        let (t, v) = env_step(self.env_period, self.env_timer, self.env_add, self.env_volume);
        Ch2 { env_timer: t, env_volume: v, ..self }
    }

    fn tick_envelope(&mut self)
        requires
            old(self).env_period > 0 ==> old(self).env_timer > 0,
        ensures
            *final(self) == old(self).env_tick(),
    {
        tick_env_volume(self.env_period, &mut self.env_timer, self.env_add, &mut self.env_volume);
    }
}

impl Ch3 {
    /// A length-counter clock: an enabled, non-zero counter counts down and silences the
    /// channel on reaching zero.
    pub open spec fn length_tick(self) -> Ch3 {
        if self.length_enable && self.length_counter > 0 {
            Ch3 {
                length_counter: (self.length_counter - 1) as u16,
                enabled: if self.length_counter == 1 {
                    false
                } else {
                    self.enabled
                },
                ..self
            }
        } else {
            self
        }
    }

    fn tick_length(&mut self)
        ensures
            *final(self) == old(self).length_tick(),
    {
        if self.length_enable && self.length_counter > 0 {
            self.length_counter -= 1;
            if self.length_counter == 0 {
                self.enabled = false;
            }
        }
    }
}

impl Ch4 {
    /// A length-counter clock: an enabled, non-zero counter counts down and silences the
    /// channel on reaching zero.
    pub open spec fn length_tick(self) -> Ch4 {
        if self.length_enable && self.length_counter > 0 {
            Ch4 {
                length_counter: (self.length_counter - 1) as u8,
                enabled: if self.length_counter == 1 {
                    false
                } else {
                    self.enabled
                },
                ..self
            }
        } else {
            self
        }
    }

    fn tick_length(&mut self)
        ensures
            *final(self) == old(self).length_tick(),
    {
        if self.length_enable && self.length_counter > 0 {
            self.length_counter -= 1;
            if self.length_counter == 0 {
                self.enabled = false;
            }
        }
    }

    pub open spec fn env_tick(self) -> Ch4 {
        let (t, v) = env_step(self.env_period, self.env_timer, self.env_add, self.env_volume);
        Ch4 { env_timer: t, env_volume: v, ..self }
    }

    fn tick_envelope(&mut self)
        requires
            old(self).env_period > 0 ==> old(self).env_timer > 0,
        ensures
            *final(self) == old(self).env_tick(),
    {
        tick_env_volume(self.env_period, &mut self.env_timer, self.env_add, &mut self.env_volume);
    }
}

impl Ch1 {
    /// One T-cycle of the frequency timer; on expiry it reloads and the duty position advances.
    fn clock(&mut self)
        requires
            old(self).wf(),
        ensures
            *final(self) == Apu::clock_ch1(*old(self)),
            final(self).wf(),
    {
        if self.freq_timer > 0 {
            self.freq_timer -= 1;
            if self.freq_timer == 0 {
                let freq = self.freq11();
                self.freq_timer = (2048 - freq) * 4;
                self.duty_pos = (self.duty_pos + 1) % 8;
            }
        }
    }
}

impl Ch2 {
    fn clock(&mut self)
        requires
            old(self).wf(),
        ensures
            *final(self) == Apu::clock_ch2(*old(self)),
            final(self).wf(),
    {
        if self.freq_timer > 0 {
            self.freq_timer -= 1;
            if self.freq_timer == 0 {
                let freq = self.freq11();
                self.freq_timer = (2048 - freq) * 4;
                self.duty_pos = (self.duty_pos + 1) % 8;
            }
        }
    }
}

impl Ch3 {
    fn clock(&mut self)
        requires
            old(self).wf(),
        ensures
            *final(self) == Apu::clock_ch3(*old(self)),
            final(self).wf(),
    {
        if self.freq_timer > 0 {
            self.freq_timer -= 1;
            if self.freq_timer == 0 {
                let freq = self.freq11();
                self.freq_timer = (2048 - freq) * 2;
                self.wave_pos = (self.wave_pos + 1) % 32;
            }
        }
    }
}

impl Ch4 {
    fn reload(&self) -> (r: u16)
        requires
            self.wf(),
        ensures
            r == Apu::ch4_period(*self),
    {
        let div = ch4_divisor(self.divisor_code);
        ((div as u32) << self.clock_shift) as u16
    }

    fn clock(&mut self)
        requires
            old(self).wf(),
        ensures
            *final(self) == Apu::clock_ch4(*old(self)),
            final(self).wf(),
    {
        if self.freq_timer > 0 {
            self.freq_timer -= 1;
            if self.freq_timer == 0 {
                self.freq_timer = self.reload();
                let xor = (self.lfsr & 1) ^ ((self.lfsr >> 1) & 1);
                self.lfsr = (self.lfsr >> 1) | (xor << 14);
                if self.lfsr_width {
                    self.lfsr = (self.lfsr & !(1 << 6)) | (xor << 6);
                }
            }
        }
    }
}

/// The 11-bit frequency formed from a channel's low and high frequency registers.
pub fn freq11(lo: u8, hi: u8) -> (r: u16)
    ensures
        r == freq11_spec(lo, hi),
        r < 2048,
{
    assert(((lo as u16) | ((hi as u16 & 0x07) << 8u16)) == (lo as int + (hi as int % 8) * 256) as u16)
        by (bit_vector);
    lo as u16 | ((hi as u16 & 0x07) << 8)
}

fn ch4_divisor(code: u8) -> (r: u16)
    ensures
        r == ch4_divisor_spec(code),
        code >= 7 ==> r == 112,
{
    match code {
        0 => 8,
        1 => 16,
        2 => 32,
        3 => 48,
        4 => 64,
        5 => 80,
        6 => 96,
        _ => 112,
    }
}

fn tick_env_volume(period: u8, timer: &mut u8, add: bool, volume: &mut u8)
    requires
        period > 0 ==> *old(timer) > 0,
    ensures
        (*final(timer), *final(volume)) == env_step(period, *old(timer), add, *old(volume)),
{
    if period > 0 {
        *timer -= 1;
        if *timer == 0 {
            *timer = period;
            if add && *volume < 15 {
                *volume += 1;
            } else if !add && *volume > 0 {
                *volume -= 1;
            }
        }
    }
}


/// The frequency the sweep unit computes from its shadow register.
pub open spec fn sweep_target(c: Ch1) -> u16 {
    let delta = c.sweep_shadow >> c.sweep_shift;
    if c.sweep_negate {
        (c.sweep_shadow - delta) as u16
    } else {
        (c.sweep_shadow + delta) as u16
    }
}

/// A sweep calculation: a result above 0x7FF disables the channel.
pub open spec fn sweep_check(c: Ch1) -> Ch1 {
    if sweep_target(c) > 0x7FF {
        Ch1 { enabled: false, ..c }
    } else {
        c
    }
}

impl Apu {
    /// Invariant of the internal counters that keeps the arithmetic of the unit in range.
    pub open spec fn wf(self) -> bool {
        &&& self.ch1.wf()
        &&& self.ch2.wf()
        &&& self.ch3.wf()
        &&& self.ch4.wf()
        &&& self.fs_cycles < 8192
        &&& self.fs_step < 8
    }

    /// The unit exactly as it powers on: sound off, every channel in its power-on state,
    /// NR50 = 0x77, NR51 = 0xF3, and the frame sequencer at cycle 0 of step 0.
    pub open spec fn at_power_on(self) -> bool {
        &&& !self.enabled
        &&& self.ch1.at_power_on()
        &&& self.ch2.at_power_on()
        &&& self.ch3.at_power_on()
        &&& self.ch4.at_power_on()
        &&& self.nr50 == 0x77
        &&& self.nr51 == 0xF3
        &&& self.fs_cycles == 0
        &&& self.fs_step == 0
    }

    /// The value a CPU read of `addr` (0xFF10-0xFF3F) returns.
    pub open spec fn read_spec(self, addr: u16) -> u8 {
        if addr == 0xFF10 {
            0x80 | (self.ch1.sweep_period << 4u8) | ((self.ch1.sweep_negate as u8) << 3u8) | self.ch1.sweep_shift
        } else if addr == 0xFF11 {
            (self.ch1.duty << 6u8) | 0x3F
        } else if addr == 0xFF12 {
            (self.ch1.env_initial << 4u8) | ((self.ch1.env_add as u8) << 3u8) | self.ch1.env_period
        } else if addr == 0xFF14 {
            0xBF | ((self.ch1.length_enable as u8) << 6u8)
        } else if addr == 0xFF16 {
            (self.ch2.duty << 6u8) | 0x3F
        } else if addr == 0xFF17 {
            (self.ch2.env_initial << 4u8) | ((self.ch2.env_add as u8) << 3u8) | self.ch2.env_period
        } else if addr == 0xFF19 {
            0xBF | ((self.ch2.length_enable as u8) << 6u8)
        } else if addr == 0xFF1A {
            0x7F | ((self.ch3.dac_on as u8) << 7u8)
        } else if addr == 0xFF1C {
            0x9F | (self.ch3.output_level << 5u8)
        } else if addr == 0xFF1E {
            0xBF | ((self.ch3.length_enable as u8) << 6u8)
        } else if addr == 0xFF21 {
            (self.ch4.env_initial << 4u8) | ((self.ch4.env_add as u8) << 3u8) | self.ch4.env_period
        } else if addr == 0xFF22 {
            (self.ch4.clock_shift << 4u8) | ((self.ch4.lfsr_width as u8) << 3u8) | self.ch4.divisor_code
        } else if addr == 0xFF23 {
            0xBF | ((self.ch4.length_enable as u8) << 6u8)
        } else if addr == 0xFF24 {
            self.nr50
        } else if addr == 0xFF25 {
            self.nr51
        } else if addr == 0xFF26 {
            0x70 | ((self.enabled as u8) << 7u8) | ((self.ch4.enabled as u8) << 3u8) | ((
            self.ch3.enabled as u8) << 2u8) | ((self.ch2.enabled as u8) << 1u8) | (
            self.ch1.enabled as u8)
        } else if 0xFF30 <= addr <= 0xFF3F {
            self.ch3.wave_ram[addr - 0xFF30]
        } else {
            0xFF
        }
    }

    pub open spec fn trigger_ch1_spec(self) -> Apu {
        let c = self.ch1;
        let freq = c.freq();
        let c1 = Ch1 {
            enabled: true,
            length_counter: if c.length_counter == 0 {
                64
            } else {
                c.length_counter
            },
            freq_timer: ((2048 - freq) * 4) as u16,
            env_volume: c.env_initial,
            env_timer: if c.env_period == 0 {
                8
            } else {
                c.env_period
            },
            sweep_shadow: freq,
            sweep_timer: if c.sweep_period == 0 {
                8
            } else {
                c.sweep_period
            },
            sweep_enabled: c.sweep_period > 0 || c.sweep_shift > 0,
            ..c
        };
        let c2 = if c1.sweep_enabled {
            sweep_check(c1)
        } else {
            c1
        };
        let c3 = if c.env_initial == 0 && !c.env_add {
            Ch1 { enabled: false, ..c2 }
        } else {
            c2
        };
        Apu { ch1: c3, ..self }
    }

    pub open spec fn trigger_ch2_spec(self) -> Apu {
        let c = self.ch2;
        let c1 = Ch2 {
            enabled: !(c.env_initial == 0 && !c.env_add),
            length_counter: if c.length_counter == 0 {
                64
            } else {
                c.length_counter
            },
            freq_timer: ((2048 - c.freq()) * 4) as u16,
            env_volume: c.env_initial,
            env_timer: if c.env_period == 0 {
                8
            } else {
                c.env_period
            },
            ..c
        };
        Apu { ch2: c1, ..self }
    }

    pub open spec fn trigger_ch3_spec(self) -> Apu {
        let c = self.ch3;
        if !c.dac_on {
            Apu { ch3: Ch3 { enabled: false, ..c }, ..self }
        } else {
            Apu {
                ch3: Ch3 {
                    enabled: true,
                    length_counter: if c.length_counter == 0 {
                        256
                    } else {
                        c.length_counter
                    },
                    freq_timer: ((2048 - c.freq()) * 2) as u16,
                    wave_pos: 0,
                    ..c
                },
                ..self
            }
        }
    }

    pub open spec fn ch4_period(c: Ch4) -> u16 {
        ((ch4_divisor_spec(c.divisor_code) as u32) << c.clock_shift) as u16
    }

    pub open spec fn trigger_ch4_spec(self) -> Apu {
        let c = self.ch4;
        Apu {
            ch4: Ch4 {
                enabled: !(c.env_initial == 0 && !c.env_add),
                length_counter: if c.length_counter == 0 {
                    64
                } else {
                    c.length_counter
                },
                freq_timer: Self::ch4_period(c),
                env_volume: c.env_initial,
                env_timer: if c.env_period == 0 {
                    8
                } else {
                    c.env_period
                },
                lfsr: 0x7FFF,
                ..c
            },
            ..self
        }
    }

    /// The unit after a CPU write of `val` to `addr`. While powered off only NR52 (0xFF26)
    /// is written; powering off silences all channels and resets the frame sequencer.
    pub open spec fn write_spec(self, addr: u16, val: u8) -> Apu {
        if !self.enabled && addr != 0xFF26 {
            self
        } else if addr == 0xFF10 {
            Apu {
                ch1: Ch1 {
                    sweep_period: (val >> 4u8) & 0x07,
                    sweep_negate: val & 0x08 != 0,
                    sweep_shift: val & 0x07,
                    ..self.ch1
                },
                ..self
            }
        } else if addr == 0xFF11 {
            Apu {
                ch1: Ch1 {
                    duty: (val >> 6u8) & 0x03,
                    length_load: val & 0x3F,
                    length_counter: (64 - (val & 0x3F)) as u8,
                    ..self.ch1
                },
                ..self
            }
        } else if addr == 0xFF12 {
            Apu {
                ch1: Ch1 {
                    env_initial: (val >> 4u8) & 0x0F,
                    env_add: val & 0x08 != 0,
                    env_period: val & 0x07,
                    enabled: if val & 0xF8 == 0 {
                        false
                    } else {
                        self.ch1.enabled
                    },
                    ..self.ch1
                },
                ..self
            }
        } else if addr == 0xFF13 {
            Apu { ch1: Ch1 { freq_low: val, ..self.ch1 }, ..self }
        } else if addr == 0xFF14 {
            let a = Apu {
                ch1: Ch1 { freq_high: val & 0x07, length_enable: val & 0x40 != 0, ..self.ch1 },
                ..self
            };
            if val & 0x80 != 0 {
                a.trigger_ch1_spec()
            } else {
                a
            }
        } else if addr == 0xFF16 {
            Apu {
                ch2: Ch2 {
                    duty: (val >> 6u8) & 0x03,
                    length_load: val & 0x3F,
                    length_counter: (64 - (val & 0x3F)) as u8,
                    ..self.ch2
                },
                ..self
            }
        } else if addr == 0xFF17 {
            Apu {
                ch2: Ch2 {
                    env_initial: (val >> 4u8) & 0x0F,
                    env_add: val & 0x08 != 0,
                    env_period: val & 0x07,
                    enabled: if val & 0xF8 == 0 {
                        false
                    } else {
                        self.ch2.enabled
                    },
                    ..self.ch2
                },
                ..self
            }
        } else if addr == 0xFF18 {
            Apu { ch2: Ch2 { freq_low: val, ..self.ch2 }, ..self }
        } else if addr == 0xFF19 {
            let a = Apu {
                ch2: Ch2 { freq_high: val & 0x07, length_enable: val & 0x40 != 0, ..self.ch2 },
                ..self
            };
            if val & 0x80 != 0 {
                a.trigger_ch2_spec()
            } else {
                a
            }
        } else if addr == 0xFF1A {
            let dac = val & 0x80 != 0;
            Apu {
                ch3: Ch3 {
                    dac_on: dac,
                    enabled: if !dac {
                        false
                    } else {
                        self.ch3.enabled
                    },
                    ..self.ch3
                },
                ..self
            }
        } else if addr == 0xFF1B {
            Apu {
                ch3: Ch3 { length_load: val, length_counter: (256 - val) as u16, ..self.ch3 },
                ..self
            }
        } else if addr == 0xFF1C {
            Apu { ch3: Ch3 { output_level: (val >> 5u8) & 0x03, ..self.ch3 }, ..self }
        } else if addr == 0xFF1D {
            Apu { ch3: Ch3 { freq_low: val, ..self.ch3 }, ..self }
        } else if addr == 0xFF1E {
            let a = Apu {
                ch3: Ch3 { freq_high: val & 0x07, length_enable: val & 0x40 != 0, ..self.ch3 },
                ..self
            };
            if val & 0x80 != 0 {
                a.trigger_ch3_spec()
            } else {
                a
            }
        } else if addr == 0xFF20 {
            Apu {
                ch4: Ch4 {
                    length_load: val & 0x3F,
                    length_counter: (64 - (val & 0x3F)) as u8,
                    ..self.ch4
                },
                ..self
            }
        } else if addr == 0xFF21 {
            Apu {
                ch4: Ch4 {
                    env_initial: (val >> 4u8) & 0x0F,
                    env_add: val & 0x08 != 0,
                    env_period: val & 0x07,
                    enabled: if val & 0xF8 == 0 {
                        false
                    } else {
                        self.ch4.enabled
                    },
                    ..self.ch4
                },
                ..self
            }
        } else if addr == 0xFF22 {
            Apu {
                ch4: Ch4 {
                    clock_shift: (val >> 4u8) & 0x0F,
                    lfsr_width: val & 0x08 != 0,
                    divisor_code: val & 0x07,
                    ..self.ch4
                },
                ..self
            }
        } else if addr == 0xFF23 {
            let a = Apu { ch4: Ch4 { length_enable: val & 0x40 != 0, ..self.ch4 }, ..self };
            if val & 0x80 != 0 {
                a.trigger_ch4_spec()
            } else {
                a
            }
        } else if addr == 0xFF24 {
            Apu { nr50: val, ..self }
        } else if addr == 0xFF25 {
            Apu { nr51: val, ..self }
        } else if addr == 0xFF26 {
            let new_enabled = val & 0x80 != 0;
            if self.enabled && !new_enabled {
                Apu {
                    enabled: false,
                    ch1: Ch1 { enabled: false, freq_timer: 0, env_volume: 0, ..self.ch1 },
                    ch2: Ch2 { enabled: false, freq_timer: 0, env_volume: 0, ..self.ch2 },
                    ch3: Ch3 { enabled: false, freq_timer: 0, ..self.ch3 },
                    ch4: Ch4 { enabled: false, freq_timer: 0, env_volume: 0, ..self.ch4 },
                    fs_cycles: 0,
                    fs_step: 0,
                    ..self
                }
            } else {
                Apu { enabled: new_enabled, ..self }
            }
        } else if 0xFF30 <= addr <= 0xFF3F {
            Apu {
                ch3: Ch3 {
                    wave_ram: vstd::array::spec_array_update(self.ch3.wave_ram, addr - 0xFF30, val),
                    ..self.ch3
                },
                ..self
            }
        } else {
            self
        }
    }

    /// Length counters: each enabled, non-zero counter counts down and silences its channel
    /// on reaching zero.
    pub open spec fn tick_length_spec(self) -> Apu {
        Apu {
            ch1: self.ch1.length_tick(),
            ch2: self.ch2.length_tick(),
            ch3: self.ch3.length_tick(),
            ch4: self.ch4.length_tick(),
            ..self
        }
    }

    pub open spec fn tick_envelope_spec(self) -> Apu {
        Apu {
            ch1: self.ch1.env_tick(),
            ch2: self.ch2.env_tick(),
            ch4: self.ch4.env_tick(),
            ..self
        }
    }

    /// Whether the envelope step cannot underflow a timer: every channel with a non-zero
    /// envelope period has a running timer.
    pub open spec fn envelope_ok(self) -> bool {
        &&& self.ch1.env_period > 0 ==> self.ch1.env_timer > 0
        &&& self.ch2.env_period > 0 ==> self.ch2.env_timer > 0
        &&& self.ch4.env_period > 0 ==> self.ch4.env_timer > 0
    }

    pub open spec fn tick_sweep_spec(self) -> Apu {
        let c = self.ch1;
        let timer = if c.sweep_timer > 0 {
            (c.sweep_timer - 1) as u8
        } else {
            c.sweep_timer
        };
        if timer != 0 {
            Apu { ch1: Ch1 { sweep_timer: timer, ..c }, ..self }
        } else {
            let c1 = Ch1 {
                sweep_timer: if c.sweep_period == 0 {
                    8
                } else {
                    c.sweep_period
                },
                ..c
            };
            if c1.sweep_enabled && c1.sweep_period > 0 {
                let c2 = sweep_check(c1);
                let nf = sweep_target(c1);
                if nf <= 0x7FF && c1.sweep_shift > 0 {
                    let c3 = Ch1 {
                        sweep_shadow: nf,
                        freq_low: (nf % 256) as u8,
                        freq_high: (c1.freq_high & !0x07u8) | ((nf / 256) as u8 & 0x07),
                        ..c2
                    };
                    Apu { ch1: sweep_check(c3), ..self }
                } else {
                    Apu { ch1: c2, ..self }
                }
            } else {
                Apu { ch1: c1, ..self }
            }
        }
    }

    /// The frame sequencer's step: lengths on even steps, sweep on 2 and 6, envelopes on 7.
    pub open spec fn tick_frame_sequencer_spec(self) -> Apu {
        let step = self.fs_step;
        let a0 = Apu { fs_step: ((step + 1) % 8) as u8, ..self };
        let a1 = if step % 2 == 0 {
            a0.tick_length_spec()
        } else {
            a0
        };
        let a2 = if step == 2 || step == 6 {
            a1.tick_sweep_spec()
        } else {
            a1
        };
        if step == 7 {
            a2.tick_envelope_spec()
        } else {
            a2
        }
    }

    pub open spec fn clock_ch1(c: Ch1) -> Ch1 {
        if c.freq_timer > 0 {
            if c.freq_timer == 1 {
                Ch1 {
                    freq_timer: ((2048 - c.freq()) * 4) as u16,
                    duty_pos: ((c.duty_pos + 1) % 8) as u8,
                    ..c
                }
            } else {
                Ch1 { freq_timer: (c.freq_timer - 1) as u16, ..c }
            }
        } else {
            c
        }
    }

    pub open spec fn clock_ch2(c: Ch2) -> Ch2 {
        if c.freq_timer > 0 {
            if c.freq_timer == 1 {
                Ch2 {
                    freq_timer: ((2048 - c.freq()) * 4) as u16,
                    duty_pos: ((c.duty_pos + 1) % 8) as u8,
                    ..c
                }
            } else {
                Ch2 { freq_timer: (c.freq_timer - 1) as u16, ..c }
            }
        } else {
            c
        }
    }

    pub open spec fn clock_ch3(c: Ch3) -> Ch3 {
        if c.freq_timer > 0 {
            if c.freq_timer == 1 {
                Ch3 {
                    freq_timer: ((2048 - c.freq()) * 2) as u16,
                    wave_pos: ((c.wave_pos + 1) % 32) as u8,
                    ..c
                }
            } else {
                Ch3 { freq_timer: (c.freq_timer - 1) as u16, ..c }
            }
        } else {
            c
        }
    }

    /// The LFSR after one shift: bit 0 xor bit 1 enters at bit 14 (and bit 6 in 7-bit mode).
    pub open spec fn lfsr_next(lfsr: u16, width7: bool) -> u16 {
        let x = (lfsr & 1) ^ ((lfsr >> 1u16) & 1);
        let l = (lfsr >> 1u16) | (x << 14u16);
        if width7 {
            (l & !(1u16 << 6u16)) | (x << 6u16)
        } else {
            l
        }
    }

    pub open spec fn clock_ch4(c: Ch4) -> Ch4 {
        if c.freq_timer > 0 {
            if c.freq_timer == 1 {
                Ch4 {
                    freq_timer: Self::ch4_period(c),
                    lfsr: Self::lfsr_next(c.lfsr, c.lfsr_width),
                    ..c
                }
            } else {
                Ch4 { freq_timer: (c.freq_timer - 1) as u16, ..c }
            }
        } else {
            c
        }
    }

    /// One T-cycle of the unit. While powered on, each channel's frequency timer counts
    /// down and on expiry reloads and advances its waveform position; every 8192 cycles the
    /// frame sequencer steps. While powered off nothing changes.
    pub open spec fn tick_spec(self) -> Apu {
        if !self.enabled {
            self
        } else {
            let a = Apu {
                ch1: Self::clock_ch1(self.ch1),
                ch2: Self::clock_ch2(self.ch2),
                ch3: Self::clock_ch3(self.ch3),
                ch4: Self::clock_ch4(self.ch4),
                fs_cycles: (self.fs_cycles + 1) as u32,
                ..self
            };
            if a.fs_cycles >= 8192 {
                Apu { fs_cycles: (a.fs_cycles - 8192) as u32, ..a }.tick_frame_sequencer_spec()
            } else {
                a
            }
        }
    }

    /// Whether `tick` runs without an arithmetic underflow (an envelope step with a stopped
    /// timer, which only a channel written but never triggered can have).
    pub open spec fn tick_ok(self) -> bool {
        self.enabled && self.fs_cycles + 1 >= 8192 && self.fs_step == 7 ==> self.envelope_ok()
    }

    /// The DAC input levels (0-15) of the four channels: duty bit times volume for the
    /// square channels, the wave sample shifted by the output level, LFSR bit 0 clear times
    /// volume for the noise channel; 0 for a disabled channel.
    pub open spec fn outputs_spec(self) -> Seq<u8> {
        seq![
            if self.ch1.enabled {
                (duty_bit(self.ch1.duty, self.ch1.duty_pos) * self.ch1.env_volume) as u8
            } else {
                0
            },
            if self.ch2.enabled {
                (duty_bit(self.ch2.duty, self.ch2.duty_pos) * self.ch2.env_volume) as u8
            } else {
                0
            },
            if self.ch3.enabled && self.ch3.dac_on {
                wave_level_spec(self.ch3.wave_ram@, self.ch3.wave_pos, self.ch3.output_level)
            } else {
                0
            },
            if self.ch4.enabled {
                if self.ch4.lfsr & 1 == 0 {
                    self.ch4.env_volume
                } else {
                    0
                }
            } else {
                0
            },
        ]
    }
}

/// Wave channel sample: the nibble at `pos` (high nibble first), shifted right by 0, 1 or 2
/// for output levels 1, 2, 3; 0 for level 0.
pub open spec fn wave_level_spec(wave_ram: Seq<u8>, pos: u8, output_level: u8) -> u8 {
    let b = wave_ram[pos as int / 2];
    let raw = if pos % 2 == 0 {
        b >> 4u8
    } else {
        b & 0x0F
    };
    if output_level == 1 {
        raw
    } else if output_level == 2 {
        raw >> 1u8
    } else if output_level == 3 {
        raw >> 2u8
    } else {
        0
    }
}


/// Duty pattern bit for `duty` at position `pos`.
pub fn duty_level(duty: u8, pos: u8) -> (r: u8)
    ensures
        r == duty_bit(duty, pos),
        r <= 1,
{
    let d = duty & 0x03;
    let p = pos & 0x07;
    assert(d == duty % 4 && p == pos % 8) by (bit_vector)
        requires
            d == duty & 0x03,
            p == pos & 0x07,
    ;
    let table: [[u8; 8]; 4] = [
        [0, 0, 0, 0, 0, 0, 0, 1],
        [1, 0, 0, 0, 0, 0, 0, 1],
        [1, 0, 0, 0, 1, 1, 1, 1],
        [0, 1, 1, 1, 1, 1, 1, 0],
    ];
    let row = table[d as usize];
    row[p as usize]
}

/// Wave channel level for `pos` (0-31) at `output_level`.
pub fn wave_level(wave_ram: &[u8; 16], pos: u8, output_level: u8) -> (r: u8)
    requires
        pos < 32,
    ensures
        r == wave_level_spec(wave_ram@, pos, output_level),
{
    let p = pos as usize;
    let raw = if p % 2 == 0 {
        wave_ram[p / 2] >> 4
    } else {
        wave_ram[p / 2] & 0x0F
    };
    match output_level {
        0 => 0,
        1 => raw,
        2 => raw >> 1,
        3 => raw >> 2,
        _ => 0,
    }
}

impl Apu {
    pub fn new() -> (r: Apu)
        ensures
            r.at_power_on(),
            r.wf(),
    {
        Apu {
            enabled: false,
            ch1: Ch1::new(),
            ch2: Ch2::new(),
            ch3: Ch3::new(),
            ch4: Ch4::new(),
            nr50: 0x77,
            nr51: 0xF3,
            fs_cycles: 0,
            fs_step: 0,
        }
    }

    pub fn read(&self, addr: u16) -> (r: u8)
        ensures
            r == self.read_spec(addr),
    {
        match addr {
            0xFF10 => {
                0x80 | (self.ch1.sweep_period << 4) | ((self.ch1.sweep_negate as u8) << 3)
                    | self.ch1.sweep_shift
            },
            0xFF11 => (self.ch1.duty << 6) | 0x3F,
            0xFF12 => {
                (self.ch1.env_initial << 4) | ((self.ch1.env_add as u8) << 3) | self.ch1.env_period
            },
            0xFF13 => 0xFF,
            0xFF14 => 0xBF | ((self.ch1.length_enable as u8) << 6),
            0xFF15 => 0xFF,
            0xFF16 => (self.ch2.duty << 6) | 0x3F,
            0xFF17 => {
                (self.ch2.env_initial << 4) | ((self.ch2.env_add as u8) << 3) | self.ch2.env_period
            },
            0xFF18 => 0xFF,
            0xFF19 => 0xBF | ((self.ch2.length_enable as u8) << 6),
            0xFF1A => 0x7F | ((self.ch3.dac_on as u8) << 7),
            0xFF1B => 0xFF,
            0xFF1C => 0x9F | (self.ch3.output_level << 5),
            0xFF1D => 0xFF,
            0xFF1E => 0xBF | ((self.ch3.length_enable as u8) << 6),
            0xFF1F => 0xFF,
            0xFF20 => 0xFF,
            0xFF21 => {
                (self.ch4.env_initial << 4) | ((self.ch4.env_add as u8) << 3) | self.ch4.env_period
            },
            0xFF22 => {
                (self.ch4.clock_shift << 4) | ((self.ch4.lfsr_width as u8) << 3)
                    | self.ch4.divisor_code
            },
            0xFF23 => 0xBF | ((self.ch4.length_enable as u8) << 6),
            0xFF24 => self.nr50,
            0xFF25 => self.nr51,
            0xFF26 => {
                0x70 | ((self.enabled as u8) << 7) | ((self.ch4.enabled as u8) << 3) | ((
                self.ch3.enabled as u8) << 2) | ((self.ch2.enabled as u8) << 1) | (
                self.ch1.enabled as u8)
            },
            0xFF27..=0xFF2F => 0xFF,
            0xFF30..=0xFF3F => {
                broadcast use vstd::array::group_array_axioms;
                self.ch3.wave_ram[(addr - 0xFF30) as usize]
            },
            _ => 0xFF,
        }
    }

    pub fn write(&mut self, addr: u16, val: u8)
        requires
            old(self).wf(),
        ensures
            *final(self) == old(self).write_spec(addr, val),
            final(self).wf(),
    {
        if !self.enabled && addr != 0xFF26 {
            return ;
        }
        match addr {
            0xFF10..=0xFF14 => self.write_ch1(addr, val),
            0xFF15 => {},
            0xFF16..=0xFF19 => self.write_ch2(addr, val),
            0xFF1A..=0xFF1E => self.write_ch3(addr, val),
            0xFF1F => {},
            0xFF20..=0xFF23 => self.write_ch4(addr, val),
            0xFF24 => self.nr50 = val,
            0xFF25 => self.nr51 = val,
            0xFF26 => self.write_nr52(addr, val),
            0xFF27..=0xFF2F => {},
            0xFF30..=0xFF3F => self.write_wave(addr, val),
            _ => {},
        }
    }

    fn write_ch1(&mut self, addr: u16, val: u8)
        requires
            old(self).wf(),
            old(self).enabled || addr == 0xFF26,
            0xFF10 <= addr <= 0xFF14,
        ensures
            *final(self) == old(self).write_spec(addr, val),
            final(self).wf(),
    {
        match addr {
            0xFF10 => {
                self.ch1.sweep_period = (val >> 4) & 0x07;
                self.ch1.sweep_negate = val & 0x08 != 0;
                self.ch1.sweep_shift = val & 0x07;
                proof {
                    lemma_register_fields(val);
                }
            },
            0xFF11 => {
                self.ch1.duty = (val >> 6) & 0x03;
                self.ch1.length_load = val & 0x3F;
                proof {
                    lemma_register_fields(val);
                }
                self.ch1.length_counter = 64 - self.ch1.length_load;
            },
            0xFF12 => {
                self.ch1.env_initial = (val >> 4) & 0x0F;
                self.ch1.env_add = val & 0x08 != 0;
                self.ch1.env_period = val & 0x07;
                if val & 0xF8 == 0 {
                    self.ch1.enabled = false;
                }
            },
            0xFF13 => self.ch1.freq_low = val,
            0xFF14 => {
                self.ch1.freq_high = val & 0x07;
                self.ch1.length_enable = val & 0x40 != 0;
                if val & 0x80 != 0 {
                    self.trigger_ch1();
                }
            },
            _ => {},
        }
    }

    fn write_ch2(&mut self, addr: u16, val: u8)
        requires
            old(self).wf(),
            old(self).enabled || addr == 0xFF26,
            0xFF16 <= addr <= 0xFF19,
        ensures
            *final(self) == old(self).write_spec(addr, val),
            final(self).wf(),
    {
        match addr {
            0xFF16 => {
                self.ch2.duty = (val >> 6) & 0x03;
                self.ch2.length_load = val & 0x3F;
                proof {
                    lemma_register_fields(val);
                }
                self.ch2.length_counter = 64 - self.ch2.length_load;
            },
            0xFF17 => {
                self.ch2.env_initial = (val >> 4) & 0x0F;
                self.ch2.env_add = val & 0x08 != 0;
                self.ch2.env_period = val & 0x07;
                if val & 0xF8 == 0 {
                    self.ch2.enabled = false;
                }
            },
            0xFF18 => self.ch2.freq_low = val,
            0xFF19 => {
                self.ch2.freq_high = val & 0x07;
                self.ch2.length_enable = val & 0x40 != 0;
                if val & 0x80 != 0 {
                    self.trigger_ch2();
                }
            },
            _ => {},
        }
    }

    fn write_ch3(&mut self, addr: u16, val: u8)
        requires
            old(self).wf(),
            old(self).enabled || addr == 0xFF26,
            0xFF1A <= addr <= 0xFF1E,
        ensures
            *final(self) == old(self).write_spec(addr, val),
            final(self).wf(),
    {
        match addr {
            0xFF1A => {
                self.ch3.dac_on = val & 0x80 != 0;
                if !self.ch3.dac_on {
                    self.ch3.enabled = false;
                }
            },
            0xFF1B => {
                self.ch3.length_load = val;
                self.ch3.length_counter = 256 - val as u16;
            },
            0xFF1C => self.ch3.output_level = (val >> 5) & 0x03,
            0xFF1D => self.ch3.freq_low = val,
            0xFF1E => {
                self.ch3.freq_high = val & 0x07;
                self.ch3.length_enable = val & 0x40 != 0;
                if val & 0x80 != 0 {
                    self.trigger_ch3();
                }
            },
            _ => {},
        }
    }

    fn write_ch4(&mut self, addr: u16, val: u8)
        requires
            old(self).wf(),
            old(self).enabled || addr == 0xFF26,
            0xFF20 <= addr <= 0xFF23,
        ensures
            *final(self) == old(self).write_spec(addr, val),
            final(self).wf(),
    {
        match addr {
            0xFF20 => {
                self.ch4.length_load = val & 0x3F;
                proof {
                    lemma_register_fields(val);
                }
                self.ch4.length_counter = 64 - self.ch4.length_load;
            },
            0xFF21 => {
                self.ch4.env_initial = (val >> 4) & 0x0F;
                self.ch4.env_add = val & 0x08 != 0;
                self.ch4.env_period = val & 0x07;
                if val & 0xF8 == 0 {
                    self.ch4.enabled = false;
                }
            },
            0xFF22 => {
                self.ch4.clock_shift = (val >> 4) & 0x0F;
                proof {
                    lemma_register_fields(val);
                }
                self.ch4.lfsr_width = val & 0x08 != 0;
                self.ch4.divisor_code = val & 0x07;
            },
            0xFF23 => {
                self.ch4.length_enable = val & 0x40 != 0;
                if val & 0x80 != 0 {
                    self.trigger_ch4();
                }
            },
            _ => {},
        }
    }

    fn write_nr52(&mut self, addr: u16, val: u8)
        requires
            old(self).wf(),
            old(self).enabled || addr == 0xFF26,
            addr == 0xFF26,
        ensures
            *final(self) == old(self).write_spec(addr, val),
            final(self).wf(),
    {
        match addr {
            0xFF26 => {
                let new_enabled = val & 0x80 != 0;
                if self.enabled && !new_enabled {
                    self.ch1.enabled = false;
                    self.ch2.enabled = false;
                    self.ch3.enabled = false;
                    self.ch4.enabled = false;
                    self.ch1.freq_timer = 0;
                    self.ch2.freq_timer = 0;
                    self.ch3.freq_timer = 0;
                    self.ch4.freq_timer = 0;
                    self.ch1.env_volume = 0;
                    self.ch2.env_volume = 0;
                    self.ch4.env_volume = 0;
                    self.fs_cycles = 0;
                    self.fs_step = 0;
                }
                self.enabled = new_enabled;
            },
            _ => {},
        }
    }

    fn write_wave(&mut self, addr: u16, val: u8)
        requires
            old(self).wf(),
            old(self).enabled || addr == 0xFF26,
            0xFF30 <= addr <= 0xFF3F,
        ensures
            *final(self) == old(self).write_spec(addr, val),
            final(self).wf(),
    {
        match addr {
            0xFF30..=0xFF3F => {
                self.ch3.wave_ram[(addr - 0xFF30) as usize] = val;
                broadcast use vstd::array::group_array_axioms;
                assert(self.ch3.wave_ram =~= vstd::array::spec_array_update(
                    old(self).ch3.wave_ram,
                    addr - 0xFF30,
                    val,
                ));
            },
            _ => {},
        }
    }

    fn trigger_ch1(&mut self)
        requires
            old(self).wf(),
        ensures
            *final(self) == old(self).trigger_ch1_spec(),
            final(self).wf(),
    {
        self.ch1.enabled = true;
        if self.ch1.length_counter == 0 {
            self.ch1.length_counter = 64;
        }
        let freq = self.ch1.freq11();
        self.ch1.freq_timer = (2048 - freq) * 4;
        self.ch1.env_volume = self.ch1.env_initial;
        self.ch1.env_timer = if self.ch1.env_period == 0 {
            8
        } else {
            self.ch1.env_period
        };
        self.ch1.sweep_shadow = freq;
        self.ch1.sweep_timer = if self.ch1.sweep_period == 0 {
            8
        } else {
            self.ch1.sweep_period
        };
        self.ch1.sweep_enabled = self.ch1.sweep_period > 0 || self.ch1.sweep_shift > 0;
        if self.ch1.sweep_enabled {
            self.sweep_calc_overflow_check();
        }
        if self.ch1.env_initial == 0 && !self.ch1.env_add {
            self.ch1.enabled = false;
        }
    }

    fn sweep_calc_overflow_check(&mut self)
        requires
            old(self).wf(),
        ensures
            *final(self) == (Apu { ch1: sweep_check(old(self).ch1), ..*old(self) }),
    {
        let _ = self.sweep_calc();
    }

    fn trigger_ch2(&mut self)
        requires
            old(self).wf(),
        ensures
            *final(self) == old(self).trigger_ch2_spec(),
    {
        self.ch2.enabled = true;
        if self.ch2.length_counter == 0 {
            self.ch2.length_counter = 64;
        }
        let freq = self.ch2.freq11();
        self.ch2.freq_timer = (2048 - freq) * 4;
        self.ch2.env_volume = self.ch2.env_initial;
        self.ch2.env_timer = if self.ch2.env_period == 0 {
            8
        } else {
            self.ch2.env_period
        };
        if self.ch2.env_initial == 0 && !self.ch2.env_add {
            self.ch2.enabled = false;
        }
    }

    fn trigger_ch3(&mut self)
        requires
            old(self).wf(),
        ensures
            *final(self) == old(self).trigger_ch3_spec(),
    {
        if !self.ch3.dac_on {
            self.ch3.enabled = false;
            return ;
        }
        self.ch3.enabled = true;
        if self.ch3.length_counter == 0 {
            self.ch3.length_counter = 256;
        }
        let freq = self.ch3.freq11();
        self.ch3.freq_timer = (2048 - freq) * 2;
        self.ch3.wave_pos = 0;
    }

    fn trigger_ch4(&mut self)
        requires
            old(self).wf(),
        ensures
            *final(self) == old(self).trigger_ch4_spec(),
    {
        self.ch4.enabled = true;
        if self.ch4.length_counter == 0 {
            self.ch4.length_counter = 64;
        }
        self.ch4.freq_timer = self.ch4.reload();
        self.ch4.env_volume = self.ch4.env_initial;
        self.ch4.env_timer = if self.ch4.env_period == 0 {
            8
        } else {
            self.ch4.env_period
        };
        self.ch4.lfsr = 0x7FFF;
        if self.ch4.env_initial == 0 && !self.ch4.env_add {
            self.ch4.enabled = false;
        }
    }

    /// Whether the next `tick` is free of arithmetic underflow.
    pub fn can_tick(&self) -> (r: bool)
        ensures
            r == self.tick_ok(),
    {
        !(self.enabled && self.fs_cycles >= 8191 && self.fs_step == 7) || (!(
        self.ch1.env_period > 0 && self.ch1.env_timer == 0) && !(self.ch2.env_period > 0
            && self.ch2.env_timer == 0) && !(self.ch4.env_period > 0 && self.ch4.env_timer == 0))
    }

    /// Advances the unit by one T-cycle (the channel and sequencer part of the per-cycle
    /// loop; sample generation is the caller's).
    pub fn tick(&mut self)
        requires
            old(self).wf(),
            old(self).tick_ok(),
        ensures
            *final(self) == old(self).tick_spec(),
            final(self).wf(),
    {
        if self.enabled {
            self.ch1.clock();
            self.ch2.clock();
            self.ch3.clock();
            self.ch4.clock();
            // Frame sequencer
            self.fs_cycles += 1;
            if self.fs_cycles >= 8192 {
                self.fs_cycles -= 8192;
                self.tick_frame_sequencer();
            }
        }
    }

    fn tick_frame_sequencer(&mut self)
        requires
            old(self).wf(),
            old(self).fs_step == 7 ==> old(self).envelope_ok(),
        ensures
            *final(self) == old(self).tick_frame_sequencer_spec(),
            final(self).wf(),
    {
        let step = self.fs_step;
        self.fs_step = (self.fs_step + 1) % 8;
        if step == 0 || step == 2 || step == 4 || step == 6 {
            self.tick_length();
        }
        if step == 2 || step == 6 {
            self.tick_sweep();
        }
        if step == 7 {
            self.tick_envelope();
        }
    }

    fn tick_length(&mut self)
        requires
            old(self).wf(),
        ensures
            *final(self) == old(self).tick_length_spec(),
            final(self).wf(),
    {
        self.ch1.tick_length();
        self.ch2.tick_length();
        self.ch3.tick_length();
        self.ch4.tick_length();
    }

    fn tick_envelope(&mut self)
        requires
            old(self).wf(),
            old(self).envelope_ok(),
        ensures
            *final(self) == old(self).tick_envelope_spec(),
            final(self).wf(),
    {
        self.ch1.tick_envelope();
        self.ch2.tick_envelope();
        self.ch4.tick_envelope();
    }

    fn tick_sweep(&mut self)
        requires
            old(self).wf(),
        ensures
            *final(self) == old(self).tick_sweep_spec(),
            final(self).wf(),
    {
        if self.ch1.sweep_timer > 0 {
            self.ch1.sweep_timer -= 1;
        }
        if self.ch1.sweep_timer == 0 {
            self.ch1.sweep_timer = if self.ch1.sweep_period == 0 {
                8
            } else {
                self.ch1.sweep_period
            };
            if self.ch1.sweep_enabled && self.ch1.sweep_period > 0 {
                let new_freq = self.sweep_calc();
                if new_freq <= 0x7FF && self.ch1.sweep_shift > 0 {
                    self.ch1.sweep_shadow = new_freq;
                    self.ch1.freq_low = (new_freq & 0xFF) as u8;
                    self.ch1.freq_high = (self.ch1.freq_high & !0x07) | ((new_freq >> 8) as u8
                        & 0x07);
                    assert((new_freq & 0xFF) as u8 == (new_freq % 256) as u8 && (new_freq >> 8u16) as u8 == (new_freq / 256) as u8) by (bit_vector);
                    self.sweep_calc();
                }
            }
        }
    }

    fn sweep_calc(&mut self) -> (r: u16)
        requires
            old(self).wf(),
        ensures
            r == sweep_target(old(self).ch1),
            *final(self) == (Apu { ch1: sweep_check(old(self).ch1), ..*old(self) }),
    {
        let shadow = self.ch1.sweep_shadow;
        let shift = self.ch1.sweep_shift;
        let delta = shadow >> shift;
        assert(delta <= shadow) by (bit_vector)
            requires
                delta == shadow >> shift,
                shift < 16,
        ;
        let new_freq = if self.ch1.sweep_negate {
            self.ch1.sweep_shadow.wrapping_sub(delta)
        } else {
            self.ch1.sweep_shadow + delta
        };
        if new_freq > 0x7FF {
            self.ch1.enabled = false;
        }
        new_freq
    }

    /// DAC input levels (0-15) of channels 1-4; see `outputs_spec`.
    pub fn channel_outputs(&self) -> (r: [u8; 4])
        requires
            self.wf(),
        ensures
            r@ == self.outputs_spec(),
    {
        let o1 = if self.ch1.enabled {
            duty_level(self.ch1.duty, self.ch1.duty_pos) * self.ch1.env_volume
        } else {
            0
        };
        let o2 = if self.ch2.enabled {
            duty_level(self.ch2.duty, self.ch2.duty_pos) * self.ch2.env_volume
        } else {
            0
        };
        let o3 = if self.ch3.enabled && self.ch3.dac_on {
            wave_level(&self.ch3.wave_ram, self.ch3.wave_pos, self.ch3.output_level)
        } else {
            0
        };
        let o4 = if self.ch4.enabled {
            if self.ch4.lfsr & 1 == 0 {
                self.ch4.env_volume
            } else {
                0
            }
        } else {
            0
        };
        let r = [o1, o2, o3, o4];
        assert(r@ =~= self.outputs_spec());
        r
    }
}


/// Law: while the unit is powered off, every write except to NR52 is ignored.
pub proof fn lemma_write_ignored_when_off(a: Apu, addr: u16, val: u8)
    requires
        !a.enabled,
        addr != 0xFF26,
    ensures
        a.write_spec(addr, val) == a,
{
}

/// Law: powering the unit off through NR52 silences all four channels.
pub proof fn lemma_power_off_silences(a: Apu, val: u8)
    requires
        val & 0x80 == 0,
    ensures
        !a.write_spec(0xFF26, val).enabled,
        a.enabled ==> !a.write_spec(0xFF26, val).ch1.enabled && !a.write_spec(
            0xFF26,
            val,
        ).ch2.enabled && !a.write_spec(0xFF26, val).ch3.enabled && !a.write_spec(
            0xFF26,
            val,
        ).ch4.enabled,
{
}

/// Law: with the unit powered on, a byte written to wave RAM reads back unchanged, and
/// the other wave RAM bytes are untouched.
pub proof fn lemma_wave_ram_roundtrip(a: Apu, addr: u16, other: u16, val: u8)
    requires
        a.enabled,
        0xFF30 <= addr <= 0xFF3F,
        0xFF30 <= other <= 0xFF3F,
        other != addr,
    ensures
        a.write_spec(addr, val).read_spec(addr) == val,
        a.write_spec(addr, val).read_spec(other) == a.read_spec(other),
{
    broadcast use vstd::array::group_array_axioms;
}


/// Law: NR52 reads the power switch in bit 7, ones in bits 6-4 and the four channels' on
/// flags in bits 3-0; the unused registers read 0xFF.
pub proof fn lemma_status_register(a: Apu, addr: u16)
    requires
        addr == 0xFF15 || addr == 0xFF1F || 0xFF27 <= addr <= 0xFF2F,
    ensures
        a.read_spec(0xFF26) & 0x70 == 0x70,
        (a.read_spec(0xFF26) & 0x80 != 0) == a.enabled,
        (a.read_spec(0xFF26) & 0x08 != 0) == a.ch4.enabled,
        (a.read_spec(0xFF26) & 0x04 != 0) == a.ch3.enabled,
        (a.read_spec(0xFF26) & 0x02 != 0) == a.ch2.enabled,
        (a.read_spec(0xFF26) & 0x01 != 0) == a.ch1.enabled,
        a.read_spec(addr) == 0xFF,
{
    let (e, c4, c3, c2, c1) = (a.enabled, a.ch4.enabled, a.ch3.enabled, a.ch2.enabled, a.ch1.enabled);
    assert({
        let r = 0x70u8 | ((e as u8) << 7u8) | ((c4 as u8) << 3u8) | ((c3 as u8) << 2u8) | ((
        c2 as u8) << 1u8) | (c1 as u8);
        &&& r & 0x70 == 0x70
        &&& (r & 0x80 != 0) == e
        &&& (r & 0x08 != 0) == c4
        &&& (r & 0x04 != 0) == c3
        &&& (r & 0x02 != 0) == c2
        &&& (r & 0x01 != 0) == c1
    }) by (bit_vector);
}


/// Law: with the unit powered on, NR50 and NR51 read back as written, and NR52 reads back the
/// power bit written to it.
pub proof fn lemma_volume_registers_roundtrip(a: Apu, val: u8)
    requires
        a.enabled,
    ensures
        a.write_spec(0xFF24, val).read_spec(0xFF24) == val,
        a.write_spec(0xFF25, val).read_spec(0xFF25) == val,
        a.write_spec(0xFF26, val).enabled == (val & 0x80 != 0),
{
}


/// Law: an envelope step that reloads the timer (a non-zero period and the timer at 1) moves
/// the volume one step towards 15 when the direction is "increase" and one step towards 0
/// otherwise, stopping at those bounds, and reloads the timer with the period; any other
/// step of a running timer leaves the volume as it was.
pub proof fn lemma_envelope_direction(period: u8, timer: u8, add: bool, volume: u8)
    ensures
        ({
            let (t2, v2) = env_step(period, timer, add, volume);
            &&& period > 0 && timer == 1 ==> {
                &&& t2 == period
                &&& add ==> v2 >= volume && (volume < 15 ==> v2 == volume + 1)
                &&& add && volume >= 15 ==> v2 == volume
                &&& !add ==> v2 <= volume && (volume > 0 ==> v2 == volume - 1)
                &&& !add && volume == 0 ==> v2 == 0
            }
            &&& period == 0 || timer > 1 ==> v2 == volume
        }),
{
}

/// Law: NR12 (0xFF12) holds the initial volume in bits 7-4, the direction in bit 3 (set:
/// increase) and the period in bits 2-0; so a channel 1 envelope step with bit 3 clear fades
/// the volume down by one.
pub proof fn lemma_nr12_envelope(a: Apu, val: u8)
    requires
        a.enabled,
    ensures
        a.write_spec(0xFF12, val).ch1.env_add == (val & 0x08 != 0),
        a.write_spec(0xFF12, val).ch1.env_period == val & 0x07,
        a.write_spec(0xFF12, val).ch1.env_initial == (val >> 4u8) & 0x0F,
        ({
            let c = a.write_spec(0xFF12, val).ch1;
            val & 0x08 == 0 && c.env_period > 0 && c.env_timer == 1 && c.env_volume > 0
                ==> c.env_tick().env_volume == c.env_volume - 1
        }),
{
    lemma_envelope_direction(
        a.write_spec(0xFF12, val).ch1.env_period,
        a.write_spec(0xFF12, val).ch1.env_timer,
        a.write_spec(0xFF12, val).ch1.env_add,
        a.write_spec(0xFF12, val).ch1.env_volume,
    );
}


/// Law: the four square-wave duty patterns are high for 1, 2, 5 and 6 of their 8 steps
/// (patterns 00000001, 10000001, 10001111, 01111110), the last is the second inverted, and
/// the pattern repeats every 8 steps.
pub proof fn lemma_duty_cycles(pos: u8)
    ensures
        duty_bit(0, 0) + duty_bit(0, 1) + duty_bit(0, 2) + duty_bit(0, 3) + duty_bit(0, 4) + duty_bit(0, 5)
            + duty_bit(0, 6) + duty_bit(0, 7) == 1,
        duty_bit(1, 0) + duty_bit(1, 1) + duty_bit(1, 2) + duty_bit(1, 3) + duty_bit(1, 4) + duty_bit(1, 5)
            + duty_bit(1, 6) + duty_bit(1, 7) == 2,
        duty_bit(2, 0) + duty_bit(2, 1) + duty_bit(2, 2) + duty_bit(2, 3) + duty_bit(2, 4) + duty_bit(2, 5)
            + duty_bit(2, 6) + duty_bit(2, 7) == 5,
        duty_bit(3, 0) + duty_bit(3, 1) + duty_bit(3, 2) + duty_bit(3, 3) + duty_bit(3, 4) + duty_bit(3, 5)
            + duty_bit(3, 6) + duty_bit(3, 7) == 6,
        duty_bit(3, pos) == 1 - duty_bit(1, pos),
        pos < 248 ==> forall|d: u8| duty_bit(d, pos) == #[trigger] duty_bit(d, (pos + 8) as u8),
{
}

} // verus!
