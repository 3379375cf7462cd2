use vstd::prelude::*;

verus! {

/// The DIV/TIMA/TMA/TAC timer block.
///
/// `counter` is the 16-bit internal divider; DIV is its high byte.
pub struct Timer {
    pub counter: u16,
    pub tima: u8,
    pub tma: u8,
    pub tac: u8,
}

/// Bit of the internal counter whose falling edge clocks TIMA, chosen by TAC bits 1-0.
pub open spec fn selected_bit_spec(tac: u8) -> u16 {
    let sel = tac % 4;
    if sel == 0 {
        9
    } else if sel == 1 {
        3
    } else if sel == 2 {
        5
    } else {
        7
    }
}

/// Bit `b` of `x`, as 0 or 1.
pub open spec fn counter_bit(x: u16, b: u16) -> u16 {
    (x >> b) & 1u16
}

impl Timer {
    /// Whether TAC enables TIMA counting (bit 2).
    pub open spec fn enabled_spec(self) -> bool {
        self.tac & 0x04 != 0
    }

    /// The value a read of `addr` returns.
    pub open spec fn read_spec(self, addr: u16) -> u8 {
        if addr == 0xFF04 {
            (self.counter / 256) as u8
        } else if addr == 0xFF05 {
            self.tima
        } else if addr == 0xFF06 {
            self.tma
        } else if addr == 0xFF07 {
            self.tac | 0xF8
        } else {
            0xFF
        }
    }

    /// The timer after a write of `val` to `addr`.
    pub open spec fn write_spec(self, addr: u16, val: u8) -> Timer {
        if addr == 0xFF04 {
            Timer { counter: 0, ..self }
        } else if addr == 0xFF05 {
            Timer { tima: val, ..self }
        } else if addr == 0xFF06 {
            Timer { tma: val, ..self }
        } else if addr == 0xFF07 {
            Timer { tac: val & 0x07, ..self }
        } else {
            self
        }
    }

    /// One T-cycle: the counter advances; a falling edge of the selected bit, when enabled,
    /// increments TIMA, which on overflow is reloaded from TMA. The flag reports the overflow.
    pub open spec fn tick(self) -> (Timer, bool) {
        let bit = selected_bit_spec(self.tac);
        let next = ((self.counter + 1) % 65536) as u16;
        let falling = self.enabled_spec() && counter_bit(self.counter, bit) == 1 && counter_bit(
            next,
            bit,
        ) == 0;
        if !falling {
            (Timer { counter: next, ..self }, false)
        } else if self.tima == 255 {
            (Timer { counter: next, tima: self.tma, ..self }, true)
        } else {
            (Timer { counter: next, tima: (self.tima + 1) as u8, ..self }, false)
        }
    }

    /// The timer after `n` T-cycles, with the number of TIMA overflows on the way.
    pub open spec fn run(self, n: nat) -> (Timer, nat)
        decreases n,
    {
        if n == 0 {
            (self, 0)
        } else {
            let (t, k) = self.run((n - 1) as nat);
            let (t2, o) = t.tick();
            (t2, if o {
                k + 1
            } else {
                k
            })
        }
    }

    pub fn new() -> (r: Timer)
        ensures
            r == (Timer { counter: 0, tima: 0, tma: 0, tac: 0 }),
    {
        Timer { counter: 0, tima: 0, tma: 0, tac: 0 }
    }

    pub fn read(&self, addr: u16) -> (r: u8)
        ensures
            r == self.read_spec(addr),
    {
        match addr {
            0xFF04 => {
                let c = self.counter;
                assert((c >> 8u16) as u8 == (c / 256) as u8) by (bit_vector);
                (self.counter >> 8) as u8
            },
            0xFF05 => self.tima,
            0xFF06 => self.tma,
            0xFF07 => self.tac | 0xF8,
            _ => 0xFF,
        }
    }

    pub fn write(&mut self, addr: u16, val: u8)
        ensures
            *final(self) == old(self).write_spec(addr, val),
    {
        match addr {
            0xFF04 => self.counter = 0,
            0xFF05 => self.tima = val,
            0xFF06 => self.tma = val,
            0xFF07 => self.tac = val & 0x07,
            _ => {},
        }
    }

    /// Advances the timer by `t_cycles` T-cycles, one at a time so that every falling edge
    /// is seen, and returns how many times TIMA overflowed (saturating at 255).
    pub fn step(&mut self, t_cycles: u32) -> (overflows: u8)
        ensures
            *final(self) == old(self).run(t_cycles as nat).0,
            overflows as nat == reported_overflows(old(self).run(t_cycles as nat).1),
    {
        let bit = self.selected_bit();
        let enabled = self.tac & 0x04 != 0;
        let mut overflows: u8 = 0;
        let ghost start = *self;
        let mut i: u32 = 0;
        while i < t_cycles
            invariant
                i <= t_cycles,
                bit == selected_bit_spec(start.tac),
                enabled == start.enabled_spec(),
                *self == start.run(i as nat).0,
                self.tac == start.tac,
                overflows as nat == reported_overflows(start.run(i as nat).1),
            decreases t_cycles - i,
        {
            let ghost prev = *self;
            let prev_bit = (self.counter >> bit) & 1;
            self.counter = self.counter.wrapping_add(1);
            let new_bit = (self.counter >> bit) & 1;
            if enabled && prev_bit == 1 && new_bit == 0 {
                match self.tima.checked_add(1) {
                    Some(new_tima) => self.tima = new_tima,
                    None => {
                        self.tima = self.tma;
                        overflows = overflows.saturating_add(1);
                    },
                }
            }
            assert(*self == prev.tick().0);
            assert(start.run((i + 1) as nat).0 == start.run(i as nat).0.tick().0);
            i = i + 1;
        }
        overflows
    }

    fn selected_bit(&self) -> (b: u16)
        ensures
            b == selected_bit_spec(self.tac),
    {
        let t = self.tac;
        assert(t & 0x03 == t % 4) by (bit_vector);
        match self.tac & 0x03 {
            0 => 9,
            1 => 3,
            2 => 5,
            _ => 7,
        }
    }
}

/// Law: running `n` cycles advances the internal counter by `n` modulo 2^16, whatever the
/// other registers hold; so DIV reads the high byte of that sum.
pub proof fn lemma_run_counter(t: Timer, n: nat)
    ensures
        t.run(n).0.counter == (t.counter + n) % 65536,
        t.run(n).0.tac == t.tac,
        t.run(n).0.tma == t.tma,
        t.run(n).0.read_spec(0xFF04) == (((t.counter + n) % 65536) / 256) as u8,
    decreases n,
{
    if n > 0 {
        lemma_run_counter(t, (n - 1) as nat);
    }
}

/// Law: while TAC bit 2 is clear, TIMA never changes and no overflow is reported.
pub proof fn lemma_run_disabled(t: Timer, n: nat)
    requires
        !t.enabled_spec(),
    ensures
        t.run(n).0.tima == t.tima,
        t.run(n).1 == 0,
    decreases n,
{
    if n > 0 {
        lemma_run_disabled(t, (n - 1) as nat);
        lemma_run_counter(t, (n - 1) as nat);
    }
}

/// Law: a register written through `write` reads back as written (TIMA, TMA), DIV reads 0 after
/// any write to it, and TAC reads back its low three bits with the upper five set.
pub proof fn lemma_write_read(t: Timer, val: u8)
    ensures
        t.write_spec(0xFF04, val).read_spec(0xFF04) == 0,
        t.write_spec(0xFF05, val).read_spec(0xFF05) == val,
        t.write_spec(0xFF06, val).read_spec(0xFF06) == val,
        t.write_spec(0xFF07, val).read_spec(0xFF07) == (val & 0x07) | 0xF8,
{
}


impl Default for Timer {
    fn default() -> (r: Timer)
        ensures
            r == (Timer { counter: 0, tima: 0, tma: 0, tac: 0 }),
    {
        Timer::new()
    }
}


/// The overflow count `step` reports for `n` overflows: `n`, saturating at 255.
pub open spec fn reported_overflows(n: nat) -> nat {
    if n < 255 {
        n
    } else {
        255
    }
}

/// Law: running `a` cycles and then `b` cycles is running `a + b` cycles: the same timer
/// state and the overflows of both parts added (so no falling edge is lost between steps);
/// the counts `step` reports, saturated at 255, add up the same way.
pub proof fn lemma_run_split(t: Timer, a: nat, b: nat)
    ensures
        t.run(a + b).0 == t.run(a).0.run(b).0,
        t.run(a + b).1 == t.run(a).1 + t.run(a).0.run(b).1,
        reported_overflows(t.run(a + b).1) == reported_overflows(
            reported_overflows(t.run(a).1) + reported_overflows(t.run(a).0.run(b).1),
        ),
    decreases b,
{
    if b > 0 {
        lemma_run_split(t, a, (b - 1) as nat);
        assert(t.run(a + b) == {
            let (u, k) = t.run((a + b - 1) as nat);
            let (u2, o) = u.tick();
            (u2, if o {
                k + 1
            } else {
                k
            })
        });
    }
}


/// T-cycles between TIMA increments for TAC's clock select (bits 1-0): 1024, 16, 64, 256,
/// that is 4096, 262144, 65536 and 16384 Hz.
pub open spec fn tima_period(tac: u8) -> int {
    let s = tac % 4;
    if s == 0 {
        1024
    } else if s == 1 {
        16
    } else if s == 2 {
        64
    } else {
        256
    }
}

/// Law: each T-cycle advances the internal counter (DIV is its high byte); with TAC enabled,
/// TIMA counts up exactly on the cycles where the counter becomes a multiple of the clock
/// select's period, reloading TMA and reporting an overflow when it passes 255; disabled,
/// TIMA never moves.
pub proof fn lemma_tick_rate(t: Timer)
    ensures
        t.tick().0.counter == (t.counter + 1) % 65536,
        t.tick().0.tac == t.tac,
        t.tick().0.tma == t.tma,
        ({
            let fires = t.enabled_spec() && t.tick().0.counter as int % tima_period(t.tac) == 0;
            &&& fires ==> t.tick().0.tima == (if t.tima == 255 {
                t.tma as int
            } else {
                t.tima + 1
            }) && t.tick().1 == (t.tima == 255)
            &&& !fires ==> t.tick().0.tima == t.tima && !t.tick().1
        }),
{
    let c = t.counter;
    let n = ((c + 1) % 65536) as u16;
    assert({
        &&& (counter_bit(c, 9u16) == 1 && counter_bit(n, 9u16) == 0) == (n % 1024u16 == 0)
        &&& (counter_bit(c, 3u16) == 1 && counter_bit(n, 3u16) == 0) == (n % 16u16 == 0)
        &&& (counter_bit(c, 5u16) == 1 && counter_bit(n, 5u16) == 0) == (n % 64u16 == 0)
        &&& (counter_bit(c, 7u16) == 1 && counter_bit(n, 7u16) == 0) == (n % 256u16 == 0)
    }) by (bit_vector)
        requires
            n == ((c + 1) % 65536) as u16,
    ;
}


} // verus!
