//! A DMG Game Boy core: CPU, memory bus, cartridge controllers, timer, PPU and APU, each
//! with a mathematical model that its operations are proved against.
pub mod apu;
pub mod bus;
pub mod cartridge;
pub mod cpu;
pub mod isa;
mod instructions;
pub mod ppu;
pub mod timer;

use vstd::prelude::*;
use bus::{Bus, BusModel};
use cartridge::{Cartridge, load_error, loaded_from};
use cpu::Cpu;
use isa::{fetch_opcode, lemma_step_cycles, step_hits_undefined, step_spec, wadd16, woken};

verus! {

/// T-cycles in one video frame (154 lines of 456 dots).
pub const FRAME_CYCLES: u32 = 70224;

/// The whole machine: CPU and everything behind the bus.
pub struct Emulator {
    pub cpu: Cpu,
    pub bus: Bus,
}

/// Why a checked step refused to run.
#[derive(Clone, Copy, Debug, PartialEq, Eq, Structural)]
pub enum StepError {
    /// The next opcode is one the CPU does not define; `pc` is its address.
    UndefinedOpcode { opcode: u8, pc: u16 },
    /// The PPU counters are outside the ranges in which one step is known not to overflow.
    PpuCounters,
}

/// T-cycles left until the end of a frame from `total` cycles into it.
pub open spec fn frame_cycles_left(total: int) -> nat {
    if total < FRAME_CYCLES {
        (FRAME_CYCLES - total) as nat
    } else {
        0
    }
}

/// One machine step: the CPU step, then the timer and the PPU for the T-cycles it took.
pub open spec fn machine_step(c: Cpu, b: BusModel) -> (Cpu, BusModel, u32) {
    let (c1, b1, t) = step_spec(c, b);
    (c1, b1.step_timer_spec(t).step_ppu_spec(t), t)
}

/// The machine step runs without a panic: the opcode is defined and the PPU counters do not
/// overflow.
pub open spec fn machine_step_ok(c: Cpu, b: BusModel) -> bool {
    &&& !step_hits_undefined(c, b)
    &&& step_spec(c, b).1.ppu.step_ok(step_spec(c, b).2)
}

/// The PPU counter ranges under which a single step cannot overflow them.
pub open spec fn ppu_counters_ok(b: BusModel) -> bool {
    &&& b.ppu.dot < 456
    &&& b.ppu.ly <= 153
    &&& b.ppu.window_line < 255
}

/// The outcome of a checked step: the error it reports, if any, by the checks made before
/// the step.
pub open spec fn step_check(c: Cpu, b: BusModel) -> Option<StepError> {
    if !ppu_counters_ok(b) {
        Some(StepError::PpuCounters)
    } else if step_hits_undefined(c, b) {
        Some(
            StepError::UndefinedOpcode {
                opcode: fetch_opcode(woken(c), b).1,
                pc: wadd16(fetch_opcode(woken(c), b).0.pc, -1),
            },
        )
    } else {
        None
    }
}

/// Running steps from `total` T-cycles into the frame until the frame's T-cycles are reached.
pub open spec fn run_frame(c: Cpu, b: BusModel, total: int) -> (Cpu, BusModel)
    decreases frame_cycles_left(total),
{
    if total >= FRAME_CYCLES {
        (c, b)
    } else {
        let (c1, b1, t) = machine_step(c, b);
        proof {
            lemma_step_cycles(c, b);
        }
        run_frame(c1, b1, total + t)
    }
}

/// Every step of `run_frame(c, b, total)` runs without a panic.
pub open spec fn frame_ok(c: Cpu, b: BusModel, total: int) -> bool
    decreases frame_cycles_left(total),
{
    if total >= FRAME_CYCLES {
        true
    } else {
        proof {
            lemma_step_cycles(c, b);
        }
        let (c1, b1, t) = machine_step(c, b);
        machine_step_ok(c, b) && frame_ok(c1, b1, total + t)
    }
}

/// Checked steps from `total` T-cycles into the frame: the state reached and the error that
/// stopped the frame, if one did.
pub open spec fn frame_checked(c: Cpu, b: BusModel, total: int) -> (Cpu, BusModel, Option<StepError>)
    decreases frame_cycles_left(total),
{
    if total >= FRAME_CYCLES {
        (c, b, None)
    } else if step_check(c, b) is Some {
        (c, b, step_check(c, b))
    } else {
        proof {
            lemma_step_cycles(c, b);
        }
        let (c1, b1, t) = machine_step(c, b);
        frame_checked(c1, b1, total + t)
    }
}

impl Emulator {
    /// The bus invariant that every step needs.
    pub open spec fn wf(self) -> bool {
        self.bus@.wf()
    }

    /// Loads `rom` into a fresh machine in its post-boot state; fails as `Cartridge::load`
    /// does.
    pub fn new(rom: Vec<u8>) -> (r: Result<Emulator, String>)
        ensures
            match load_error(rom@) {
                Some(msg) => r matches Err(m) && m@ == msg,
                None => r matches Ok(e) && {
                    &&& e.cpu == Cpu::post_boot()
                    &&& loaded_from(e.bus.cartridge, rom@)
                    &&& e.bus@.power_on(e.bus.cartridge@)
                    &&& (e.wf() <==> e.bus@.cart.read_ok())
                },
            },
    {
        let cartridge = match Cartridge::load(rom) {
            Ok(c) => c,
            Err(e) => return Err(e),
        };
        Ok(Emulator { cpu: Cpu::new(), bus: Bus::new(cartridge) })
    }

    /// One machine step; returns the T-cycles taken.
    pub fn step(&mut self) -> (t: u32)
        requires
            old(self).wf(),
            machine_step_ok(old(self).cpu, old(self).bus@),
        ensures
            final(self).wf(),
            (final(self).cpu, final(self).bus@, t) == machine_step(old(self).cpu, old(self).bus@),
    {
        let t_cycles = self.cpu.step(&mut self.bus);
        self.bus.step_timer(t_cycles);
        self.bus.step_ppu(t_cycles);
        t_cycles
    }

    /// One machine step after checking that it cannot panic: refuses an undefined opcode and
    /// PPU counters outside `ppu_counters_ok`, leaving the machine as it was.
    pub fn try_step(&mut self) -> (r: Result<u32, StepError>)
        requires
            old(self).wf(),
        ensures
            final(self).wf(),
            match step_check(old(self).cpu, old(self).bus@) {
                Some(e) => r == Err::<u32, StepError>(e) && *final(self) == *old(self),
                None => r matches Ok(t) && (final(self).cpu, final(self).bus@, t) == machine_step(
                    old(self).cpu,
                    old(self).bus@,
                ),
            },
    {
        let ppu = &self.bus.ppu;
        if !(ppu.dot < 456 && ppu.ly <= 153 && ppu.window_line < 255) {
            return Err(StepError::PpuCounters);
        }
        if self.cpu.undefined_ahead(&self.bus) {
            let opcode = self.bus.read(self.cpu.pc);
            let pc = if self.cpu.halt_bug {
                self.cpu.pc.wrapping_sub(1)
            } else {
                self.cpu.pc
            };
            return Err(StepError::UndefinedOpcode { opcode, pc });
        }
        proof {
            lemma_checked_step_ok(self.cpu, self.bus@);
        }
        Ok(self.step())
    }

    /// The frame being presented, RGBA, row-major.
    pub fn get_framebuffer(&self) -> (r: &[u8])
        ensures
            r@ == self.bus.ppu.back_buffer@,
    {
        self.bus.ppu.get_framebuffer()
    }

    /// Runs steps until a frame's worth of T-cycles has elapsed.
    pub fn step_frame(&mut self)
        requires
            old(self).wf(),
            frame_ok(old(self).cpu, old(self).bus@, 0),
        ensures
            final(self).wf(),
            (final(self).cpu, final(self).bus@) == run_frame(old(self).cpu, old(self).bus@, 0),
    {
        let mut total: u32 = 0;
        while total < FRAME_CYCLES
            invariant
                self.wf(),
                total < FRAME_CYCLES + 24,
                frame_ok(self.cpu, self.bus@, total as int),
                run_frame(self.cpu, self.bus@, total as int) == run_frame(
                    old(self).cpu,
                    old(self).bus@,
                    0,
                ),
            decreases frame_cycles_left(total as int),
        {
            proof {
                lemma_step_cycles(self.cpu, self.bus@);
            }
            total += self.step();
        }
    }

    /// Runs checked steps until a frame's worth of T-cycles has elapsed, stopping at the first
    /// step that `try_step` refuses.
    pub fn try_step_frame(&mut self) -> (r: Result<(), StepError>)
        requires
            old(self).wf(),
        ensures
            final(self).wf(),
            ({
                let (c, b, e) = frame_checked(old(self).cpu, old(self).bus@, 0);
                &&& final(self).cpu == c
                &&& final(self).bus@ == b
                &&& match e {
                    Some(err) => r == Err::<(), StepError>(err),
                    None => r is Ok,
                }
            }),
    {
        let mut total: u32 = 0;
        while total < FRAME_CYCLES
            invariant
                self.wf(),
                total < FRAME_CYCLES + 24,
                frame_checked(self.cpu, self.bus@, total as int) == frame_checked(
                    old(self).cpu,
                    old(self).bus@,
                    0,
                ),
            decreases frame_cycles_left(total as int),
        {
            proof {
                lemma_step_cycles(self.cpu, self.bus@);
            }
            match self.try_step() {
                Ok(t) => total += t,
                Err(e) => return Err(e),
            }
        }
        Ok(())
    }

    /// Hands out the bytes sent over the serial port since the last call.
    pub fn take_serial_output(&mut self) -> (r: Vec<u8>)
        ensures
            r@ == old(self).bus@.serial,
            final(self).cpu == old(self).cpu,
            final(self).bus@ == (BusModel { serial: Seq::empty(), ..old(self).bus@ }),
    {
        self.bus.take_serial_output()
    }
}

/// Law: a step that the checks of `try_step` accept cannot panic.
pub proof fn lemma_checked_step_ok(c: Cpu, b: BusModel)
    requires
        step_check(c, b) is None,
    ensures
        machine_step_ok(c, b),
{
    lemma_step_cycles(c, b);
    let (c1, b1, t) = step_spec(c, b);
    isa::lemma_step_keeps_ppu_counters(c, b);
    ppu::lemma_short_step_ok(b1.ppu, t);
}

/// Law: a frame of checked steps that ends without an error reaches the same state as the
/// unchecked frame, and none of its steps could have panicked.
pub proof fn lemma_checked_frame_agrees(c: Cpu, b: BusModel, total: int)
    requires
        frame_checked(c, b, total).2 is None,
    ensures
        frame_ok(c, b, total),
        (frame_checked(c, b, total).0, frame_checked(c, b, total).1) == run_frame(c, b, total),
    decreases frame_cycles_left(total),
{
    if total < FRAME_CYCLES {
        lemma_step_cycles(c, b);
        lemma_checked_step_ok(c, b);
        let (c1, b1, t) = machine_step(c, b);
        lemma_checked_frame_agrees(c1, b1, total + t);
    }
}

} // verus!
