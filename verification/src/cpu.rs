use vstd::prelude::*;
use crate::bus::Bus;
use crate::isa::{
    dispatch_spec, fetch16, fetch8, fetch_opcode, pending_interrupts, pop16, push16, reg8,
    set_reg8, step_hits_undefined, step_spec, undefined_opcode, woken,
};

verus! {

/// The LR35902 register file and interrupt state.
///
/// F holds the flags in bits 7-4 (Z, N, H, C); `set_af` and `POP AF` keep its low nibble at 0.
pub struct Cpu {
    pub a: u8,
    pub f: u8,
    pub b: u8,
    pub c: u8,
    pub d: u8,
    pub e: u8,
    pub h: u8,
    pub l: u8,
    pub sp: u16,
    pub pc: u16,
    pub ime: bool,
    /// Set by EI; IME turns on at the end of the instruction after the EI.
    pub ime_pending: bool,
    pub halted: bool,
    pub halt_bug: bool,
}

pub const FLAG_Z: u8 = 0x80;
pub const FLAG_N: u8 = 0x40;
pub const FLAG_H: u8 = 0x20;
pub const FLAG_C: u8 = 0x10;

/// `f` with the bits of `mask` set when `v` holds and cleared otherwise.
pub open spec fn flag_set(f: u8, mask: u8, v: bool) -> u8 {
    if v {
        f | mask
    } else {
        f & !mask
    }
}

/// Whether any bit of `mask` is set in `f`.
pub open spec fn flag_get(f: u8, mask: u8) -> bool {
    f & mask != 0
}

/// The 16-bit value of a register pair whose high byte is `hi` and low byte is `lo`.
pub open spec fn pair(hi: u8, lo: u8) -> u16 {
    (hi as int * 256 + lo as int) as u16
}

/// Carry-in of an ADC/SBC: the C flag when the carry form is used, else 0.
pub open spec fn carry_in(f: u8, with_carry: bool) -> u8 {
    if with_carry && flag_get(f, FLAG_C) {
        1
    } else {
        0
    }
}

impl Cpu {
    /// The register state right after the DMG boot ROM hands over to the cartridge.
    pub open spec fn post_boot() -> Cpu {
        Cpu {
            a: 0x01,
            f: 0xB0,
            b: 0x00,
            c: 0x13,
            d: 0x00,
            e: 0xD8,
            h: 0x01,
            l: 0x4D,
            sp: 0xFFFE,
            pc: 0x0100,
            ime: false,
            ime_pending: false,
            halted: false,
            halt_bug: false,
        }
    }

    pub open spec fn zf_spec(self) -> bool {
        flag_get(self.f, FLAG_Z)
    }

    pub open spec fn nf_spec(self) -> bool {
        flag_get(self.f, FLAG_N)
    }

    pub open spec fn hf_spec(self) -> bool {
        flag_get(self.f, FLAG_H)
    }

    pub open spec fn cf_spec(self) -> bool {
        flag_get(self.f, FLAG_C)
    }

    pub open spec fn af_spec(self) -> u16 {
        pair(self.a, self.f)
    }

    pub open spec fn bc_spec(self) -> u16 {
        pair(self.b, self.c)
    }

    pub open spec fn de_spec(self) -> u16 {
        pair(self.d, self.e)
    }

    pub open spec fn hl_spec(self) -> u16 {
        pair(self.h, self.l)
    }

    pub open spec fn with_af(self, v: u16) -> Cpu {
        Cpu { a: (v / 256) as u8, f: (v & 0xF0) as u8, ..self }
    }

    pub open spec fn with_bc(self, v: u16) -> Cpu {
        Cpu { b: (v / 256) as u8, c: (v % 256) as u8, ..self }
    }

    pub open spec fn with_de(self, v: u16) -> Cpu {
        Cpu { d: (v / 256) as u8, e: (v % 256) as u8, ..self }
    }

    pub open spec fn with_hl(self, v: u16) -> Cpu {
        Cpu { h: (v / 256) as u8, l: (v % 256) as u8, ..self }
    }

    pub open spec fn with_f(self, f: u8) -> Cpu {
        Cpu { f, ..self }
    }

    /// ADD/ADC: A := A + val (+ C); H from bit 3, C from bit 7, Z from the result, N := 0.
    pub open spec fn add_spec(self, val: u8, with_carry: bool) -> Cpu {
        let cin = carry_in(self.f, with_carry);
        let sum = self.a as int + val as int + cin as int;
        let a = (sum % 256) as u8;
        let f1 = flag_set(self.f, FLAG_H, (self.a % 16) + (val % 16) + cin > 15);
        let f2 = flag_set(f1, FLAG_C, sum > 255);
        let f3 = flag_set(f2, FLAG_Z, a == 0);
        Cpu { a, f: flag_set(f3, FLAG_N, false), ..self }
    }

    /// SUB/SBC: A := A - val (- C) modulo 256; H and C report borrows, N := 1.
    pub open spec fn sub_spec(self, val: u8, with_carry: bool) -> Cpu {
        let cin = carry_in(self.f, with_carry);
        let a = ((self.a as int - val as int - cin as int + 512) % 256) as u8;
        let f1 = flag_set(self.f, FLAG_H, (self.a % 16) < (val % 16) + cin);
        let f2 = flag_set(f1, FLAG_C, (self.a as int) < val as int + cin as int);
        let f3 = flag_set(f2, FLAG_Z, a == 0);
        Cpu { a, f: flag_set(f3, FLAG_N, true), ..self }
    }

    /// AND: A := A & val; Z from the result, N := 0, H := 1, C := 0.
    pub open spec fn and_spec(self, val: u8) -> Cpu {
        let a = self.a & val;
        Cpu { a, f: Self::logic_flags(self.f, a, true), ..self }
    }

    /// XOR: A := A ^ val; Z from the result, N, H, C := 0.
    pub open spec fn xor_spec(self, val: u8) -> Cpu {
        let a = self.a ^ val;
        Cpu { a, f: Self::logic_flags(self.f, a, false), ..self }
    }

    /// OR: A := A | val; Z from the result, N, H, C := 0.
    pub open spec fn or_spec(self, val: u8) -> Cpu {
        let a = self.a | val;
        Cpu { a, f: Self::logic_flags(self.f, a, false), ..self }
    }

    pub open spec fn logic_flags(f: u8, a: u8, h: bool) -> u8 {
        flag_set(flag_set(flag_set(flag_set(f, FLAG_Z, a == 0), FLAG_N, false), FLAG_H, h), FLAG_C, false)
    }

    /// CP: flags of A - val, A unchanged.
    pub open spec fn cp_spec(self, val: u8) -> Cpu {
        let f1 = flag_set(self.f, FLAG_H, (self.a % 16) < (val % 16));
        let f2 = flag_set(f1, FLAG_C, self.a < val);
        let f3 = flag_set(f2, FLAG_Z, self.a == val);
        Cpu { f: flag_set(f3, FLAG_N, true), ..self }
    }

    pub fn new() -> (r: Cpu)
        ensures
            r == Cpu::post_boot(),
    {
        Cpu {
            a: 0x01,
            f: 0xB0,
            b: 0x00,
            c: 0x13,
            d: 0x00,
            e: 0xD8,
            h: 0x01,
            l: 0x4D,
            sp: 0xFFFE,
            pc: 0x0100,
            ime: false,
            ime_pending: false,
            halted: false,
            halt_bug: false,
        }
    }

    pub fn zf(&self) -> (r: bool)
        ensures
            r == self.zf_spec(),
    {
        self.f & 0x80 != 0
    }

    pub fn nf(&self) -> (r: bool)
        ensures
            r == self.nf_spec(),
    {
        self.f & 0x40 != 0
    }

    pub fn hf(&self) -> (r: bool)
        ensures
            r == self.hf_spec(),
    {
        self.f & 0x20 != 0
    }

    pub fn cf(&self) -> (r: bool)
        ensures
            r == self.cf_spec(),
    {
        self.f & 0x10 != 0
    }

    pub fn set_zf(&mut self, v: bool)
        ensures
            *final(self) == old(self).with_f(flag_set(old(self).f, FLAG_Z, v)),
    {
        if v {
            self.f |= 0x80
        } else {
            self.f &= !0x80
        }
    }

    pub fn set_nf(&mut self, v: bool)
        ensures
            *final(self) == old(self).with_f(flag_set(old(self).f, FLAG_N, v)),
    {
        if v {
            self.f |= 0x40
        } else {
            self.f &= !0x40
        }
    }

    pub fn set_hf(&mut self, v: bool)
        ensures
            *final(self) == old(self).with_f(flag_set(old(self).f, FLAG_H, v)),
    {
        if v {
            self.f |= 0x20
        } else {
            self.f &= !0x20
        }
    }

    pub fn set_cf(&mut self, v: bool)
        ensures
            *final(self) == old(self).with_f(flag_set(old(self).f, FLAG_C, v)),
    {
        if v {
            self.f |= 0x10
        } else {
            self.f &= !0x10
        }
    }

    pub fn af(&self) -> (r: u16)
        ensures
            r == self.af_spec(),
    {
        join_bytes(self.a, self.f)
    }

    pub fn bc(&self) -> (r: u16)
        ensures
            r == self.bc_spec(),
    {
        join_bytes(self.b, self.c)
    }

    pub fn de(&self) -> (r: u16)
        ensures
            r == self.de_spec(),
    {
        join_bytes(self.d, self.e)
    }

    pub fn hl(&self) -> (r: u16)
        ensures
            r == self.hl_spec(),
    {
        join_bytes(self.h, self.l)
    }

    pub fn set_af(&mut self, v: u16)
        ensures
            *final(self) == old(self).with_af(v),
    {
        let (hi, _lo) = split_word(v);
        self.a = hi;
        // lower nibble always 0
        self.f = (v & 0xF0) as u8;
    }

    pub fn set_bc(&mut self, v: u16)
        ensures
            *final(self) == old(self).with_bc(v),
    {
        let (hi, lo) = split_word(v);
        self.b = hi;
        self.c = lo;
    }

    pub fn set_de(&mut self, v: u16)
        ensures
            *final(self) == old(self).with_de(v),
    {
        let (hi, lo) = split_word(v);
        self.d = hi;
        self.e = lo;
    }

    pub fn set_hl(&mut self, v: u16)
        ensures
            *final(self) == old(self).with_hl(v),
    {
        let (hi, lo) = split_word(v);
        self.h = hi;
        self.l = lo;
    }

    pub fn alu_add(&mut self, val: u8, with_carry: bool)
        ensures
            *final(self) == old(self).add_spec(val, with_carry),
    {
        let c: u8 = if with_carry {
            self.cf() as u8
        } else {
            0
        };
        let result: u16 = self.a as u16 + val as u16 + c as u16;
        let a = self.a;
        proof {
            lemma_low_nibbles(a, val);
        }
        self.set_hf((self.a & 0xF) + (val & 0xF) + c > 0xF);
        self.set_cf(result > 0xFF);
        assert(result as u8 == result % 256) by (bit_vector);
        self.a = result as u8;
        self.set_zf(self.a == 0);
        self.set_nf(false);
    }

    pub fn alu_sub(&mut self, val: u8, with_carry: bool)
        ensures
            *final(self) == old(self).sub_spec(val, with_carry),
    {
        let c: u8 = if with_carry {
            self.cf() as u8
        } else {
            0
        };
        let a = self.a;
        proof {
            lemma_low_nibbles(a, val);
        }
        self.set_hf((self.a & 0xF) < (val & 0xF) + c);
        self.set_cf((self.a as u16) < val as u16 + c as u16);
        self.a = self.a.wrapping_sub(val).wrapping_sub(c);
        assert(self.a == ((a as int - val as int - c as int + 512) % 256) as u8);
        self.set_zf(self.a == 0);
        self.set_nf(true);
    }

    pub fn alu_and(&mut self, val: u8)
        ensures
            *final(self) == old(self).and_spec(val),
    {
        self.a &= val;
        self.set_zf(self.a == 0);
        self.set_nf(false);
        self.set_hf(true);
        self.set_cf(false);
    }

    pub fn alu_xor(&mut self, val: u8)
        ensures
            *final(self) == old(self).xor_spec(val),
    {
        self.a ^= val;
        self.set_zf(self.a == 0);
        self.set_nf(false);
        self.set_hf(false);
        self.set_cf(false);
    }

    pub fn alu_or(&mut self, val: u8)
        ensures
            *final(self) == old(self).or_spec(val),
    {
        self.a |= val;
        self.set_zf(self.a == 0);
        self.set_nf(false);
        self.set_hf(false);
        self.set_cf(false);
    }

    pub fn alu_cp(&mut self, val: u8)
        ensures
            *final(self) == old(self).cp_spec(val),
    {
        let a = self.a;
        proof {
            lemma_low_nibbles(a, val);
        }
        self.set_hf((a & 0xF) < (val & 0xF));
        self.set_cf(a < val);
        self.set_zf(a == val);
        self.set_nf(true);
    }
}

/// The low nibble of a byte is its remainder by 16.
proof fn lemma_low_nibbles(a: u8, b: u8)
    ensures
        (a & 0xF) == a % 16,
        (b & 0xF) == b % 16,
{
    assert((a & 0xF) == a % 16 && (b & 0xF) == b % 16) by (bit_vector);
}

/// `(hi << 8) | lo`.
pub fn join_bytes(hi: u8, lo: u8) -> (r: u16)
    ensures
        r == pair(hi, lo),
{
    assert(((hi as u16) << 8u16) | (lo as u16) == (hi as int * 256 + lo as int) as u16) by (bit_vector);
    ((hi as u16) << 8) | lo as u16
}

/// The high and low bytes of `v`.
pub fn split_word(v: u16) -> (r: (u8, u8))
    ensures
        r.0 == v / 256,
        r.1 == v % 256,
        pair(r.0, r.1) == v,
{
    assert((v >> 8u16) as u8 == v / 256 && (v as u8) == v % 256) by (bit_vector);
    ((v >> 8) as u8, v as u8)
}

/// Law: each flag setter makes its getter return the value set, leaves the other three flags
/// and the low nibble of F as they were.
pub proof fn lemma_flag_roundtrip(f: u8, v: bool)
    ensures
        flag_get(flag_set(f, FLAG_Z, v), FLAG_Z) == v,
        flag_get(flag_set(f, FLAG_N, v), FLAG_N) == v,
        flag_get(flag_set(f, FLAG_H, v), FLAG_H) == v,
        flag_get(flag_set(f, FLAG_C, v), FLAG_C) == v,
        flag_set(f, FLAG_Z, v) & 0x7F == f & 0x7F,
        flag_set(f, FLAG_N, v) & 0xBF == f & 0xBF,
        flag_set(f, FLAG_H, v) & 0xDF == f & 0xDF,
        flag_set(f, FLAG_C, v) & 0xEF == f & 0xEF,
        flag_get(flag_set(f, FLAG_Z, v), FLAG_N) == flag_get(f, FLAG_N),
        flag_get(flag_set(f, FLAG_Z, v), FLAG_H) == flag_get(f, FLAG_H),
        flag_get(flag_set(f, FLAG_Z, v), FLAG_C) == flag_get(f, FLAG_C),
        flag_get(flag_set(f, FLAG_N, v), FLAG_Z) == flag_get(f, FLAG_Z),
        flag_get(flag_set(f, FLAG_N, v), FLAG_H) == flag_get(f, FLAG_H),
        flag_get(flag_set(f, FLAG_N, v), FLAG_C) == flag_get(f, FLAG_C),
        flag_get(flag_set(f, FLAG_H, v), FLAG_Z) == flag_get(f, FLAG_Z),
        flag_get(flag_set(f, FLAG_H, v), FLAG_N) == flag_get(f, FLAG_N),
        flag_get(flag_set(f, FLAG_H, v), FLAG_C) == flag_get(f, FLAG_C),
        flag_get(flag_set(f, FLAG_C, v), FLAG_Z) == flag_get(f, FLAG_Z),
        flag_get(flag_set(f, FLAG_C, v), FLAG_N) == flag_get(f, FLAG_N),
        flag_get(flag_set(f, FLAG_C, v), FLAG_H) == flag_get(f, FLAG_H),
{
    assert({
        &&& flag_get(flag_set(f, 0x80, v), 0x80) == v
        &&& flag_get(flag_set(f, 0x40, v), 0x40) == v
        &&& flag_get(flag_set(f, 0x20, v), 0x20) == v
        &&& flag_get(flag_set(f, 0x10, v), 0x10) == v
        &&& flag_set(f, 0x80, v) & 0x7F == f & 0x7F
        &&& flag_set(f, 0x40, v) & 0xBF == f & 0xBF
        &&& flag_set(f, 0x20, v) & 0xDF == f & 0xDF
        &&& flag_set(f, 0x10, v) & 0xEF == f & 0xEF
        &&& flag_get(flag_set(f, 0x80, v), 0x40) == flag_get(f, 0x40)
        &&& flag_get(flag_set(f, 0x80, v), 0x20) == flag_get(f, 0x20)
        &&& flag_get(flag_set(f, 0x80, v), 0x10) == flag_get(f, 0x10)
        &&& flag_get(flag_set(f, 0x40, v), 0x80) == flag_get(f, 0x80)
        &&& flag_get(flag_set(f, 0x40, v), 0x20) == flag_get(f, 0x20)
        &&& flag_get(flag_set(f, 0x40, v), 0x10) == flag_get(f, 0x10)
        &&& flag_get(flag_set(f, 0x20, v), 0x80) == flag_get(f, 0x80)
        &&& flag_get(flag_set(f, 0x20, v), 0x40) == flag_get(f, 0x40)
        &&& flag_get(flag_set(f, 0x20, v), 0x10) == flag_get(f, 0x10)
        &&& flag_get(flag_set(f, 0x10, v), 0x80) == flag_get(f, 0x80)
        &&& flag_get(flag_set(f, 0x10, v), 0x40) == flag_get(f, 0x40)
        &&& flag_get(flag_set(f, 0x10, v), 0x20) == flag_get(f, 0x20)
    }) by (bit_vector);
}

/// Law: writing a register pair and reading it back gives the value written, except that AF
/// drops the low nibble of F.
pub proof fn lemma_pair_roundtrip(cpu: Cpu, v: u16)
    ensures
        cpu.with_bc(v).bc_spec() == v,
        cpu.with_de(v).de_spec() == v,
        cpu.with_hl(v).hl_spec() == v,
        cpu.with_af(v).af_spec() == v & 0xFFF0,
        cpu.with_af(v).f & 0x0F == 0,
{
    assert(((v & 0xF0) as u8) & 0x0F == 0 && (v / 256) * 256 + ((v & 0xF0) as u8) == v & 0xFFF0)
        by (bit_vector);
}


impl Cpu {
    pub fn fetch_byte(&mut self, bus: &mut Bus) -> (b: u8)
        requires
            old(bus)@.wf(),
        ensures
            (*final(self), b) == fetch8(*old(self), old(bus)@),
            *final(bus) == *old(bus),
    {
        let b = bus.read(self.pc);
        self.pc = self.pc.wrapping_add(1);
        b
    }

    pub fn fetch_word(&mut self, bus: &mut Bus) -> (w: u16)
        requires
            old(bus)@.wf(),
        ensures
            (*final(self), w) == fetch16(*old(self), old(bus)@),
            *final(bus) == *old(bus),
    {
        let lo = self.fetch_byte(bus);
        let hi = self.fetch_byte(bus);
        join_bytes(hi, lo)
    }

    pub(crate) fn push_word(&mut self, val: u16, bus: &mut Bus)
        requires
            old(bus)@.wf(),
        ensures
            (*final(self), final(bus)@) == push16(*old(self), old(bus)@, val),
            final(bus)@.wf(),
    {
        let (hi, lo) = split_word(val);
        self.sp = self.sp.wrapping_sub(1);
        bus.write(self.sp, hi);
        self.sp = self.sp.wrapping_sub(1);
        bus.write(self.sp, lo);
    }

    pub(crate) fn pop_word(&mut self, bus: &mut Bus) -> (w: u16)
        requires
            old(bus)@.wf(),
        ensures
            (*final(self), w) == pop16(*old(self), old(bus)@),
            *final(bus) == *old(bus),
    {
        let lo = bus.read(self.sp);
        self.sp = self.sp.wrapping_add(1);
        let hi = bus.read(self.sp);
        self.sp = self.sp.wrapping_add(1);
        join_bytes(hi, lo)
    }

    /// Reads 8-bit operand `r` (B, C, D, E, H, L, (HL), A).
    pub fn reg_read(&self, r: u8, bus: &Bus) -> (v: u8)
        requires
            r < 8,
            bus@.wf(),
        ensures
            v == reg8(*self, bus@, r as int),
    {
        match r {
            0 => self.b,
            1 => self.c,
            2 => self.d,
            3 => self.e,
            4 => self.h,
            5 => self.l,
            6 => bus.read(self.hl()),
            _ => self.a,
        }
    }

    /// Writes 8-bit operand `r` (B, C, D, E, H, L, (HL), A).
    pub fn reg_write(&mut self, r: u8, val: u8, bus: &mut Bus)
        requires
            r < 8,
            old(bus)@.wf(),
        ensures
            (*final(self), final(bus)@) == set_reg8(*old(self), old(bus)@, r as int, val),
            final(bus)@.wf(),
    {
        match r {
            0 => self.b = val,
            1 => self.c = val,
            2 => self.d = val,
            3 => self.e = val,
            4 => self.h = val,
            5 => self.l = val,
            6 => bus.write(self.hl(), val),
            _ => self.a = val,
        }
    }
}

impl Cpu {
    /// Executes one step: wakes from HALT on a pending interrupt, dispatches an enabled
    /// pending interrupt when IME is set, else fetches and executes one instruction (a pending
    /// EI takes effect after it). Returns the T-cycles taken.
    pub fn step(&mut self, bus: &mut Bus) -> (cycles: u32)
        requires
            old(bus)@.wf(),
            !step_hits_undefined(*old(self), old(bus)@),
        ensures
            (*final(self), final(bus)@, cycles) == step_spec(*old(self), old(bus)@),
            final(bus)@.wf(),
    {
        // HALT: idle until an enabled interrupt is requested
        if self.halted {
            let wakeup = (bus.if_reg() & bus.ie() & 0x1F) != 0;
            if !wakeup {
                return 4;
            }
            self.halted = false;
        }
        // Interrupt dispatch
        if self.ime {
            let pending = bus.if_reg() & bus.ie() & 0x1F;
            if pending != 0 {
                return self.dispatch_interrupt(pending, bus);
            }
        }
        // Fetch: the halt bug reads the byte at PC without advancing
        let opcode = if self.halt_bug {
            self.halt_bug = false;
            bus.read(self.pc)
        } else {
            self.fetch_byte(bus)
        };
        // an EI from an earlier step takes effect once this instruction has run
        let armed = self.ime_pending;
        let cycles = self.execute(opcode, bus);
        if armed && self.ime_pending {
            self.ime = true;
            self.ime_pending = false;
        }
        cycles
    }

    /// Services the lowest pending interrupt of `pending`: pushes PC, clears its IF bit,
    /// jumps to its vector and clears IME.
    fn dispatch_interrupt(&mut self, pending: u8, bus: &mut Bus) -> (cycles: u32)
        requires
            old(bus)@.wf(),
            pending == pending_interrupts(old(bus)@),
            pending != 0,
        ensures
            (*final(self), final(bus)@, cycles) == dispatch_spec(*old(self), old(bus)@),
            final(bus)@.wf(),
    {
        reveal(dispatch_spec);
        broadcast use vstd::std_specs::bits::axiom_u8_trailing_zeros;
        let bit = pending.trailing_zeros() as u8;
        let vector = 0x0040u16 + (bit as u16) * 8;
        let (hi, lo) = split_word(self.pc);
        self.sp = self.sp.wrapping_sub(1);
        bus.write(self.sp, hi);
        self.sp = self.sp.wrapping_sub(1);
        bus.write(self.sp, lo);
        let new_if = bus.if_reg() & !(1u8 << bit);
        bus.write(0xFF0F, new_if);
        self.pc = vector;
        self.ime = false;
        20
    }

    /// Whether `step` would now fetch an opcode that the CPU does not define.
    pub fn undefined_ahead(&self, bus: &Bus) -> (r: bool)
        requires
            bus@.wf(),
        ensures
            r == step_hits_undefined(*self, bus@),
    {
        let pending = bus.if_reg() & bus.ie() & 0x1F;
        if self.halted && pending == 0 {
            return false;
        }
        if self.ime && pending != 0 {
            return false;
        }
        // with or without the halt bug, the opcode is the byte at PC
        is_undefined_opcode(bus.read(self.pc))
    }
}

/// Whether `op` is one of the opcodes the LR35902 does not define.
pub fn is_undefined_opcode(op: u8) -> (r: bool)
    ensures
        r == undefined_opcode(op),
{
    match op {
        0xD3 | 0xDB | 0xDD | 0xE3 | 0xE4 | 0xEB | 0xEC | 0xED | 0xF4 | 0xFC | 0xFD => true,
        _ => false,
    }
}


impl Default for Cpu {
    fn default() -> (r: Cpu)
        ensures
            r == Cpu::post_boot(),
    {
        Cpu::new()
    }
}


/// Law: ADD/ADC give the 9-bit sum of A, the operand and the carry-in as the new A plus 256
/// times the new C; H reports a carry out of the low nibble, Z a zero result, N is cleared;
/// with C clear, ADC is ADD.
pub proof fn lemma_add_arithmetic(cpu: Cpu, v: u8, with_carry: bool)
    ensures
        ({
            let cin: int = if with_carry && cpu.cf_spec() {
                1
            } else {
                0
            };
            let s = cpu.add_spec(v, with_carry);
            &&& s.a as int + (if s.cf_spec() {
                256int
            } else {
                0
            }) == cpu.a as int + v as int + cin
            &&& s.hf_spec() == (cpu.a as int % 16 + v as int % 16 + cin >= 16)
            &&& s.zf_spec() == (s.a == 0)
            &&& !s.nf_spec()
        }),
        !cpu.cf_spec() ==> cpu.add_spec(v, true) == cpu.add_spec(v, false),
{
    let f = cpu.f;
    let cin = carry_in(f, with_carry);
    let sum = cpu.a as int + v as int + cin as int;
    let f1 = flag_set(f, FLAG_H, (cpu.a % 16) + (v % 16) + cin > 15);
    let f2 = flag_set(f1, FLAG_C, sum > 255);
    let f3 = flag_set(f2, FLAG_Z, (sum % 256) as u8 == 0);
    lemma_flag_roundtrip(f, (cpu.a % 16) + (v % 16) + cin > 15);
    lemma_flag_roundtrip(f1, sum > 255);
    lemma_flag_roundtrip(f2, (sum % 256) as u8 == 0);
    lemma_flag_roundtrip(f3, false);
}

/// Law: SUB/SBC give A minus the operand and the borrow-in as the new A minus 256 times the
/// new C; H reports a borrow from the high nibble, Z a zero result, N is set; with C clear,
/// SBC is SUB.
pub proof fn lemma_sub_arithmetic(cpu: Cpu, v: u8, with_carry: bool)
    ensures
        ({
            let cin: int = if with_carry && cpu.cf_spec() {
                1
            } else {
                0
            };
            let d = cpu.sub_spec(v, with_carry);
            &&& d.a as int - (if d.cf_spec() {
                256int
            } else {
                0
            }) == cpu.a as int - v as int - cin
            &&& d.hf_spec() == (cpu.a as int % 16 - v as int % 16 - cin < 0)
            &&& d.zf_spec() == (d.a == 0)
            &&& d.nf_spec()
        }),
        !cpu.cf_spec() ==> cpu.sub_spec(v, true) == cpu.sub_spec(v, false),
{
    let f = cpu.f;
    let cin = carry_in(f, with_carry);
    let g1 = flag_set(f, FLAG_H, (cpu.a % 16) < (v % 16) + cin);
    let g2 = flag_set(g1, FLAG_C, (cpu.a as int) < v as int + cin as int);
    let dd = ((cpu.a as int - v as int - cin as int + 512) % 256) as u8;
    let g3 = flag_set(g2, FLAG_Z, dd == 0);
    lemma_flag_roundtrip(f, (cpu.a % 16) < (v % 16) + cin);
    lemma_flag_roundtrip(g1, (cpu.a as int) < v as int + cin as int);
    lemma_flag_roundtrip(g2, dd == 0);
    lemma_flag_roundtrip(g3, true);
}

/// Law: CP sets the flags SUB would and leaves A; SUB undoes ADD.
pub proof fn lemma_cp_and_inverse(cpu: Cpu, v: u8)
    ensures
        cpu.cp_spec(v).a == cpu.a,
        cpu.cp_spec(v).f == cpu.sub_spec(v, false).f,
        cpu.add_spec(v, false).sub_spec(v, false).a == cpu.a,
{
    assert(cpu.add_spec(v, false).a as int == (cpu.a as int + v as int) % 256);
}

} // verus!
