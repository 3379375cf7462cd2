//! The LR35902 instruction set as a function from CPU and bus state to the next state.
//!
//! Opcodes are decoded by their octal fields: x = op / 64, y = (op / 8) % 8, z = op % 8,
//! p = y / 2, q = y % 2.
use vstd::prelude::*;
use crate::bus::BusModel;
use crate::cpu::{Cpu, FLAG_C, FLAG_H, FLAG_N, FLAG_Z, flag_get, flag_set, pair};

verus! {

/// `a + d` modulo 2^16.
pub open spec fn wadd16(a: u16, d: int) -> u16 {
    ((a as int + d) % 65536) as u16
}

/// `a + d` modulo 2^8.
pub open spec fn wadd8(a: u8, d: int) -> u8 {
    ((a as int + d) % 256) as u8
}

/// A byte read as a two's-complement offset.
pub open spec fn sext8(e: u8) -> int {
    if e < 128 {
        e as int
    } else {
        e as int - 256
    }
}

/// The opcodes that do not exist on the LR35902.
pub open spec fn undefined_opcode(op: u8) -> bool {
    op == 0xD3 || op == 0xDB || op == 0xDD || op == 0xE3 || op == 0xE4 || op == 0xEB || op == 0xEC
        || op == 0xED || op == 0xF4 || op == 0xFC || op == 0xFD
}

/// Reads the byte at PC and advances PC.
pub open spec fn fetch8(c: Cpu, b: BusModel) -> (Cpu, u8) {
    (Cpu { pc: wadd16(c.pc, 1), ..c }, b.read_spec(c.pc))
}

/// Reads a little-endian word at PC and advances PC by two.
pub open spec fn fetch16(c: Cpu, b: BusModel) -> (Cpu, u16) {
    let (c1, lo) = fetch8(c, b);
    let (c2, hi) = fetch8(c1, b);
    (c2, pair(hi, lo))
}

/// Pushes `v`: high byte at SP-1, low byte at SP-2; SP := SP-2.
pub open spec fn push16(c: Cpu, b: BusModel, v: u16) -> (Cpu, BusModel) {
    let sp1 = wadd16(c.sp, -1);
    let b1 = b.write_spec(sp1, (v / 256) as u8);
    let sp2 = wadd16(sp1, -1);
    let b2 = b1.write_spec(sp2, (v % 256) as u8);
    (Cpu { sp: sp2, ..c }, b2)
}

/// Pops a little-endian word from SP; SP := SP+2.
pub open spec fn pop16(c: Cpu, b: BusModel) -> (Cpu, u16) {
    let lo = b.read_spec(c.sp);
    let sp1 = wadd16(c.sp, 1);
    let hi = b.read_spec(sp1);
    (Cpu { sp: wadd16(sp1, 1), ..c }, pair(hi, lo))
}

/// 8-bit operand `r`: B, C, D, E, H, L, (HL), A.
pub open spec fn reg8(c: Cpu, b: BusModel, r: int) -> u8 {
    if r == 0 {
        c.b
    } else if r == 1 {
        c.c
    } else if r == 2 {
        c.d
    } else if r == 3 {
        c.e
    } else if r == 4 {
        c.h
    } else if r == 5 {
        c.l
    } else if r == 6 {
        b.read_spec(c.hl_spec())
    } else {
        c.a
    }
}

/// Stores `v` into 8-bit operand `r`.
pub open spec fn set_reg8(c: Cpu, b: BusModel, r: int, v: u8) -> (Cpu, BusModel) {
    if r == 0 {
        (Cpu { b: v, ..c }, b)
    } else if r == 1 {
        (Cpu { c: v, ..c }, b)
    } else if r == 2 {
        (Cpu { d: v, ..c }, b)
    } else if r == 3 {
        (Cpu { e: v, ..c }, b)
    } else if r == 4 {
        (Cpu { h: v, ..c }, b)
    } else if r == 5 {
        (Cpu { l: v, ..c }, b)
    } else if r == 6 {
        (c, b.write_spec(c.hl_spec(), v))
    } else {
        (Cpu { a: v, ..c }, b)
    }
}

/// 16-bit register pair `p`: BC, DE, HL, SP.
pub open spec fn rp(c: Cpu, p: int) -> u16 {
    if p == 0 {
        c.bc_spec()
    } else if p == 1 {
        c.de_spec()
    } else if p == 2 {
        c.hl_spec()
    } else {
        c.sp
    }
}

pub open spec fn set_rp(c: Cpu, p: int, v: u16) -> Cpu {
    if p == 0 {
        c.with_bc(v)
    } else if p == 1 {
        c.with_de(v)
    } else if p == 2 {
        c.with_hl(v)
    } else {
        Cpu { sp: v, ..c }
    }
}

/// Branch condition `y`: NZ, Z, NC, C.
pub open spec fn cond(c: Cpu, y: int) -> bool {
    if y == 0 {
        !c.zf_spec()
    } else if y == 1 {
        c.zf_spec()
    } else if y == 2 {
        !c.cf_spec()
    } else {
        c.cf_spec()
    }
}

/// ALU operation `y` on A and `v`: ADD, ADC, SUB, SBC, AND, XOR, OR, CP.
pub open spec fn alu_spec(c: Cpu, y: int, v: u8) -> Cpu {
    if y == 0 {
        c.add_spec(v, false)
    } else if y == 1 {
        c.add_spec(v, true)
    } else if y == 2 {
        c.sub_spec(v, false)
    } else if y == 3 {
        c.sub_spec(v, true)
    } else if y == 4 {
        c.and_spec(v)
    } else if y == 5 {
        c.xor_spec(v)
    } else if y == 6 {
        c.or_spec(v)
    } else {
        c.cp_spec(v)
    }
}

/// INC flags: Z from the result, N := 0, H when the low nibble was 0xF; C kept.
pub open spec fn inc_flags(f: u8, old: u8) -> u8 {
    flag_set(flag_set(flag_set(f, FLAG_Z, wadd8(old, 1) == 0), FLAG_N, false), FLAG_H, (old & 0xF)
        == 0xF)
}

/// DEC flags: Z from the result, N := 1, H when the low nibble was 0; C kept.
pub open spec fn dec_flags(f: u8, old: u8) -> u8 {
    flag_set(flag_set(flag_set(f, FLAG_Z, wadd8(old, -1) == 0), FLAG_N, true), FLAG_H, (old & 0xF)
        == 0x0)
}

/// Flags of ADD SP,e and LD HL,SP+e: Z, N := 0; H and C from the unsigned byte sums of the
/// low nibble and low byte of SP with `e`.
pub open spec fn sp_e_flags(f: u8, sp: u16, e: u8) -> u8 {
    flag_set(
        flag_set(flag_set(flag_set(f, FLAG_Z, false), FLAG_N, false), FLAG_H, (sp & 0xF) + (e & 0xF)
            > 0xF),
        FLAG_C,
        (sp & 0xFF) + e > 0xFF,
    )
}

/// Flags of the accumulator rotates: Z, N, H := 0, C := `c`.
pub open spec fn rot_flags(f: u8, c: bool) -> u8 {
    flag_set(flag_set(flag_set(flag_set(f, FLAG_Z, false), FLAG_N, false), FLAG_H, false), FLAG_C, c)
}

/// The carry flag as 0 or 1.
pub open spec fn carry_bit(c: Cpu) -> u8 {
    if c.cf_spec() {
        1
    } else {
        0
    }
}

/// DAA: decimal adjust of A after an addition (N clear) or subtraction (N set).
pub open spec fn daa_spec(c: Cpu) -> Cpu {
    let a0 = c.a;
    let nf = c.nf_spec();
    let hf = c.hf_spec();
    let cf = c.cf_spec();
    let (a, new_cf) = if !nf {
        let (a1, c1) = if cf || a0 > 0x99 {
            (wadd8(a0, 0x60), true)
        } else {
            (a0, cf)
        };
        let a2 = if hf || (a1 & 0x0F) > 0x09 {
            wadd8(a1, 0x06)
        } else {
            a1
        };
        (a2, c1)
    } else {
        let a1 = if cf {
            wadd8(a0, -0x60)
        } else {
            a0
        };
        let a2 = if hf {
            wadd8(a1, -0x06)
        } else {
            a1
        };
        (a2, cf)
    };
    Cpu {
        a,
        f: flag_set(flag_set(flag_set(c.f, FLAG_Z, a == 0), FLAG_H, false), FLAG_C, new_cf),
        ..c
    }
}

/// Opcodes 0x00-0x3F, by their low three bits.
#[verifier::opaque]
pub open spec fn block0(c: Cpu, b: BusModel, op: u8) -> (Cpu, BusModel, u32) {
    let z = op % 8;
    let y = (op / 8) % 8;
    if z == 0 {
        block0_jumps(c, b, y)
    } else if z == 1 {
        block0_word(c, b, y / 2, y % 2)
    } else if z == 2 {
        block0_indirect(c, b, y / 2, y % 2)
    } else if z == 3 {
        // INC rr / DEC rr
        (set_rp(c, (y / 2) as int, wadd16(rp(c, (y / 2) as int), if y % 2 == 0 {
            1
        } else {
            -1
        })), b, 8)
    } else if z == 4 {
        // INC r
        let old = reg8(c, b, y as int);
        let (c1, b1) = set_reg8(Cpu { f: inc_flags(c.f, old), ..c }, b, y as int, wadd8(old, 1));
        (c1, b1, if y == 6 {
            12
        } else {
            4
        })
    } else if z == 5 {
        // DEC r
        let old = reg8(c, b, y as int);
        let (c1, b1) = set_reg8(Cpu { f: dec_flags(c.f, old), ..c }, b, y as int, wadd8(old, -1));
        (c1, b1, if y == 6 {
            12
        } else {
            4
        })
    } else if z == 6 {
        // LD r,n
        let (c1, n) = fetch8(c, b);
        let (c2, b2) = set_reg8(c1, b, y as int, n);
        (c2, b2, if y == 6 {
            12
        } else {
            8
        })
    } else {
        (block0_misc(c, y as int), b, 4)
    }
}

/// Opcodes 0x00, 0x08, ..., 0x38: NOP, LD (a16),SP, STOP, JR e, JR cc,e.
#[verifier::opaque]
pub open spec fn block0_jumps(c: Cpu, b: BusModel, y: u8) -> (Cpu, BusModel, u32) {
    if y == 0 {
        // NOP
        (c, b, 4)
    } else if y == 1 {
        // LD (a16),SP
        let (c1, addr) = fetch16(c, b);
        let b1 = b.write_spec(addr, (c.sp % 256) as u8);
        (c1, b1.write_spec(wadd16(addr, 1), (c.sp / 256) as u8), 20)
    } else if y == 2 {
        // STOP: the padding byte is consumed
        (fetch8(c, b).0, b, 4)
    } else {
        // JR e / JR cc,e
        let (c1, e) = fetch8(c, b);
        if y == 3 || cond(c1, y - 4) {
            (Cpu { pc: wadd16(c1.pc, sext8(e)), ..c1 }, b, 12)
        } else {
            (c1, b, 8)
        }
    }
}

/// Opcodes 0x01, 0x09, ..., 0x39: LD rr,nn (q = 0) and ADD HL,rr (q = 1).
#[verifier::opaque]
pub open spec fn block0_word(c: Cpu, b: BusModel, p: u8, q: u8) -> (Cpu, BusModel, u32) {
    if q == 0 {
        // LD rr,nn
        let (c1, nn) = fetch16(c, b);
        (set_rp(c1, p as int, nn), b, 12)
    } else {
        // ADD HL,rr: Z kept, N := 0, H from bit 11, C from bit 15
        let hl = c.hl_spec();
        let rr = rp(c, p as int);
        let sum = hl as int + rr as int;
        let f = flag_set(
            flag_set(flag_set(c.f, FLAG_N, false), FLAG_H, (hl & 0xFFF) + (rr & 0xFFF) > 0xFFF),
            FLAG_C,
            sum > 0xFFFF,
        );
        (Cpu { f, ..c }.with_hl((sum % 65536) as u16), b, 8)
    }
}

/// Opcodes 0x02, 0x0A, ..., 0x3A: LD (BC/DE/HL+/HL-),A (q = 0) and LD A,(BC/DE/HL+/HL-)
/// (q = 1).
#[verifier::opaque]
pub open spec fn block0_indirect(c: Cpu, b: BusModel, p: u8, q: u8) -> (Cpu, BusModel, u32) {
    let addr = if p == 0 {
        c.bc_spec()
    } else if p == 1 {
        c.de_spec()
    } else {
        c.hl_spec()
    };
    let c1 = if p == 2 {
        c.with_hl(wadd16(addr, 1))
    } else if p == 3 {
        c.with_hl(wadd16(addr, -1))
    } else {
        c
    };
    if q == 0 {
        (c1, b.write_spec(addr, c.a), 8)
    } else {
        (Cpu { a: b.read_spec(addr), ..c1 }, b, 8)
    }
}

/// Opcodes 0x07, 0x0F, ..., 0x3F: RLCA, RRCA, RLA, RRA, DAA, CPL, SCF, CCF.
#[verifier::opaque]
pub open spec fn block0_misc(c: Cpu, y: int) -> Cpu {
    let a = c.a;
    if y == 0 {
        let bit7 = a >> 7u8;
        Cpu { a: (a << 1u8) | bit7, f: rot_flags(c.f, bit7 != 0), ..c }
    } else if y == 1 {
        let bit0 = a & 1;
        Cpu { a: (a >> 1u8) | (bit0 << 7u8), f: rot_flags(c.f, bit0 != 0), ..c }
    } else if y == 2 {
        let bit7 = a >> 7u8;
        Cpu { a: (a << 1u8) | carry_bit(c), f: rot_flags(c.f, bit7 != 0), ..c }
    } else if y == 3 {
        let bit0 = a & 1;
        Cpu { a: (a >> 1u8) | (carry_bit(c) << 7u8), f: rot_flags(c.f, bit0 != 0), ..c }
    } else if y == 4 {
        daa_spec(c)
    } else if y == 5 {
        Cpu { a: !a, f: flag_set(flag_set(c.f, FLAG_N, true), FLAG_H, true), ..c }
    } else if y == 6 {
        Cpu {
            f: flag_set(flag_set(flag_set(c.f, FLAG_N, false), FLAG_H, false), FLAG_C, true),
            ..c
        }
    } else {
        Cpu {
            f: flag_set(flag_set(flag_set(c.f, FLAG_N, false), FLAG_H, false), FLAG_C, !c.cf_spec()),
            ..c
        }
    }
}

/// Opcodes 0x40-0x7F: LD r,r' and HALT (0x76). HALT with IME clear and an interrupt
/// already pending arms the halt bug instead of halting.
#[verifier::opaque]
pub open spec fn block1(c: Cpu, b: BusModel, op: u8) -> (Cpu, BusModel, u32) {
    if op == 0x76 {
        if !c.ime && b.iflags & b.ie & 0x1F != 0 {
            (Cpu { halt_bug: true, ..c }, b, 4)
        } else {
            (Cpu { halted: true, ..c }, b, 4)
        }
    } else {
        let dst = ((op / 8) % 8) as int;
        let src = (op % 8) as int;
        let (c1, b1) = set_reg8(c, b, dst, reg8(c, b, src));
        (c1, b1, if src == 6 || dst == 6 {
            8
        } else {
            4
        })
    }
}

/// Opcodes 0x80-0xBF: ALU operation (bits 5-3) on A and operand (bits 2-0).
#[verifier::opaque]
pub open spec fn block2(c: Cpu, b: BusModel, op: u8) -> (Cpu, BusModel, u32) {
    let r = (op % 8) as int;
    (alu_spec(c, ((op / 8) % 8) as int, reg8(c, b, r)), b, if r == 6 {
        8
    } else {
        4
    })
}

/// Opcodes 0xC0-0xFF except the undefined ones, by their low three bits.
#[verifier::opaque]
pub open spec fn block3(c: Cpu, b: BusModel, op: u8) -> (Cpu, BusModel, u32) {
    let z = op % 8;
    let y = (op / 8) % 8;
    if z == 0 {
        block3_ret_ldh(c, b, y)
    } else if z == 1 {
        block3_pop_ret(c, b, y / 2, y % 2)
    } else if z == 2 {
        block3_jp_ld(c, b, y)
    } else if z == 3 {
        block3_misc(c, b, y)
    } else if z == 4 {
        // CALL cc,nn
        let (c1, nn) = fetch16(c, b);
        if cond(c1, y as int) {
            let (c2, b2) = push16(c1, b, c1.pc);
            (Cpu { pc: nn, ..c2 }, b2, 24)
        } else {
            (c1, b, 12)
        }
    } else if z == 5 {
        block3_push_call(c, b, y / 2, y % 2)
    } else if z == 6 {
        // ALU A,n
        let (c1, n) = fetch8(c, b);
        (alu_spec(c1, y as int, n), b, 8)
    } else {
        // RST: call the vector in bits 5-3
        let (c1, b1) = push16(c, b, c.pc);
        (Cpu { pc: (y * 8) as u16, ..c1 }, b1, 16)
    }
}

/// Opcodes 0xC0, 0xC8, ..., 0xF8: RET cc, LDH (a8),A, ADD SP,e, LDH A,(a8), LD HL,SP+e.
#[verifier::opaque]
pub open spec fn block3_ret_ldh(c: Cpu, b: BusModel, y: u8) -> (Cpu, BusModel, u32) {
    if y < 4 {
        // RET cc
        if cond(c, y as int) {
            let (c1, v) = pop16(c, b);
            (Cpu { pc: v, ..c1 }, b, 20)
        } else {
            (c, b, 8)
        }
    } else if y == 4 {
        // LDH (a8),A
        let (c1, a8) = fetch8(c, b);
        (c1, b.write_spec((0xFF00 + a8) as u16, c.a), 12)
    } else if y == 6 {
        // LDH A,(a8)
        let (c1, a8) = fetch8(c, b);
        (Cpu { a: b.read_spec((0xFF00 + a8) as u16), ..c1 }, b, 12)
    } else {
        // ADD SP,e / LD HL,SP+e
        let (c1, e) = fetch8(c, b);
        let c2 = Cpu { f: sp_e_flags(c.f, c.sp, e), ..c1 };
        if y == 5 {
            (Cpu { sp: wadd16(c.sp, sext8(e)), ..c2 }, b, 16)
        } else {
            (c2.with_hl(wadd16(c.sp, sext8(e))), b, 12)
        }
    }
}

/// Opcodes 0xC1, 0xC9, ..., 0xF9: POP rr (q = 0); RET, RETI, JP HL, LD SP,HL (q = 1).
#[verifier::opaque]
pub open spec fn block3_pop_ret(c: Cpu, b: BusModel, p: u8, q: u8) -> (Cpu, BusModel, u32) {
    if q == 0 {
        // POP rr (rr = BC, DE, HL, AF)
        let (c1, v) = pop16(c, b);
        (if p == 3 {
            c1.with_af(v)
        } else {
            set_rp(c1, p as int, v)
        }, b, 12)
    } else if p == 0 {
        // RET
        let (c1, v) = pop16(c, b);
        (Cpu { pc: v, ..c1 }, b, 16)
    } else if p == 1 {
        // RETI: return and enable IME at once
        let (c1, v) = pop16(c, b);
        (Cpu { pc: v, ime: true, ..c1 }, b, 16)
    } else if p == 2 {
        // JP HL
        (Cpu { pc: c.hl_spec(), ..c }, b, 4)
    } else {
        // LD SP,HL
        (Cpu { sp: c.hl_spec(), ..c }, b, 8)
    }
}

/// Opcodes 0xC2, 0xCA, ..., 0xFA: JP cc,nn, LD (C),A, LD (a16),A, LD A,(C), LD A,(a16).
#[verifier::opaque]
pub open spec fn block3_jp_ld(c: Cpu, b: BusModel, y: u8) -> (Cpu, BusModel, u32) {
    if y < 4 {
        // JP cc,nn
        let (c1, nn) = fetch16(c, b);
        if cond(c1, y as int) {
            (Cpu { pc: nn, ..c1 }, b, 16)
        } else {
            (c1, b, 12)
        }
    } else if y == 4 {
        // LD (C),A
        (c, b.write_spec((0xFF00 + c.c) as u16, c.a), 8)
    } else if y == 5 {
        // LD (a16),A
        let (c1, addr) = fetch16(c, b);
        (c1, b.write_spec(addr, c.a), 16)
    } else if y == 6 {
        // LD A,(C)
        (Cpu { a: b.read_spec((0xFF00 + c.c) as u16), ..c }, b, 8)
    } else {
        // LD A,(a16)
        let (c1, addr) = fetch16(c, b);
        (Cpu { a: b.read_spec(addr), ..c1 }, b, 16)
    }
}

/// Opcodes 0xC3, 0xCB, 0xF3, 0xFB: JP nn, the CB prefix, DI, EI.
#[verifier::opaque]
pub open spec fn block3_misc(c: Cpu, b: BusModel, y: u8) -> (Cpu, BusModel, u32) {
    if y == 0 {
        // JP nn
        let (c1, nn) = fetch16(c, b);
        (Cpu { pc: nn, ..c1 }, b, 16)
    } else if y == 1 {
        // CB prefix
        let (c1, cb) = fetch8(c, b);
        cb_spec(c1, b, cb)
    } else if y == 6 {
        // DI
        (Cpu { ime: false, ime_pending: false, ..c }, b, 4)
    } else {
        // EI: arms IME, which turns on at the end of the next instruction
        (Cpu { ime_pending: true, ..c }, b, 4)
    }
}

/// Opcodes 0xC5, 0xCD, ..., 0xF5: PUSH rr (q = 0) and CALL nn (0xCD).
#[verifier::opaque]
pub open spec fn block3_push_call(c: Cpu, b: BusModel, p: u8, q: u8) -> (Cpu, BusModel, u32) {
    if q == 0 {
        // PUSH rr (rr = BC, DE, HL, AF)
        let v = if p == 3 {
            c.af_spec()
        } else {
            rp(c, p as int)
        };
        let (c1, b1) = push16(c, b, v);
        (c1, b1, 16)
    } else {
        // CALL nn
        let (c1, nn) = fetch16(c, b);
        let (c2, b2) = push16(c1, b, c1.pc);
        (Cpu { pc: nn, ..c2 }, b2, 24)
    }
}

/// CB-prefixed opcodes: rotates and shifts, BIT, RES, SET on operand bits 2-0.
#[verifier::opaque]
pub open spec fn cb_spec(c: Cpu, b: BusModel, op: u8) -> (Cpu, BusModel, u32) {
    let r = (op % 8) as int;
    let y = (op / 8) % 8;
    let val = reg8(c, b, r);
    let is_hl = r == 6;
    let x = op / 64;
    if x == 0 {
        let (res, carry) = if y == 0 {
            ((val << 1u8) | (val >> 7u8), val >> 7u8 != 0)
        } else if y == 1 {
            ((val >> 1u8) | ((val & 1) << 7u8), val & 1 != 0)
        } else if y == 2 {
            ((val << 1u8) | carry_bit(c), val >> 7u8 != 0)
        } else if y == 3 {
            ((val >> 1u8) | (carry_bit(c) << 7u8), val & 1 != 0)
        } else if y == 4 {
            (val << 1u8, val >> 7u8 != 0)
        } else if y == 5 {
            ((val >> 1u8) | (val & 0x80), val & 1 != 0)
        } else if y == 6 {
            ((val << 4u8) | (val >> 4u8), false)
        } else {
            (val >> 1u8, val & 1 != 0)
        };
        let f = flag_set(
            flag_set(flag_set(flag_set(c.f, FLAG_C, carry), FLAG_Z, res == 0), FLAG_N, false),
            FLAG_H,
            false,
        );
        let (c1, b1) = set_reg8(Cpu { f, ..c }, b, r, res);
        (c1, b1, if is_hl {
            16
        } else {
            8
        })
    } else if x == 1 {
        let f = flag_set(
            flag_set(flag_set(c.f, FLAG_Z, val & (1u8 << y) == 0), FLAG_N, false),
            FLAG_H,
            true,
        );
        (Cpu { f, ..c }, b, if is_hl {
            12
        } else {
            8
        })
    } else {
        let res = if x == 2 {
            val & !(1u8 << y)
        } else {
            val | (1u8 << y)
        };
        let (c1, b1) = set_reg8(c, b, r, res);
        (c1, b1, if is_hl {
            16
        } else {
            8
        })
    }
}

/// Executing opcode `op` after it was fetched.
pub open spec fn execute_spec(c: Cpu, b: BusModel, op: u8) -> (Cpu, BusModel, u32) {
    if op < 0x40 {
        block0(c, b, op)
    } else if op < 0x80 {
        block1(c, b, op)
    } else if op < 0xC0 {
        block2(c, b, op)
    } else {
        block3(c, b, op)
    }
}

/// Interrupts both requested (IF) and enabled (IE).
pub open spec fn pending_interrupts(b: BusModel) -> u8 {
    b.iflags & b.ie & 0x1F
}

/// Interrupt dispatch: PC is pushed, the request bit of the lowest pending interrupt is
/// cleared, PC jumps to 0x40 + 8 * bit and IME is cleared; 20 T-cycles.
#[verifier::opaque]
pub open spec fn dispatch_spec(c: Cpu, b: BusModel) -> (Cpu, BusModel, u32) {
    let bit = vstd::std_specs::bits::u8_trailing_zeros(pending_interrupts(b)) as u8;
    let sp1 = wadd16(c.sp, -1);
    let b1 = b.write_spec(sp1, (c.pc / 256) as u8);
    let sp2 = wadd16(sp1, -1);
    let b2 = b1.write_spec(sp2, (c.pc % 256) as u8);
    let b3 = b2.write_spec(0xFF0F, b2.iflags & !(1u8 << bit));
    (Cpu { sp: sp2, pc: (0x40 + bit as int * 8) as u16, ime: false, ..c }, b3, 20)
}

/// The CPU after leaving HALT (if it was halted and an interrupt is pending).
pub open spec fn woken(c: Cpu) -> Cpu {
    Cpu { halted: false, ..c }
}

/// Fetching the opcode: the halt bug repeats the byte at PC without advancing.
pub open spec fn fetch_opcode(c: Cpu, b: BusModel) -> (Cpu, u8) {
    if c.halt_bug {
        (Cpu { halt_bug: false, ..c }, b.read_spec(c.pc))
    } else {
        fetch8(c, b)
    }
}

/// One CPU step: a halted CPU without a pending interrupt idles 4 T-cycles; otherwise a
/// pending enabled interrupt is dispatched when IME is set, else one instruction executes,
/// after which an EI executed by an earlier step takes effect (so an EI enables interrupts
/// only once the instruction after it has run, and a DI in between cancels it). Returns the
/// T-cycles taken.
pub open spec fn step_spec(c: Cpu, b: BusModel) -> (Cpu, BusModel, u32) {
    if c.halted && pending_interrupts(b) == 0 {
        (c, b, 4)
    } else {
        let c1 = woken(c);
        if c1.ime && pending_interrupts(b) != 0 {
            dispatch_spec(c1, b)
        } else {
            let (c2, op) = fetch_opcode(c1, b);
            let (c3, b3, cycles) = execute_spec(c2, b, op);
            let c4 = if c.ime_pending && c3.ime_pending {
                Cpu { ime: true, ime_pending: false, ..c3 }
            } else {
                c3
            };
            (c4, b3, cycles)
        }
    }
}

/// Whether the step would fetch an opcode the CPU does not define (where the step panics).
pub open spec fn step_hits_undefined(c: Cpu, b: BusModel) -> bool {
    !(c.halted && pending_interrupts(b) == 0) && !(woken(c).ime && pending_interrupts(b) != 0)
        && undefined_opcode(fetch_opcode(woken(c), b).1)
}


/// Every instruction, and every step, takes between 4 and 24 T-cycles.
pub proof fn lemma_step_cycles(c: Cpu, b: BusModel)
    ensures
        4 <= step_spec(c, b).2 <= 24,
{
    reveal(dispatch_spec);
    let c1 = woken(c);
    let (c2, op) = fetch_opcode(c1, b);
    lemma_execute_cycles(c2, b, op);
}

/// Executing any opcode takes between 4 and 24 T-cycles.
pub proof fn lemma_execute_cycles(c: Cpu, b: BusModel, op: u8)
    ensures
        4 <= execute_spec(c, b, op).2 <= 24,
{
    reveal(block0);
    reveal(block0_jumps);
    reveal(block0_word);
    reveal(block0_indirect);
    reveal(block1);
    reveal(block2);
    reveal(block3);
    reveal(block3_ret_ldh);
    reveal(block3_pop_ret);
    reveal(block3_jp_ld);
    reveal(block3_misc);
    reveal(block3_push_call);
    reveal(cb_spec);
}


/// The opcodes of `block0_jumps` leave the PPU counters as they were.
proof fn lemma_block0_jumps_keeps_counters(c: Cpu, b: BusModel, y: u8)
    ensures
        block0_jumps(c, b, y).1.same_ppu_counters(b),
{
    broadcast use BusModel::lemma_write_keeps_ppu_counters;
    reveal(block0_jumps);
}

/// The opcodes of `block0_word` leave the PPU counters as they were.
proof fn lemma_block0_word_keeps_counters(c: Cpu, b: BusModel, p: u8, q: u8)
    ensures
        block0_word(c, b, p, q).1.same_ppu_counters(b),
{
    broadcast use BusModel::lemma_write_keeps_ppu_counters;
    reveal(block0_word);
}

/// The opcodes of `block0_indirect` leave the PPU counters as they were.
proof fn lemma_block0_indirect_keeps_counters(c: Cpu, b: BusModel, p: u8, q: u8)
    ensures
        block0_indirect(c, b, p, q).1.same_ppu_counters(b),
{
    broadcast use BusModel::lemma_write_keeps_ppu_counters;
    reveal(block0_indirect);
}

/// The opcodes of `block1` leave the PPU counters as they were.
proof fn lemma_block1_keeps_counters(c: Cpu, b: BusModel, op: u8)
    ensures
        block1(c, b, op).1.same_ppu_counters(b),
{
    broadcast use BusModel::lemma_write_keeps_ppu_counters;
    reveal(block1);
}

/// The opcodes of `block2` leave the PPU counters as they were.
proof fn lemma_block2_keeps_counters(c: Cpu, b: BusModel, op: u8)
    ensures
        block2(c, b, op).1.same_ppu_counters(b),
{
    broadcast use BusModel::lemma_write_keeps_ppu_counters;
    reveal(block2);
}

/// The opcodes of `block3_ret_ldh` leave the PPU counters as they were.
proof fn lemma_block3_ret_ldh_keeps_counters(c: Cpu, b: BusModel, y: u8)
    ensures
        block3_ret_ldh(c, b, y).1.same_ppu_counters(b),
{
    broadcast use BusModel::lemma_write_keeps_ppu_counters;
    reveal(block3_ret_ldh);
}

/// The opcodes of `block3_pop_ret` leave the PPU counters as they were.
proof fn lemma_block3_pop_ret_keeps_counters(c: Cpu, b: BusModel, p: u8, q: u8)
    ensures
        block3_pop_ret(c, b, p, q).1.same_ppu_counters(b),
{
    broadcast use BusModel::lemma_write_keeps_ppu_counters;
    reveal(block3_pop_ret);
}

/// The opcodes of `block3_jp_ld` leave the PPU counters as they were.
proof fn lemma_block3_jp_ld_keeps_counters(c: Cpu, b: BusModel, y: u8)
    ensures
        block3_jp_ld(c, b, y).1.same_ppu_counters(b),
{
    broadcast use BusModel::lemma_write_keeps_ppu_counters;
    reveal(block3_jp_ld);
}

/// The opcodes of `block3_push_call` leave the PPU counters as they were.
proof fn lemma_block3_push_call_keeps_counters(c: Cpu, b: BusModel, p: u8, q: u8)
    ensures
        block3_push_call(c, b, p, q).1.same_ppu_counters(b),
{
    broadcast use BusModel::lemma_write_keeps_ppu_counters;
    reveal(block3_push_call);
}

/// The opcodes of `cb_spec` leave the PPU counters as they were.
proof fn lemma_cb_spec_keeps_counters(c: Cpu, b: BusModel, op: u8)
    ensures
        cb_spec(c, b, op).1.same_ppu_counters(b),
{
    broadcast use BusModel::lemma_write_keeps_ppu_counters;
    reveal(cb_spec);
}

/// The opcodes of `block3_misc` leave the PPU counters as they were.
proof fn lemma_block3_misc_keeps_counters(c: Cpu, b: BusModel, y: u8)
    ensures
        block3_misc(c, b, y).1.same_ppu_counters(b),
{
    reveal(block3_misc);
    let (c1, cb) = fetch8(c, b);
    lemma_cb_spec_keeps_counters(c1, b, cb);
}

/// Every opcode leaves the PPU counters as they were.
proof fn lemma_execute_keeps_counters(c: Cpu, b: BusModel, op: u8)
    ensures
        execute_spec(c, b, op).1.same_ppu_counters(b),
{
    broadcast use BusModel::lemma_write_keeps_ppu_counters;
    reveal(block0);
    reveal(block3);
    let z = op % 8;
    let y = (op / 8) % 8;
    lemma_block0_jumps_keeps_counters(c, b, y);
    lemma_block0_word_keeps_counters(c, b, y / 2, y % 2);
    lemma_block0_indirect_keeps_counters(c, b, y / 2, y % 2);
    lemma_block1_keeps_counters(c, b, op);
    lemma_block2_keeps_counters(c, b, op);
    lemma_block3_ret_ldh_keeps_counters(c, b, y);
    lemma_block3_pop_ret_keeps_counters(c, b, y / 2, y % 2);
    lemma_block3_jp_ld_keeps_counters(c, b, y);
    lemma_block3_misc_keeps_counters(c, b, y);
    lemma_block3_push_call_keeps_counters(c, b, y / 2, y % 2);
}

/// A CPU step leaves the PPU's dot counter, LY and window line counter as they were.
pub proof fn lemma_step_keeps_ppu_counters(c: Cpu, b: BusModel)
    ensures
        step_spec(c, b).1.same_ppu_counters(b),
{
    broadcast use BusModel::lemma_write_keeps_ppu_counters;
    reveal(dispatch_spec);
    let (c2, op) = fetch_opcode(woken(c), b);
    lemma_execute_keeps_counters(c2, b, op);
}


/// Whether `addr` is RAM the CPU can write and read back: VRAM, work RAM and its echo, OAM,
/// high RAM.
pub open spec fn is_ram(addr: u16) -> bool {
    ||| 0x8000 <= addr <= 0x9FFF
    ||| 0xC000 <= addr <= 0xFDFF
    ||| 0xFE00 <= addr <= 0xFE9F
    ||| 0xFF80 <= addr <= 0xFFFE
}

/// Law: with the two bytes below SP in RAM, a push followed by a pop gives back the value
/// pushed and restores SP.
pub proof fn lemma_push_pop(c: Cpu, b: BusModel, v: u16)
    requires
        b.wf(),
        is_ram(wadd16(c.sp, -1)),
        is_ram(wadd16(c.sp, -2)),
    ensures
        ({
            let (c1, b1) = push16(c, b, v);
            let (c2, w) = pop16(c1, b1);
            &&& w == v
            &&& c2.sp == c.sp
        }),
{
    reveal(BusModel::read_spec);
    reveal(BusModel::write_spec);
}


/// Setting or clearing one flag leaves the low nibble of F as it was.
pub broadcast proof fn lemma_flag_set_keeps_low(f: u8, mask: u8, v: bool)
    requires
        mask == FLAG_Z || mask == FLAG_N || mask == FLAG_H || mask == FLAG_C,
    ensures
        #[trigger] flag_set(f, mask, v) & 0x0F == f & 0x0F,
{
    assert({
        &&& flag_set(f, 0x80, v) & 0x0F == f & 0x0F
        &&& flag_set(f, 0x40, v) & 0x0F == f & 0x0F
        &&& flag_set(f, 0x20, v) & 0x0F == f & 0x0F
        &&& flag_set(f, 0x10, v) & 0x0F == f & 0x0F
    }) by (bit_vector);
}

/// Loading AF clears the low nibble of F.
pub broadcast proof fn lemma_with_af_low(c: Cpu, v: u16)
    ensures
        (#[trigger] c.with_af(v)).f & 0x0F == 0,
{
    assert(((v & 0xF0) as u8) & 0x0F == 0) by (bit_vector);
}

/// Every ALU operation keeps the low nibble of F.
proof fn lemma_alu_keeps_f_low(c: Cpu, y: int, v: u8)
    ensures
        alu_spec(c, y, v).f & 0x0F == c.f & 0x0F,
{
    broadcast use lemma_flag_set_keeps_low;
}

/// Every accumulator operation of 0x07-0x3F keeps the low nibble of F.
proof fn lemma_block0_misc_keeps_f_low(c: Cpu, y: int)
    ensures
        block0_misc(c, y).f & 0x0F == c.f & 0x0F,
{
    broadcast use lemma_flag_set_keeps_low;
    reveal(block0_misc);
}

/// The opcodes of `block0` keep the low nibble of F.
proof fn lemma_block0_keeps_f_low(c: Cpu, b: BusModel, op: u8)
    ensures
        block0(c, b, op).0.f & 0x0F == c.f & 0x0F,
{
    broadcast use lemma_flag_set_keeps_low, lemma_with_af_low;
    reveal(block0);
    lemma_block0_misc_keeps_f_low(c, ((op / 8) % 8) as int);
    reveal(block0_jumps);
    reveal(block0_word);
    reveal(block0_indirect);
}

/// The opcodes of `block1` keep the low nibble of F.
proof fn lemma_block1_keeps_f_low(c: Cpu, b: BusModel, op: u8)
    ensures
        block1(c, b, op).0.f & 0x0F == c.f & 0x0F,
{
    broadcast use lemma_flag_set_keeps_low, lemma_with_af_low;
    reveal(block1);
}

/// The opcodes of `block2` keep the low nibble of F.
proof fn lemma_block2_keeps_f_low(c: Cpu, b: BusModel, op: u8)
    ensures
        block2(c, b, op).0.f & 0x0F == c.f & 0x0F,
{
    broadcast use lemma_flag_set_keeps_low, lemma_with_af_low;
    reveal(block2);
    lemma_alu_keeps_f_low(c, ((op / 8) % 8) as int, reg8(c, b, (op % 8) as int));
}

/// The opcodes of `block3_ret_ldh` keep the low nibble of F.
proof fn lemma_block3_ret_ldh_keeps_f_low(c: Cpu, b: BusModel, y: u8)
    ensures
        block3_ret_ldh(c, b, y).0.f & 0x0F == c.f & 0x0F,
{
    broadcast use lemma_flag_set_keeps_low, lemma_with_af_low;
    reveal(block3_ret_ldh);
}

/// The opcodes of `block3_pop_ret` keep the low nibble of F.
proof fn lemma_block3_pop_ret_keeps_f_low(c: Cpu, b: BusModel, p: u8, q: u8)
    requires
        c.f & 0x0F == 0,
    ensures
        block3_pop_ret(c, b, p, q).0.f & 0x0F == 0,
{
    broadcast use lemma_flag_set_keeps_low, lemma_with_af_low;
    reveal(block3_pop_ret);
}

/// The opcodes of `block3_jp_ld` keep the low nibble of F.
proof fn lemma_block3_jp_ld_keeps_f_low(c: Cpu, b: BusModel, y: u8)
    ensures
        block3_jp_ld(c, b, y).0.f & 0x0F == c.f & 0x0F,
{
    broadcast use lemma_flag_set_keeps_low, lemma_with_af_low;
    reveal(block3_jp_ld);
}

/// The opcodes of `block3_push_call` keep the low nibble of F.
proof fn lemma_block3_push_call_keeps_f_low(c: Cpu, b: BusModel, p: u8, q: u8)
    ensures
        block3_push_call(c, b, p, q).0.f & 0x0F == c.f & 0x0F,
{
    broadcast use lemma_flag_set_keeps_low, lemma_with_af_low;
    reveal(block3_push_call);
}

/// The opcodes of `cb_spec` keep the low nibble of F.
proof fn lemma_cb_spec_keeps_f_low(c: Cpu, b: BusModel, op: u8)
    ensures
        cb_spec(c, b, op).0.f & 0x0F == c.f & 0x0F,
{
    broadcast use lemma_flag_set_keeps_low, lemma_with_af_low;
    reveal(cb_spec);
}

/// Law: a CPU step keeps the low nibble of F at zero.
pub proof fn lemma_step_keeps_f_low(c: Cpu, b: BusModel)
    requires
        c.f & 0x0F == 0,
    ensures
        step_spec(c, b).0.f & 0x0F == 0,
{
    reveal(dispatch_spec);
    reveal(block3);
    reveal(block3_misc);
    let (c2, op) = fetch_opcode(woken(c), b);
    let z = op % 8;
    let y = (op / 8) % 8;
    lemma_block0_keeps_f_low(c2, b, op);
    lemma_block1_keeps_f_low(c2, b, op);
    lemma_block2_keeps_f_low(c2, b, op);
    lemma_block3_ret_ldh_keeps_f_low(c2, b, y);
    lemma_block3_pop_ret_keeps_f_low(c2, b, y / 2, y % 2);
    lemma_block3_jp_ld_keeps_f_low(c2, b, y);
    lemma_block3_push_call_keeps_f_low(c2, b, y / 2, y % 2);
    let (c3, cb) = fetch8(c2, b);
    lemma_cb_spec_keeps_f_low(c3, b, cb);
    let (c4, n) = fetch8(c2, b);
    lemma_alu_keeps_f_low(c4, y as int, n);
}


/// Law: SRA r (CB 0x28-0x2F) on a register operand halves it as a signed byte, rounding
/// down, so the sign bit is kept; the bit shifted out goes to C, Z reports a zero result,
/// and N and H are cleared.
pub proof fn lemma_sra_halves_signed(c: Cpu, b: BusModel, r: u8)
    requires
        r < 8,
        r != 6,
    ensures
        ({
            let v = reg8(c, b, r as int);
            let (c1, b1, t) = cb_spec(c, b, (0x28 + r) as u8);
            let res = reg8(c1, b1, r as int);
            &&& sext8(res) == sext8(v) / 2
            &&& res as int == if v < 128 {
                v as int / 2
            } else {
                v as int / 2 + 128
            }
            &&& c1.cf_spec() == (v % 2 == 1)
            &&& c1.zf_spec() == (res == 0)
            &&& !c1.nf_spec()
            &&& !c1.hf_spec()
            &&& t == 8
        }),
{
    reveal(cb_spec);
    let op = (0x28 + r) as u8;
    assert(op % 8 == r && (op / 8) % 8 == 5 && op / 64 == 0);
    let v = reg8(c, b, r as int);
    let f = c.f;
    assert({
        let res = (v >> 1u8) | (v & 0x80);
        let g = flag_set(
            flag_set(flag_set(flag_set(f, 0x10, v & 1 != 0), 0x80, res == 0), 0x40, false),
            0x20,
            false,
        );
        &&& res as int == if v < 128 {
            v as int / 2
        } else {
            v as int / 2 + 128
        }
        &&& (v & 1 != 0) == (v % 2 == 1)
        &&& flag_get(g, 0x10) == (v & 1 != 0)
        &&& flag_get(g, 0x80) == (res == 0)
        &&& !flag_get(g, 0x40)
        &&& !flag_get(g, 0x20)
    }) by (bit_vector);
}


/// The result of the CB rotate/shift `y` (RLC, RRC, RL, RR, SLA, SRA, SWAP, SRL) on `v` as a
/// number, with `cin` the carry flag before the operation.
pub open spec fn shift_value(y: u8, v: u8, cin: int) -> int {
    if y == 0 {
        (2 * v) % 256 + v / 128
    } else if y == 1 {
        v / 2 + 128 * (v % 2)
    } else if y == 2 {
        (2 * v) % 256 + cin
    } else if y == 3 {
        v / 2 + 128 * cin
    } else if y == 4 {
        (2 * v) % 256
    } else if y == 5 {
        v / 2 + 128 * (v / 128)
    } else if y == 6 {
        16 * (v % 16) + v / 16
    } else {
        v as int / 2
    }
}

/// The carry out of the CB rotate/shift `y` on `v`: the bit shifted out (bit 7 for the left
/// operations, bit 0 for the right ones), none for SWAP.
pub open spec fn shift_carry(y: u8, v: u8) -> bool {
    if y == 0 || y == 2 || y == 4 {
        v >= 128
    } else if y == 6 {
        false
    } else {
        v % 2 == 1
    }
}

/// Law: the CB rotates and shifts (CB 0x00-0x3F) on a register operand: rotates move every
/// bit one place (the end bit wrapping round, or through C for RL/RR), SLA doubles, SRL
/// halves, SRA halves keeping the sign, SWAP exchanges the nibbles; C takes the bit shifted
/// out, Z reports a zero result, N and H are cleared, 8 T-cycles.
pub proof fn lemma_cb_shifts(c: Cpu, b: BusModel, y: u8, r: u8)
    requires
        y < 8,
        r < 8,
        r != 6,
    ensures
        ({
            let v = reg8(c, b, r as int);
            let cin: int = if c.cf_spec() {
                1
            } else {
                0
            };
            let (c1, b1, t) = cb_spec(c, b, (y * 8 + r) as u8);
            let res = reg8(c1, b1, r as int);
            &&& res as int == shift_value(y, v, cin)
            &&& c1.cf_spec() == shift_carry(y, v)
            &&& c1.zf_spec() == (res == 0)
            &&& !c1.nf_spec()
            &&& !c1.hf_spec()
            &&& t == 8
            &&& b1 == b
        }),
{
    reveal(cb_spec);
    let op = (y * 8 + r) as u8;
    assert(op % 8 == r && (op / 8) % 8 == y && op / 64 == 0);
    let v = reg8(c, b, r as int);
    let cb = carry_bit(c);
    lemma_cb_shift_bits(
        c.f,
        v,
        cb,
        shift_carry(y, v),
        shift_value(y, v, cb as int) == 0,
    );
}

/// Bit-level facts behind `lemma_cb_shifts`: each rotate/shift as arithmetic, and the flag
/// byte after setting C and Z and clearing N and H.
proof fn lemma_cb_shift_bits(f: u8, v: u8, cb: u8, k: bool, z: bool)
    by (bit_vector)
    requires
        cb <= 1,
    ensures
        ({
            let g = flag_set(
                flag_set(flag_set(flag_set(f, 0x10, k), 0x80, z), 0x40, false),
                0x20,
                false,
            );
            &&& flag_get(g, 0x10) == k
            &&& flag_get(g, 0x80) == z
            &&& !flag_get(g, 0x40)
            &&& !flag_get(g, 0x20)
            &&& ((v << 1u8) | (v >> 7u8)) as int == (2 * (v as int)) % 256 + (v as int) / 128
            &&& ((v >> 1u8) | ((v & 1) << 7u8)) as int == (v as int) / 2 + 128 * ((v as int) % 2)
            &&& ((v << 1u8) | cb) as int == (2 * (v as int)) % 256 + (cb as int)
            &&& ((v >> 1u8) | (cb << 7u8)) as int == (v as int) / 2 + 128 * (cb as int)
            &&& (v << 1u8) as int == (2 * (v as int)) % 256
            &&& ((v >> 1u8) | (v & 0x80)) as int == (v as int) / 2 + 128 * ((v as int) / 128)
            &&& ((v << 4u8) | (v >> 4u8)) as int == 16 * ((v as int) % 16) + (v as int) / 16
            &&& (v >> 1u8) as int == (v as int) / 2
            &&& (v >> 7u8 != 0) == (v >= 128)
            &&& (v & 1 != 0) == (v % 2 == 1)
        }),
{
}



/// The value of bit `n` (0-7) of a byte: 1, 2, 4, ..., 128.
pub open spec fn bit_weight(n: u8) -> int {
    if n == 0 {
        1
    } else if n == 1 {
        2
    } else if n == 2 {
        4
    } else if n == 3 {
        8
    } else if n == 4 {
        16
    } else if n == 5 {
        32
    } else if n == 6 {
        64
    } else {
        128
    }
}

/// Whether bit `n` of `v` is set, read arithmetically.
pub open spec fn has_bit(v: u8, n: u8) -> bool {
    (v as int / bit_weight(n)) % 2 == 1
}

/// Law: BIT n,r (CB 0x40-0x7F) sets Z exactly when bit n of the operand is clear, clears N,
/// sets H, keeps C and the operand; RES n,r (0x80-0xBF) and SET n,r (0xC0-0xFF) take bit n's
/// value off or add it, touching no other bit and no flag. On a register operand each takes
/// 8 T-cycles.
pub proof fn lemma_cb_bit_ops(c: Cpu, b: BusModel, n: u8, r: u8)
    requires
        n < 8,
        r < 8,
        r != 6,
    ensures
        ({
            let v = reg8(c, b, r as int);
            let (c1, b1, t1) = cb_spec(c, b, (0x40 + n * 8 + r) as u8);
            &&& c1.zf_spec() == !has_bit(v, n)
            &&& !c1.nf_spec()
            &&& c1.hf_spec()
            &&& c1.cf_spec() == c.cf_spec()
            &&& reg8(c1, b1, r as int) == v
            &&& t1 == 8
        }),
        ({
            let v = reg8(c, b, r as int);
            let (c2, b2, t2) = cb_spec(c, b, (0x80 + n * 8 + r) as u8);
            &&& reg8(c2, b2, r as int) as int == if has_bit(v, n) {
                v - bit_weight(n)
            } else {
                v as int
            }
            &&& c2.f == c.f
            &&& t2 == 8
        }),
        ({
            let v = reg8(c, b, r as int);
            let (c3, b3, t3) = cb_spec(c, b, (0xC0 + n * 8 + r) as u8);
            &&& reg8(c3, b3, r as int) as int == if has_bit(v, n) {
                v as int
            } else {
                v + bit_weight(n)
            }
            &&& c3.f == c.f
            &&& t3 == 8
        }),
{
    lemma_cb_bit(c, b, n, r);
    lemma_cb_res(c, b, n, r);
    lemma_cb_set(c, b, n, r);
}

proof fn lemma_cb_bit(c: Cpu, b: BusModel, n: u8, r: u8)
    requires
        n < 8,
        r < 8,
        r != 6,
    ensures
        ({
            let v = reg8(c, b, r as int);
            let (c1, b1, t1) = cb_spec(c, b, (0x40 + n * 8 + r) as u8);
            &&& c1.zf_spec() == !has_bit(v, n)
            &&& !c1.nf_spec()
            &&& c1.hf_spec()
            &&& c1.cf_spec() == c.cf_spec()
            &&& reg8(c1, b1, r as int) == v
            &&& t1 == 8
        }),
{
    reveal(cb_spec);
    let op = (0x40 + n * 8 + r) as u8;
    assert(op % 8 == r && (op / 8) % 8 == n && op / 64 == 1);
    let v = reg8(c, b, r as int);
    lemma_cb_bit_op_bits(c.f, v, n, v & (1u8 << n) == 0);
}

proof fn lemma_cb_res(c: Cpu, b: BusModel, n: u8, r: u8)
    requires
        n < 8,
        r < 8,
        r != 6,
    ensures
        ({
            let v = reg8(c, b, r as int);
            let (c2, b2, t2) = cb_spec(c, b, (0x80 + n * 8 + r) as u8);
            &&& reg8(c2, b2, r as int) as int == if has_bit(v, n) {
                v - bit_weight(n)
            } else {
                v as int
            }
            &&& c2.f == c.f
            &&& t2 == 8
        }),
{
    reveal(cb_spec);
    let op = (0x80 + n * 8 + r) as u8;
    assert(op % 8 == r && (op / 8) % 8 == n && op / 64 == 2);
    let v = reg8(c, b, r as int);
    lemma_cb_bit_op_bits(c.f, v, n, v & (1u8 << n) == 0);
}

proof fn lemma_cb_set(c: Cpu, b: BusModel, n: u8, r: u8)
    requires
        n < 8,
        r < 8,
        r != 6,
    ensures
        ({
            let v = reg8(c, b, r as int);
            let (c3, b3, t3) = cb_spec(c, b, (0xC0 + n * 8 + r) as u8);
            &&& reg8(c3, b3, r as int) as int == if has_bit(v, n) {
                v as int
            } else {
                v + bit_weight(n)
            }
            &&& c3.f == c.f
            &&& t3 == 8
        }),
{
    reveal(cb_spec);
    let op = (0xC0 + n * 8 + r) as u8;
    assert(op % 8 == r && (op / 8) % 8 == n && op / 64 == 3);
    let v = reg8(c, b, r as int);
    lemma_cb_bit_op_bits(c.f, v, n, v & (1u8 << n) == 0);
}

/// Bit-level facts behind `lemma_cb_bit_ops`.
proof fn lemma_cb_bit_op_bits(f: u8, v: u8, n: u8, z: bool)
    by (bit_vector)
    requires
        n < 8,
    ensures
        ({
            let g = flag_set(flag_set(flag_set(f, 0x80, z), 0x40, false), 0x20, true);
            &&& flag_get(g, 0x80) == z
            &&& !flag_get(g, 0x40)
            &&& flag_get(g, 0x20)
            &&& flag_get(g, 0x10) == flag_get(f, 0x10)
            &&& (v & (1u8 << n) == 0) == !(((v as int) / bit_weight(n)) % 2 == 1)
            &&& (v & !(1u8 << n)) as int == if ((v as int) / bit_weight(n)) % 2 == 1 {
                (v as int) - bit_weight(n)
            } else {
                v as int
            }
            &&& (v | (1u8 << n)) as int == if ((v as int) / bit_weight(n)) % 2 == 1 {
                v as int
            } else {
                (v as int) + bit_weight(n)
            }
        }),
{
}

} // verus!
