//! Execution of one decoded LR35902 instruction, block by block.
use vstd::prelude::*;
use crate::bus::Bus;
use crate::cpu::{Cpu, split_word};
use crate::isa::{
    alu_spec, block0, block0_indirect, block0_jumps, block0_misc, block0_word, block1, block2,
    block3, block3_jp_ld, block3_misc, block3_pop_ret, block3_push_call, block3_ret_ldh,
    carry_bit, cb_spec, cond, daa_spec, execute_spec, rot_flags, rp, sext8, set_rp,
    undefined_opcode, wadd16, wadd8,
};

verus! {

/// The octal fields of an opcode: (x, y, z) = (op / 64, (op / 8) % 8, op % 8).
fn decode(op: u8) -> (r: (u8, u8, u8))
    ensures
        r.0 == op / 64,
        r.1 == (op / 8) % 8,
        r.2 == op % 8,
        r.1 < 8,
        r.2 < 8,
{
    let x = op >> 6;
    let y = (op >> 3) & 7;
    let z = op & 7;
    assert(x == op / 64 && y == (op / 8) % 8 && z == op % 8) by (bit_vector)
        requires
            x == op >> 6u8,
            y == (op >> 3u8) & 7,
            z == op & 7,
    ;
    (x, y, z)
}

impl Cpu {
    /// Register pair `p` (BC, DE, HL, SP).
    fn rp_read(&self, p: u8) -> (v: u16)
        requires
            p < 4,
        ensures
            v == rp(*self, p as int),
    {
        match p {
            0 => self.bc(),
            1 => self.de(),
            2 => self.hl(),
            _ => self.sp,
        }
    }

    /// Stores `v` into register pair `p` (BC, DE, HL, SP).
    fn rp_write(&mut self, p: u8, v: u16)
        requires
            p < 4,
        ensures
            *final(self) == set_rp(*old(self), p as int, v),
    {
        match p {
            0 => self.set_bc(v),
            1 => self.set_de(v),
            2 => self.set_hl(v),
            _ => self.sp = v,
        }
    }

    /// Branch condition `y` (NZ, Z, NC, C).
    fn condition(&self, y: u8) -> (r: bool)
        requires
            y < 4,
        ensures
            r == cond(*self, y as int),
    {
        match y {
            0 => !self.zf(),
            1 => self.zf(),
            2 => !self.cf(),
            _ => self.cf(),
        }
    }

    /// ALU operation `y` (ADD, ADC, SUB, SBC, AND, XOR, OR, CP) on A and `val`.
    fn alu(&mut self, y: u8, val: u8)
        requires
            y < 8,
        ensures
            *final(self) == alu_spec(*old(self), y as int, val),
    {
        match y {
            0 => self.alu_add(val, false),
            1 => self.alu_add(val, true),
            2 => self.alu_sub(val, false),
            3 => self.alu_sub(val, true),
            4 => self.alu_and(val),
            5 => self.alu_xor(val),
            6 => self.alu_or(val),
            _ => self.alu_cp(val),
        }
    }

    /// The carry flag as 0 or 1.
    fn carry_value(&self) -> (r: u8)
        ensures
            r == carry_bit(*self),
    {
        if self.cf() {
            1
        } else {
            0
        }
    }

    /// Executes the opcode `op` that was just fetched; returns the T-cycles taken.
    pub(crate) fn execute(&mut self, op: u8, bus: &mut Bus) -> (cycles: u32)
        requires
            old(bus)@.wf(),
            !undefined_opcode(op),
        ensures
            (*final(self), final(bus)@, cycles) == execute_spec(*old(self), old(bus)@, op),
            final(bus)@.wf(),
    {
        if op < 0x40 {
            self.exec_block0(op, bus)
        } else if op < 0x80 {
            self.exec_block1(op, bus)
        } else if op < 0xC0 {
            self.exec_block2(op, bus)
        } else {
            self.exec_block3(op, bus)
        }
    }

    /// Opcodes 0x00-0x3F.
    fn exec_block0(&mut self, op: u8, bus: &mut Bus) -> (cycles: u32)
        requires
            old(bus)@.wf(),
            op < 0x40,
        ensures
            (*final(self), final(bus)@, cycles) == block0(*old(self), old(bus)@, op),
            final(bus)@.wf(),
    {
        reveal(block0);
        let (_x, y, z) = decode(op);
        let p = y / 2;
        let q = y % 2;
        match z {
            0 => self.exec_jumps(y, bus),
            1 => self.exec_word(p, q, bus),
            2 => self.exec_indirect(p, q, bus),
            3 => {
                // INC rr / DEC rr
                let v = self.rp_read(p);
                let nv = if q == 0 {
                    v.wrapping_add(1)
                } else {
                    v.wrapping_sub(1)
                };
                self.rp_write(p, nv);
                8
            },
            4 => {
                // INC r
                let old = self.reg_read(y, bus);
                let result = old.wrapping_add(1);
                self.set_zf(result == 0);
                self.set_nf(false);
                self.set_hf((old & 0xF) == 0xF);
                self.reg_write(y, result, bus);
                if y == 6 {
                    12
                } else {
                    4
                }
            },
            5 => {
                // DEC r
                let old = self.reg_read(y, bus);
                let result = old.wrapping_sub(1);
                self.set_zf(result == 0);
                self.set_nf(true);
                self.set_hf((old & 0xF) == 0x0);
                self.reg_write(y, result, bus);
                if y == 6 {
                    12
                } else {
                    4
                }
            },
            6 => {
                // LD r,n
                let n = self.fetch_byte(bus);
                self.reg_write(y, n, bus);
                if y == 6 {
                    12
                } else {
                    8
                }
            },
            _ => {
                self.exec_accumulator_misc(y);
                4
            },
        }
    }

    /// Opcodes 0x00, 0x08, ..., 0x38: NOP, LD (a16),SP, STOP, JR e, JR cc,e.
    fn exec_jumps(&mut self, y: u8, bus: &mut Bus) -> (cycles: u32)
        requires
            old(bus)@.wf(),
            y < 8,
        ensures
            (*final(self), final(bus)@, cycles) == block0_jumps(*old(self), old(bus)@, y),
            final(bus)@.wf(),
    {
        reveal(block0_jumps);
        if y == 0 {
            // NOP
            4
        } else if y == 1 {
            // LD (a16),SP
            let addr = self.fetch_word(bus);
            let (hi, lo) = split_word(self.sp);
            bus.write(addr, lo);
            bus.write(addr.wrapping_add(1), hi);
            20
        } else if y == 2 {
            // STOP: the padding byte is consumed
            self.fetch_byte(bus);
            4
        } else {
            let e = self.fetch_byte(bus);
            if y == 3 || self.condition(y - 4) {
                self.pc = offset16(self.pc, e);
                12
            } else {
                8
            }
        }
    }

    /// Opcodes 0x01, 0x09, ..., 0x39: LD rr,nn and ADD HL,rr.
    fn exec_word(&mut self, p: u8, q: u8, bus: &mut Bus) -> (cycles: u32)
        requires
            old(bus)@.wf(),
            p < 4,
            q < 2,
        ensures
            (*final(self), final(bus)@, cycles) == block0_word(*old(self), old(bus)@, p, q),
            final(bus)@.wf(),
    {
        reveal(block0_word);
        if q == 0 {
            // LD rr,nn
            let nn = self.fetch_word(bus);
            self.rp_write(p, nn);
            12
        } else {
            // ADD HL,rr: Z kept, N := 0, H from bit 11, C from bit 15
            let hl = self.hl();
            let rr = self.rp_read(p);
            let result: u32 = hl as u32 + rr as u32;
            assert(hl & 0xFFF <= 0xFFF && rr & 0xFFF <= 0xFFF) by (bit_vector);
            self.set_nf(false);
            self.set_hf((hl & 0xFFF) + (rr & 0xFFF) > 0xFFF);
            self.set_cf(result > 0xFFFF);
            assert(result as u16 == result % 65536) by (bit_vector);
            self.set_hl(result as u16);
            8
        }
    }

    /// Opcodes 0x02, 0x0A, ..., 0x3A: LD (BC/DE/HL+/HL-),A and LD A,(BC/DE/HL+/HL-).
    fn exec_indirect(&mut self, p: u8, q: u8, bus: &mut Bus) -> (cycles: u32)
        requires
            old(bus)@.wf(),
            p < 4,
            q < 2,
        ensures
            (*final(self), final(bus)@, cycles) == block0_indirect(*old(self), old(bus)@, p, q),
            final(bus)@.wf(),
    {
        reveal(block0_indirect);
        let addr = match p {
            0 => self.bc(),
            1 => self.de(),
            _ => self.hl(),
        };
        if p == 2 {
            self.set_hl(addr.wrapping_add(1));
        } else if p == 3 {
            self.set_hl(addr.wrapping_sub(1));
        }
        if q == 0 {
            bus.write(addr, self.a);
        } else {
            self.a = bus.read(addr);
        }
        8
    }

    /// Opcodes 0x07, 0x0F, ..., 0x3F: RLCA, RRCA, RLA, RRA, DAA, CPL, SCF, CCF.
    fn exec_accumulator_misc(&mut self, y: u8)
        requires
            y < 8,
        ensures
            *final(self) == block0_misc(*old(self), y as int),
    {
        reveal(block0_misc);
        let a = self.a;
        if y == 0 {
            let bit7 = a >> 7u8;
            self.a = (a << 1u8) | bit7;
            self.set_rot_flags(bit7 != 0);
        } else if y == 1 {
            let bit0 = a & 1;
            self.a = (a >> 1u8) | (bit0 << 7u8);
            self.set_rot_flags(bit0 != 0);
        } else if y == 2 {
            let old_c = self.carry_value();
            let bit7 = a >> 7u8;
            self.a = (a << 1u8) | old_c;
            self.set_rot_flags(bit7 != 0);
        } else if y == 3 {
            let old_c = self.carry_value();
            let bit0 = a & 1;
            self.a = (a >> 1u8) | (old_c << 7u8);
            self.set_rot_flags(bit0 != 0);
        } else if y == 4 {
            self.daa();
        } else if y == 5 {
            self.a = !a;
            self.set_nf(true);
            self.set_hf(true);
        } else if y == 6 {
            self.set_nf(false);
            self.set_hf(false);
            self.set_cf(true);
        } else {
            let c = self.cf();
            self.set_nf(false);
            self.set_hf(false);
            self.set_cf(!c);
        }
    }

    /// Flags of the accumulator rotates: Z, N, H := 0, C := `c`.
    fn set_rot_flags(&mut self, c: bool)
        ensures
            *final(self) == (Cpu { f: rot_flags(old(self).f, c), ..*old(self) }),
    {
        self.set_zf(false);
        self.set_nf(false);
        self.set_hf(false);
        self.set_cf(c);
    }

    /// DAA: decimal adjust of A.
    fn daa(&mut self)
        ensures
            *final(self) == daa_spec(*old(self)),
    {
        let mut a = self.a;
        let nf = self.nf();
        let hf = self.hf();
        let old_cf = self.cf();
        let mut new_cf = old_cf;
        if !nf {
            if old_cf || a > 0x99 {
                a = add_mod256(a, 0x60);
                new_cf = true;
            }
            if hf || (a & 0x0F) > 0x09 {
                a = add_mod256(a, 0x06);
            }
        } else {
            if old_cf {
                a = sub_mod256(a, 0x60);
            }
            if hf {
                a = sub_mod256(a, 0x06);
            }
        }
        self.a = a;
        self.set_zf(a == 0);
        self.set_hf(false);
        self.set_cf(new_cf);
    }

    /// Opcodes 0x40-0x7F: LD r,r' and HALT.
    fn exec_block1(&mut self, op: u8, bus: &mut Bus) -> (cycles: u32)
        requires
            old(bus)@.wf(),
            0x40 <= op < 0x80,
        ensures
            (*final(self), final(bus)@, cycles) == block1(*old(self), old(bus)@, op),
            final(bus)@.wf(),
    {
        reveal(block1);
        if op == 0x76 {
            if !self.ime && (bus.if_reg() & bus.ie() & 0x1F) != 0 {
                self.halt_bug = true;
            } else {
                self.halted = true;
            }
            4
        } else {
            let (_x, dst, src) = decode(op);
            let val = self.reg_read(src, bus);
            let cycles = if src == 6 || dst == 6 {
                8
            } else {
                4
            };
            self.reg_write(dst, val, bus);
            cycles
        }
    }

    /// Opcodes 0x80-0xBF: ALU operation on A and an 8-bit operand.
    fn exec_block2(&mut self, op: u8, bus: &mut Bus) -> (cycles: u32)
        requires
            old(bus)@.wf(),
            0x80 <= op < 0xC0,
        ensures
            (*final(self), final(bus)@, cycles) == block2(*old(self), old(bus)@, op),
            final(bus)@.wf(),
    {
        reveal(block2);
        let (_x, y, r) = decode(op);
        let val = self.reg_read(r, bus);
        let cycles = if r == 6 {
            8
        } else {
            4
        };
        self.alu(y, val);
        cycles
    }

    /// Opcodes 0xC0-0xFF.
    fn exec_block3(&mut self, op: u8, bus: &mut Bus) -> (cycles: u32)
        requires
            old(bus)@.wf(),
            0xC0 <= op,
            !undefined_opcode(op),
        ensures
            (*final(self), final(bus)@, cycles) == block3(*old(self), old(bus)@, op),
            final(bus)@.wf(),
    {
        reveal(block3);
        let (_x, y, z) = decode(op);
        assert(op == 0xC0 + y * 8 + z) by (bit_vector)
            requires
                0xC0 <= op,
                y == (op / 8) % 8,
                z == op % 8,
        ;
        let p = y / 2;
        let q = y % 2;
        match z {
            0 => self.exec_ret_ldh(y, bus),
            1 => self.exec_pop_ret(p, q, bus),
            2 => self.exec_jp_ld(y, bus),
            3 => self.exec_block3_misc(y, bus),
            4 => {
                // CALL cc,nn
                let nn = self.fetch_word(bus);
                if self.condition(y) {
                    self.push_word(self.pc, bus);
                    self.pc = nn;
                    24
                } else {
                    12
                }
            },
            5 => self.exec_push_call(p, q, bus),
            6 => {
                // ALU A,n
                let n = self.fetch_byte(bus);
                self.alu(y, n);
                8
            },
            _ => {
                // RST: vector in bits 5-3
                let vec = (op & 0x38) as u16;
                assert(op & 0x38 == y * 8) by (bit_vector)
                    requires
                        y == (op / 8) % 8,
                ;
                self.push_word(self.pc, bus);
                self.pc = vec;
                16
            },
        }
    }

    /// Opcodes 0xC0, 0xC8, ..., 0xF8: RET cc, LDH (a8),A, ADD SP,e, LDH A,(a8), LD HL,SP+e.
    fn exec_ret_ldh(&mut self, y: u8, bus: &mut Bus) -> (cycles: u32)
        requires
            old(bus)@.wf(),
            y < 8,
        ensures
            (*final(self), final(bus)@, cycles) == block3_ret_ldh(*old(self), old(bus)@, y),
            final(bus)@.wf(),
    {
        reveal(block3_ret_ldh);
        if y < 4 {
            // RET cc
            if self.condition(y) {
                self.pc = self.pop_word(bus);
                20
            } else {
                8
            }
        } else if y == 4 {
            // LDH (a8),A
            let a8 = self.fetch_byte(bus);
            bus.write(high_page(a8), self.a);
            12
        } else if y == 6 {
            // LDH A,(a8)
            let a8 = self.fetch_byte(bus);
            self.a = bus.read(high_page(a8));
            12
        } else {
            // ADD SP,e / LD HL,SP+e: flags from the low nibble and byte of SP and e
            let e = self.fetch_byte(bus);
            let sp = self.sp;
            assert(sp & 0xF <= 0xF && e & 0xF <= 0xF && sp & 0xFF <= 0xFF) by (bit_vector);
            self.set_zf(false);
            self.set_nf(false);
            self.set_hf((sp & 0xF) + (e & 0xF) as u16 > 0xF);
            self.set_cf((sp & 0xFF) + e as u16 > 0xFF);
            let result = offset16(sp, e);
            if y == 5 {
                self.sp = result;
                16
            } else {
                self.set_hl(result);
                12
            }
        }
    }

    /// Opcodes 0xC1, 0xC9, ..., 0xF9: POP rr, RET, RETI, JP HL, LD SP,HL.
    fn exec_pop_ret(&mut self, p: u8, q: u8, bus: &mut Bus) -> (cycles: u32)
        requires
            old(bus)@.wf(),
            p < 4,
            q < 2,
        ensures
            (*final(self), final(bus)@, cycles) == block3_pop_ret(*old(self), old(bus)@, p, q),
            final(bus)@.wf(),
    {
        reveal(block3_pop_ret);
        if q == 0 {
            // POP rr
            let v = self.pop_word(bus);
            if p == 3 {
                self.set_af(v);
            } else {
                self.rp_write(p, v);
            }
            12
        } else if p == 0 {
            // RET
            self.pc = self.pop_word(bus);
            16
        } else if p == 1 {
            // RETI: return and enable IME immediately
            self.pc = self.pop_word(bus);
            self.ime = true;
            16
        } else if p == 2 {
            // JP HL
            self.pc = self.hl();
            4
        } else {
            // LD SP,HL
            self.sp = self.hl();
            8
        }
    }

    /// Opcodes 0xC2, 0xCA, ..., 0xFA: JP cc,nn, LD (C),A, LD (a16),A, LD A,(C), LD A,(a16).
    fn exec_jp_ld(&mut self, y: u8, bus: &mut Bus) -> (cycles: u32)
        requires
            old(bus)@.wf(),
            y < 8,
        ensures
            (*final(self), final(bus)@, cycles) == block3_jp_ld(*old(self), old(bus)@, y),
            final(bus)@.wf(),
    {
        reveal(block3_jp_ld);
        if y < 4 {
            // JP cc,nn
            let nn = self.fetch_word(bus);
            if self.condition(y) {
                self.pc = nn;
                16
            } else {
                12
            }
        } else if y == 4 {
            // LD (C),A
            bus.write(high_page(self.c), self.a);
            8
        } else if y == 5 {
            // LD (a16),A
            let addr = self.fetch_word(bus);
            bus.write(addr, self.a);
            16
        } else if y == 6 {
            // LD A,(C)
            self.a = bus.read(high_page(self.c));
            8
        } else {
            // LD A,(a16)
            let addr = self.fetch_word(bus);
            self.a = bus.read(addr);
            16
        }
    }

    /// Opcodes 0xC3, 0xCB, 0xF3, 0xFB: JP nn, the CB prefix, DI, EI.
    fn exec_block3_misc(&mut self, y: u8, bus: &mut Bus) -> (cycles: u32)
        requires
            old(bus)@.wf(),
        ensures
            (*final(self), final(bus)@, cycles) == block3_misc(*old(self), old(bus)@, y),
            final(bus)@.wf(),
    {
        reveal(block3_misc);
        if y == 0 {
            // JP nn
            self.pc = self.fetch_word(bus);
            16
        } else if y == 1 {
            // CB prefix
            let cb_op = self.fetch_byte(bus);
            self.step_cb(cb_op, bus)
        } else if y == 6 {
            // DI
            self.ime = false;
            self.ime_pending = false;
            4
        } else {
            // EI: arms IME, which turns on at the end of the next instruction
            self.ime_pending = true;
            4
        }
    }

    /// Opcodes 0xC5, 0xCD, ..., 0xF5: PUSH rr and CALL nn.
    fn exec_push_call(&mut self, p: u8, q: u8, bus: &mut Bus) -> (cycles: u32)
        requires
            old(bus)@.wf(),
            p < 4,
        ensures
            (*final(self), final(bus)@, cycles) == block3_push_call(*old(self), old(bus)@, p, q),
            final(bus)@.wf(),
    {
        reveal(block3_push_call);
        if q == 0 {
            // PUSH rr
            let v = if p == 3 {
                self.af()
            } else {
                self.rp_read(p)
            };
            self.push_word(v, bus);
            16
        } else {
            // CALL nn
            let nn = self.fetch_word(bus);
            self.push_word(self.pc, bus);
            self.pc = nn;
            24
        }
    }

    /// CB-prefixed opcodes; returns the T-cycles taken.
    fn step_cb(&mut self, opcode: u8, bus: &mut Bus) -> (cycles: u32)
        requires
            old(bus)@.wf(),
        ensures
            (*final(self), final(bus)@, cycles) == cb_spec(*old(self), old(bus)@, opcode),
            final(bus)@.wf(),
    {
        reveal(cb_spec);
        let (x, b, r) = decode(opcode);
        let val = self.reg_read(r, bus);
        let is_hl = r == 6;
        if x == 0 {
            let result = if b == 0 {
                // RLC
                let c = val >> 7u8;
                self.set_cf(c != 0);
                (val << 1u8) | c
            } else if b == 1 {
                // RRC
                let c = val & 1;
                self.set_cf(c != 0);
                (val >> 1u8) | (c << 7u8)
            } else if b == 2 {
                // RL
                let old_c = self.carry_value();
                self.set_cf(val >> 7u8 != 0);
                (val << 1u8) | old_c
            } else if b == 3 {
                // RR
                let old_c = self.carry_value();
                self.set_cf(val & 1 != 0);
                (val >> 1u8) | (old_c << 7u8)
            } else if b == 4 {
                // SLA
                self.set_cf(val >> 7u8 != 0);
                val << 1u8
            } else if b == 5 {
                // SRA
                self.set_cf(val & 1 != 0);
                (val >> 1u8) | (val & 0x80)
            } else if b == 6 {
                // SWAP
                self.set_cf(false);
                (val << 4u8) | (val >> 4u8)
            } else {
                // SRL
                self.set_cf(val & 1 != 0);
                val >> 1u8
            };
            self.set_zf(result == 0);
            self.set_nf(false);
            self.set_hf(false);
            self.reg_write(r, result, bus);
            if is_hl {
                16
            } else {
                8
            }
        } else if x == 1 {
            // BIT b,r
            self.set_zf(val & (1u8 << b) == 0);
            self.set_nf(false);
            self.set_hf(true);
            if is_hl {
                12
            } else {
                8
            }
        } else if x == 2 {
            // RES b,r
            self.reg_write(r, val & !(1u8 << b), bus);
            if is_hl {
                16
            } else {
                8
            }
        } else {
            // SET b,r
            self.reg_write(r, val | (1u8 << b), bus);
            if is_hl {
                16
            } else {
                8
            }
        }
    }
}

/// `a + d` modulo 256.
fn add_mod256(a: u8, d: u8) -> (r: u8)
    ensures
        r == wadd8(a, d as int),
{
    a.wrapping_add(d)
}

/// `a - d` modulo 256.
fn sub_mod256(a: u8, d: u8) -> (r: u8)
    ensures
        r == wadd8(a, -d),
{
    a.wrapping_sub(d)
}

/// `0xFF00 | lo`: the high page address used by LDH and LD (C).
fn high_page(lo: u8) -> (r: u16)
    ensures
        r == (0xFF00 + lo) as u16,
{
    let r = 0xFF00u16 | lo as u16;
    assert(r == 0xFF00 + lo) by (bit_vector)
        requires
            r == 0xFF00u16 | lo as u16,
    ;
    r
}

/// `base` moved by the signed offset `e`, modulo 2^16 (JR, ADD SP,e, LD HL,SP+e).
fn offset16(base: u16, e: u8) -> (r: u16)
    ensures
        r == wadd16(base, sext8(e)),
{
    let r = base.wrapping_add(e as i8 as i16 as u16);
    assert(r as int == (base as int + (if e < 128 {
        e as int
    } else {
        e as int - 256
    })) % 65536) by (bit_vector)
        requires
            r == base.wrapping_add(e as i8 as i16 as u16),
    ;
    r
}

} // verus!
