use gpuboy_core::bus::Bus;
use gpuboy_core::cartridge::Cartridge;
use gpuboy_core::cpu::{is_undefined_opcode, Cpu};

fn make_cpu_bus(rom_patch: &[(u16, u8)]) -> (Cpu, Bus) {
    let mut rom = vec![0u8; 0x8000];
    rom[0x0147] = 0x00;
    for &(addr, val) in rom_patch {
        rom[addr as usize] = val;
    }
    let cart = Cartridge::load(rom).unwrap();
    (Cpu::new(), Bus::new(cart))
}

/// Places `code` at 0x0100 and returns the machine ready to run it.
fn with_program(code: &[u8]) -> (Cpu, Bus) {
    let patch: Vec<(u16, u8)> = code
        .iter()
        .enumerate()
        .map(|(i, &b)| (0x0100 + i as u16, b))
        .collect();
    make_cpu_bus(&patch)
}

#[test]
fn post_boot_state() {
    let cpu = Cpu::new();
    assert_eq!(cpu.a, 0x01);
    assert_eq!(cpu.f, 0xB0);
    assert_eq!(cpu.bc(), 0x0013);
    assert_eq!(cpu.de(), 0x00D8);
    assert_eq!(cpu.hl(), 0x014D);
    assert_eq!(cpu.sp, 0xFFFE);
    assert_eq!(cpu.pc, 0x0100);
    assert!(!cpu.ime);
}

#[test]
fn flags_roundtrip() {
    let mut cpu = Cpu::new();
    cpu.f = 0x00;
    cpu.set_zf(true);
    cpu.set_nf(true);
    cpu.set_hf(true);
    cpu.set_cf(true);
    assert_eq!(cpu.f, 0xF0);
    assert!(cpu.zf() && cpu.nf() && cpu.hf() && cpu.cf());
    cpu.set_zf(false);
    cpu.set_cf(false);
    assert_eq!(cpu.f, 0x60);
    assert_eq!(cpu.f & 0x0F, 0x00); // lower nibble always 0
}

#[test]
fn set_af_masks_lower_nibble() {
    let mut cpu = Cpu::new();
    cpu.set_af(0x12FF);
    assert_eq!(cpu.a, 0x12);
    assert_eq!(cpu.f, 0xF0); // lower nibble zeroed
}

#[test]
fn fetch_byte_advances_pc() {
    let (mut cpu, mut bus) = make_cpu_bus(&[(0x0100, 0x42)]);
    let b = cpu.fetch_byte(&mut bus);
    assert_eq!(b, 0x42);
    assert_eq!(cpu.pc, 0x0101);
}

#[test]
fn fetch_word_little_endian() {
    let (mut cpu, mut bus) = make_cpu_bus(&[(0x0100, 0x34), (0x0101, 0x12)]);
    let w = cpu.fetch_word(&mut bus);
    assert_eq!(w, 0x1234);
    assert_eq!(cpu.pc, 0x0102);
}

#[test]
fn pair_setters_roundtrip() {
    let mut cpu = Cpu::new();
    cpu.set_bc(0xBEEF);
    cpu.set_de(0x1234);
    cpu.set_hl(0xC0DE);
    assert_eq!((cpu.b, cpu.c), (0xBE, 0xEF));
    assert_eq!(cpu.bc(), 0xBEEF);
    assert_eq!(cpu.de(), 0x1234);
    assert_eq!(cpu.hl(), 0xC0DE);
    cpu.set_af(0xABCD);
    assert_eq!(cpu.af(), 0xABC0);
}

#[test]
fn alu_add_half_and_full_carry() {
    let mut cpu = Cpu::new();
    cpu.a = 0x3A;
    cpu.f = 0;
    cpu.alu_add(0xC6, false);
    assert_eq!(cpu.a, 0x00);
    assert_eq!(cpu.f, 0xB0); // Z, H, C
    cpu.a = 0x0F;
    cpu.f = 0x10; // carry in
    cpu.alu_add(0x00, true);
    assert_eq!(cpu.a, 0x10);
    assert_eq!(cpu.f, 0x20); // H only
}

#[test]
fn alu_sub_borrow_flags() {
    let mut cpu = Cpu::new();
    cpu.a = 0x3E;
    cpu.f = 0;
    cpu.alu_sub(0x3E, false);
    assert_eq!(cpu.a, 0);
    assert_eq!(cpu.f, 0xC0); // Z, N
    cpu.a = 0x10;
    cpu.f = 0x10;
    cpu.alu_sub(0x01, true);
    assert_eq!(cpu.a, 0x0E);
    assert_eq!(cpu.f, 0x60); // N, H
    cpu.a = 0x00;
    cpu.f = 0;
    cpu.alu_cp(0x01);
    assert_eq!(cpu.a, 0x00);
    assert_eq!(cpu.f, 0x70); // N, H, C
}

#[test]
fn alu_logic_flags() {
    let mut cpu = Cpu::new();
    cpu.a = 0xF0;
    cpu.f = 0;
    cpu.alu_and(0x0F);
    assert_eq!((cpu.a, cpu.f), (0x00, 0xA0));
    cpu.a = 0x0F;
    cpu.alu_or(0xF0);
    assert_eq!((cpu.a, cpu.f), (0xFF, 0x00));
    cpu.alu_xor(0xFF);
    assert_eq!((cpu.a, cpu.f), (0x00, 0x80));
}

#[test]
fn step_ld_and_inc() {
    // LD B,0xFF; INC B; DEC B
    let (mut cpu, mut bus) = with_program(&[0x06, 0xFF, 0x04, 0x05]);
    assert_eq!(cpu.step(&mut bus), 8);
    assert_eq!(cpu.b, 0xFF);
    assert_eq!(cpu.step(&mut bus), 4);
    assert_eq!(cpu.b, 0x00);
    assert_eq!(cpu.f & 0xE0, 0xA0); // Z, H; N clear
    assert_eq!(cpu.step(&mut bus), 4);
    assert_eq!(cpu.b, 0xFF);
    assert_eq!(cpu.f & 0xE0, 0x60); // N, H
    assert_eq!(cpu.pc, 0x0104);
}

#[test]
fn step_daa_after_bcd_add() {
    // LD A,0x45; ADD A,0x38; DAA  -> 45 + 38 = 83 in BCD
    let (mut cpu, mut bus) = with_program(&[0x3E, 0x45, 0xC6, 0x38, 0x27]);
    cpu.step(&mut bus);
    cpu.step(&mut bus);
    assert_eq!(cpu.a, 0x7D);
    assert_eq!(cpu.step(&mut bus), 4);
    assert_eq!(cpu.a, 0x83);
    assert!(!cpu.cf());
}

#[test]
fn step_push_pop_restores() {
    // LD BC,0x1234; PUSH BC; POP DE
    let (mut cpu, mut bus) = with_program(&[0x01, 0x34, 0x12, 0xC5, 0xD1]);
    assert_eq!(cpu.step(&mut bus), 12);
    assert_eq!(cpu.step(&mut bus), 16);
    assert_eq!(cpu.sp, 0xFFFC);
    assert_eq!(bus.read(0xFFFD), 0x12);
    assert_eq!(bus.read(0xFFFC), 0x34);
    assert_eq!(cpu.step(&mut bus), 12);
    assert_eq!(cpu.de(), 0x1234);
    assert_eq!(cpu.sp, 0xFFFE);
}

#[test]
fn step_pop_af_clears_low_nibble() {
    // LD BC,0x12FF; PUSH BC; POP AF
    let (mut cpu, mut bus) = with_program(&[0x01, 0xFF, 0x12, 0xC5, 0xF1]);
    cpu.step(&mut bus);
    cpu.step(&mut bus);
    cpu.step(&mut bus);
    assert_eq!(cpu.a, 0x12);
    assert_eq!(cpu.f, 0xF0);
}

#[test]
fn step_call_and_ret() {
    // CALL 0x0200 ... at 0x0200: RET
    let (mut cpu, mut bus) = make_cpu_bus(&[(0x0100, 0xCD), (0x0101, 0x00), (0x0102, 0x02), (0x0200, 0xC9)]);
    assert_eq!(cpu.step(&mut bus), 24);
    assert_eq!(cpu.pc, 0x0200);
    assert_eq!(cpu.sp, 0xFFFC);
    assert_eq!(cpu.step(&mut bus), 16);
    assert_eq!(cpu.pc, 0x0103);
    assert_eq!(cpu.sp, 0xFFFE);
}

#[test]
fn step_jr_negative_offset() {
    // JR -2 loops on itself
    let (mut cpu, mut bus) = with_program(&[0x18, 0xFE]);
    assert_eq!(cpu.step(&mut bus), 12);
    assert_eq!(cpu.pc, 0x0100);
}

#[test]
fn step_conditional_jump_timing() {
    // XOR A (Z set); JR NZ,+5 (not taken); JP Z,0x0300 (taken)
    let (mut cpu, mut bus) = with_program(&[0xAF, 0x20, 0x05, 0xCA, 0x00, 0x03]);
    cpu.step(&mut bus);
    assert_eq!(cpu.step(&mut bus), 8);
    assert_eq!(cpu.pc, 0x0103);
    assert_eq!(cpu.step(&mut bus), 16);
    assert_eq!(cpu.pc, 0x0300);
}

#[test]
fn step_cb_ops() {
    // LD A,0x81; RLC A; SWAP A; BIT 7,A; SET 0,B; RES 7,A
    let (mut cpu, mut bus) =
        with_program(&[0x3E, 0x81, 0xCB, 0x07, 0xCB, 0x37, 0xCB, 0x7F, 0xCB, 0xC0, 0xCB, 0xBF]);
    cpu.b = 0;
    cpu.step(&mut bus);
    assert_eq!(cpu.step(&mut bus), 8);
    assert_eq!(cpu.a, 0x03);
    assert!(cpu.cf());
    cpu.step(&mut bus);
    assert_eq!(cpu.a, 0x30);
    assert!(!cpu.cf());
    cpu.step(&mut bus);
    assert!(cpu.zf() && cpu.hf() && !cpu.nf());
    cpu.step(&mut bus);
    assert_eq!(cpu.b, 0x01);
    cpu.a = 0xFF;
    cpu.step(&mut bus);
    assert_eq!(cpu.a, 0x7F);
}

#[test]
fn step_cb_on_memory_timing() {
    // LD HL,0xC000; SET 3,(HL); BIT 3,(HL)
    let (mut cpu, mut bus) = with_program(&[0x21, 0x00, 0xC0, 0xCB, 0xDE, 0xCB, 0x5E]);
    cpu.step(&mut bus);
    assert_eq!(cpu.step(&mut bus), 16);
    assert_eq!(bus.read(0xC000), 0x08);
    assert_eq!(cpu.step(&mut bus), 12);
    assert!(!cpu.zf());
}

#[test]
fn step_add_sp_e_flags() {
    // LD SP,0x00FF; ADD SP,1
    let (mut cpu, mut bus) = with_program(&[0x31, 0xFF, 0x00, 0xE8, 0x01]);
    cpu.step(&mut bus);
    assert_eq!(cpu.step(&mut bus), 16);
    assert_eq!(cpu.sp, 0x0100);
    assert_eq!(cpu.f, 0x30); // H and C, Z and N clear
}

#[test]
fn step_add_hl_keeps_zero_flag() {
    // LD HL,0x8FFF; LD BC,0x7001; ADD HL,BC
    let (mut cpu, mut bus) = with_program(&[0x21, 0xFF, 0x8F, 0x01, 0x01, 0x70, 0x09]);
    cpu.f = 0x80;
    cpu.step(&mut bus);
    cpu.step(&mut bus);
    assert_eq!(cpu.step(&mut bus), 8);
    assert_eq!(cpu.hl(), 0x0000);
    assert_eq!(cpu.f, 0xB0); // Z kept, H, C
}

#[test]
fn step_ldh_and_indirect_increment() {
    // LD A,0x5A; LDH (0x80),A; LD HL,0xC000; LD (HL+),A; LD A,(0xFF80)
    let (mut cpu, mut bus) =
        with_program(&[0x3E, 0x5A, 0xE0, 0x80, 0x21, 0x00, 0xC0, 0x22, 0xFA, 0x80, 0xFF]);
    cpu.step(&mut bus);
    assert_eq!(cpu.step(&mut bus), 12);
    assert_eq!(bus.read(0xFF80), 0x5A);
    cpu.step(&mut bus);
    assert_eq!(cpu.step(&mut bus), 8);
    assert_eq!(bus.read(0xC000), 0x5A);
    assert_eq!(cpu.hl(), 0xC001);
    cpu.a = 0;
    assert_eq!(cpu.step(&mut bus), 16);
    assert_eq!(cpu.a, 0x5A);
}

#[test]
fn step_interrupt_dispatch() {
    let (mut cpu, mut bus) = with_program(&[0x00]);
    cpu.ime = true;
    bus.write(0xFFFF, 0x05); // VBlank and timer enabled
    bus.write(0xFF0F, 0x04); // timer requested
    assert_eq!(cpu.step(&mut bus), 20);
    assert_eq!(cpu.pc, 0x0050);
    assert!(!cpu.ime);
    assert_eq!(bus.if_reg(), 0x00);
    assert_eq!(cpu.sp, 0xFFFC);
    assert_eq!(bus.read(0xFFFD), 0x01);
    assert_eq!(bus.read(0xFFFC), 0x00);
}

#[test]
fn step_interrupt_lowest_bit_first() {
    let (mut cpu, mut bus) = with_program(&[0x00]);
    cpu.ime = true;
    bus.write(0xFFFF, 0x1F);
    bus.write(0xFF0F, 0x12); // STAT and joypad
    cpu.step(&mut bus);
    assert_eq!(cpu.pc, 0x0048);
    assert_eq!(bus.if_reg(), 0x10);
}

#[test]
fn step_ei_delay() {
    // EI; NOP; NOP: no dispatch during EI nor during the NOP after it
    let (mut cpu, mut bus) = with_program(&[0xFB, 0x00, 0x00]);
    bus.write(0xFF0F, 0x01);
    bus.write(0xFFFF, 0x01);
    assert_eq!(cpu.step(&mut bus), 4);
    assert!(!cpu.ime && cpu.ime_pending);
    assert_eq!(cpu.step(&mut bus), 4);
    assert_eq!(cpu.pc, 0x0102);
    assert_eq!(bus.if_reg(), 0x01);
    assert!(cpu.ime && !cpu.ime_pending);
    assert_eq!(cpu.step(&mut bus), 20);
    assert_eq!(cpu.pc, 0x0040);
    assert_eq!(cpu.sp, 0xFFFC);
    assert_eq!(bus.if_reg(), 0x00);
    assert!(!cpu.ime);
}

#[test]
fn step_ei_then_di_never_enables() {
    // EI; DI: the DI cancels the armed EI
    let (mut cpu, mut bus) = with_program(&[0xFB, 0xF3, 0x00]);
    bus.write(0xFF0F, 0x01);
    bus.write(0xFFFF, 0x01);
    cpu.step(&mut bus);
    cpu.step(&mut bus);
    assert!(!cpu.ime && !cpu.ime_pending);
    assert_eq!(cpu.step(&mut bus), 4);
    assert_eq!(cpu.pc, 0x0103);
}

#[test]
fn step_di_cancels_pending_ei() {
    let (mut cpu, mut bus) = with_program(&[0xF3]);
    cpu.ime = true;
    cpu.ime_pending = true;
    cpu.step(&mut bus);
    assert!(!cpu.ime && !cpu.ime_pending);
}

#[test]
fn step_halt_idles_and_wakes() {
    let (mut cpu, mut bus) = with_program(&[0x76, 0x00]);
    cpu.step(&mut bus);
    assert!(cpu.halted);
    assert_eq!(cpu.step(&mut bus), 4);
    assert_eq!(cpu.pc, 0x0101);
    bus.write(0xFFFF, 0x04);
    bus.write(0xFF0F, 0x04);
    cpu.step(&mut bus); // wakes, IME clear: executes NOP
    assert!(!cpu.halted);
    assert_eq!(cpu.pc, 0x0102);
}

#[test]
fn step_halt_bug_repeats_byte() {
    // HALT with IME clear and an interrupt pending; then INC A is read twice
    let (mut cpu, mut bus) = with_program(&[0x76, 0x3C, 0x00]);
    bus.write(0xFFFF, 0x01);
    bus.write(0xFF0F, 0x01);
    cpu.step(&mut bus);
    assert!(cpu.halt_bug && !cpu.halted);
    let a = cpu.a;
    cpu.step(&mut bus);
    assert_eq!(cpu.pc, 0x0101);
    cpu.step(&mut bus);
    assert_eq!(cpu.pc, 0x0102);
    assert_eq!(cpu.a, a.wrapping_add(2));
}

#[test]
fn step_rst_vector() {
    let (mut cpu, mut bus) = with_program(&[0xEF]); // RST 0x28
    assert_eq!(cpu.step(&mut bus), 16);
    assert_eq!(cpu.pc, 0x0028);
    assert_eq!(bus.read(0xFFFC), 0x01);
}

#[test]
fn undefined_opcodes_are_detected() {
    let undefined = [0xD3u8, 0xDB, 0xDD, 0xE3, 0xE4, 0xEB, 0xEC, 0xED, 0xF4, 0xFC, 0xFD];
    for op in 0..=255u8 {
        assert_eq!(is_undefined_opcode(op), undefined.contains(&op), "opcode {op:#04X}");
    }
    let (cpu, bus) = with_program(&[0xDD]);
    assert!(cpu.undefined_ahead(&bus));
    let (cpu, bus) = with_program(&[0x00]);
    assert!(!cpu.undefined_ahead(&bus));
}

#[test]
fn reg_read_write_operands() {
    let (mut cpu, mut bus) = with_program(&[0x00]);
    cpu.set_hl(0xC010);
    cpu.reg_write(6, 0x46, &mut bus);
    assert_eq!(bus.read(0xC010), 0x46);
    assert_eq!(cpu.reg_read(6, &bus), 0x46);
    for r in [0u8, 1, 2, 3, 7] {
        cpu.reg_write(r, 0x40 + r, &mut bus);
        assert_eq!(cpu.reg_read(r, &bus), 0x40 + r);
    }
    assert_eq!((cpu.b, cpu.c, cpu.d, cpu.e, cpu.a), (0x40, 0x41, 0x42, 0x43, 0x47));
}

#[test]
fn defaults_are_post_boot() {
    let cpu = Cpu::default();
    assert_eq!((cpu.pc, cpu.sp, cpu.af()), (0x0100, 0xFFFE, 0x01B0));
    let ppu = gpuboy_core::ppu::Ppu::default();
    assert_eq!((ppu.lcdc, ppu.stat, ppu.bgp, ppu.mode), (0x91, 0x82, 0xFC, 2));
    let timer = gpuboy_core::timer::Timer::default();
    assert_eq!(timer.read(0xFF07), 0xF8);
}
