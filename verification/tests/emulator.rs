use gpuboy_core::{Emulator, StepError};

fn rom_with(code: &[u8]) -> Vec<u8> {
    let mut rom = vec![0u8; 0x8000];
    rom[0x0147] = 0x00;
    rom[0x0100..0x0100 + code.len()].copy_from_slice(code);
    rom
}

#[test]
fn serial_integration() {
    let mut rom = vec![0u8; 0x8000];
    rom[0x0147] = 0x00;
    let opcodes: &[u8] = &[
        0x3E, 0x48, // LD A,'H'
        0xE0, 0x01, // LDH (0xFF01),A  -- SB = 'H'
        0x3E, 0x81, // LD A,0x81
        0xE0, 0x02, // LDH (0xFF02),A  -- trigger transfer, captures 'H'
        0x3E, 0x69, // LD A,'i'
        0xE0, 0x01, // LDH (0xFF01),A  -- SB = 'i'
        0x3E, 0x81, // LD A,0x81
        0xE0, 0x02, // LDH (0xFF02),A  -- trigger transfer, captures 'i'
        0x18, 0xFE, // JR -2 (infinite loop)
    ];
    rom[0x0100..0x0100 + opcodes.len()].copy_from_slice(opcodes);
    let mut emu = Emulator::new(rom).unwrap();
    emu.step_frame();
    assert_eq!(emu.take_serial_output(), vec![0x48, 0x69]);
}

#[test]
fn new_reports_load_errors() {
    assert_eq!(Emulator::new(vec![0u8; 16]).err(), Some("ROM too small".to_string()));
    let mut rom = vec![0u8; 0x8000];
    rom[0x0147] = 0x42;
    assert_eq!(Emulator::new(rom).err(), Some("unsupported MBC: 0x42".to_string()));
}

#[test]
fn try_step_runs_and_counts_cycles() {
    let mut emu = Emulator::new(rom_with(&[0x00, 0xC3, 0x00, 0x01])).unwrap();
    assert_eq!(emu.try_step(), Ok(4));
    assert_eq!(emu.try_step(), Ok(16));
    assert_eq!(emu.cpu.pc, 0x0100);
    assert_eq!(emu.bus.ppu.dot, 20);
}

#[test]
fn try_step_refuses_undefined_opcode() {
    let mut emu = Emulator::new(rom_with(&[0x00, 0xED])).unwrap();
    assert_eq!(emu.try_step(), Ok(4));
    let sp = emu.cpu.sp;
    assert_eq!(emu.try_step(), Err(StepError::UndefinedOpcode { opcode: 0xED, pc: 0x0101 }));
    assert_eq!(emu.cpu.pc, 0x0101);
    assert_eq!(emu.cpu.sp, sp);
}

#[test]
fn try_step_refuses_saturated_window_counter() {
    let mut emu = Emulator::new(rom_with(&[0x00])).unwrap();
    emu.bus.ppu.window_line = 255;
    assert_eq!(emu.try_step(), Err(StepError::PpuCounters));
    assert_eq!(emu.cpu.pc, 0x0100);
}

#[test]
fn try_step_frame_matches_step_frame() {
    let code = [0x3C, 0x18, 0xFD]; // INC A; JR -3
    let mut a = Emulator::new(rom_with(&code)).unwrap();
    let mut b = Emulator::new(rom_with(&code)).unwrap();
    a.step_frame();
    assert_eq!(b.try_step_frame(), Ok(()));
    assert_eq!(a.cpu.a, b.cpu.a);
    assert_eq!(a.cpu.pc, b.cpu.pc);
    assert_eq!(a.bus.ppu.ly, b.bus.ppu.ly);
    assert_eq!(a.bus.ppu.dot, b.bus.ppu.dot);
    assert_eq!(a.get_framebuffer(), b.get_framebuffer());
}

#[test]
fn try_step_frame_stops_at_undefined_opcode() {
    let mut emu = Emulator::new(rom_with(&[0x00, 0x00, 0xFC])).unwrap();
    assert_eq!(
        emu.try_step_frame(),
        Err(StepError::UndefinedOpcode { opcode: 0xFC, pc: 0x0102 })
    );
    assert_eq!(emu.cpu.pc, 0x0102);
}

#[test]
fn frame_advances_ppu_one_frame() {
    let mut emu = Emulator::new(rom_with(&[0x18, 0xFE])).unwrap();
    emu.step_frame();
    // 70224 T-cycles in 12-cycle steps overshoot to 70224 exactly: 5852 steps
    assert_eq!(emu.bus.ppu.ly, 0);
    assert_eq!(emu.bus.ppu.dot, 0);
    assert!(emu.bus.if_reg() & 0x01 != 0);
}

#[test]
fn timer_interrupt_through_emulator() {
    // Enable the timer at 16 cycles per tick with TIMA near overflow, IE timer, EI, spin
    let code = [
        0x3E, 0xFF, 0xE0, 0x05, // TIMA = 0xFF
        0x3E, 0x05, 0xE0, 0x07, // TAC = enabled, 16 cycles
        0x3E, 0x04, 0xE0, 0xFF, // IE = timer
        0xFB, // EI
        0x18, 0xFE, // JR -2
    ];
    let mut emu = Emulator::new(rom_with(&code)).unwrap();
    for _ in 0..20 {
        emu.try_step().unwrap();
        if emu.cpu.pc == 0x0050 {
            break;
        }
    }
    assert_eq!(emu.cpu.pc, 0x0050);
    assert_eq!(emu.bus.if_reg() & 0x04, 0);
}
