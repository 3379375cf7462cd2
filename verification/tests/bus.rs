use gpuboy_core::bus::Bus;
use gpuboy_core::cartridge::Cartridge;

fn minimal_rom(mbc_type: u8) -> Vec<u8> {
    let mut rom = vec![0u8; 0x014A];
    for (i, &b) in b"TEST".iter().enumerate() {
        rom[0x0134 + i] = b;
    }
    rom[0x0147] = mbc_type;
    rom
}

fn test_bus() -> Bus {
    Bus::new(Cartridge::load(minimal_rom(0x00)).unwrap())
}

#[test]
fn wram_roundtrip() {
    let mut bus = test_bus();
    bus.write(0xC000, 0x42);
    assert_eq!(bus.read(0xC000), 0x42);
}

#[test]
fn hram_roundtrip() {
    let mut bus = test_bus();
    bus.write(0xFF80, 0xAB);
    assert_eq!(bus.read(0xFF80), 0xAB);
}

#[test]
fn echo_ram_mirrors_wram() {
    let mut bus = test_bus();
    bus.write(0xC000, 0x55);
    assert_eq!(bus.read(0xE000), 0x55);
}

#[test]
fn unmapped_reads_ff() {
    let bus = test_bus();
    // select=0x30 (no row selected), no buttons pressed: 0xC0|0x30|0x0F = 0xFF
    assert_eq!(bus.read(0xFF00), 0xFF);
}

#[test]
fn joypad_direction_row_read() {
    let mut bus = test_bus();
    // Select direction row: bit4 clear (P14 low), bit5 set (P15 high)
    bus.write(0xFF00, 0x20);
    bus.set_joypad_buttons(1 << 4); // Right pressed
    // active-low: Right=1, others 0, row=0b0001, !row&0x0F=0x0E
    // read_full = 0xC0 | 0x20 | 0x0E = 0xEE
    assert_eq!(bus.read(0xFF00), 0xEE);
}

#[test]
fn joypad_action_row_read() {
    let mut bus = test_bus();
    // Select action row: bit5 clear (P15 low), bit4 set (P14 high)
    bus.write(0xFF00, 0x10);
    bus.set_joypad_buttons(1 << 0); // A pressed
    // read_full = 0xC0 | 0x10 | 0x0E = 0xDE
    assert_eq!(bus.read(0xFF00), 0xDE);
}

#[test]
fn joypad_interrupt_fires_on_press() {
    let mut bus = test_bus();
    bus.write(0xFF00, 0x20); // direction row selected
    bus.set_joypad_buttons(1 << 4); // Right pressed: output 0x0F -> 0x0E
    assert!(
        bus.if_reg() & 0x10 != 0,
        "joypad interrupt (IF bit 4) should fire on press"
    );
}

#[test]
fn joypad_interrupt_does_not_fire_on_release() {
    let mut bus = test_bus();
    bus.write(0xFF00, 0x20);
    bus.set_joypad_buttons(1 << 4); // press
    bus.write(0xFF0F, 0x00); // clear IF
    bus.set_joypad_buttons(0); // release: output 0x0E -> 0x0F (0->1, not 1->0)
    assert!(
        bus.if_reg() & 0x10 == 0,
        "joypad interrupt should not fire on release"
    );
}

#[test]
fn rom_write_silent() {
    let mut bus = test_bus();
    let original = bus.read(0x0000);
    bus.write(0x0000, 0xAA);
    assert_eq!(bus.read(0x0000), original);
}

#[test]
fn ie_register_roundtrip() {
    let mut bus = test_bus();
    bus.write(0xFFFF, 0x1F);
    assert_eq!(bus.ie(), 0x1F);
    assert_eq!(bus.read(0xFFFF), 0x1F);
}

#[test]
fn if_register_roundtrip() {
    let mut bus = test_bus();
    bus.write(0xFF0F, 0x15);
    assert_eq!(bus.if_reg(), 0x15);
}

#[test]
fn serial_stub_captures_byte() {
    let mut bus = test_bus();
    bus.write(0xFF01, 0x48); // SB = 'H'
    bus.write(0xFF02, 0x81); // SC = transfer start
    assert_eq!(bus.take_serial_output(), vec![0x48]);
    assert!(bus.if_reg() & 0x08 != 0); // IF bit 3 set
    assert_eq!(bus.read(0xFF02) & 0x80, 0); // SC bit 7 cleared
}

#[test]
fn step_timer_sets_if_bit_2_on_overflow() {
    let mut bus = test_bus();
    bus.write(0xFF05, 0xFF); // TIMA = 0xFF (one tick away from overflow)
    bus.write(0xFF06, 0x00); // TMA = 0
    bus.write(0xFF07, 0x04); // TAC: enabled, 4096 Hz
    bus.step_timer(1024);
    assert!(bus.if_reg() & 0x04 != 0); // IF bit 2 set
}

#[test]
fn test_oam_dma() {
    let mut bus = test_bus();
    for i in 0..160u16 {
        bus.write(0xC000 + i, i as u8);
    }
    bus.write(0xFF46, 0xC0);
    for i in 0..160u16 {
        assert_eq!(bus.read(0xFE00 + i), i as u8);
    }
}

#[test]
fn interrupt_registers_keep_five_bits() {
    let mut bus = test_bus();
    bus.write(0xFFFF, 0xFF);
    assert_eq!(bus.read(0xFFFF), 0x1F);
    bus.write(0xFF0F, 0xE3);
    assert_eq!(bus.read(0xFF0F), 0x03);
}

#[test]
fn echo_write_shows_in_wram() {
    let mut bus = test_bus();
    bus.write(0xFDFF, 0x99);
    assert_eq!(bus.read(0xDDFF), 0x99);
}

#[test]
fn vram_oam_roundtrip() {
    let mut bus = test_bus();
    bus.write(0x8123, 0x11);
    bus.write(0xFE9F, 0x22);
    assert_eq!(bus.read(0x8123), 0x11);
    assert_eq!(bus.read(0xFE9F), 0x22);
}

#[test]
fn unused_io_reads_ff() {
    let bus = test_bus();
    for addr in [0xFEA0u16, 0xFEFF, 0xFF03, 0xFF08, 0xFF4C, 0xFF7F, 0xFF46] {
        assert_eq!(bus.read(addr), 0xFF, "address {addr:#06X}");
    }
}

#[test]
fn ly_write_ignored_stat_low_bits_kept() {
    let mut bus = test_bus();
    let ly = bus.read(0xFF44);
    bus.write(0xFF44, 0x55);
    assert_eq!(bus.read(0xFF44), ly);
    let stat = bus.ppu.stat;
    bus.write(0xFF41, 0xFF);
    assert_eq!(bus.ppu.stat, (stat & 0x07) | 0xF8);
    assert_eq!(bus.read(0xFF41), (stat & 0x07) | 0xF8);
}

#[test]
fn serial_transfer_without_start_bit() {
    let mut bus = test_bus();
    bus.write(0xFF01, 0x41);
    bus.write(0xFF02, 0x01);
    assert!(bus.take_serial_output().is_empty());
    assert_eq!(bus.if_reg() & 0x08, 0);
    assert_eq!(bus.read(0xFF02), 0x01);
}

#[test]
fn joypad_both_rows_combined() {
    let mut bus = test_bus();
    bus.write(0xFF00, 0x00); // both rows selected
    bus.set_joypad_buttons(0x21); // A and Left
    assert_eq!(bus.read(0xFF00), 0xC0 | 0x0C);
}

#[test]
fn power_on_state() {
    let bus = test_bus();
    assert_eq!(bus.if_reg(), 0);
    assert_eq!(bus.ie(), 0);
    assert_eq!(bus.read(0xC000), 0);
    assert_eq!(bus.read(0xFF40), 0x91);
    assert_eq!(bus.read(0xFF07), 0xF8);
}
