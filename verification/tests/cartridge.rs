use gpuboy_core::cartridge::{Cartridge, CartridgeHeader, Mbc};

fn minimal_rom(mbc_type: u8) -> Vec<u8> {
    let mut rom = vec![0u8; 0x014A];
    for (i, &b) in b"TEST".iter().enumerate() {
        rom[0x0134 + i] = b;
    }
    rom[0x0147] = mbc_type;
    rom
}

#[test]
fn load_too_small() {
    let err = Cartridge::load(vec![0u8; 10]).unwrap_err();
    assert!(err.contains("ROM too small"), "got: {err}");
}

#[test]
fn load_flat_rom() {
    let rom = minimal_rom(0x00);
    let cart = Cartridge::load(rom).unwrap();
    assert_eq!(cart.header.cartridge_type, 0x00);
}

#[test]
fn read_out_of_bounds() {
    let rom = minimal_rom(0x00);
    let cart = Cartridge::load(rom).unwrap();
    assert_eq!(cart.read(0x7FFF), 0xFF);
}

#[test]
fn mbc1_rom_bank_select() {
    // 128 KiB = 8 banks x 16 KiB
    let mut rom = vec![0u8; 128 * 1024];
    for (i, &b) in b"TEST".iter().enumerate() {
        rom[0x0134 + i] = b;
    }
    rom[0x0147] = 0x01; // MBC1
    rom[0x0148] = 0x02; // 128 KiB
    for bank in 0..8usize {
        rom[bank * 0x4000] = bank as u8 + 1;
    }
    let mut cart = Cartridge::load(rom).unwrap();
    for bank in 1u8..8 {
        cart.write(0x2000, bank);
        assert_eq!(cart.read(0x4000), bank + 1, "bank {bank} sentinel mismatch");
    }
}

#[test]
fn mbc1_ram_bank_select() {
    let mut rom = minimal_rom(0x03); // MBC1+RAM+BATTERY
    rom[0x0149] = 0x02; // 8 KiB SRAM
    let mut cart = Cartridge::load(rom).unwrap();
    cart.write(0x0000, 0x0A); // enable SRAM
    cart.write(0xA000, 0x42);
    assert_eq!(cart.read(0xA000), 0x42);
}

#[test]
fn mbc3_rom_bank_zero_becomes_one() {
    let mut rom = vec![0u8; 0x8000]; // 32 KiB
    for (i, &b) in b"TEST".iter().enumerate() {
        rom[0x0134 + i] = b;
    }
    rom[0x0147] = 0x11; // MBC3
    rom[0x4000] = 0xAB; // sentinel at bank 1
    let mut cart = Cartridge::load(rom).unwrap();
    cart.write(0x2000, 0x00); // try to select bank 0
    assert_eq!(cart.read(0x4000), 0xAB); // should read bank 1
}

#[test]
fn mbc5_bank_zero_accessible() {
    let mut rom = vec![0u8; 0x8000]; // 32 KiB
    for (i, &b) in b"TEST".iter().enumerate() {
        rom[0x0134 + i] = b;
    }
    rom[0x0147] = 0x19; // MBC5
    rom[0x0000] = 0xCD; // sentinel at bank 0
    rom[0x4000] = 0xEF; // sentinel at bank 1
    let mut cart = Cartridge::load(rom).unwrap();
    cart.write(0x2000, 0x00); // select bank 0 (valid on MBC5)
    assert_eq!(cart.read(0x4000), 0xCD); // bank 0, physical 0x0000
}

#[test]
fn sram_disabled_reads_ff() {
    let mut rom = minimal_rom(0x03); // MBC1+RAM
    rom[0x0149] = 0x02; // 8 KiB SRAM
    let cart = Cartridge::load(rom).unwrap();
    // SRAM not enabled: reads give 0xFF
    assert_eq!(cart.read(0xA000), 0xFF);
}

#[test]
fn unknown_mbc_returns_err() {
    let rom = minimal_rom(0xFF);
    let err = Cartridge::load(rom).unwrap_err();
    assert!(err.contains("unsupported MBC"), "got: {err}");
}

#[test]
fn unsupported_mbc_message_is_exact() {
    let err = Cartridge::load(minimal_rom(0x2A)).unwrap_err();
    assert_eq!(err, "unsupported MBC: 0x2A");
    let err = Cartridge::load(minimal_rom(0xFF)).unwrap_err();
    assert_eq!(err, "unsupported MBC: 0xFF");
}

#[test]
fn header_title_stops_at_non_printable() {
    let rom = minimal_rom(0x00);
    let header = CartridgeHeader::parse(&rom).unwrap();
    assert_eq!(header.title, "TEST");
    assert_eq!(header.rom_size, 0);
    assert_eq!(header.ram_size, 0);
}

#[test]
fn header_title_sixteen_chars() {
    let mut rom = minimal_rom(0x00);
    for i in 0..16 {
        rom[0x0134 + i] = b'A' + i as u8;
    }
    let header = CartridgeHeader::parse(&rom).unwrap();
    assert_eq!(header.title, "ABCDEFGHIJKLMNOP");
}

#[test]
fn header_parse_too_small() {
    let err = CartridgeHeader::parse(&[0u8; 0x0149]).unwrap_err();
    assert_eq!(err, "ROM too small");
}

#[test]
fn sram_sized_from_header() {
    let mut rom = minimal_rom(0x1B); // MBC5+RAM+BATTERY
    rom[0x0149] = 0x03; // 32 KiB
    let cart = Cartridge::load(rom).unwrap();
    assert_eq!(cart.sram.len(), 32768);
    assert!(cart.sram.iter().all(|&b| b == 0));
    let rom = minimal_rom(0x00);
    let cart = Cartridge::load(rom).unwrap();
    assert_eq!(cart.sram.len(), 0);
}

#[test]
fn mbc1_bank_zero_selects_one() {
    let mut rom = vec![0u8; 0x8000];
    rom[0x0147] = 0x01;
    rom[0x4000] = 0x77;
    let mut cart = Cartridge::load(rom).unwrap();
    cart.write(0x2000, 0x00);
    assert_eq!(cart.read(0x4000), 0x77);
    assert!(matches!(cart.mbc, Mbc::Mbc1 { rom_bank: 1, .. }));
}

#[test]
fn rom_writes_leave_rom_unchanged() {
    let mut rom = minimal_rom(0x01);
    rom[0x0000] = 0x5A;
    let mut cart = Cartridge::load(rom.clone()).unwrap();
    for addr in [0x0000u16, 0x1FFF, 0x2000, 0x3FFF, 0x4000, 0x6000, 0x7FFF] {
        cart.write(addr, 0xAA);
    }
    assert_eq!(cart.rom, rom);
}

#[test]
fn mbc3_sram_roundtrip_across_banks() {
    let mut rom = minimal_rom(0x13); // MBC3+RAM+BATTERY
    rom[0x0149] = 0x03; // 32 KiB, four banks
    let mut cart = Cartridge::load(rom).unwrap();
    cart.write(0x0000, 0x0A);
    cart.write(0x4000, 0x02); // RAM bank 2
    cart.write(0xA123, 0x99);
    assert_eq!(cart.read(0xA123), 0x99);
    cart.write(0x4000, 0x00);
    assert_eq!(cart.read(0xA123), 0x00);
    assert_eq!(cart.sram[2 * 0x2000 + 0x123], 0x99);
}

#[test]
fn reads_ok_reflects_rom_size() {
    let mut rom = minimal_rom(0x01);
    rom[0x0148] = 0x02;
    let cart = Cartridge::load(rom.clone()).unwrap();
    assert!(cart.reads_ok());
    rom[0x0148] = 0x70;
    let cart = Cartridge::load(rom).unwrap();
    assert!(!cart.reads_ok());
}

#[test]
fn mbc3_ram_bank_ignores_invalid_values() {
    let mut rom = vec![0u8; 0x8000];
    rom[0x0147] = 0x13;
    rom[0x0149] = 0x03;
    let mut cart = Cartridge::load(rom).unwrap();
    cart.write(0x0000, 0x0A);
    cart.write(0xA000, 0x11);
    cart.write(0x4000, 0x05); // neither a RAM bank nor an RTC register: ignored
    assert_eq!(cart.read(0xA000), 0x11);
    cart.write(0x4000, 0x08); // RTC register select: reads 0xFF
    assert_eq!(cart.read(0xA000), 0xFF);
    cart.write(0x4000, 0x0D); // ignored, RTC select stays
    assert_eq!(cart.read(0xA000), 0xFF);
    cart.write(0x4000, 0x00);
    assert_eq!(cart.read(0xA000), 0x11);
}

#[test]
fn huge_rom_size_reads_outside_bank_window() {
    let mut rom = minimal_rom(0x03);
    rom[0x0148] = 0x70; // more banks than a usize can count
    rom[0x0149] = 0x02;
    rom[0x0100] = 0x42;
    let mut cart = Cartridge::load(rom).unwrap();
    assert_eq!(cart.read(0x0100), 0x42); // bank 0 in mode 0
    assert_eq!(cart.read(0xA000), 0xFF); // RAM disabled
    cart.write(0x0000, 0x0A);
    cart.write(0xA000, 0x5A);
    assert_eq!(cart.read(0xA000), 0x5A);
    assert_eq!(cart.read(0xC000), 0xFF);
}

#[test]
fn header_title_kept_by_writes() {
    let mut cart = Cartridge::load(minimal_rom(0x01)).unwrap();
    for addr in [0x0000u16, 0x2000, 0x4000, 0x6000, 0xA000] {
        cart.write(addr, 0xFF);
    }
    assert_eq!(cart.header.title, "TEST");
}
