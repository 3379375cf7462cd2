use gpuboy_core::timer::Timer;

#[test]
fn div_increments_after_256() {
    let mut t = Timer::new();
    t.step(256);
    assert_eq!(t.read(0xFF04), 1);
}

#[test]
fn div_reset_on_write() {
    let mut t = Timer::new();
    t.step(512);
    t.write(0xFF04, 0x00);
    assert_eq!(t.read(0xFF04), 0);
}

#[test]
fn tima_overflow_fires_interrupt() {
    let mut t = Timer::new();
    t.write(0xFF05, 0xFF); // TIMA = 0xFF (one tick away from overflow)
    t.write(0xFF06, 0x00); // TMA = 0
    t.write(0xFF07, 0x04); // TAC: enabled, 4096 Hz (bit 9, every 1024 T-cycles)
    let overflows = t.step(1024);
    assert_eq!(overflows, 1);
    assert_eq!(t.read(0xFF05), 0); // reloaded from TMA=0
}

#[test]
fn timer_disabled() {
    let mut t = Timer::new();
    t.write(0xFF07, 0x00); // TAC bit 2 = 0 (disabled)
    t.step(100_000);
    assert_eq!(t.read(0xFF05), 0);
}

#[test]
fn tac_upper_bits_read_as_one() {
    let t = Timer::new();
    assert_eq!(t.read(0xFF07), 0xF8);
}

#[test]
fn tima_counts_at_selected_rate() {
    let mut t = Timer::new();
    t.write(0xFF07, 0x05); // enabled, bit 3: every 16 T-cycles
    t.step(16 * 10);
    assert_eq!(t.read(0xFF05), 10);
    t.write(0xFF07, 0x06); // bit 5: every 64 T-cycles
    t.step(64);
    assert_eq!(t.read(0xFF05), 11);
}

#[test]
fn tima_reloads_from_tma() {
    let mut t = Timer::new();
    t.write(0xFF06, 0xF0);
    t.write(0xFF05, 0xFE);
    t.write(0xFF07, 0x05);
    assert_eq!(t.step(32), 1);
    assert_eq!(t.read(0xFF05), 0xF0);
    assert_eq!(t.read(0xFF06), 0xF0);
}

#[test]
fn registers_write_read() {
    let mut t = Timer::new();
    t.write(0xFF05, 0x12);
    t.write(0xFF06, 0x34);
    t.write(0xFF07, 0xFF);
    assert_eq!(t.read(0xFF05), 0x12);
    assert_eq!(t.read(0xFF06), 0x34);
    assert_eq!(t.read(0xFF07), 0xFF);
    assert_eq!(t.tac, 0x07);
}

#[test]
fn stepping_in_pieces_equals_stepping_at_once() {
    let mut a = Timer::new();
    let mut b = Timer::new();
    for t in [&mut a, &mut b] {
        t.write(0xFF05, 0xF0);
        t.write(0xFF06, 0xF8);
        t.write(0xFF07, 0x05);
    }
    let r1 = a.step(777);
    let r2 = a.step(1234);
    let r = b.step(777 + 1234);
    assert_eq!((r1 as u32 + r2 as u32).min(255), r as u32);
    for addr in 0xFF04..=0xFF07u16 {
        assert_eq!(a.read(addr), b.read(addr));
    }
    assert!(r > 0);
}
