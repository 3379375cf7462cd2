use gpuboy_core::ppu::{palette_color, tile_pixel, Ppu};

fn empty_vram() -> [u8; 0x2000] {
    [0u8; 0x2000]
}
fn empty_oam() -> [u8; 0xA0] {
    [0u8; 0xA0]
}

#[test]
fn test_mode_sequence() {
    let mut ppu = Ppu::new();
    ppu.ly = 0;
    ppu.dot = 0;
    ppu.mode = 2;
    let vram = empty_vram();
    let oam = empty_oam();
    let mut if_reg = 0u8;

    // After 79 T-cycles: still in Mode 2 (dot=80 triggers transition to 3)
    ppu.step(79, &vram, &oam, &mut if_reg);
    assert_eq!(ppu.mode, 2);

    // One more cycle: dot=80, transition to Mode 3
    ppu.step(1, &vram, &oam, &mut if_reg);
    assert_eq!(ppu.mode, 3);

    // After 172 more T-cycles (dot=252): transition to Mode 0
    ppu.step(172, &vram, &oam, &mut if_reg);
    assert_eq!(ppu.mode, 0);

    // After 204 more T-cycles: dot=456, LY increments to 1, mode=2
    ppu.step(204, &vram, &oam, &mut if_reg);
    assert_eq!(ppu.ly, 1);
    assert_eq!(ppu.mode, 2);
}

#[test]
fn test_vblank_interrupt() {
    let mut ppu = Ppu::new();
    ppu.ly = 0;
    ppu.dot = 0;
    ppu.mode = 2;
    let vram = empty_vram();
    let oam = empty_oam();
    let mut if_reg = 0u8;

    // 144 scanlines x 456 T-cycles each
    ppu.step(144 * 456, &vram, &oam, &mut if_reg);
    assert_eq!(ppu.ly, 144);
    assert!(if_reg & 0x01 != 0, "VBlank interrupt not set");
}

#[test]
fn test_lyc_stat_interrupt() {
    let mut ppu = Ppu::new();
    ppu.ly = 0;
    ppu.dot = 0;
    ppu.mode = 2;
    ppu.lyc = 5;
    ppu.stat |= 0x40;
    let vram = empty_vram();
    let oam = empty_oam();
    let mut if_reg = 0u8;

    // Step to LY=5
    ppu.step(5 * 456, &vram, &oam, &mut if_reg);
    assert_eq!(ppu.ly, 5);
    assert!(if_reg & 0x02 != 0, "STAT LYC=LY interrupt not set");
}

#[test]
fn test_bg_rendering() {
    let mut vram = empty_vram();
    // Tile 0 at 0x8000: row 0 = lo=0xAA, hi=0x00: alternating indices 1,0,1,0,...
    vram[0] = 0xAA; // lo byte of row 0 of tile 0
    vram[1] = 0x00; // hi byte
    // Tile map at 0x9800 (offset 0x1800 in vram): tile index 0 at map[0]
    vram[0x1800] = 0;

    let mut ppu = Ppu::new();
    ppu.lcdc = 0x91; // LCD on, BG on, tile data at 0x8000
    ppu.bgp = 0b11100100; // identity mapping
    ppu.scx = 0;
    ppu.scy = 0;
    ppu.ly = 0;

    let oam = empty_oam();
    ppu.render_scanline(&vram, &oam);

    // Pixel (0,0): color index 1 under the identity palette = shade 1
    let expected = palette_color(0b11100100, 1);
    assert_eq!(&ppu.framebuffer[0..4], &expected);
}

#[test]
fn test_sprite_rendering() {
    let mut vram = empty_vram();
    // Tile 0 at 0x8000: row 0: lo=0xFF, hi=0x00: all pixels color index 1
    vram[0] = 0xFF;
    vram[1] = 0x00;

    let mut oam = empty_oam();
    // Sprite 0: Y=16 (screen row 0), X=8 (screen col 0), tile=0, attrs=0
    oam[0] = 16; // Y
    oam[1] = 8; // X
    oam[2] = 0; // tile
    oam[3] = 0; // attrs

    let mut ppu = Ppu::new();
    ppu.lcdc = 0x93; // LCD on, sprites on, BG on
    ppu.bgp = 0xFC;
    ppu.obp0 = 0b11100100; // identity
    ppu.ly = 0;

    ppu.render_scanline(&vram, &oam);

    // Sprite pixel (0,0): color index 1 via OBP0 = shade 1
    let expected = palette_color(0b11100100, 1);
    assert_eq!(&ppu.framebuffer[0..4], &expected);
}

#[test]
fn palette_colors_exact() {
    assert_eq!(palette_color(0b11100100, 0), [0xE0, 0xF8, 0xD0, 0xFF]);
    assert_eq!(palette_color(0b11100100, 1), [0x88, 0xC0, 0x70, 0xFF]);
    assert_eq!(palette_color(0b11100100, 2), [0x34, 0x68, 0x56, 0xFF]);
    assert_eq!(palette_color(0b11100100, 3), [0x08, 0x18, 0x20, 0xFF]);
    assert_eq!(palette_color(0x00, 3), [0xE0, 0xF8, 0xD0, 0xFF]);
}

#[test]
fn tile_pixel_combines_planes() {
    let mut vram = empty_vram();
    vram[0x10 + 2 * 3] = 0b1000_0001; // tile 1, row 3, lo plane
    vram[0x10 + 2 * 3 + 1] = 0b0000_0001; // hi plane
    assert_eq!(tile_pixel(&vram, 0x10, 3, 0), 1);
    assert_eq!(tile_pixel(&vram, 0x10, 3, 7), 3);
    assert_eq!(tile_pixel(&vram, 0x10, 3, 4), 0);
}

#[test]
fn vblank_publishes_frame_and_wraps() {
    let mut ppu = Ppu::new();
    let mut vram = empty_vram();
    vram[0] = 0xFF;
    vram[1] = 0xFF; // tile 0 row 0: color index 3 everywhere
    let oam = empty_oam();
    let mut if_reg = 0u8;
    // in 4-cycle steps, as the CPU drives it, so that every line is drawn
    for _ in 0..(144 * 456 / 4) {
        ppu.step(4, &vram, &oam, &mut if_reg);
    }
    assert_eq!(ppu.ly, 144);
    assert_eq!(ppu.mode, 1);
    assert_eq!(&ppu.get_framebuffer()[0..4], &palette_color(0xFC, 3));
    ppu.step(10 * 456, &vram, &oam, &mut if_reg);
    assert_eq!(ppu.ly, 0);
    assert_eq!(ppu.mode, 2);
}

#[test]
fn lcd_off_blanks_and_resets() {
    let mut ppu = Ppu::new();
    let vram = empty_vram();
    let oam = empty_oam();
    let mut if_reg = 0u8;
    ppu.step(3 * 456 + 100, &vram, &oam, &mut if_reg);
    assert_eq!(ppu.ly, 3);
    ppu.lcdc &= 0x7F;
    ppu.step(4, &vram, &oam, &mut if_reg);
    assert_eq!((ppu.ly, ppu.dot, ppu.mode), (0, 0, 0));
    assert!(ppu.current_frame().iter().all(|&b| b == 0xFF));
    assert_eq!(if_reg, 0);
}

#[test]
fn hblank_stat_interrupt_when_enabled() {
    let mut ppu = Ppu::new();
    ppu.stat |= 0x08;
    let vram = empty_vram();
    let oam = empty_oam();
    let mut if_reg = 0u8;
    ppu.step(251, &vram, &oam, &mut if_reg);
    assert_eq!(if_reg & 0x02, 0);
    ppu.step(1, &vram, &oam, &mut if_reg);
    assert_eq!(ppu.mode, 0);
    assert_eq!(if_reg & 0x02, 0x02);
    assert_eq!(ppu.stat & 0x03, 0);
}

#[test]
fn overlapping_sprites_lower_x_wins() {
    let mut vram = empty_vram();
    vram[0] = 0xFF;
    vram[1] = 0x00;
    let mut oam = empty_oam();
    oam[0..8].copy_from_slice(&[16, 8, 0, 0, 16, 10, 0, 0x10]);
    let mut ppu = Ppu::new();
    ppu.lcdc = 0x93;
    ppu.obp0 = 0b11100100;
    ppu.obp1 = 0b00001100;
    ppu.ly = 0;
    ppu.render_scanline(&vram, &oam);
    // pixel 2 is covered by both sprites: the one at X=8 (OBP0, shade 1) shows
    assert_eq!(&ppu.framebuffer[8..12], &[0x88, 0xC0, 0x70, 0xFF]);
    // pixel 8 is covered only by the sprite at X=10 (OBP1, shade 3)
    assert_eq!(&ppu.framebuffer[32..36], &palette_color(0b00001100, 1));
}

#[test]
fn overlapping_sprites_same_x_earlier_entry_wins() {
    let mut vram = empty_vram();
    vram[0] = 0xFF;
    vram[1] = 0x00;
    let mut oam = empty_oam();
    oam[0..8].copy_from_slice(&[16, 8, 0, 0x10, 16, 8, 0, 0x00]);
    let mut ppu = Ppu::new();
    ppu.lcdc = 0x93;
    ppu.obp0 = 0b11100100;
    ppu.obp1 = 0b00001100;
    ppu.ly = 0;
    ppu.render_scanline(&vram, &oam);
    assert_eq!(&ppu.framebuffer[0..4], &palette_color(0b00001100, 1));
}

#[test]
fn lyc_coincidence_flag_survives_step() {
    let mut ppu = Ppu::new();
    ppu.lyc = 5;
    ppu.stat |= 0x40;
    let vram = empty_vram();
    let oam = empty_oam();
    let mut if_reg = 0u8;
    ppu.step(5 * 456, &vram, &oam, &mut if_reg);
    assert_eq!(ppu.ly, 5);
    assert!(if_reg & 0x02 != 0);
    assert!(ppu.stat & 0x04 != 0);
    ppu.step(456, &vram, &oam, &mut if_reg);
    assert_eq!(ppu.stat & 0x04, 0);
}

#[test]
fn lcd_off_accepts_any_slices() {
    let mut ppu = Ppu::new();
    ppu.lcdc = 0x11;
    let mut if_reg = 0x05u8;
    ppu.step(100, &[], &[], &mut if_reg);
    assert_eq!((ppu.ly, ppu.dot, ppu.mode), (0, 0, 0));
    assert_eq!(if_reg, 0x05);
    let big_vram = vec![0u8; 0x4000];
    let big_oam = vec![0u8; 0x100];
    ppu.lcdc = 0x91;
    ppu.step(456, &big_vram, &big_oam, &mut if_reg);
    assert_eq!(ppu.ly, 1);
}

#[test]
fn step_only_adds_lcd_interrupt_bits() {
    let mut ppu = Ppu::new();
    ppu.stat |= 0x78;
    let vram = empty_vram();
    let oam = empty_oam();
    let mut if_reg = 0x14u8;
    for _ in 0..200 {
        let before = if_reg;
        ppu.step(456, &vram, &oam, &mut if_reg);
        assert_eq!(if_reg & before, before);
        assert_eq!((if_reg & !before) & !0x03, 0);
    }
    assert_eq!(if_reg, 0x17);
}

#[test]
fn presented_frame_unchanged_before_vblank() {
    let mut ppu = Ppu::new();
    let vram = empty_vram();
    let oam = empty_oam();
    let mut if_reg = 0u8;
    let before = ppu.get_framebuffer().to_vec();
    ppu.step(143 * 456, &vram, &oam, &mut if_reg);
    assert_eq!(ppu.ly, 143);
    assert_eq!(ppu.get_framebuffer(), &before[..]);
    assert_eq!(ppu.get_framebuffer().len(), 160 * 144 * 4);
}
