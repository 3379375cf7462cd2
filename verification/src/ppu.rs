use vstd::prelude::*;

verus! {

broadcast use vstd::array::group_array_axioms;

/// Bytes in one RGBA frame of 160x144 pixels.
pub const FB_LEN: usize = 92160;

/// Bytes in one RGBA row of 160 pixels.
pub const ROW_LEN: usize = 640;

/// The scanline picture processor: LCD registers, the dot/mode timing state and two RGBA
/// frame buffers (the one being drawn and the last complete one).
pub struct Ppu {
    pub lcdc: u8,
    pub stat: u8,
    pub scy: u8,
    pub scx: u8,
    pub ly: u8,
    pub lyc: u8,
    pub bgp: u8,
    pub obp0: u8,
    pub obp1: u8,
    pub wy: u8,
    pub wx: u8,
    pub dot: u32,
    pub mode: u8,
    pub window_line: u8,
    pub framebuffer: [u8; 92160],
    pub back_buffer: [u8; 92160],
}

/// The frame array whose bytes are `s`.
pub open spec fn frame_of(s: Seq<u8>) -> [u8; 92160] {
    choose|a: [u8; 92160]| a@ == s
}

/// Component `k` (R, G, B, A) of the DMG green shade `shade` (0 lightest .. 3 darkest).
pub open spec fn shade_rgba(shade: u8, k: int) -> u8 {
    if k == 3 {
        0xFF
    } else if shade == 0 {
        if k == 0 {
            0xE0
        } else if k == 1 {
            0xF8
        } else {
            0xD0
        }
    } else if shade == 1 {
        if k == 0 {
            0x88
        } else if k == 1 {
            0xC0
        } else {
            0x70
        }
    } else if shade == 2 {
        if k == 0 {
            0x34
        } else if k == 1 {
            0x68
        } else {
            0x56
        }
    } else {
        if k == 0 {
            0x08
        } else if k == 1 {
            0x18
        } else {
            0x20
        }
    }
}

/// The shade a palette register maps color index `idx` to: bits 2*idx+1..2*idx.
pub open spec fn palette_shade(palette: u8, idx: u8) -> u8 {
    (palette >> (idx * 2)) & 0x03
}

/// The 2-bit color index of pixel (`row`, `col`) of the tile whose 16 bytes start at
/// `tile_base` in VRAM: bit 7-col of the row's low byte, plus twice that bit of its high byte.
pub open spec fn tile_pixel_spec(vram: Seq<u8>, tile_base: int, row: int, col: int) -> u8 {
    let lo = vram[tile_base + row * 2];
    let hi = vram[tile_base + row * 2 + 1];
    let bit = (7 - col) as u8;
    ((lo >> bit) & 1) | (((hi >> bit) & 1) << 1u8)
}

/// Offset in VRAM of the tile `tile_idx` names: unsigned from 0x8000 when LCDC bit 4 is set,
/// signed around 0x9000 otherwise.
pub open spec fn tile_data_base(lcdc: u8, tile_idx: u8) -> int {
    if lcdc & 0x10 != 0 {
        tile_idx as int * 16
    } else if tile_idx < 128 {
        0x1000 + tile_idx as int * 16
    } else {
        0x1000 + (tile_idx as int - 256) * 16
    }
}

/// Offset in VRAM of a 32x32 tile map: 0x9C00 when `high` holds, else 0x9800.
pub open spec fn tile_map_base(high: bool) -> int {
    if high {
        0x1C00
    } else {
        0x1800
    }
}

/// Y of sprite `i` in OAM (screen row + 16).
pub open spec fn sprite_y(oam: Seq<u8>, i: int) -> u8 {
    oam[4 * i]
}

/// X of sprite `i` in OAM (screen column + 8).
pub open spec fn sprite_x(oam: Seq<u8>, i: int) -> u8 {
    oam[4 * i + 1]
}

pub open spec fn sprite_tile(oam: Seq<u8>, i: int) -> u8 {
    oam[4 * i + 2]
}

pub open spec fn sprite_attrs(oam: Seq<u8>, i: int) -> u8 {
    oam[4 * i + 3]
}

/// Whether sprite `i` (8 rows high) covers screen line `ly`.
pub open spec fn sprite_on_line(oam: Seq<u8>, ly: u8, i: int) -> bool {
    ly as int + 16 >= sprite_y(oam, i) as int && (ly as int + 16) < sprite_y(oam, i) as int + 8
}

/// The OAM indices, in OAM order, of the sprites among the first `n` entries that cover `ly`,
/// keeping only the first ten.
pub open spec fn selected_sprites(oam: Seq<u8>, ly: u8, n: int) -> Seq<int>
    decreases n,
{
    if n <= 0 {
        Seq::empty()
    } else {
        let s = selected_sprites(oam, ly, n - 1);
        if s.len() < 10 && sprite_on_line(oam, ly, n - 1) {
            s.push(n - 1)
        } else {
            s
        }
    }
}

/// Component `k` of pixel `x` on line `ly` of a frame.
pub open spec fn pix(fb: Seq<u8>, ly: u8, x: int, k: int) -> u8 {
    fb[ly as int * 640 + x * 4 + k]
}

/// Priority of a sprite where sprites overlap, greater meaning drawn later and so on top: the
/// lower X wins, and for equal X the earlier OAM entry.
pub open spec fn sprite_key(oam: Seq<u8>, i: int) -> int {
    (255 - sprite_x(oam, i) as int) * 64 + (63 - i)
}

impl Ppu {
    pub open spec fn post_boot() -> Ppu {
        Ppu {
            lcdc: 0x91,
            stat: 0x82,
            scy: 0,
            scx: 0,
            ly: 0,
            lyc: 0,
            bgp: 0xFC,
            obp0: 0,
            obp1: 0,
            wy: 0,
            wx: 0,
            dot: 0,
            mode: 2,
            window_line: 0,
            framebuffer: frame_of(Seq::new(92160, |i: int| 0xFFu8)),
            back_buffer: frame_of(Seq::new(92160, |i: int| 0xFFu8)),
        }
    }

    /// Background color index at screen column `x` of the current line (0 when LCDC bit 0 is
    /// clear).
    pub open spec fn bg_index(self, vram: Seq<u8>, x: int) -> u8 {
        if self.lcdc & 0x01 == 0 {
            0
        } else {
            let bg_x = (self.scx as int + x) % 256;
            let bg_y = (self.scy as int + self.ly as int) % 256;
            let tile_idx = vram[tile_map_base(self.lcdc & 0x08 != 0) + (bg_y / 8) * 32 + bg_x / 8];
            tile_pixel_spec(vram, tile_data_base(self.lcdc, tile_idx), bg_y % 8, bg_x % 8)
        }
    }

    /// Whether the window layer is drawn on the current line.
    pub open spec fn window_on(self) -> bool {
        self.lcdc & 0x20 != 0 && self.wy <= self.ly && self.wx <= 166
    }

    /// First screen column the window covers: WX - 7, or 0.
    pub open spec fn wx_start(self) -> int {
        if self.wx >= 7 {
            self.wx as int - 7
        } else {
            0
        }
    }

    /// Whether rendering the current line draws at least one window pixel.
    pub open spec fn window_drawn(self) -> bool {
        self.window_on() && self.wx_start() < 160
    }

    pub open spec fn window_index(self, vram: Seq<u8>, x: int) -> u8 {
        let win_x = x - self.wx_start();
        let win_y = self.window_line as int;
        let tile_idx = vram[tile_map_base(self.lcdc & 0x40 != 0) + (win_y / 8) * 32 + win_x / 8];
        tile_pixel_spec(vram, tile_data_base(self.lcdc, tile_idx), win_y % 8, win_x % 8)
    }

    /// Background-or-window color index at column `x` of the current line.
    pub open spec fn bgwin_index(self, vram: Seq<u8>, x: int) -> u8 {
        if self.window_on() && x >= self.wx_start() {
            self.window_index(vram, x)
        } else {
            self.bg_index(vram, x)
        }
    }

    /// Color index sprite `i` shows at screen column `x` of the current line (0 off the sprite).
    pub open spec fn sprite_index(self, vram: Seq<u8>, oam: Seq<u8>, i: int, x: int) -> u8 {
        let col = x - (sprite_x(oam, i) as int - 8);
        if !(0 <= col < 8) {
            0
        } else {
            let row_raw = self.ly as int + 16 - sprite_y(oam, i) as int;
            let attrs = sprite_attrs(oam, i);
            let row = if attrs & 0x40 != 0 {
                7 - row_raw
            } else {
                row_raw
            };
            let c = if attrs & 0x20 != 0 {
                7 - col
            } else {
                col
            };
            tile_pixel_spec(vram, sprite_tile(oam, i) as int * 16, row, c)
        }
    }

    /// Whether sprite `i` paints column `x`: a non-zero color that is not hidden behind a
    /// non-zero background/window pixel by its priority bit.
    pub open spec fn sprite_paints(self, vram: Seq<u8>, oam: Seq<u8>, i: int, x: int) -> bool {
        self.sprite_index(vram, oam, i, x) != 0 && !(sprite_attrs(oam, i) & 0x80 != 0
            && self.bgwin_index(vram, x) != 0)
    }

    /// Whether some selected sprite paints column `x`.
    pub open spec fn some_sprite_paints(self, vram: Seq<u8>, oam: Seq<u8>, x: int) -> bool {
        let sel = selected_sprites(oam, self.ly, 40);
        self.lcdc & 0x02 != 0 && exists|k: int|
            0 <= k < sel.len() && self.sprite_paints(vram, oam, #[trigger] sel[k], x)
    }

    /// The sprite whose pixel shows at `x`: among the selected sprites that paint it, the one
    /// with the least X, ties going to the earlier OAM entry.
    pub open spec fn top_sprite(self, vram: Seq<u8>, oam: Seq<u8>, x: int) -> int {
        let sel = selected_sprites(oam, self.ly, 40);
        choose|w: int|
            sel.contains(w) && self.sprite_paints(vram, oam, w, x) && forall|v: int|
                sel.contains(v) && self.sprite_paints(vram, oam, v, x) ==> sprite_key(oam, v)
                    <= sprite_key(oam, w)
    }

    /// Color component `k` of the pixel at column `x` of the current line.
    pub open spec fn pixel_rgba(self, vram: Seq<u8>, oam: Seq<u8>, x: int, k: int) -> u8 {
        if self.some_sprite_paints(vram, oam, x) {
            let w = self.top_sprite(vram, oam, x);
            let pal = if sprite_attrs(oam, w) & 0x10 != 0 {
                self.obp1
            } else {
                self.obp0
            };
            shade_rgba(palette_shade(pal, self.sprite_index(vram, oam, w, x)), k)
        } else {
            shade_rgba(palette_shade(self.bgp, self.bgwin_index(vram, x)), k)
        }
    }

    /// The frame after drawing the current line.
    pub open spec fn rendered_frame(self, vram: Seq<u8>, oam: Seq<u8>) -> Seq<u8> {
        let start = self.ly as int * 640;
        Seq::new(
            92160,
            |i: int|
                if start <= i < start + 640 {
                    self.pixel_rgba(vram, oam, (i - start) / 4, (i - start) % 4)
                } else {
                    self.framebuffer@[i]
                },
        )
    }

    /// The PPU after drawing the current line (`render_scanline`).
    pub open spec fn render_spec(self, vram: Seq<u8>, oam: Seq<u8>) -> Ppu {
        Ppu {
            framebuffer: frame_of(self.rendered_frame(vram, oam)),
            window_line: if self.window_drawn() {
                (self.window_line + 1) as u8
            } else {
                self.window_line
            },
            ..self
        }
    }

    /// Drawing the current line cannot overflow the window line counter.
    pub open spec fn render_ok(self) -> bool {
        self.window_drawn() ==> self.window_line < 255
    }

    /// LY=LYC comparison: STAT bit 2, and a STAT interrupt when bit 6 enables it.
    pub open spec fn check_lyc_spec(self, iflags: u8) -> (Ppu, u8) {
        if self.ly == self.lyc {
            let stat = self.stat | 0x04;
            (Ppu { stat, ..self }, if stat & 0x40 != 0 {
                iflags | 0x02
            } else {
                iflags
            })
        } else {
            (Ppu { stat: self.stat & !0x04u8, ..self }, iflags)
        }
    }

    /// Moving to the next line: line 144 enters VBlank (mode 1, frame published, VBlank
    /// interrupt, STAT interrupt if bit 4); past 153 the frame restarts at line 0 in mode 2;
    /// other visible lines start in mode 2 (STAT interrupt if bit 5). Then the LYC check.
    pub open spec fn advance_ly_spec(self, iflags: u8) -> (Ppu, u8) {
        let ly = (self.ly + 1) as u8;
        let (p, f) = if ly == 144 {
            let stat = (self.stat & 0xF8) | 0x01;
            let f1 = iflags | 0x01;
            (
                Ppu { ly, mode: 1, stat, back_buffer: self.framebuffer, ..self },
                if stat & 0x10 != 0 {
                    f1 | 0x02
                } else {
                    f1
                },
            )
        } else if ly > 153 {
            let stat = (self.stat & 0xF8) | 0x02;
            (
                Ppu { ly: 0, window_line: 0, mode: 2, stat, ..self },
                if stat & 0x20 != 0 {
                    iflags | 0x02
                } else {
                    iflags
                },
            )
        } else if ly < 144 {
            let stat = (self.stat & 0xF8) | 0x02;
            (Ppu { ly, mode: 2, stat, ..self }, if stat & 0x20 != 0 {
                iflags | 0x02
            } else {
                iflags
            })
        } else {
            (Ppu { ly, ..self }, iflags)
        };
        p.check_lyc_spec(f)
    }

    /// `n` line advances in a row.
    pub open spec fn advance_lines(self, iflags: u8, n: nat) -> (Ppu, u8)
        decreases n,
    {
        if n == 0 {
            (self, iflags)
        } else {
            let (p, f) = self.advance_ly_spec(iflags);
            p.advance_lines(f, (n - 1) as nat)
        }
    }

    /// Mode the dot counter of a visible line falls in: 2 (OAM scan) before dot 80,
    /// 3 (drawing) before 252, 0 (HBlank) after.
    pub open spec fn mode_for_dot(dot: u32) -> u8 {
        if dot < 80 {
            2
        } else if dot < 252 {
            3
        } else {
            0
        }
    }

    /// Mode update on a visible line: entering mode 3 draws the line, entering mode 0 or 2
    /// raises a STAT interrupt when STAT bit 3 or 5 enables it; STAT bits 1-0 follow the mode
    /// and the LY=LYC flag (bit 2) is kept.
    pub open spec fn update_mode_spec(self, vram: Seq<u8>, oam: Seq<u8>, iflags: u8) -> (Ppu, u8) {
        if self.ly >= 144 {
            (self, iflags)
        } else {
            let m = Self::mode_for_dot(self.dot);
            let (p, f) = if m != self.mode {
                let p0 = Ppu { mode: m, ..self };
                if m == 3 {
                    (p0.render_spec(vram, oam), iflags)
                } else if m == 0 && self.stat & 0x08 != 0 {
                    (p0, iflags | 0x02)
                } else if m == 2 && self.stat & 0x20 != 0 {
                    (p0, iflags | 0x02)
                } else {
                    (p0, iflags)
                }
            } else {
                (self, iflags)
            };
            (Ppu { stat: (p.stat & 0xFC) | (p.mode & 0x03), ..p }, f)
        }
    }

    /// Whether the mode update cannot overflow the window line counter.
    pub open spec fn update_mode_ok(self) -> bool {
        self.ly < 144 && Self::mode_for_dot(self.dot) != self.mode && Self::mode_for_dot(self.dot)
            == 3 ==> Ppu { mode: 3, ..self }.render_ok()
    }

    /// The PPU and IF after `t` T-cycles: with the LCD off (LCDC bit 7 clear) the frame is
    /// blanked and LY, the dot counter and the mode reset; otherwise whole lines are
    /// advanced and the mode of the current line is updated.
    pub open spec fn step_spec(self, t: u32, vram: Seq<u8>, oam: Seq<u8>, iflags: u8) -> (Ppu, u8) {
        if self.lcdc & 0x80 == 0 {
            (
                Ppu {
                    framebuffer: frame_of(Seq::new(92160, |i: int| 0xFFu8)),
                    ly: 0,
                    dot: 0,
                    mode: 0,
                    stat: self.stat & 0xF8,
                    ..self
                },
                iflags,
            )
        } else {
            let total = self.dot as int + t as int;
            let (p, f) = self.advance_lines(iflags, (total / 456) as nat);
            Ppu { dot: (total % 456) as u32, ..p }.update_mode_spec(vram, oam, f)
        }
    }

    /// Whether `step` runs without arithmetic overflow.
    pub open spec fn step_ok(self, t: u32) -> bool {
        self.lcdc & 0x80 == 0 || {
            let total = self.dot as int + t as int;
            let (p, f) = self.advance_lines(0, (total / 456) as nat);
            &&& total <= u32::MAX
            &&& (total >= 456 ==> self.ly < 255)
            &&& Ppu { dot: (total % 456) as u32, ..p }.update_mode_ok()
        }
    }
}


/// Sprite attributes as read from OAM.
#[derive(Clone, Copy)]
struct Sprite {
    x: u8,
    y: u8,
    tile: u8,
    attrs: u8,
}

spec fn sprite_at(oam: Seq<u8>, i: int) -> Sprite {
    Sprite {
        x: sprite_x(oam, i),
        y: sprite_y(oam, i),
        tile: sprite_tile(oam, i),
        attrs: sprite_attrs(oam, i),
    }
}

/// Index into `ord[0..k]` of the last sprite that paints column `x`, or -1.
spec fn last_painter(p: Ppu, vram: Seq<u8>, oam: Seq<u8>, ord: Seq<int>, k: int, x: int) -> int
    decreases k,
{
    if k <= 0 {
        -1
    } else if p.sprite_paints(vram, oam, ord[k - 1], x) {
        k - 1
    } else {
        last_painter(p, vram, oam, ord, k - 1, x)
    }
}

/// An array agreeing with `s` on its first `k` bytes.
proof fn lemma_array_prefix(s: Seq<u8>, k: int) -> (a: [u8; 92160])
    requires
        s.len() == 92160,
        0 <= k <= 92160,
    ensures
        forall|i: int| 0 <= i < k ==> a@[i] == s[i],
    decreases k,
{
    broadcast use vstd::array::group_array_axioms;
    if k == 0 {
        vstd::array::spec_array_fill_for_copy_type::<u8, 92160>(0u8)
    } else {
        let a = lemma_array_prefix(s, k - 1);
        let b = vstd::array::spec_array_update(a, k - 1, s[k - 1]);
        assert(b@ == a@.update(k - 1, s[k - 1]));
        b
    }
}

/// A frame built from 92160 bytes holds exactly those bytes, so `pix` of a rendered frame
/// reads the rendered pixel.
pub proof fn lemma_frame_of_bytes(s: Seq<u8>)
    requires
        s.len() == 92160,
    ensures
        frame_of(s)@ == s,
{
    let a = lemma_array_prefix(s, 92160);
    assert(a@ =~= s);
}

proof fn lemma_frame_of(a: [u8; 92160])
    ensures
        frame_of(a@) == a,
{
    let b = frame_of(a@);
    assert(exists|x: [u8; 92160]| x@ == a@);
    assert(b@ == a@);
    assert(b =~= a);
}

proof fn lemma_selected_facts(oam: Seq<u8>, ly: u8, n: int)
    ensures
        selected_sprites(oam, ly, n).len() <= 10,
        forall|k: int|
            0 <= k < selected_sprites(oam, ly, n).len() ==> 0 <= #[trigger] selected_sprites(
                oam,
                ly,
                n,
            )[k] < n && sprite_on_line(oam, ly, selected_sprites(oam, ly, n)[k]),
        forall|a: int, b: int|
            0 <= a < b < selected_sprites(oam, ly, n).len() ==> #[trigger] selected_sprites(
                oam,
                ly,
                n,
            )[a] < #[trigger] selected_sprites(oam, ly, n)[b],
    decreases n,
{
    if n > 0 {
        lemma_selected_facts(oam, ly, n - 1);
    }
}

proof fn lemma_selected_full(oam: Seq<u8>, ly: u8, n: int, m: int)
    requires
        n <= m,
        selected_sprites(oam, ly, n).len() == 10,
    ensures
        selected_sprites(oam, ly, m) == selected_sprites(oam, ly, n),
    decreases m - n,
{
    if n < m {
        lemma_selected_full(oam, ly, n, m - 1);
    }
}

proof fn lemma_key_injective(oam: Seq<u8>, v: int, w: int)
    requires
        0 <= v < 40,
        0 <= w < 40,
        sprite_key(oam, v) == sprite_key(oam, w),
    ensures
        v == w,
{
    let xv = 255 - sprite_x(oam, v) as int;
    let xw = 255 - sprite_x(oam, w) as int;
    assert(v == w) by (nonlinear_arith)
        requires
            xv * 64 + (63 - v) == xw * 64 + (63 - w),
            0 <= v < 40,
            0 <= w < 40,
    ;
}

proof fn lemma_last_painter(p: Ppu, vram: Seq<u8>, oam: Seq<u8>, ord: Seq<int>, k: int, x: int)
    requires
        0 <= k <= ord.len(),
    ensures
        -1 <= last_painter(p, vram, oam, ord, k, x) < k,
        last_painter(p, vram, oam, ord, k, x) >= 0 ==> p.sprite_paints(
            vram,
            oam,
            ord[last_painter(p, vram, oam, ord, k, x)],
            x,
        ),
        forall|m: int|
            last_painter(p, vram, oam, ord, k, x) < m < k ==> !p.sprite_paints(
                vram,
                oam,
                #[trigger] ord[m],
                x,
            ),
    decreases k,
{
    if k > 0 {
        lemma_last_painter(p, vram, oam, ord, k - 1, x);
    }
}

impl Ppu {
    pub fn new() -> (r: Ppu)
        ensures
            r == Ppu::post_boot(),
    {
        let fb: [u8; 92160] = [0xFF; 92160];
        proof {
            assert(fb@ =~= Seq::new(92160, |i: int| 0xFFu8));
            lemma_frame_of(fb);
        }
        Ppu {
            lcdc: 0x91,
            stat: 0x82,
            scy: 0,
            scx: 0,
            ly: 0,
            lyc: 0,
            bgp: 0xFC,
            obp0: 0,
            obp1: 0,
            wy: 0,
            wx: 0,
            dot: 0,
            mode: 2,
            window_line: 0,
            framebuffer: fb,
            back_buffer: fb,
        }
    }

    /// The last complete frame, RGBA, row-major.
    pub fn get_framebuffer(&self) -> (r: &[u8])
        ensures
            r@ == self.back_buffer@,
    {
        self.back_buffer.as_slice()
    }

    /// The frame being drawn, RGBA, row-major.
    pub fn current_frame(&self) -> (r: &[u8])
        ensures
            r@ == self.framebuffer@,
    {
        self.framebuffer.as_slice()
    }

    pub fn step(&mut self, t_cycles: u32, vram: &[u8], oam: &[u8], interrupt_flags: &mut u8)
        requires
            old(self).lcdc & 0x80 != 0 ==> vram@.len() >= 0x2000 && oam@.len() >= 0xA0,
            old(self).step_ok(t_cycles),
        ensures
            (*final(self), *final(interrupt_flags)) == old(self).step_spec(
                t_cycles,
                vram@,
                oam@,
                *old(interrupt_flags),
            ),
    {
        if self.lcdc & 0x80 == 0 {
            let fb: [u8; 92160] = [0xFF; 92160];
            proof {
                assert(fb@ =~= Seq::new(92160, |i: int| 0xFFu8));
                lemma_frame_of(fb);
            }
            self.framebuffer = fb;
            self.ly = 0;
            self.dot = 0;
            self.mode = 0;
            self.stat &= 0xF8;
            return ;
        }
        let ghost s0 = *self;
        let ghost f0 = *interrupt_flags;
        let ghost total = s0.dot as int + t_cycles as int;
        proof {
            lemma_advance_lines_ppu(s0, f0, 0, (total / 456) as nat);
        }
        self.dot += t_cycles;
        let ghost mut k: nat = 0;
        while self.dot >= 456
            invariant
                total == s0.dot as int + t_cycles as int,
                total <= u32::MAX,
                total >= 456 ==> s0.ly < 255,
                self.dot == total - 456 * k,
                (Ppu { dot: s0.dot, ..*self }, *interrupt_flags) == s0.advance_lines(f0, k),
                k > 0 ==> self.ly <= 153,
                k == 0 ==> self.ly == s0.ly,
                vram@.len() >= 0x2000,
                oam@.len() >= 0xA0,
            decreases self.dot,
        {
            self.dot -= 456;
            proof {
                lemma_advance_lines_split(s0, f0, k);
            }
            self.advance_ly(interrupt_flags);
            proof {
                k = k + 1;
            }
        }
        proof {
            assert(total / 456 == k && total % 456 == self.dot) by (nonlinear_arith)
                requires
                    self.dot == total - 456 * k,
                    self.dot < 456,
                    0 <= self.dot,
            ;
        }
        self.update_mode(vram, oam, interrupt_flags);
    }

    fn advance_ly(&mut self, interrupt_flags: &mut u8)
        requires
            old(self).ly < 255,
        ensures
            (*final(self), *final(interrupt_flags)) == old(self).advance_ly_spec(
                *old(interrupt_flags),
            ),
            final(self).ly <= 153,
            final(self).dot == old(self).dot,
    {
        self.ly += 1;
        if self.ly == 144 {
            self.mode = 1;
            self.stat = (self.stat & 0xF8) | 0x01;
            self.back_buffer = self.framebuffer;
            *interrupt_flags |= 0x01;
            if self.stat & 0x10 != 0 {
                *interrupt_flags |= 0x02;
            }
        } else if self.ly > 153 {
            self.ly = 0;
            self.window_line = 0;
            self.mode = 2;
            self.stat = (self.stat & 0xF8) | 0x02;
            if self.stat & 0x20 != 0 {
                *interrupt_flags |= 0x02;
            }
        } else if self.ly < 144 {
            self.mode = 2;
            self.stat = (self.stat & 0xF8) | 0x02;
            if self.stat & 0x20 != 0 {
                *interrupt_flags |= 0x02;
            }
        }
        self.check_lyc(interrupt_flags);
    }

    fn update_mode(&mut self, vram: &[u8], oam: &[u8], interrupt_flags: &mut u8)
        requires
            vram@.len() >= 0x2000,
            oam@.len() >= 0xA0,
            old(self).update_mode_ok(),
        ensures
            (*final(self), *final(interrupt_flags)) == old(self).update_mode_spec(
                vram@,
                oam@,
                *old(interrupt_flags),
            ),
    {
        if self.ly >= 144 {
            return ;
        }
        let new_mode: u8 = if self.dot < 80 {
            2
        } else if self.dot < 252 {
            3
        } else {
            0
        };
        if new_mode != self.mode {
            self.mode = new_mode;
            match self.mode {
                3 => {
                    self.render_scanline(vram, oam);
                },
                0 if self.stat & 0x08 != 0 => {
                    *interrupt_flags |= 0x02;
                },
                2 if self.stat & 0x20 != 0 => {
                    *interrupt_flags |= 0x02;
                },
                _ => {},
            }
        }
        self.stat = (self.stat & 0xFC) | (self.mode & 0x03);
    }

    fn check_lyc(&mut self, interrupt_flags: &mut u8)
        ensures
            (*final(self), *final(interrupt_flags)) == old(self).check_lyc_spec(
                *old(interrupt_flags),
            ),
    {
        if self.ly == self.lyc {
            self.stat |= 0x04;
            if self.stat & 0x40 != 0 {
                *interrupt_flags |= 0x02;
            }
        } else {
            self.stat &= !0x04;
        }
    }
}

proof fn lemma_advance_lines_split(p: Ppu, f: u8, n: nat)
    ensures
        p.advance_lines(f, n + 1) == p.advance_lines(f, n).0.advance_ly_spec(
            p.advance_lines(f, n).1,
        ),
    decreases n,
{
    let q = p.advance_ly_spec(f).0;
    let g = p.advance_ly_spec(f).1;
    if n == 0 {
        assert(q.advance_lines(g, 0) == (q, g));
    } else {
        lemma_advance_lines_split(q, g, (n - 1) as nat);
        assert(p.advance_lines(f, n + 1) == q.advance_lines(g, n));
        assert(p.advance_lines(f, n) == q.advance_lines(g, (n - 1) as nat));
    }
}

proof fn lemma_advance_lines_ppu(p: Ppu, f: u8, g: u8, n: nat)
    ensures
        p.advance_lines(f, n).0 == p.advance_lines(g, n).0,
    decreases n,
{
    if n > 0 {
        lemma_advance_lines_ppu(p.advance_ly_spec(f).0, p.advance_ly_spec(f).1, p.advance_ly_spec(g).1, (n - 1) as nat);
    }
}


/// The RGBA color of color index `idx` under `palette`.
pub fn palette_color(palette: u8, idx: u8) -> (r: [u8; 4])
    requires
        idx < 4,
    ensures
        forall|k: int| 0 <= k < 4 ==> r[k] == shade_rgba(palette_shade(palette, idx), k),
{
    let shade = (palette >> (idx * 2)) & 0x03;
    let r: [u8; 4] = match shade {
        0 => [0xE0, 0xF8, 0xD0, 0xFF],
        1 => [0x88, 0xC0, 0x70, 0xFF],
        2 => [0x34, 0x68, 0x56, 0xFF],
        _ => [0x08, 0x18, 0x20, 0xFF],
    };
    assert(shade <= 3) by (bit_vector)
        requires
            shade == (palette >> (idx * 2)) & 0x03,
    ;
    r
}

/// Color index of pixel (`row`, `col`) of the tile at `tile_base` in VRAM.
pub fn tile_pixel(vram: &[u8], tile_base: usize, row: usize, col: usize) -> (r: u8)
    requires
        tile_base + row * 2 + 1 < vram@.len(),
        col < 8,
    ensures
        r == tile_pixel_spec(vram@, tile_base as int, row as int, col as int),
        r < 4,
{
    // the two plane bytes lie within the slice, so their offsets fit in a usize
    let len = vram.len();
    assert(tile_base + row * 2 + 1 < len);
    let lo = vram[tile_base + row * 2];
    let hi = vram[tile_base + row * 2 + 1];
    let bit = (7 - col) as u8;
    let r = ((lo >> bit) & 1) | (((hi >> bit) & 1) << 1);
    assert(r < 4) by (bit_vector)
        requires
            r == ((lo >> bit) & 1) | (((hi >> bit) & 1) << 1u8),
    ;
    r
}

/// Offset in VRAM of tile `tile_idx` under the addressing mode of `lcdc`.
fn tile_base_of(lcdc: u8, tile_idx: u8) -> (r: usize)
    ensures
        r == tile_data_base(lcdc, tile_idx),
        r + 15 < 0x2000,
{
    if lcdc & 0x10 != 0 {
        (tile_idx as usize) * 16
    } else if tile_idx < 128 {
        // signed addressing around 0x9000
        0x1000 + (tile_idx as usize) * 16
    } else {
        0x1000 - (256 - tile_idx as usize) * 16
    }
}

impl Ppu {
    /// Writes one RGBA pixel at column `x` of the current line.
    fn put_pixel(&mut self, x: usize, color: [u8; 4])
        requires
            old(self).ly < 144,
            x < 160,
        ensures
            *final(self) == (Ppu { framebuffer: final(self).framebuffer, ..*old(self) }),
            forall|i: int|
                0 <= i < 92160 ==> final(self).framebuffer@[i] == if old(self).ly as int * 640 + x
                    * 4 <= i < old(self).ly as int * 640 + x * 4 + 4 {
                    color[i - (old(self).ly as int * 640 + x * 4)]
                } else {
                    old(self).framebuffer@[i]
                },
            forall|x2: int, k: int|
                0 <= x2 < 160 && 0 <= k < 4 ==> #[trigger] pix(final(self).framebuffer@, old(self).ly, x2, k)
                    == if x2 == x {
                    color[k]
                } else {
                    pix(old(self).framebuffer@, old(self).ly, x2, k)
                },
    {
        let base = (self.ly as usize * 160 + x) * 4;
        self.framebuffer[base] = color[0];
        self.framebuffer[base + 1] = color[1];
        self.framebuffer[base + 2] = color[2];
        self.framebuffer[base + 3] = color[3];
    }

    /// Background layer of the current line; `bg` receives the color indices.
    fn render_background(&mut self, vram: &[u8], bg: &mut [u8; 160])
        requires
            old(self).ly < 144,
            vram@.len() >= 0x2000,
            forall|x: int| 0 <= x < 160 ==> old(bg)[x] == 0,
        ensures
            *final(self) == (Ppu { framebuffer: final(self).framebuffer, ..*old(self) }),
            forall|x: int| 0 <= x < 160 ==> final(bg)[x] == old(self).bg_index(vram@, x),
            forall|x: int| 0 <= x < 160 ==> final(bg)[x] < 4,
            forall|x: int, k: int|
                0 <= x < 160 && 0 <= k < 4 ==> #[trigger] pix(final(self).framebuffer@, old(self).ly, x, k) == shade_rgba(
                    palette_shade(old(self).bgp, old(self).bg_index(vram@, x)),
                    k,
                ),
            forall|i: int|
                0 <= i < 92160 && !(old(self).ly as int * 640 <= i < old(self).ly as int * 640
                    + 640) ==> final(self).framebuffer@[i] == old(self).framebuffer@[i],
    {
        let ghost p = *self;
        let ly = self.ly as usize;
        let bg_on = self.lcdc & 0x01 != 0;
        let color0 = palette_color(self.bgp, 0);
        let map_base: usize = if self.lcdc & 0x08 != 0 {
            0x9C00
        } else {
            0x9800
        };
        let mut x: usize = 0;
        while x < 160
            invariant
                0 <= x <= 160,
                ly == p.ly,
                p.ly < 144,
                vram@.len() >= 0x2000,
                bg_on == (p.lcdc & 0x01 != 0),
                map_base - 0x8000 == tile_map_base(p.lcdc & 0x08 != 0),
                forall|k: int| 0 <= k < 4 ==> color0[k] == shade_rgba(palette_shade(p.bgp, 0), k),
                *self == (Ppu { framebuffer: self.framebuffer, ..p }),
                forall|j: int| 0 <= j < x ==> bg[j] == p.bg_index(vram@, j),
                forall|j: int| x <= j < 160 ==> bg[j] == 0,
                forall|j: int| 0 <= j < 160 ==> bg[j] < 4,
                forall|j: int, k: int|
                    0 <= j < x && 0 <= k < 4 ==> #[trigger] pix(self.framebuffer@, p.ly, j, k)
                        == shade_rgba(palette_shade(p.bgp, p.bg_index(vram@, j)), k),
                forall|i: int|
                    0 <= i < 92160 && !(p.ly as int * 640 <= i < p.ly as int * 640 + x * 4)
                        ==> self.framebuffer@[i] == p.framebuffer@[i],
            decreases 160 - x,
        {
            if !bg_on {
                self.put_pixel(x, color0);
            } else {
                let bg_x = (self.scx as usize + x) % 256;
                let bg_y = (self.scy as usize + ly) % 256;
                let tile_idx = vram[map_base - 0x8000 + (bg_y / 8) * 32 + (bg_x / 8)];
                let tile_base = tile_base_of(self.lcdc, tile_idx);
                let row = bg_y % 8;
                let col = bg_x % 8;
                let idx = tile_pixel(vram, tile_base, row, col);
                bg[x] = idx;
                let color = palette_color(self.bgp, idx);
                self.put_pixel(x, color);
            }
            x = x + 1;
        }
    }

    /// Window layer of the current line over `bg`; returns whether a window pixel was drawn.
    fn render_window(&mut self, vram: &[u8], bg: &mut [u8; 160]) -> (drew: bool)
        requires
            old(self).ly < 144,
            vram@.len() >= 0x2000,
            forall|x: int| 0 <= x < 160 ==> old(bg)[x] == old(self).bg_index(vram@, x),
            forall|x: int| 0 <= x < 160 ==> old(bg)[x] < 4,
            forall|x: int, k: int|
                0 <= x < 160 && 0 <= k < 4 ==> #[trigger] pix(old(self).framebuffer@, old(self).ly, x, k) == shade_rgba(
                    palette_shade(old(self).bgp, old(self).bg_index(vram@, x)),
                    k,
                ),
        ensures
            *final(self) == (Ppu { framebuffer: final(self).framebuffer, ..*old(self) }),
            drew == old(self).window_drawn(),
            forall|x: int| 0 <= x < 160 ==> final(bg)[x] == old(self).bgwin_index(vram@, x),
            forall|x: int| 0 <= x < 160 ==> final(bg)[x] < 4,
            forall|x: int, k: int|
                0 <= x < 160 && 0 <= k < 4 ==> #[trigger] pix(final(self).framebuffer@, old(self).ly, x, k) == shade_rgba(
                    palette_shade(old(self).bgp, old(self).bgwin_index(vram@, x)),
                    k,
                ),
            forall|i: int|
                0 <= i < 92160 && !(old(self).ly as int * 640 <= i < old(self).ly as int * 640
                    + 640) ==> final(self).framebuffer@[i] == old(self).framebuffer@[i],
    {
        let ghost p = *self;
        if !(self.lcdc & 0x20 != 0 && self.wy <= self.ly && self.wx <= 166) {
            assert forall|x: int, k: int|
                0 <= x < 160 && 0 <= k < 4 implies #[trigger] pix(self.framebuffer@, p.ly, x, k) == shade_rgba(palette_shade(p.bgp, p.bgwin_index(vram@, x)), k) by {
                assert(p.bgwin_index(vram@, x) == p.bg_index(vram@, x));
            }
            return false;
        }
        let win_map_base: usize = if self.lcdc & 0x40 != 0 {
            0x9C00
        } else {
            0x9800
        };
        let wx_start = (self.wx as usize).saturating_sub(7);
        let win_y = self.window_line as usize;
        let mut drew_window = false;
        let mut x: usize = wx_start;
        while x < 160
            invariant
                wx_start <= x <= 160 || (wx_start > 160 && x == wx_start),
                wx_start == p.wx_start(),
                win_y == p.window_line,
                p.window_on(),
                p.ly < 144,
                vram@.len() >= 0x2000,
                win_map_base - 0x8000 == tile_map_base(p.lcdc & 0x40 != 0),
                drew_window == (x > wx_start),
                *self == (Ppu { framebuffer: self.framebuffer, ..p }),
                forall|j: int|
                    0 <= j < 160 ==> bg[j] == if wx_start <= j < x {
                        p.window_index(vram@, j)
                    } else {
                        p.bg_index(vram@, j)
                    },
                forall|j: int| 0 <= j < 160 ==> bg[j] < 4,
                forall|j: int, k: int|
                    0 <= j < 160 && 0 <= k < 4 ==> #[trigger] pix(self.framebuffer@, p.ly, j, k)
                        == shade_rgba(palette_shade(p.bgp, bg[j]), k),
                forall|i: int|
                    0 <= i < 92160 && !(p.ly as int * 640 <= i < p.ly as int * 640 + 640)
                        ==> self.framebuffer@[i] == p.framebuffer@[i],
            decreases 160 - x,
        {
            let win_x = x - wx_start;
            let tile_idx = vram[win_map_base - 0x8000 + (win_y / 8) * 32 + (win_x / 8)];
            let tile_base = tile_base_of(self.lcdc, tile_idx);
            let row = win_y % 8;
            let col = win_x % 8;
            let idx = tile_pixel(vram, tile_base, row, col);
            bg[x] = idx;
            let color = palette_color(self.bgp, idx);
            self.put_pixel(x, color);
            drew_window = true;
            x = x + 1;
        }
        assert forall|j: int| 0 <= j < 160 implies bg[j] == p.bgwin_index(vram@, j) by {}
        assert forall|j: int, k: int|
            0 <= j < 160 && 0 <= k < 4 implies #[trigger] pix(self.framebuffer@, p.ly, j, k) == shade_rgba(palette_shade(p.bgp, p.bgwin_index(vram@, j)), k) by {
            assert(bg[j] == p.bgwin_index(vram@, j));
        }
        drew_window
    }

    /// Draws the current line (`ly` < 144) into the frame buffer: background, window, then the
    /// first ten sprites on the line in order of X.
    pub fn render_scanline(&mut self, vram: &[u8], oam: &[u8])
        requires
            old(self).ly < 144,
            old(self).render_ok(),
            vram@.len() >= 0x2000,
            oam@.len() >= 0xA0,
        ensures
            *final(self) == old(self).render_spec(vram@, oam@),
    {
        let ghost p = *self;
        proof {
            lemma_selected_facts(oam@, p.ly, 40);
        }
        let mut bg_indices = [0u8; 160];
        self.render_background(vram, &mut bg_indices);
        let drew_window = self.render_window(vram, &mut bg_indices);
        if self.lcdc & 0x02 != 0 {
            let (sprites, count, Ghost(ids)) = select_sprites(oam, self.ly);
            let mut sorted = sprites;
            let Ghost(ord) = sort_sprites(&mut sorted, count, Ghost(oam@), Ghost(ids));
            proof {
                assert forall|k: int| 0 <= k < count implies sprite_on_line(oam@, p.ly, #[trigger] ord[k]) by {
                    assert(ord.contains(ord[k]));
                    let j = choose|j: int| 0 <= j < ids.len() && ids[j] == ord[k];
                }
            }
            self.draw_sprites(vram, oam, &sorted, count, Ghost(ord), &bg_indices, Ghost(p));
            proof {
                lemma_selected_facts(oam@, p.ly, 40);
                assert forall|x: int, k: int| 0 <= x < 160 && 0 <= k < 4 implies #[trigger] pix(self.framebuffer@, p.ly, x, k) == p.pixel_rgba(vram@, oam@, x, k) by {
                    lemma_top_sprite(p, vram@, oam@, ord, x);
                }
            }
        } else {
            proof {
                assert forall|x: int| 0 <= x < 160 implies !p.some_sprite_paints(vram@, oam@, x) by {}
            }
        }
        if drew_window {
            self.window_line += 1;
        }
        proof {
            let fb = self.framebuffer;
            assert(fb@ =~= p.rendered_frame(vram@, oam@)) by {
                assert forall|i: int| 0 <= i < 92160 implies fb@[i] == p.rendered_frame(vram@, oam@)[i] by {
                    let start = p.ly as int * 640;
                    if start <= i < start + 640 {
                        let x = (i - start) / 4;
                        let k = (i - start) % 4;
                        assert(i == start + x * 4 + k);
                        assert(pix(fb@, p.ly, x, k) == p.pixel_rgba(vram@, oam@, x, k));
                    }
                }
            }
            lemma_frame_of(fb);
        }
    }
}


/// Color component `c` that sprite `w` gives column `x`.
spec fn sprite_color(p: Ppu, vram: Seq<u8>, oam: Seq<u8>, w: int, x: int, c: int) -> u8 {
    let pal = if sprite_attrs(oam, w) & 0x10 != 0 {
        p.obp1
    } else {
        p.obp0
    };
    shade_rgba(palette_shade(pal, p.sprite_index(vram, oam, w, x)), c)
}

/// Color component `c` of column `x` after drawing the sprites `ord[0..k]` in order.
spec fn layer_color(p: Ppu, vram: Seq<u8>, oam: Seq<u8>, ord: Seq<int>, k: int, x: int, c: int) -> u8 {
    let lp = last_painter(p, vram, oam, ord, k, x);
    if lp >= 0 {
        sprite_color(p, vram, oam, ord[lp], x, c)
    } else {
        shade_rgba(palette_shade(p.bgp, p.bgwin_index(vram, x)), c)
    }
}

/// The sprites on line `ly`, in OAM order, at most ten.
fn select_sprites(oam: &[u8], ly: u8) -> (r: ([Sprite; 10], usize, Ghost<Seq<int>>))
    requires
        oam@.len() >= 0xA0,
    ensures
        r.2@ == selected_sprites(oam@, ly, 40),
        r.1 == r.2@.len(),
        r.1 <= 10,
        forall|k: int| 0 <= k < r.1 ==> r.0[k] == sprite_at(oam@, #[trigger] r.2@[k]),
{
    let zero = Sprite { x: 0, y: 0, tile: 0, attrs: 0 };
    let mut sprites = [zero; 10];
    let mut count: usize = 0;
    let ghost mut ids: Seq<int> = Seq::empty();
    let mut i: usize = 0;
    while i < 40 && count < 10
        invariant
            0 <= i <= 40,
            oam@.len() >= 0xA0,
            ids == selected_sprites(oam@, ly, i as int),
            count == ids.len(),
            count <= 10,
            forall|k: int| 0 <= k < count ==> sprites[k] == sprite_at(oam@, #[trigger] ids[k]),
        decreases 40 - i,
    {
        let base = i * 4;
        let sy = oam[base];
        let sx = oam[base + 1];
        let tile = oam[base + 2];
        let attrs = oam[base + 3];
        let ly16 = ly as u16 + 16;
        proof {
            lemma_selected_facts(oam@, ly, i as int);
        }
        if ly16 >= sy as u16 && ly16 < sy as u16 + 8 {
            sprites[count] = Sprite { x: sx, y: sy, tile, attrs };
            count += 1;
            proof {
                ids = ids.push(i as int);
            }
        }
        i += 1;
    }
    proof {
        if count == 10 {
            lemma_selected_full(oam@, ly, i as int, 40);
        }
    }
    (sprites, count, Ghost(ids))
}

proof fn lemma_swap_contains(s: Seq<int>, a: int, b: int, w: int)
    requires
        0 <= a < s.len(),
        0 <= b < s.len(),
    ensures
        s.update(a, s[b]).update(b, s[a]).contains(w) == s.contains(w),
{
    let t = s.update(a, s[b]).update(b, s[a]);
    if s.contains(w) {
        let k = choose|k: int| 0 <= k < s.len() && s[k] == w;
        if k == a {
            assert(t[b] == w);
        } else if k == b {
            assert(t[a] == w);
        } else {
            assert(t[k] == w);
        }
    }
    if t.contains(w) {
        let k = choose|k: int| 0 <= k < t.len() && t[k] == w;
        if k == a {
            assert(s[b] == w);
        } else if k == b {
            assert(s[a] == w);
        } else {
            assert(s[k] == w);
        }
    }
}

/// Insertion sort of `sprites[0..count]` into drawing order: X descending, and for equal X
/// the later OAM entry first, so that the sprite with priority is drawn last.
fn sort_sprites(
    sprites: &mut [Sprite; 10],
    count: usize,
    Ghost(oam): Ghost<Seq<u8>>,
    Ghost(ids): Ghost<Seq<int>>,
) -> (ord: Ghost<Seq<int>>)
    requires
        count <= 10,
        ids.len() == count,
        oam.len() >= 0xA0,
        forall|k: int| 0 <= k < count ==> old(sprites)[k] == sprite_at(oam, #[trigger] ids[k]),
        forall|k: int| 0 <= k < count ==> 0 <= #[trigger] ids[k] < 40,
        forall|a: int, b: int| 0 <= a < b < count ==> #[trigger] ids[a] < #[trigger] ids[b],
    ensures
        ord@.len() == count,
        forall|k: int| 0 <= k < count ==> final(sprites)[k] == sprite_at(oam, #[trigger] ord@[k]),
        forall|k: int| 0 <= k < count ==> 0 <= #[trigger] ord@[k] < 40,
        forall|a: int, b: int|
            0 <= a < b < count ==> sprite_key(oam, #[trigger] ord@[a]) < sprite_key(
                oam,
                #[trigger] ord@[b],
            ),
        forall|w: int| #[trigger] ord@.contains(w) <==> ids.contains(w),
{
    let ghost mut ord = ids;
    let mut i: usize = 1;
    while i < count
        invariant
            1 <= i,
            i <= count || count == 0,
            count <= 10,
            ord.len() == count,
            ids.len() == count,
            oam.len() >= 0xA0,
            forall|k: int| 0 <= k < count ==> sprites[k] == sprite_at(oam, #[trigger] ord[k]),
            forall|k: int| 0 <= k < count ==> 0 <= #[trigger] ord[k] < 40,
            forall|a: int, b: int|
                0 <= a < b < i ==> sprite_key(oam, #[trigger] ord[a]) < sprite_key(
                    oam,
                    #[trigger] ord[b],
                ),
            forall|k: int| i <= k < count ==> #[trigger] ord[k] == ids[k],
            forall|a: int, k: int| 0 <= a < i && i <= k < count ==> #[trigger] ord[a] < #[trigger] ids[k],
            forall|w: int| #[trigger] ord.contains(w) <==> ids.contains(w),
            forall|a: int, b: int| 0 <= a < b < count ==> #[trigger] ids[a] < #[trigger] ids[b],
            forall|k: int| 0 <= k < count ==> 0 <= #[trigger] ids[k] < 40,
        decreases count - i,
    {
        let ghost m = ids[i as int];
        let mut j: usize = i;
        // the entry being inserted comes later in OAM than every sorted one, so it goes
        // before each of them whose X is not greater
        while j > 0 && sprites[j].x >= sprites[j - 1].x
            invariant
                0 <= j <= i < count,
                count <= 10,
                ord.len() == count,
                oam.len() >= 0xA0,
                ord[j as int] == m,
                m == ids[i as int],
                forall|k: int| 0 <= k < count ==> sprites[k] == sprite_at(oam, #[trigger] ord[k]),
                forall|k: int| 0 <= k < count ==> 0 <= #[trigger] ord[k] < 40,
                forall|a: int, b: int|
                    0 <= a < b < j ==> sprite_key(oam, #[trigger] ord[a]) < sprite_key(
                        oam,
                        #[trigger] ord[b],
                    ),
                forall|a: int, b: int|
                    j < a < b <= i ==> sprite_key(oam, #[trigger] ord[a]) < sprite_key(
                        oam,
                        #[trigger] ord[b],
                    ),
                forall|a: int, b: int|
                    0 <= a < j && j < b <= i ==> sprite_key(oam, #[trigger] ord[a]) < sprite_key(
                        oam,
                        #[trigger] ord[b],
                    ),
                forall|b: int| j < b <= i ==> sprite_key(oam, m) < sprite_key(oam, #[trigger] ord[b]),
                forall|a: int| 0 <= a <= i && a != j ==> #[trigger] ord[a] < m,
                forall|k: int| i < k < count ==> #[trigger] ord[k] == ids[k],
                forall|a: int, k: int| 0 <= a <= i && i < k < count ==> #[trigger] ord[a] < #[trigger] ids[k],
                forall|w: int| #[trigger] ord.contains(w) <==> ids.contains(w),
                forall|a: int, b: int| 0 <= a < b < count ==> #[trigger] ids[a] < #[trigger] ids[b],
            decreases j,
        {
            let t = sprites[j];
            sprites[j] = sprites[j - 1];
            sprites[j - 1] = t;
            proof {
                let old_ord = ord;
                ord = ord.update(j as int, old_ord[j - 1]).update(j - 1, old_ord[j as int]);
                assert forall|w: int| #[trigger] ord.contains(w) <==> ids.contains(w) by {
                    lemma_swap_contains(old_ord, j as int, j - 1, w);
                }
            }
            j -= 1;
        }
        proof {
            if j > 0 {
                assert(sprite_key(oam, ord[j - 1]) < sprite_key(oam, m));
            }
        }
        i += 1;
    }
    Ghost(ord)
}

proof fn lemma_top_sprite(p: Ppu, vram: Seq<u8>, oam: Seq<u8>, ord: Seq<int>, x: int)
    requires
        p.lcdc & 0x02 != 0,
        ord.len() == selected_sprites(oam, p.ly, 40).len(),
        forall|w: int| #[trigger] ord.contains(w) <==> selected_sprites(oam, p.ly, 40).contains(w),
        forall|a: int, b: int|
            0 <= a < b < ord.len() ==> sprite_key(oam, #[trigger] ord[a]) < sprite_key(
                oam,
                #[trigger] ord[b],
            ),
        forall|k: int| 0 <= k < ord.len() ==> 0 <= #[trigger] ord[k] < 40,
    ensures
        last_painter(p, vram, oam, ord, ord.len() as int, x) >= 0 <==> p.some_sprite_paints(vram, oam, x),
        last_painter(p, vram, oam, ord, ord.len() as int, x) >= 0 ==> ord[last_painter(
            p,
            vram,
            oam,
            ord,
            ord.len() as int,
            x,
        )] == p.top_sprite(vram, oam, x),
        layer_color(p, vram, oam, ord, ord.len() as int, x, 0) == p.pixel_rgba(vram, oam, x, 0),
        layer_color(p, vram, oam, ord, ord.len() as int, x, 1) == p.pixel_rgba(vram, oam, x, 1),
        layer_color(p, vram, oam, ord, ord.len() as int, x, 2) == p.pixel_rgba(vram, oam, x, 2),
        layer_color(p, vram, oam, ord, ord.len() as int, x, 3) == p.pixel_rgba(vram, oam, x, 3),
{
    let sel = selected_sprites(oam, p.ly, 40);
    let n = ord.len() as int;
    lemma_last_painter(p, vram, oam, ord, n, x);
    lemma_selected_facts(oam, p.ly, 40);
    let lp = last_painter(p, vram, oam, ord, n, x);
    if lp >= 0 {
        let w = ord[lp];
        assert(ord.contains(w));
        assert(sel.contains(w));
        let k = choose|k: int| 0 <= k < sel.len() && sel[k] == w;
        assert(p.sprite_paints(vram, oam, sel[k], x));
        assert(p.some_sprite_paints(vram, oam, x));
        assert forall|v: int|
            sel.contains(v) && p.sprite_paints(vram, oam, v, x) implies sprite_key(oam, v)
            <= sprite_key(oam, w) by {
            assert(ord.contains(v));
            let m = choose|m: int| 0 <= m < ord.len() && ord[m] == v;
            if m > lp {
                assert(!p.sprite_paints(vram, oam, ord[m], x));
            }
            if m < lp {
                assert(sprite_key(oam, ord[m]) < sprite_key(oam, ord[lp]));
            }
        }
        let t = p.top_sprite(vram, oam, x);
        assert(sel.contains(t) && p.sprite_paints(vram, oam, t, x) && forall|v: int|
            sel.contains(v) && p.sprite_paints(vram, oam, v, x) ==> sprite_key(oam, v)
                <= sprite_key(oam, t));
        let kt = choose|k: int| 0 <= k < sel.len() && sel[k] == t;
        assert(0 <= t < 40);
        assert(0 <= w < 40);
        lemma_key_injective(oam, t, w);
    } else {
        if p.some_sprite_paints(vram, oam, x) {
            let k = choose|k: int| 0 <= k < sel.len() && p.sprite_paints(vram, oam, #[trigger] sel[k], x);
            assert(sel.contains(sel[k]));
            assert(ord.contains(sel[k]));
            let m = choose|m: int| 0 <= m < ord.len() && ord[m] == sel[k];
            assert(!p.sprite_paints(vram, oam, ord[m], x));
        }
    }
}

impl Ppu {
    /// Draws the sprites `sprites[0..count]` in order over the current line.
    fn draw_sprites(
        &mut self,
        vram: &[u8],
        oam: &[u8],
        sprites: &[Sprite; 10],
        count: usize,
        Ghost(ord): Ghost<Seq<int>>,
        bg: &[u8; 160],
        Ghost(p): Ghost<Ppu>,
    )
        requires
            *old(self) == (Ppu { framebuffer: old(self).framebuffer, window_line: old(self).window_line, ..p }),
            p.ly < 144,
            vram@.len() >= 0x2000,
            oam@.len() >= 0xA0,
            count <= 10,
            ord.len() == count,
            forall|k: int| 0 <= k < count ==> sprites[k] == sprite_at(oam@, #[trigger] ord[k]),
            forall|k: int| 0 <= k < count ==> 0 <= #[trigger] ord[k] < 40,
            forall|k: int| 0 <= k < count ==> sprite_on_line(oam@, p.ly, #[trigger] ord[k]),
            forall|x: int| 0 <= x < 160 ==> bg[x] == p.bgwin_index(vram@, x),
            forall|x: int, c: int|
                0 <= x < 160 && 0 <= c < 4 ==> #[trigger] pix(old(self).framebuffer@, p.ly, x, c)
                    == shade_rgba(palette_shade(p.bgp, p.bgwin_index(vram@, x)), c),
        ensures
            *final(self) == (Ppu { framebuffer: final(self).framebuffer, ..*old(self) }),
            forall|x: int, c: int|
                0 <= x < 160 && 0 <= c < 4 ==> #[trigger] pix(final(self).framebuffer@, p.ly, x, c)
                    == layer_color(p, vram@, oam@, ord, count as int, x, c),
            forall|i: int|
                0 <= i < 92160 && !(p.ly as int * 640 <= i < p.ly as int * 640 + 640)
                    ==> final(self).framebuffer@[i] == old(self).framebuffer@[i],
    {
        let ghost s0 = *self;
        let ly = self.ly as usize;
        let mut k: usize = 0;
        while k < count
            invariant
                0 <= k <= count,
                ly == p.ly,
                *self == (Ppu { framebuffer: self.framebuffer, ..s0 }),
                s0 == (Ppu { framebuffer: s0.framebuffer, window_line: s0.window_line, ..p }),
                p.ly < 144,
                vram@.len() >= 0x2000,
                oam@.len() >= 0xA0,
                count <= 10,
                ord.len() == count,
                forall|k: int| 0 <= k < count ==> sprites[k] == sprite_at(oam@, #[trigger] ord[k]),
                forall|k: int| 0 <= k < count ==> 0 <= #[trigger] ord[k] < 40,
                forall|k: int| 0 <= k < count ==> sprite_on_line(oam@, p.ly, #[trigger] ord[k]),
                forall|x: int| 0 <= x < 160 ==> bg[x] == p.bgwin_index(vram@, x),
                forall|x: int, c: int|
                    0 <= x < 160 && 0 <= c < 4 ==> #[trigger] pix(self.framebuffer@, p.ly, x, c)
                        == layer_color(p, vram@, oam@, ord, k as int, x, c),
                forall|i: int|
                    0 <= i < 92160 && !(p.ly as int * 640 <= i < p.ly as int * 640 + 640)
                        ==> self.framebuffer@[i] == s0.framebuffer@[i],
            decreases count - k,
        {
            let sp = sprites[k];
            let ghost w = ord[k as int];
            let palette = if sp.attrs & 0x10 != 0 {
                self.obp1
            } else {
                self.obp0
            };
            let tile_row_raw = ly + 16 - sp.y as usize;
            let mut col: usize = 0;
            while col < 8
                invariant
                    0 <= col <= 8,
                    0 <= k < count,
                    ly == p.ly,
                    w == ord[k as int],
                    sp == sprite_at(oam@, w),
                    0 <= w < 40,
                    sprite_on_line(oam@, p.ly, w),
                    tile_row_raw == p.ly + 16 - sp.y,
                    palette == if sprite_attrs(oam@, w) & 0x10 != 0 { p.obp1 } else { p.obp0 },
                    *self == (Ppu { framebuffer: self.framebuffer, ..s0 }),
                    s0 == (Ppu { framebuffer: s0.framebuffer, window_line: s0.window_line, ..p }),
                    p.ly < 144,
                    vram@.len() >= 0x2000,
                    oam@.len() >= 0xA0,
                    forall|x: int| 0 <= x < 160 ==> bg[x] == p.bgwin_index(vram@, x),
                    forall|x: int, c: int|
                        0 <= x < 160 && 0 <= c < 4 ==> #[trigger] pix(self.framebuffer@, p.ly, x, c) == if 0 <= x - (sp.x as int - 8) < col && p.sprite_paints(
                            vram@,
                            oam@,
                            w,
                            x,
                        ) {
                            sprite_color(p, vram@, oam@, w, x, c)
                        } else {
                            layer_color(p, vram@, oam@, ord, k as int, x, c)
                        },
                    forall|i: int|
                        0 <= i < 92160 && !(p.ly as int * 640 <= i < p.ly as int * 640 + 640)
                            ==> self.framebuffer@[i] == s0.framebuffer@[i],
                decreases 8 - col,
            {
                let screen_x = sp.x as isize - 8 + col as isize;
                if 0 <= screen_x && screen_x < 160 {
                    let sx = screen_x as usize;
                    let row = if sp.attrs & 0x40 != 0 {
                        7 - tile_row_raw
                    } else {
                        tile_row_raw
                    };
                    let c = if sp.attrs & 0x20 != 0 {
                        7 - col
                    } else {
                        col
                    };
                    let tile_base = (sp.tile as usize) * 16;
                    let idx = tile_pixel(vram, tile_base, row, c);
                    assert(idx == p.sprite_index(vram@, oam@, w, sx as int));
                    if idx != 0 && !(sp.attrs & 0x80 != 0 && bg[sx] != 0) {
                        let color = palette_color(palette, idx);
                        self.put_pixel(sx, color);
                    }
                }
                col += 1;
            }
            proof {
                assert forall|x: int, c: int|
                    0 <= x < 160 && 0 <= c < 4 implies #[trigger] pix(self.framebuffer@, p.ly, x, c) == layer_color(p, vram@, oam@, ord, k + 1, x, c) by {
                    if !(0 <= x - (sp.x as int - 8) < 8) {
                        assert(p.sprite_index(vram@, oam@, w, x) == 0);
                    }
                }
            }
            k += 1;
        }
    }
}


/// A step of at most 24 T-cycles from a dot counter below 456, LY at most 153 and a window
/// line counter below 255 cannot overflow a counter.
pub proof fn lemma_short_step_ok(p: Ppu, t: u32)
    requires
        p.dot < 456,
        p.ly <= 153,
        p.window_line < 255,
        t <= 24,
    ensures
        p.step_ok(t),
{
    let total = p.dot as int + t as int;
    if total >= 456 {
        assert(total / 456 == 1);
        let (p1, f1) = p.advance_ly_spec(0);
        assert(p.advance_lines(0, 1) == p1.advance_lines(f1, 0));
    } else {
        assert(total / 456 == 0);
    }
}


/// LY stays within the 154 lines of a frame across any number of line advances.
proof fn lemma_advance_lines_keeps_ly(p: Ppu, f: u8, n: nat)
    requires
        p.ly <= 153,
    ensures
        p.advance_lines(f, n).0.ly <= 153,
    decreases n,
{
    if n > 0 {
        let (p1, f1) = p.advance_ly_spec(f);
        lemma_advance_lines_keeps_ly(p1, f1, (n - 1) as nat);
    }
}

/// Law: a PPU step keeps LY within the frame's 154 lines and the dot counter within a line.
pub proof fn lemma_step_keeps_timing(p: Ppu, t: u32, vram: Seq<u8>, oam: Seq<u8>, f: u8)
    requires
        p.ly <= 153,
    ensures
        p.step_spec(t, vram, oam, f).0.ly <= 153,
        p.step_spec(t, vram, oam, f).0.dot < 456,
{
    if p.lcdc & 0x80 != 0 {
        let total = p.dot as int + t as int;
        lemma_advance_lines_keeps_ly(p, f, (total / 456) as nat);
    }
}


/// Law: the presented frame changes only on entering line 144 (VBlank), and then becomes the
/// frame just drawn; mode updates never touch it.
pub proof fn lemma_back_buffer_at_vblank(p: Ppu, f: u8, vram: Seq<u8>, oam: Seq<u8>)
    ensures
        p.advance_ly_spec(f).0.back_buffer == if p.ly == 143 {
            p.framebuffer
        } else {
            p.back_buffer
        },
        p.update_mode_spec(vram, oam, f).0.back_buffer == p.back_buffer,
{
    let ly = p.ly;
    assert(((ly + 1) as u8 == 144) == (ly == 143)) by (bit_vector);
}


impl Default for Ppu {
    fn default() -> (r: Ppu)
        ensures
            r == Ppu::post_boot(),
    {
        Ppu::new()
    }
}


/// `f1` keeps every bit of `f0` and adds at most the VBlank (bit 0) and STAT (bit 1) requests.
pub open spec fn raises_only_lcd_bits(f0: u8, f1: u8) -> bool {
    &&& f1 & f0 == f0
    &&& (f1 & !f0) & !0x03u8 == 0
}

proof fn lemma_raise_facts(f0: u8, f1: u8, f2: u8)
    by (bit_vector)
    ensures
        raises_only_lcd_bits(f0, f0),
        raises_only_lcd_bits(f0, f0 | 0x01),
        raises_only_lcd_bits(f0, f0 | 0x02),
        raises_only_lcd_bits(f0, f1) && raises_only_lcd_bits(f1, f2) ==> raises_only_lcd_bits(
            f0,
            f2,
        ),
{
}

proof fn lemma_advance_ly_raises(p: Ppu, f: u8)
    ensures
        raises_only_lcd_bits(f, p.advance_ly_spec(f).1),
{
    lemma_raise_facts(f, f | 0x01, (f | 0x01) | 0x02);
    lemma_raise_facts(f | 0x01, (f | 0x01) | 0x02, 0);
    lemma_raise_facts(f, f | 0x02, 0);
    let ly = (p.ly + 1) as u8;
    let (q, g) = if ly == 144 {
        let stat = (p.stat & 0xF8) | 0x01;
        let f1 = f | 0x01;
        (Ppu { ly, mode: 1, stat, back_buffer: p.framebuffer, ..p }, if stat & 0x10 != 0 {
            f1 | 0x02
        } else {
            f1
        })
    } else if ly > 153 {
        let stat = (p.stat & 0xF8) | 0x02;
        (Ppu { ly: 0, window_line: 0, mode: 2, stat, ..p }, if stat & 0x20 != 0 {
            f | 0x02
        } else {
            f
        })
    } else if ly < 144 {
        let stat = (p.stat & 0xF8) | 0x02;
        (Ppu { ly, mode: 2, stat, ..p }, if stat & 0x20 != 0 {
            f | 0x02
        } else {
            f
        })
    } else {
        (Ppu { ly, ..p }, f)
    };
    assert(raises_only_lcd_bits(f, g));
    lemma_raise_facts(g, g | 0x02, 0);
    lemma_raise_facts(f, g, g | 0x02);
}

proof fn lemma_advance_lines_raises(p: Ppu, f: u8, n: nat)
    ensures
        raises_only_lcd_bits(f, p.advance_lines(f, n).1),
    decreases n,
{
    if n == 0 {
        lemma_raise_facts(f, f, f);
    } else {
        let (q, g) = p.advance_ly_spec(f);
        lemma_advance_ly_raises(p, f);
        lemma_advance_lines_raises(q, g, (n - 1) as nat);
        lemma_raise_facts(f, g, q.advance_lines(g, (n - 1) as nat).1);
    }
}

/// Law: a PPU step never clears an interrupt request; the only requests it adds are VBlank
/// (IF bit 0) and STAT (IF bit 1).
pub proof fn lemma_step_raises_only_lcd_bits(p: Ppu, t: u32, vram: Seq<u8>, oam: Seq<u8>, f: u8)
    ensures
        raises_only_lcd_bits(f, p.step_spec(t, vram, oam, f).1),
{
    lemma_raise_facts(f, f, f);
    if p.lcdc & 0x80 != 0 {
        let total = p.dot as int + t as int;
        let (q, g) = p.advance_lines(f, (total / 456) as nat);
        lemma_advance_lines_raises(p, f, (total / 456) as nat);
        lemma_raise_facts(g, g, g);
        lemma_raise_facts(g, g | 0x02, 0);
        let h = Ppu { dot: (total % 456) as u32, ..q }.update_mode_spec(vram, oam, g).1;
        assert(raises_only_lcd_bits(g, h));
        lemma_raise_facts(f, g, h);
    }
}

/// Whether `n` line advances from `p` enter VBlank, that is pass from line 143 to line 144.
pub open spec fn enters_vblank(p: Ppu, f: u8, n: nat) -> bool
    decreases n,
{
    n > 0 && (p.ly == 143 || enters_vblank(
        p.advance_ly_spec(f).0,
        p.advance_ly_spec(f).1,
        (n - 1) as nat,
    ))
}

proof fn lemma_advance_lines_keep_frame(p: Ppu, f: u8, n: nat)
    requires
        !enters_vblank(p, f, n),
    ensures
        p.advance_lines(f, n).0.back_buffer == p.back_buffer,
    decreases n,
{
    if n > 0 {
        let (q, g) = p.advance_ly_spec(f);
        lemma_back_buffer_at_vblank(p, f, Seq::empty(), Seq::empty());
        lemma_advance_lines_keep_frame(q, g, (n - 1) as nat);
    }
}

/// Law: the presented frame (`get_framebuffer`) stays the same across a whole `Ppu::step`
/// whose line advances do not enter VBlank, and across any step with the LCD off.
pub proof fn lemma_step_keeps_presented_frame(p: Ppu, t: u32, vram: Seq<u8>, oam: Seq<u8>, f: u8)
    requires
        p.lcdc & 0x80 != 0 ==> !enters_vblank(p, f, ((p.dot as int + t as int) / 456) as nat),
    ensures
        p.step_spec(t, vram, oam, f).0.back_buffer == p.back_buffer,
{
    if p.lcdc & 0x80 != 0 {
        let total = p.dot as int + t as int;
        let n = (total / 456) as nat;
        lemma_advance_lines_keep_frame(p, f, n);
        let (q, g) = p.advance_lines(f, n);
        lemma_back_buffer_at_vblank(Ppu { dot: (total % 456) as u32, ..q }, g, vram, oam);
    }
}


/// Law: tile data addressing. With LCDC bit 4 set, tile `t` starts at 16 * t (0x8000-0x8FFF).
/// With it clear, indices are signed around 0x9000: tiles 128-255 lie at 0x8800-0x8FFF just
/// before tiles 0-127 at 0x9000-0x97FF, 16 bytes apart. Either way a tile's 16 bytes stay
/// below the tile maps at 0x9800.
pub proof fn lemma_tile_addressing(lcdc: u8, t: u8)
    ensures
        lcdc & 0x10 != 0 ==> tile_data_base(lcdc, t) == 16 * t,
        lcdc & 0x10 == 0 ==> tile_data_base(lcdc, t) == 0x0800 + 16 * ((t as int + 128) % 256),
        lcdc & 0x10 == 0 && t >= 128 ==> 0x0800 <= tile_data_base(lcdc, t) < 0x1000,
        lcdc & 0x10 == 0 && t < 128 ==> 0x1000 <= tile_data_base(lcdc, t) < 0x1800,
        0 <= tile_data_base(lcdc, t),
        tile_data_base(lcdc, t) + 16 <= 0x1800,
{
}


/// Law: a palette register holds four 2-bit shades, the shade of color index `i` being the
/// base-4 digit `i` of the register.
pub proof fn lemma_palette_digits(palette: u8, i: u8)
    requires
        i < 4,
    ensures
        palette_shade(palette, i) as int == (palette as int / (if i == 0 {
            1int
        } else if i == 1 {
            4
        } else if i == 2 {
            16
        } else {
            64
        })) % 4,
{
    assert(((palette >> (i * 2)) & 0x03) as int == ((palette as int) / (if i == 0 {
        1int
    } else if i == 1 {
        4
    } else if i == 2 {
        16
    } else {
        64
    })) % 4) by (bit_vector)
        requires
            i < 4,
    ;
}

} // verus!
