use vstd::prelude::*;
use crate::apu::Apu;
use crate::cartridge::{Cartridge, CartModel};
use crate::ppu::Ppu;
use crate::timer::Timer;

verus! {

broadcast use vstd::array::group_array_axioms;

/// Joypad matrix: pressed buttons (1 = pressed; bit 0 A, 1 B, 2 Select, 3 Start, 4 Right,
/// 5 Left, 6 Up, 7 Down) and the row-select bits 5-4 last written to 0xFF00.
pub struct Joypad {
    pub pressed: u8,
    pub select: u8,
}

proof fn lemma_output_mask(x: u8, y: u8)
    by (bit_vector)
    ensures
        (0x0Fu8 & ((!x) & 0x0F)) & ((!y) & 0x0F) == 0x0F & !(x | y),
        0x0Fu8 & ((!x) & 0x0F) == 0x0F & !(x | 0),
        0x0Fu8 == 0x0F & !(0u8 | 0u8),
        0x0Fu8 & ((!y) & 0x0F) == 0x0F & !(0u8 | y),
{
}

impl Joypad {
    /// Low nibble of P1: a line reads 0 when a button on a selected row (P15 clear: action
    /// buttons; P14 clear: directions) is pressed.
    pub open spec fn output_spec(self) -> u8 {
        let act = if self.select & 0x20 == 0 {
            self.pressed & 0x0F
        } else {
            0
        };
        let dir = if self.select & 0x10 == 0 {
            self.pressed >> 4u8
        } else {
            0
        };
        0x0F & !(act | dir)
    }

    /// Full P1 value: bits 7-6 set, the select bits, and the output nibble.
    pub open spec fn full_spec(self) -> u8 {
        0xC0 | (self.select & 0x30) | self.output_spec()
    }

    pub fn new() -> (r: Joypad)
        ensures
            r == (Joypad { pressed: 0, select: 0x30 }),
    {
        Joypad { pressed: 0, select: 0x30 }
    }

    pub fn read_output(&self) -> (r: u8)
        ensures
            r == self.output_spec(),
    {
        let mut result: u8 = 0x0F;
        let pressed = self.pressed;
        let select = self.select;
        // P15 clear (bit 5 of select) -> action row selected
        if self.select & 0x20 == 0 {
            let a = self.pressed & 1;
            let b = (self.pressed >> 1) & 1;
            let sel = (self.pressed >> 2) & 1;
            let start = (self.pressed >> 3) & 1;
            let row = (start << 3) | (sel << 2) | (b << 1) | a;
            assert(row == pressed & 0x0F) by (bit_vector)
                requires
                    row == ((((pressed >> 3u8) & 1) << 3u8) | (((pressed >> 2u8) & 1) << 2u8) | (
                    ((pressed >> 1u8) & 1) << 1u8) | (pressed & 1)),
            ;
            result &= (!row) & 0x0F;
        }
        // P14 clear (bit 4 of select) -> direction row selected
        if self.select & 0x10 == 0 {
            let right = (self.pressed >> 4) & 1;
            let left = (self.pressed >> 5) & 1;
            let up = (self.pressed >> 6) & 1;
            let down = (self.pressed >> 7) & 1;
            let row = (down << 3) | (up << 2) | (left << 1) | right;
            assert(row == pressed >> 4u8) by (bit_vector)
                requires
                    row == ((((pressed >> 7u8) & 1) << 3u8) | (((pressed >> 6u8) & 1) << 2u8) | (
                    ((pressed >> 5u8) & 1) << 1u8) | ((pressed >> 4u8) & 1)),
            ;
            result &= (!row) & 0x0F;
        }
        proof {
            lemma_output_mask(pressed & 0x0F, pressed >> 4u8);
        }
        result
    }

    pub fn read_full(&self) -> (r: u8)
        ensures
            r == self.full_spec(),
    {
        0xC0 | (self.select & 0x30) | self.read_output()
    }
}


/// The memory bus: cartridge, work RAM, video RAM, OAM, high RAM and the I/O registers of the
/// timer, PPU, APU, joypad, serial port and interrupt controller.
pub struct Bus {
    pub cartridge: Cartridge,
    pub wram: [u8; 0x2000],
    pub hram: [u8; 0x7F],
    pub timer: Timer,
    pub ppu: Ppu,
    pub apu: Apu,
    pub vram: [u8; 0x2000],
    pub oam: [u8; 0xA0],
    pub joypad: Joypad,
    pub sb: u8,
    pub sc: u8,
    /// 0xFF0F, IF: pending interrupts (bits 4-0)
    pub interrupt_flags: u8,
    /// 0xFFFF, IE: enabled interrupts (bits 4-0)
    pub ie: u8,
    pub serial_buf: Vec<u8>,
}

/// Mathematical view of the bus.
pub struct BusModel {
    pub cart: CartModel,
    pub wram: Seq<u8>,
    pub hram: Seq<u8>,
    pub timer: Timer,
    pub ppu: Ppu,
    pub apu: Apu,
    pub vram: Seq<u8>,
    pub oam: Seq<u8>,
    pub joypad: Joypad,
    pub sb: u8,
    pub sc: u8,
    pub iflags: u8,
    pub ie: u8,
    pub serial: Seq<u8>,
}

impl View for Bus {
    type V = BusModel;

    open spec fn view(&self) -> BusModel {
        BusModel {
            cart: self.cartridge@,
            wram: self.wram@,
            hram: self.hram@,
            timer: self.timer,
            ppu: self.ppu,
            apu: self.apu,
            vram: self.vram@,
            oam: self.oam@,
            joypad: self.joypad,
            sb: self.sb,
            sc: self.sc,
            iflags: self.interrupt_flags,
            ie: self.ie,
            serial: self.serial_buf@,
        }
    }
}

impl BusModel {
    /// Well-formedness: memories have their sizes, cartridge reads cannot overflow, and the
    /// audio unit's counters are in range.
    pub open spec fn wf(self) -> bool {
        &&& self.wram.len() == 0x2000
        &&& self.hram.len() == 0x7F
        &&& self.vram.len() == 0x2000
        &&& self.oam.len() == 0xA0
        &&& self.cart.read_ok()
        &&& self.apu.wf()
    }

    /// The bus as the machine powers on with cartridge `cart`: zeroed memories, timer and
    /// serial registers, no interrupt requested or enabled, the PPU and APU in their post-boot
    /// states, no button pressed and both joypad rows deselected.
    pub open spec fn power_on(self, cart: CartModel) -> bool {
        &&& self.cart == cart
        &&& self.wram == Seq::new(0x2000, |i: int| 0u8)
        &&& self.hram == Seq::new(0x7F, |i: int| 0u8)
        &&& self.vram == Seq::new(0x2000, |i: int| 0u8)
        &&& self.oam == Seq::new(0xA0, |i: int| 0u8)
        &&& self.timer == (Timer { counter: 0, tima: 0, tma: 0, tac: 0 })
        &&& self.ppu == Ppu::post_boot()
        &&& self.apu.wf()
        &&& self.apu.at_power_on()
        &&& self.joypad == (Joypad { pressed: 0, select: 0x30 })
        &&& self.sb == 0
        &&& self.sc == 0
        &&& self.iflags == 0
        &&& self.ie == 0
        &&& self.serial == Seq::<u8>::empty()
    }

    /// The byte a CPU read of `addr` returns.
    #[verifier::opaque]
    pub open spec fn read_spec(self, addr: u16) -> u8 {
        if addr <= 0x7FFF {
            self.cart.read_spec(addr)
        } else if addr <= 0x9FFF {
            self.vram[addr - 0x8000]
        } else if 0xA000 <= addr <= 0xBFFF {
            self.cart.read_spec(addr)
        } else if 0xC000 <= addr <= 0xDFFF {
            self.wram[addr - 0xC000]
        } else if 0xE000 <= addr <= 0xFDFF {
            self.wram[addr - 0xE000]
        } else if 0xFE00 <= addr <= 0xFE9F {
            self.oam[addr - 0xFE00]
        } else if addr == 0xFF00 {
            self.joypad.full_spec()
        } else if addr == 0xFF01 {
            self.sb
        } else if addr == 0xFF02 {
            self.sc
        } else if 0xFF04 <= addr <= 0xFF07 {
            self.timer.read_spec(addr)
        } else if addr == 0xFF0F {
            self.iflags
        } else if 0xFF10 <= addr <= 0xFF3F {
            self.apu.read_spec(addr)
        } else if addr == 0xFF40 {
            self.ppu.lcdc
        } else if addr == 0xFF41 {
            self.ppu.stat | 0x80
        } else if addr == 0xFF42 {
            self.ppu.scy
        } else if addr == 0xFF43 {
            self.ppu.scx
        } else if addr == 0xFF44 {
            self.ppu.ly
        } else if addr == 0xFF45 {
            self.ppu.lyc
        } else if addr == 0xFF47 {
            self.ppu.bgp
        } else if addr == 0xFF48 {
            self.ppu.obp0
        } else if addr == 0xFF49 {
            self.ppu.obp1
        } else if addr == 0xFF4A {
            self.ppu.wy
        } else if addr == 0xFF4B {
            self.ppu.wx
        } else if 0xFF80 <= addr <= 0xFFFE {
            self.hram[addr - 0xFF80]
        } else if addr == 0xFFFF {
            self.ie
        } else {
            0xFF
        }
    }

    /// OAM after a DMA from page `val`: the 160 bytes read from `val * 256` onward.
    pub open spec fn dma_spec(self, val: u8) -> Seq<u8> {
        Seq::new(160, |i: int| self.read_spec((val as int * 256 + i) as u16))
    }

    /// The bus after a CPU write of `val` to `addr`.
    #[verifier::opaque]
    pub open spec fn write_spec(self, addr: u16, val: u8) -> BusModel {
        if addr <= 0x7FFF || 0xA000 <= addr <= 0xBFFF {
            BusModel { cart: self.cart.write_spec(addr, val), ..self }
        } else if addr <= 0x9FFF {
            BusModel { vram: self.vram.update(addr - 0x8000, val), ..self }
        } else if 0xC000 <= addr <= 0xDFFF {
            BusModel { wram: self.wram.update(addr - 0xC000, val), ..self }
        } else if 0xE000 <= addr <= 0xFDFF {
            BusModel { wram: self.wram.update(addr - 0xE000, val), ..self }
        } else if 0xFE00 <= addr <= 0xFE9F {
            BusModel { oam: self.oam.update(addr - 0xFE00, val), ..self }
        } else if addr == 0xFF00 {
            BusModel { joypad: Joypad { select: val & 0x30, ..self.joypad }, ..self }
        } else if addr == 0xFF01 {
            BusModel { sb: val, ..self }
        } else if addr == 0xFF02 {
            if val & 0x80 != 0 {
                BusModel {
                    serial: self.serial.push(self.sb),
                    sc: val & !0x80u8,
                    iflags: self.iflags | 0x08,
                    ..self
                }
            } else {
                BusModel { sc: val, ..self }
            }
        } else if 0xFF04 <= addr <= 0xFF07 {
            BusModel { timer: self.timer.write_spec(addr, val), ..self }
        } else if addr == 0xFF0F {
            BusModel { iflags: val & 0x1F, ..self }
        } else if 0xFF10 <= addr <= 0xFF3F {
            BusModel { apu: self.apu.write_spec(addr, val), ..self }
        } else if addr == 0xFF40 {
            BusModel { ppu: Ppu { lcdc: val, ..self.ppu }, ..self }
        } else if addr == 0xFF41 {
            BusModel { ppu: Ppu { stat: (self.ppu.stat & 0x07) | (val & 0xF8), ..self.ppu }, ..self }
        } else if addr == 0xFF42 {
            BusModel { ppu: Ppu { scy: val, ..self.ppu }, ..self }
        } else if addr == 0xFF43 {
            BusModel { ppu: Ppu { scx: val, ..self.ppu }, ..self }
        } else if addr == 0xFF45 {
            BusModel { ppu: Ppu { lyc: val, ..self.ppu }, ..self }
        } else if addr == 0xFF46 {
            BusModel { oam: self.dma_spec(val), ..self }
        } else if addr == 0xFF47 {
            BusModel { ppu: Ppu { bgp: val, ..self.ppu }, ..self }
        } else if addr == 0xFF48 {
            BusModel { ppu: Ppu { obp0: val, ..self.ppu }, ..self }
        } else if addr == 0xFF49 {
            BusModel { ppu: Ppu { obp1: val, ..self.ppu }, ..self }
        } else if addr == 0xFF4A {
            BusModel { ppu: Ppu { wy: val, ..self.ppu }, ..self }
        } else if addr == 0xFF4B {
            BusModel { ppu: Ppu { wx: val, ..self.ppu }, ..self }
        } else if 0xFF80 <= addr <= 0xFFFE {
            BusModel { hram: self.hram.update(addr - 0xFF80, val), ..self }
        } else if addr == 0xFFFF {
            BusModel { ie: val & 0x1F, ..self }
        } else {
            self
        }
    }

    /// The PPU's dot counter, LY and window line counter agree in `self` and `other`.
    pub open spec fn same_ppu_counters(self, other: BusModel) -> bool {
        &&& self.ppu.dot == other.ppu.dot
        &&& self.ppu.ly == other.ppu.ly
        &&& self.ppu.window_line == other.ppu.window_line
    }

    /// CPU writes never change the PPU's dot counter, LY or window line counter.
    pub broadcast proof fn lemma_write_keeps_ppu_counters(self, addr: u16, val: u8)
        ensures
            (#[trigger] self.write_spec(addr, val)).same_ppu_counters(self),
    {
        reveal(BusModel::write_spec);
    }

    /// The bus after `t` T-cycles of the timer: an overflow of TIMA requests the timer
    /// interrupt (IF bit 2).
    pub open spec fn step_timer_spec(self, t: u32) -> BusModel {
        let (timer, n) = self.timer.run(t as nat);
        BusModel {
            timer,
            iflags: if n > 0 {
                self.iflags | 0x04
            } else {
                self.iflags
            },
            ..self
        }
    }

    /// The bus after `t` T-cycles of the PPU.
    pub open spec fn step_ppu_spec(self, t: u32) -> BusModel {
        let (ppu, f) = self.ppu.step_spec(t, self.vram, self.oam, self.iflags);
        BusModel { ppu, iflags: f, ..self }
    }

    /// The bus after the joypad buttons become `pressed`: a line of the selected rows going
    /// from 1 to 0 requests the joypad interrupt (IF bit 4).
    pub open spec fn set_buttons_spec(self, pressed: u8) -> BusModel {
        let j = Joypad { pressed, ..self.joypad };
        let fire = self.joypad.output_spec() & !j.output_spec() != 0;
        BusModel {
            joypad: j,
            iflags: if fire {
                self.iflags | 0x10
            } else {
                self.iflags
            },
            ..self
        }
    }
}

impl Bus {
    pub fn new(cartridge: Cartridge) -> (r: Bus)
        ensures
            r.cartridge == cartridge,
            r@.power_on(cartridge@),
    {
        let r = Bus {
            cartridge,
            wram: [0; 0x2000],
            hram: [0; 0x7F],
            timer: Timer::new(),
            ppu: Ppu::new(),
            apu: Apu::new(),
            vram: [0; 0x2000],
            oam: [0; 0xA0],
            joypad: Joypad::new(),
            sb: 0,
            sc: 0,
            interrupt_flags: 0,
            ie: 0,
            serial_buf: Vec::new(),
        };
        assert(r@.wram =~= Seq::new(0x2000, |i: int| 0u8));
        assert(r@.hram =~= Seq::new(0x7F, |i: int| 0u8));
        assert(r@.vram =~= Seq::new(0x2000, |i: int| 0u8));
        assert(r@.oam =~= Seq::new(0xA0, |i: int| 0u8));
        r
    }

    pub fn read(&self, addr: u16) -> (r: u8)
        requires
            self@.wf(),
        ensures
            r == self@.read_spec(addr),
    {
        reveal(BusModel::read_spec);
        match addr {
            0x0000..=0x7FFF => self.cartridge.read(addr),
            0x8000..=0x9FFF => self.vram[(addr - 0x8000) as usize],
            0xC000..=0xDFFF => self.wram[(addr - 0xC000) as usize],
            0xE000..=0xFDFF => self.wram[(addr - 0xE000) as usize],
            0xFE00..=0xFE9F => self.oam[(addr - 0xFE00) as usize],
            0xFF00 => self.joypad.read_full(),
            0xFF01 => self.sb,
            0xFF02 => self.sc,
            0xFF04..=0xFF07 => self.timer.read(addr),
            0xFF0F => self.interrupt_flags,
            0xFF10..=0xFF3F => self.apu.read(addr),
            0xFF40 => self.ppu.lcdc,
            0xFF41 => self.ppu.stat | 0x80,
            0xFF42 => self.ppu.scy,
            0xFF43 => self.ppu.scx,
            0xFF44 => self.ppu.ly,
            0xFF45 => self.ppu.lyc,
            0xFF46 => 0xFF,
            0xFF47 => self.ppu.bgp,
            0xFF48 => self.ppu.obp0,
            0xFF49 => self.ppu.obp1,
            0xFF4A => self.ppu.wy,
            0xFF4B => self.ppu.wx,
            0xA000..=0xBFFF => self.cartridge.read(addr),
            0xFF80..=0xFFFE => self.hram[(addr - 0xFF80) as usize],
            0xFFFF => self.ie,
            _ => 0xFF,
        }
    }

    pub fn write(&mut self, addr: u16, val: u8)
        requires
            old(self)@.wf(),
        ensures
            final(self)@ == old(self)@.write_spec(addr, val),
            final(self)@.wf(),
    {
        reveal(BusModel::write_spec);
        match addr {
            0x0000..=0x7FFF => self.cartridge.write(addr, val),
            0x8000..=0x9FFF => self.vram[(addr - 0x8000) as usize] = val,
            0xC000..=0xDFFF => self.wram[(addr - 0xC000) as usize] = val,
            0xE000..=0xFDFF => self.wram[(addr - 0xE000) as usize] = val,
            0xFE00..=0xFE9F => self.oam[(addr - 0xFE00) as usize] = val,
            0xFF00..=0xFF0F => self.write_io(addr, val),
            0xFF10..=0xFF3F => self.apu.write(addr, val),
            0xFF40..=0xFF4B => self.write_lcd(addr, val),
            0xA000..=0xBFFF => self.cartridge.write(addr, val),
            0xFF80..=0xFFFE => self.hram[(addr - 0xFF80) as usize] = val,
            0xFFFF => self.ie = val & 0x1F,
            _ => {},
        }
        assert(final(self)@ =~= old(self)@.write_spec(addr, val));
    }

    fn write_io(&mut self, addr: u16, val: u8)
        requires
            old(self)@.wf(),
            0xFF00 <= addr <= 0xFF0F,
        ensures
            final(self)@ == old(self)@.write_spec(addr, val),
            final(self)@.wf(),
    {
        reveal(BusModel::write_spec);
        match addr {
            0xFF00 => self.joypad.select = val & 0x30,
            0xFF01 => self.sb = val,
            0xFF02 => {
                if val & 0x80 != 0 {
                    self.serial_buf.push(self.sb);
                    self.sc = val & !0x80;
                    // serial interrupt request (IF bit 3)
                    self.interrupt_flags |= 0x08;
                } else {
                    self.sc = val;
                }
            },
            0xFF04..=0xFF07 => self.timer.write(addr, val),
            0xFF0F => self.interrupt_flags = val & 0x1F,
            _ => {},
        }
        assert(final(self)@ =~= old(self)@.write_spec(addr, val));
    }

    fn write_lcd(&mut self, addr: u16, val: u8)
        requires
            old(self)@.wf(),
            0xFF40 <= addr <= 0xFF4B,
        ensures
            final(self)@ == old(self)@.write_spec(addr, val),
            final(self)@.wf(),
    {
        reveal(BusModel::write_spec);
        match addr {
            0xFF40 => self.ppu.lcdc = val,
            0xFF41 => self.ppu.stat = (self.ppu.stat & 0x07) | (val & 0xF8),
            0xFF42 => self.ppu.scy = val,
            0xFF43 => self.ppu.scx = val,
            0xFF44 => {},
            0xFF45 => self.ppu.lyc = val,
            0xFF46 => self.oam_dma(val),
            0xFF47 => self.ppu.bgp = val,
            0xFF48 => self.ppu.obp0 = val,
            0xFF49 => self.ppu.obp1 = val,
            0xFF4A => self.ppu.wy = val,
            0xFF4B => self.ppu.wx = val,
            _ => {},
        }
        assert(final(self)@ =~= old(self)@.write_spec(addr, val));
    }

    /// OAM DMA: copies 160 bytes from `val * 256` into OAM.
    fn oam_dma(&mut self, val: u8)
        requires
            old(self)@.wf(),
        ensures
            final(self)@ == (BusModel { oam: old(self)@.dma_spec(val), ..old(self)@ }),
    {
        let src = (val as u16) << 8;
        assert(src == val as int * 256) by (bit_vector)
            requires
                src == (val as u16) << 8u16,
        ;
        let mut buf = [0u8; 160];
        let mut i: u16 = 0;
        while i < 160
            invariant
                0 <= i <= 160,
                src == val as int * 256,
                self@.wf(),
                forall|j: int| 0 <= j < i ==> buf[j] == self@.read_spec((src + j) as u16),
            decreases 160 - i,
        {
            buf[i as usize] = self.read(src + i);
            i += 1;
        }
        let ghost before = self@;
        self.oam = buf;
        assert(self@.oam =~= before.dma_spec(val));
        assert(self@ =~= (BusModel { oam: before.dma_spec(val), ..before }));
    }

    pub fn if_reg(&self) -> (r: u8)
        ensures
            r == self@.iflags,
    {
        self.interrupt_flags
    }

    pub fn ie(&self) -> (r: u8)
        ensures
            r == self@.ie,
    {
        self.ie
    }

    pub fn set_if_bit(&mut self, bit: u8)
        requires
            bit < 8,
        ensures
            final(self)@ == (BusModel { iflags: old(self)@.iflags | (1u8 << bit), ..old(self)@ }),
    {
        self.interrupt_flags |= 1 << bit;
    }

    pub fn step_timer(&mut self, t_cycles: u32)
        ensures
            final(self)@ == old(self)@.step_timer_spec(t_cycles),
    {
        let overflows = self.timer.step(t_cycles);
        if overflows > 0 {
            self.set_if_bit(2);
            assert(1u8 << 2u8 == 0x04) by (bit_vector);
        }
    }

    pub fn step_ppu(&mut self, t_cycles: u32)
        requires
            old(self).ppu.step_ok(t_cycles),
        ensures
            final(self)@ == old(self)@.step_ppu_spec(t_cycles),
    {
        self.ppu.step(t_cycles, self.vram.as_slice(), self.oam.as_slice(), &mut self.interrupt_flags);
    }

    /// Hands out the bytes sent over the serial port since the last call.
    pub fn take_serial_output(&mut self) -> (r: Vec<u8>)
        ensures
            r@ == old(self)@.serial,
            final(self)@ == (BusModel { serial: Seq::empty(), ..old(self)@ }),
    {
        let mut out: Vec<u8> = Vec::new();
        std::mem::swap(&mut out, &mut self.serial_buf);
        out
    }

    pub fn set_joypad_buttons(&mut self, pressed: u8)
        ensures
            final(self)@ == old(self)@.set_buttons_spec(pressed),
    {
        let old_output = self.joypad.read_output();
        self.joypad.pressed = pressed;
        let new_output = self.joypad.read_output();
        // Any output bit 1->0 (inactive->active) fires the joypad interrupt (IF bit 4)
        if old_output & !new_output != 0 {
            // joypad interrupt request (IF bit 4)
            self.interrupt_flags |= 0x10;
        }
    }
}

/// Law: a byte written to VRAM, work RAM, echo RAM, OAM or high RAM reads back unchanged.
pub proof fn lemma_ram_write_read(b: BusModel, addr: u16, val: u8)
    requires
        b.wf(),
        0x8000 <= addr <= 0x9FFF || 0xC000 <= addr <= 0xFDFF || 0xFE00 <= addr <= 0xFE9F || 0xFF80
            <= addr <= 0xFFFE,
    ensures
        b.write_spec(addr, val).read_spec(addr) == val,
{
    reveal(BusModel::read_spec);
    reveal(BusModel::write_spec);
}

/// Law: echo RAM 0xE000-0xFDFF is the first 7.5 KiB of work RAM seen again: both addresses
/// read the same byte, and a write through either one shows at the other.
pub proof fn lemma_echo_mirrors_wram(b: BusModel, addr: u16, val: u8)
    requires
        b.wf(),
        0xC000 <= addr <= 0xDDFF,
    ensures
        b.read_spec((addr + 0x2000) as u16) == b.read_spec(addr),
        b.write_spec(addr, val).read_spec((addr + 0x2000) as u16) == val,
        b.write_spec((addr + 0x2000) as u16, val).read_spec(addr) == val,
{
    reveal(BusModel::read_spec);
    reveal(BusModel::write_spec);
}

/// Law: on a cartridge without a controller, writes to the ROM area change nothing at all.
pub proof fn lemma_rom_write_silent(b: BusModel, addr: u16, val: u8)
    requires
        b.cart.mbc is RomOnly,
        addr <= 0x7FFF,
    ensures
        b.write_spec(addr, val) == b,
{
    reveal(BusModel::write_spec);
    assert(b.cart.write_spec(addr, val) =~= b.cart);
}

/// Law: IE (0xFFFF) and IF (0xFF0F) keep the low five bits of what is written, and read
/// back as kept.
pub proof fn lemma_interrupt_registers(b: BusModel, val: u8)
    ensures
        b.write_spec(0xFFFF, val).ie == val & 0x1F,
        b.write_spec(0xFFFF, val).read_spec(0xFFFF) == val & 0x1F,
        b.write_spec(0xFF0F, val).iflags == val & 0x1F,
        b.write_spec(0xFF0F, val).read_spec(0xFF0F) == val & 0x1F,
{
    reveal(BusModel::read_spec);
    reveal(BusModel::write_spec);
}

/// Law: starting a serial transfer (SC bit 7) captures SB, requests the serial interrupt
/// (IF bit 3) and reads back with SC bit 7 clear.
pub proof fn lemma_serial_transfer(b: BusModel, val: u8)
    requires
        val & 0x80 != 0,
    ensures
        b.write_spec(0xFF02, val).serial == b.serial.push(b.sb),
        b.write_spec(0xFF02, val).iflags & 0x08 != 0,
        b.write_spec(0xFF02, val).read_spec(0xFF02) & 0x80 == 0,
{
    reveal(BusModel::read_spec);
    reveal(BusModel::write_spec);
    let i = b.iflags;
    assert((i | 0x08) & 0x08 != 0 && (val & !0x80u8) & 0x80 == 0) by (bit_vector);
}

/// Law: OAM DMA from page `page` fills OAM with the 160 bytes read from `page * 256` on.
pub proof fn lemma_oam_dma(b: BusModel, page: u8, i: int)
    requires
        b.wf(),
        0 <= i < 160,
    ensures
        b.write_spec(0xFF46, page).read_spec((0xFE00 + i) as u16) == b.read_spec(
            (page as int * 256 + i) as u16,
        ),
{
    reveal(BusModel::read_spec);
    reveal(BusModel::write_spec);
}

/// Law: releasing buttons never requests the joypad interrupt.
pub proof fn lemma_joypad_release_silent(b: BusModel, pressed: u8)
    requires
        pressed & !b.joypad.pressed == 0,
    ensures
        b.set_buttons_spec(pressed).iflags == b.iflags,
{
    let s = b.joypad.select;
    let p1 = b.joypad.pressed;
    let p2 = pressed;
    assert(({
        let a1 = if s & 0x20 == 0 { p1 & 0x0F } else { 0 };
        let d1 = if s & 0x10 == 0 { p1 >> 4u8 } else { 0 };
        let a2 = if s & 0x20 == 0 { p2 & 0x0F } else { 0 };
        let d2 = if s & 0x10 == 0 { p2 >> 4u8 } else { 0 };
        (0x0Fu8 & !(a1 | d1)) & !(0x0Fu8 & !(a2 | d2)) == 0
    })) by (bit_vector)
        requires
            p2 & !p1 == 0,
    ;
}

/// Law: with one button row selected, pressing a button of that row requests the joypad
/// interrupt (IF bit 4).
pub proof fn lemma_joypad_press_fires(b: BusModel, pressed: u8)
    requires
        ({
            let newly = pressed & !b.joypad.pressed;
            ||| b.joypad.select & 0x30 == 0x10 && newly & 0x0F != 0
            ||| b.joypad.select & 0x30 == 0x20 && newly & 0xF0 != 0
        }),
    ensures
        b.set_buttons_spec(pressed).iflags & 0x10 != 0,
{
    let s = b.joypad.select;
    let p1 = b.joypad.pressed;
    let p2 = pressed;
    let i = b.iflags;
    assert(({
        let a1 = if s & 0x20 == 0 { p1 & 0x0F } else { 0 };
        let d1 = if s & 0x10 == 0 { p1 >> 4u8 } else { 0 };
        let a2 = if s & 0x20 == 0 { p2 & 0x0F } else { 0 };
        let d2 = if s & 0x10 == 0 { p2 >> 4u8 } else { 0 };
        &&& (0x0Fu8 & !(a1 | d1)) & !(0x0Fu8 & !(a2 | d2)) != 0
        &&& (i | 0x10) & 0x10 != 0
    })) by (bit_vector)
        requires
            (s & 0x30 == 0x10 && (p2 & !p1) & 0x0F != 0) || (s & 0x30 == 0x20 && (p2 & !p1) & 0xF0
                != 0),
    ;
}

/// Law: P1 (0xFF00) reads with bits 7-6 set, bits 5-4 as last written, and the active-low
/// button lines of the selected rows in bits 3-0.
pub proof fn lemma_joypad_register(b: BusModel, val: u8)
    ensures
        b.write_spec(0xFF00, val).read_spec(0xFF00) & 0xC0 == 0xC0,
        b.write_spec(0xFF00, val).read_spec(0xFF00) & 0x30 == val & 0x30,
        b.write_spec(0xFF00, val).read_spec(0xFF00) & 0x0F == (Joypad {
            select: val & 0x30,
            ..b.joypad
        }).output_spec(),
{
    reveal(BusModel::read_spec);
    reveal(BusModel::write_spec);
    let o = (Joypad { select: val & 0x30, ..b.joypad }).output_spec();
    let j = Joypad { select: val & 0x30, ..b.joypad };
    let act = if j.select & 0x20 == 0 {
        j.pressed & 0x0F
    } else {
        0
    };
    let dir = if j.select & 0x10 == 0 {
        j.pressed >> 4u8
    } else {
        0
    };
    assert(o == 0x0Fu8 & !(act | dir));
    assert((0x0Fu8 & !(act | dir)) <= 0x0F) by (bit_vector);
    assert({
        let r = 0xC0u8 | ((val & 0x30) & 0x30) | o;
        &&& r & 0xC0 == 0xC0
        &&& r & 0x30 == val & 0x30
        &&& r & 0x0F == o
    }) by (bit_vector)
        requires
            o <= 0x0F,
    ;
}

/// Law: the CPU cannot write LY, STAT keeps its PPU-owned bits 2-0 on a write, and STAT
/// reads with bit 7 set.
pub proof fn lemma_lcd_status_registers(b: BusModel, val: u8)
    ensures
        b.write_spec(0xFF44, val) == b,
        b.write_spec(0xFF41, val).ppu.stat & 0x07 == b.ppu.stat & 0x07,
        b.write_spec(0xFF41, val).ppu.stat & 0xF8 == val & 0xF8,
        b.read_spec(0xFF41) & 0x80 != 0,
{
    reveal(BusModel::read_spec);
    reveal(BusModel::write_spec);
    let s = b.ppu.stat;
    assert({
        &&& ((s & 0x07) | (val & 0xF8)) & 0x07 == s & 0x07
        &&& ((s & 0x07) | (val & 0xF8)) & 0xF8 == val & 0xF8
        &&& (s | 0x80) & 0x80 != 0
    }) by (bit_vector);
}

} // verus!
