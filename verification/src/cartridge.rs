use vstd::prelude::*;

verus! {

/// Header fields of a cartridge image (offsets 0x0134-0x0149).
#[derive(Debug)]
pub struct CartridgeHeader {
    pub title: String,
    pub cartridge_type: u8,
    pub rom_size: u8,
    pub ram_size: u8,
}

/// Memory bank controller state.
#[derive(Debug)]
pub enum Mbc {
    RomOnly,
    Mbc1 { rom_bank: u8, ram_bank: u8, mode: bool, ram_enabled: bool },
    Mbc3 { rom_bank: u8, ram_bank: u8, ram_enabled: bool },
    Mbc5 { rom_bank_lo: u8, rom_bank_hi: u8, ram_bank: u8, ram_enabled: bool },
}

#[derive(Debug)]
pub struct Cartridge {
    pub header: CartridgeHeader,
    pub rom: Vec<u8>,
    pub sram: Vec<u8>,
    pub mbc: Mbc,
}

/// Mathematical view of a cartridge: the header (title and the bytes the banking logic
/// reads), ROM, SRAM and the controller state.
pub struct CartModel {
    pub title: Seq<char>,
    pub cartridge_type: u8,
    pub rom_size: u8,
    pub ram_size: u8,
    pub rom: Seq<u8>,
    pub sram: Seq<u8>,
    pub mbc: Mbc,
}

impl View for Cartridge {
    type V = CartModel;

    open spec fn view(&self) -> CartModel {
        CartModel {
            title: self.header.title@,
            cartridge_type: self.header.cartridge_type,
            rom_size: self.header.rom_size,
            ram_size: self.header.ram_size,
            rom: self.rom@,
            sram: self.sram@,
            mbc: self.mbc,
        }
    }
}

/// Bytes that may stand in the title: printable ASCII and space.
pub open spec fn title_char_ok(b: u8) -> bool {
    0x20 <= b <= 0x7E
}

pub open spec fn too_small_msg() -> Seq<char> {
    "ROM too small"@
}

/// Upper-case hexadecimal digit of a nibble.
pub open spec fn hex_digit(n: u8) -> char {
    if n < 10 {
        (48 + n) as char
    } else {
        (55 + n) as char
    }
}

/// The error text for an unsupported cartridge type byte `t`: "unsupported MBC: 0x" and two
/// upper-case hex digits.
pub open spec fn unsupported_msg(t: u8) -> Seq<char> {
    "unsupported MBC: 0x"@ + seq![hex_digit(t / 16), hex_digit(t % 16)]
}

/// The title is the longest run of title bytes from 0x0134, at most 16 of them, each mapped to
/// the char of the same code.
pub open spec fn is_title_of(title: Seq<char>, rom: Seq<u8>) -> bool {
    &&& title.len() <= 16
    &&& forall|i: int|
        0 <= i < title.len() ==> title_char_ok(#[trigger] rom[0x0134 + i]) && title[i] as int
            == rom[0x0134 + i] as int
    &&& title.len() < 16 ==> !title_char_ok(rom[0x0134 + title.len() as int])
}

/// SRAM size in bytes for the header's RAM-size byte.
pub open spec fn sram_size_spec(b: u8) -> nat {
    if b == 0x02 {
        8192
    } else if b == 0x03 {
        32768
    } else if b == 0x04 {
        131072
    } else if b == 0x05 {
        65536
    } else {
        0
    }
}

/// The controller a cartridge-type byte selects, in its power-on state; `None` when the type
/// is not supported.
pub open spec fn mbc_for_type(t: u8) -> Option<Mbc> {
    if t == 0x00 {
        Some(Mbc::RomOnly)
    } else if 0x01 <= t <= 0x03 {
        Some(Mbc::Mbc1 { rom_bank: 1, ram_bank: 0, mode: false, ram_enabled: false })
    } else if 0x0F <= t <= 0x13 {
        Some(Mbc::Mbc3 { rom_bank: 1, ram_bank: 0, ram_enabled: false })
    } else if 0x19 <= t <= 0x1E {
        Some(Mbc::Mbc5 { rom_bank_lo: 1, rom_bank_hi: 0, ram_bank: 0, ram_enabled: false })
    } else {
        None
    }
}

/// Why `rom` cannot be loaded, if it cannot: too short to hold a header, or a cartridge type
/// no supported controller handles.
pub open spec fn load_error(rom: Seq<u8>) -> Option<Seq<char>> {
    if rom.len() < 0x014A {
        Some(too_small_msg())
    } else if mbc_for_type(rom[0x0147]) is None {
        Some(unsupported_msg(rom[0x0147]))
    } else {
        None
    }
}

/// `c` is the cartridge loaded from `rom`: header fields from the header bytes, the whole ROM,
/// zeroed SRAM of the header's size, and the controller in its power-on state.
pub open spec fn loaded_from(c: Cartridge, rom: Seq<u8>) -> bool {
    &&& is_title_of(c@.title, rom)
    &&& c@.cartridge_type == rom[0x0147]
    &&& c@.rom_size == rom[0x0148]
    &&& c@.ram_size == rom[0x0149]
    &&& c@.rom == rom
    &&& c@.sram == Seq::new(sram_size_spec(rom[0x0149]), |i: int| 0u8)
    &&& c@.mbc == mbc_for_type(rom[0x0147])->0
}

/// Byte `i` of `s`, or 0xFF past its end.
pub open spec fn byte_or_ff(s: Seq<u8>, i: int) -> u8 {
    if 0 <= i < s.len() {
        s[i]
    } else {
        0xFF
    }
}

/// Mask of valid MBC1 bank numbers: the ROM has `2 << rom_size` banks of 16 KiB.
pub open spec fn rom_bank_mask(rom_size: u8) -> usize {
    ((2usize << rom_size) - 1) as usize
}

/// Whether the MBC1 bank mask can be formed in a `usize` without overflow.
pub open spec fn rom_size_fits(rom_size: u8) -> bool {
    rom_size as int + 1 < usize::BITS as int
}

impl CartModel {
    /// No read of this cartridge, at any address, overflows when forming a bank number.
    pub open spec fn read_ok(self) -> bool {
        self.mbc is Mbc1 ==> rom_size_fits(self.rom_size)
    }

    /// A read of `addr` cannot overflow: only MBC1 reads that form a bank number (the
    /// switchable window, and bank 0 in mode 1) build the bank mask from the ROM size.
    pub open spec fn read_ok_at(self, addr: u16) -> bool {
        match self.mbc {
            Mbc::Mbc1 { mode, .. } => (0x4000 <= addr <= 0x7FFF || (addr <= 0x3FFF && mode))
                ==> rom_size_fits(self.rom_size),
            _ => true,
        }
    }

    /// The value a CPU read of `addr` returns.
    pub open spec fn read_spec(self, addr: u16) -> u8 {
        if addr <= 0x3FFF {
            let phys: int = match self.mbc {
                Mbc::Mbc1 { ram_bank, mode, .. } => if mode {
                    (((ram_bank as usize) << 5usize) & rom_bank_mask(self.rom_size)) as int
                        * 0x4000 + addr as int
                } else {
                    addr as int
                },
                _ => addr as int,
            };
            byte_or_ff(self.rom, phys)
        } else if addr <= 0x7FFF {
            let off = addr as int - 0x4000;
            let phys: int = match self.mbc {
                Mbc::RomOnly => addr as int,
                Mbc::Mbc1 { rom_bank, ram_bank, .. } => {
                    let full = ((ram_bank as usize) << 5usize) | (rom_bank as usize);
                    let eff = full & rom_bank_mask(self.rom_size);
                    (if eff == 0 {
                        1
                    } else {
                        eff as int
                    }) * 0x4000 + off
                },
                Mbc::Mbc3 { rom_bank, .. } => rom_bank as int * 0x4000 + off,
                Mbc::Mbc5 { rom_bank_lo, rom_bank_hi, .. } => (rom_bank_hi as int * 256
                    + rom_bank_lo as int) * 0x4000 + off,
            };
            byte_or_ff(self.rom, phys)
        } else if 0xA000 <= addr <= 0xBFFF {
            let off = addr as int - 0xA000;
            if self.sram.len() == 0 {
                0xFF
            } else {
                match self.mbc {
                    Mbc::RomOnly => 0xFF,
                    Mbc::Mbc1 { ram_enabled, ram_bank, mode, .. } => if !ram_enabled {
                        0xFF
                    } else {
                        let bank = if mode {
                            ram_bank % 4
                        } else {
                            0
                        };
                        byte_or_ff(self.sram, bank as int * 0x2000 + off)
                    },
                    Mbc::Mbc3 { ram_enabled, ram_bank, .. } => if !ram_enabled || ram_bank >= 0x08 {
                        0xFF
                    } else {
                        byte_or_ff(self.sram, (ram_bank % 4) as int * 0x2000 + off)
                    },
                    Mbc::Mbc5 { ram_enabled, ram_bank, .. } => if !ram_enabled {
                        0xFF
                    } else {
                        byte_or_ff(self.sram, (ram_bank % 16) as int * 0x2000 + off)
                    },
                }
            }
        } else {
            0xFF
        }
    }

    /// Whether an SRAM write is let through, and the bank it goes to.
    pub open spec fn sram_target(self) -> (bool, u8) {
        match self.mbc {
            Mbc::RomOnly => (false, 0),
            Mbc::Mbc1 { ram_enabled, ram_bank, mode, .. } => (
                ram_enabled,
                if mode {
                    ram_bank % 4
                } else {
                    0
                },
            ),
            Mbc::Mbc3 { ram_enabled, ram_bank, .. } => (ram_enabled && ram_bank <= 0x03, ram_bank
                % 4),
            Mbc::Mbc5 { ram_enabled, ram_bank, .. } => (ram_enabled, ram_bank % 16),
        }
    }

    /// The controller after a write of `val` to the register range that holds `addr`. MBC3
    /// takes a RAM bank select only for RAM banks 0x00-0x03 and RTC registers 0x08-0x0C.
    pub open spec fn mbc_write_spec(mbc: Mbc, addr: u16, val: u8) -> Mbc {
        let enable = val % 16 == 0x0A;
        match mbc {
            Mbc::RomOnly => mbc,
            Mbc::Mbc1 { rom_bank, ram_bank, mode, ram_enabled } => if addr <= 0x1FFF {
                Mbc::Mbc1 { rom_bank, ram_bank, mode, ram_enabled: enable }
            } else if addr <= 0x3FFF {
                Mbc::Mbc1 {
                    rom_bank: if val % 32 == 0 {
                        1
                    } else {
                        val % 32
                    },
                    ram_bank,
                    mode,
                    ram_enabled,
                }
            } else if addr <= 0x5FFF {
                Mbc::Mbc1 { rom_bank, ram_bank: val % 4, mode, ram_enabled }
            } else if addr <= 0x7FFF {
                Mbc::Mbc1 { rom_bank, ram_bank, mode: val % 2 == 1, ram_enabled }
            } else {
                mbc
            },
            Mbc::Mbc3 { rom_bank, ram_bank, ram_enabled } => if addr <= 0x1FFF {
                Mbc::Mbc3 { rom_bank, ram_bank, ram_enabled: enable }
            } else if addr <= 0x3FFF {
                Mbc::Mbc3 {
                    rom_bank: if val % 128 == 0 {
                        1
                    } else {
                        val % 128
                    },
                    ram_bank,
                    ram_enabled,
                }
            } else if addr <= 0x5FFF {
                Mbc::Mbc3 {
                    rom_bank,
                    ram_bank: if val <= 0x03 || 0x08 <= val <= 0x0C {
                        val
                    } else {
                        ram_bank
                    },
                    ram_enabled,
                }
            } else {
                mbc
            },
            Mbc::Mbc5 { rom_bank_lo, rom_bank_hi, ram_bank, ram_enabled } => if addr <= 0x1FFF {
                Mbc::Mbc5 { rom_bank_lo, rom_bank_hi, ram_bank, ram_enabled: enable }
            } else if addr <= 0x2FFF {
                Mbc::Mbc5 { rom_bank_lo: val, rom_bank_hi, ram_bank, ram_enabled }
            } else if addr <= 0x3FFF {
                Mbc::Mbc5 { rom_bank_lo, rom_bank_hi: val % 2, ram_bank, ram_enabled }
            } else if addr <= 0x5FFF {
                Mbc::Mbc5 { rom_bank_lo, rom_bank_hi, ram_bank: val % 16, ram_enabled }
            } else {
                mbc
            },
        }
    }

    /// The cartridge after a CPU write of `val` to `addr`: SRAM writes go to the selected bank
    /// when let through, writes to 0x0000-0x7FFF drive the controller, others are ignored.
    pub open spec fn write_spec(self, addr: u16, val: u8) -> CartModel {
        if 0xA000 <= addr <= 0xBFFF {
            let (go, bank) = self.sram_target();
            let phys = bank as int * 0x2000 + (addr as int - 0xA000);
            if go && self.sram.len() != 0 && phys < self.sram.len() {
                CartModel { sram: self.sram.update(phys, val), ..self }
            } else {
                self
            }
        } else {
            CartModel { mbc: Self::mbc_write_spec(self.mbc, addr, val), ..self }
        }
    }
}

/// Appends `c` to `s` (std's `String::push`).
#[verifier::external_body]
fn push_char(s: &mut String, c: char)
    ensures
        final(s)@ == old(s)@.push(c),
{
    s.push(c)
}

fn hex_char(n: u8) -> (c: char)
    requires
        n < 16,
    ensures
        c == hex_digit(n),
{
    if n < 10 {
        (48 + n) as char
    } else {
        (55 + n) as char
    }
}

fn unsupported_mbc_error(t: u8) -> (e: String)
    ensures
        e@ == unsupported_msg(t),
{
    let mut e = String::from_str("unsupported MBC: 0x");
    let hi = t >> 4;
    let lo = t & 0x0F;
    assert(hi == t / 16 && lo == t % 16) by (bit_vector)
        requires
            hi == t >> 4,
            lo == t & 0x0F,
    ;
    push_char(&mut e, hex_char(hi));
    push_char(&mut e, hex_char(lo));
    e
}

impl CartridgeHeader {
    /// Reads the header of `rom`; fails with "ROM too small" when the image ends before 0x014A.
    pub fn parse(rom: &[u8]) -> (r: Result<CartridgeHeader, String>)
        ensures
            rom@.len() < 0x014A ==> (r matches Err(e) && e@ == too_small_msg()),
            rom@.len() >= 0x014A ==> (r matches Ok(h) && is_title_of(h.title@, rom@)
                && h.cartridge_type == rom@[0x0147] && h.rom_size == rom@[0x0148] && h.ram_size
                == rom@[0x0149]),
    {
        if rom.len() < 0x014A {
            return Err(String::from_str("ROM too small"));
        }
        let mut title = String::new();
        let mut i: usize = 0;
        let mut done = false;
        while i < 16 && !done
            invariant
                rom@.len() >= 0x014A,
                i <= 16,
                title@.len() == i,
                forall|j: int|
                    0 <= j < i ==> title_char_ok(#[trigger] rom@[0x0134 + j]) && title@[j] as int
                        == rom@[0x0134 + j] as int,
                done ==> i < 16 && !title_char_ok(rom@[0x0134 + i]),
            decreases 16 - i + (if done {
                0int
            } else {
                1
            }),
        {
            let b = rom[0x0134 + i];
            // b != 0 && (b.is_ascii_graphic() || b == b' ')
            if b != 0 && ((0x21 <= b && b <= 0x7E) || b == 0x20) {
                push_char(&mut title, b as char);
                i = i + 1;
            } else {
                done = true;
            }
        }
        Ok(
            CartridgeHeader {
                title,
                cartridge_type: rom[0x0147],
                rom_size: rom[0x0148],
                ram_size: rom[0x0149],
            },
        )
    }
}

fn sram_size(ram_size_byte: u8) -> (n: usize)
    ensures
        n == sram_size_spec(ram_size_byte),
{
    match ram_size_byte {
        0x02 => 8192,
        0x03 => 32768,
        0x04 => 131072,
        0x05 => 65536,
        _ => 0,
    }
}

fn rom_mask(rom_size: u8) -> (m: usize)
    requires
        rom_size_fits(rom_size),
    ensures
        m == rom_bank_mask(rom_size),
{
    let num_rom_banks = 2usize << (rom_size as usize);
    assert(num_rom_banks > 0) by (bit_vector)
        requires
            num_rom_banks == 2usize << (rom_size as usize),
            (rom_size as usize) + 1 < usize::BITS,
    ;
    num_rom_banks - 1
}

impl Cartridge {
    /// Whether reads of this cartridge can form their bank numbers without overflow.
    pub fn reads_ok(&self) -> (r: bool)
        ensures
            r == self@.read_ok(),
    {
        match self.mbc {
            Mbc::Mbc1 { .. } => (self.header.rom_size as u32) + 1 < usize::BITS,
            _ => true,
        }
    }

    /// Builds a cartridge from a ROM image: the header must parse and its type byte must name
    /// a supported controller; SRAM is zero-filled to the size the header gives.
    pub fn load(rom: Vec<u8>) -> (r: Result<Cartridge, String>)
        ensures
            match load_error(rom@) {
                Some(msg) => r matches Err(e) && e@ == msg,
                None => r matches Ok(c) && loaded_from(c, rom@),
            },
    {
        let header = match CartridgeHeader::parse(rom.as_slice()) {
            Ok(h) => h,
            Err(e) => return Err(e),
        };
        let n = sram_size(header.ram_size);
        let sram = zeroed(n);
        let mbc = match header.cartridge_type {
            0x00 => Mbc::RomOnly,
            0x01..=0x03 => Mbc::Mbc1 { rom_bank: 1, ram_bank: 0, mode: false, ram_enabled: false },
            0x0F..=0x13 => Mbc::Mbc3 { rom_bank: 1, ram_bank: 0, ram_enabled: false },
            0x19..=0x1E => Mbc::Mbc5 {
                rom_bank_lo: 1,
                rom_bank_hi: 0,
                ram_bank: 0,
                ram_enabled: false,
            },
            t => return Err(unsupported_mbc_error(t)),
        };
        Ok(Cartridge { header, rom, sram, mbc })
    }

    pub fn read(&self, addr: u16) -> (r: u8)
        requires
            self@.read_ok_at(addr),
        ensures
            r == self@.read_spec(addr),
    {
        match addr {
            0x0000..=0x3FFF => {
                let phys: usize = match &self.mbc {
                    Mbc::Mbc1 { ram_bank, mode, .. } if *mode => {
                        let rom_mask = rom_mask(self.header.rom_size);
                        let effective = (*ram_bank as usize) << 5 & rom_mask;
                        assert(effective <= 0x1FFF) by (bit_vector)
                            requires
                                effective == (*ram_bank as usize) << 5 & rom_mask,
                                *ram_bank <= 0xFF,
                        ;
                        effective * 0x4000 + addr as usize
                    },
                    _ => addr as usize,
                };
                self.rom_byte(phys)
            },
            0x4000..=0x7FFF => {
                let phys: usize = match &self.mbc {
                    Mbc::RomOnly => addr as usize,
                    Mbc::Mbc1 { rom_bank, ram_bank, .. } => {
                        let rom_mask = rom_mask(self.header.rom_size);
                        let full = (*ram_bank as usize) << 5 | (*rom_bank as usize);
                        let mut effective = full & rom_mask;
                        assert(effective <= 0x1FFF) by (bit_vector)
                            requires
                                effective == ((*ram_bank as usize) << 5 | (*rom_bank as usize))
                                    & rom_mask,
                                *ram_bank <= 0xFF,
                                *rom_bank <= 0xFF,
                        ;
                        if effective == 0 {
                            effective = 1;
                        }
                        effective * 0x4000 + (addr as usize - 0x4000)
                    },
                    Mbc::Mbc3 { rom_bank, .. } => {
                        *rom_bank as usize * 0x4000 + (addr as usize - 0x4000)
                    },
                    Mbc::Mbc5 { rom_bank_lo, rom_bank_hi, .. } => {
                        let bank = join_bank(*rom_bank_hi, *rom_bank_lo);
                        bank * 0x4000 + (addr as usize - 0x4000)
                    },
                };
                self.rom_byte(phys)
            },
            0xA000..=0xBFFF => {
                if self.sram.len() == 0 {
                    return 0xFF;
                }
                match &self.mbc {
                    Mbc::RomOnly => 0xFF,
                    Mbc::Mbc1 { ram_enabled, ram_bank, mode, .. } => {
                        if !*ram_enabled {
                            return 0xFF;
                        }
                        let bank_eff = if *mode {
                            low_bits(*ram_bank, 0x03)
                        } else {
                            0
                        };
                        let phys = bank_eff as usize * 0x2000 + (addr as usize - 0xA000);
                        self.sram_byte(phys)
                    },
                    Mbc::Mbc3 { ram_enabled, ram_bank, .. } => {
                        if !*ram_enabled {
                            return 0xFF;
                        }
                        if *ram_bank >= 0x08 {
                            return 0xFF;
                        }
                        let bank_eff = low_bits(*ram_bank, 0x03);
                        let phys = bank_eff as usize * 0x2000 + (addr as usize - 0xA000);
                        self.sram_byte(phys)
                    },
                    Mbc::Mbc5 { ram_enabled, ram_bank, .. } => {
                        if !*ram_enabled {
                            return 0xFF;
                        }
                        let bank_eff = low_bits(*ram_bank, 0x0F);
                        let phys = bank_eff as usize * 0x2000 + (addr as usize - 0xA000);
                        self.sram_byte(phys)
                    },
                }
            },
            _ => 0xFF,
        }
    }

    fn rom_byte(&self, phys: usize) -> (r: u8)
        ensures
            r == byte_or_ff(self.rom@, phys as int),
    {
        if phys < self.rom.len() {
            self.rom[phys]
        } else {
            0xFF
        }
    }

    fn sram_byte(&self, phys: usize) -> (r: u8)
        ensures
            r == byte_or_ff(self.sram@, phys as int),
    {
        if phys < self.sram.len() {
            self.sram[phys]
        } else {
            0xFF
        }
    }

    pub fn write(&mut self, addr: u16, val: u8)
        ensures
            final(self)@ == old(self)@.write_spec(addr, val),
            final(self).header == old(self).header,
    {
        if 0xA000 <= addr && addr <= 0xBFFF {
            let (do_write, bank_eff) = match &self.mbc {
                Mbc::RomOnly => (false, 0u8),
                Mbc::Mbc1 { ram_enabled, ram_bank, mode, .. } => {
                    let eff = if *mode {
                        low_bits(*ram_bank, 0x03)
                    } else {
                        0
                    };
                    (*ram_enabled, eff)
                },
                Mbc::Mbc3 { ram_enabled, ram_bank, .. } => (
                    *ram_enabled && *ram_bank <= 0x03,
                    low_bits(*ram_bank, 0x03),
                ),
                Mbc::Mbc5 { ram_enabled, ram_bank, .. } => (*ram_enabled, low_bits(*ram_bank, 0x0F)),
            };
            if do_write && self.sram.len() != 0 {
                let phys = bank_eff as usize * 0x2000 + (addr as usize - 0xA000);
                if phys < self.sram.len() {
                    self.sram.set(phys, val);
                }
            }
            return ;
        }
        let ghost old_mbc = self.mbc;
        let enable = low_bits(val, 0x0F) == 0x0A;
        match &mut self.mbc {
            Mbc::RomOnly => {},
            Mbc::Mbc1 { rom_bank, ram_bank, mode, ram_enabled } => match addr {
                0x0000..=0x1FFF => *ram_enabled = enable,
                0x2000..=0x3FFF => {
                    *rom_bank = low_bits(val, 0x1F);
                    if *rom_bank == 0 {
                        *rom_bank = 1;
                    }
                },
                0x4000..=0x5FFF => *ram_bank = low_bits(val, 0x03),
                0x6000..=0x7FFF => *mode = low_bits(val, 0x01) != 0,
                _ => {},
            },
            Mbc::Mbc3 { rom_bank, ram_bank, ram_enabled } => match addr {
                0x0000..=0x1FFF => *ram_enabled = enable,
                0x2000..=0x3FFF => {
                    *rom_bank = low_bits(val, 0x7F);
                    if *rom_bank == 0 {
                        *rom_bank = 1;
                    }
                },
                0x4000..=0x5FFF => {
                    // RAM banks 0x00-0x03, RTC register selects 0x08-0x0C; others ignored
                    if val <= 0x03 || (0x08 <= val && val <= 0x0C) {
                        *ram_bank = val;
                    }
                },
                _ => {},
            },
            Mbc::Mbc5 { rom_bank_lo, rom_bank_hi, ram_bank, ram_enabled } => match addr {
                0x0000..=0x1FFF => *ram_enabled = enable,
                0x2000..=0x2FFF => *rom_bank_lo = val,
                0x3000..=0x3FFF => *rom_bank_hi = low_bits(val, 0x01),
                0x4000..=0x5FFF => *ram_bank = low_bits(val, 0x0F),
                _ => {},
            },
        }
        assert(self.mbc == CartModel::mbc_write_spec(old_mbc, addr, val));
    }
}

/// `v & mask` for a mask of the form 2^k - 1, which keeps `v` modulo 2^k.
pub fn low_bits(v: u8, mask: u8) -> (r: u8)
    requires
        mask == 0x01 || mask == 0x03 || mask == 0x0F || mask == 0x1F || mask == 0x7F,
    ensures
        r == v & mask,
        r as int == v as int % (mask as int + 1),
{
    assert(v & 0x01 == v % 2 && v & 0x03 == v % 4 && v & 0x0F == v % 16 && v & 0x1F == v % 32 && v
        & 0x7F == v % 128) by (bit_vector);
    v & mask
}

fn join_bank(hi: u8, lo: u8) -> (r: usize)
    ensures
        r == hi as int * 256 + lo as int,
{
    assert(((hi as usize) << 8usize) | (lo as usize) == hi as int * 256 + lo as int) by (bit_vector);
    (hi as usize) << 8 | (lo as usize)
}

fn zeroed(n: usize) -> (v: Vec<u8>)
    ensures
        v@ == Seq::new(n as nat, |i: int| 0u8),
{
    let mut v: Vec<u8> = Vec::new();
    let mut i: usize = 0;
    while i < n
        invariant
            i <= n,
            v@ == Seq::new(i as nat, |j: int| 0u8),
        decreases n - i,
    {
        v.push(0);
        i = i + 1;
    }
    v
}

/// Law: a byte written to cartridge RAM while the controller lets the write through reads back
/// unchanged from the same address.
pub proof fn lemma_sram_write_read(m: CartModel, addr: u16, val: u8)
    requires
        0xA000 <= addr <= 0xBFFF,
        m.sram_target().0,
        m.sram_target().1 as int * 0x2000 + (addr as int - 0xA000) < m.sram.len(),
    ensures
        m.write_spec(addr, val).read_spec(addr) == val,
{
}

/// Law: writes never change ROM contents, the header (title and bytes) or SRAM outside the RAM
/// window.
pub proof fn lemma_write_keeps_rom(m: CartModel, addr: u16, val: u8)
    ensures
        m.write_spec(addr, val).rom == m.rom,
        m.write_spec(addr, val).title == m.title,
        m.write_spec(addr, val).rom_size == m.rom_size,
        m.write_spec(addr, val).cartridge_type == m.cartridge_type,
        !(0xA000 <= addr <= 0xBFFF) ==> m.write_spec(addr, val).sram == m.sram,
{
}

/// Law: on MBC1 and MBC3, selecting ROM bank 0 through 0x2000-0x3FFF selects bank 1; on
/// MBC5, bank 0 stays selectable in the 0x4000-0x7FFF window.
pub proof fn lemma_bank_zero_selects_one(m: CartModel, addr: u16)
    requires
        0x2000 <= addr <= 0x3FFF,
        m.mbc !is RomOnly,
    ensures
        match m.write_spec(addr, 0).mbc {
            Mbc::Mbc1 { rom_bank, .. } => rom_bank == 1,
            Mbc::Mbc3 { rom_bank, .. } => rom_bank == 1,
            Mbc::Mbc5 { rom_bank_lo, .. } => addr <= 0x2FFF ==> rom_bank_lo == 0,
            Mbc::RomOnly => false,
        },
        m.mbc is Mbc5 && addr <= 0x2FFF ==> m.write_spec(addr, 0).read_spec(0x4000) == byte_or_ff(
            m.rom,
            (match m.mbc {
                Mbc::Mbc5 { rom_bank_hi, .. } => rom_bank_hi as int * 256 * 0x4000,
                _ => 0,
            }),
        ),
{
}


/// Law: on MBC3 a write of `v` to 0x2000-0x3FFF selects ROM bank `v` modulo 128 (bank 0
/// reading as bank 1), so every bank 1-127 can be read at 0x4000-0x7FFF.
pub proof fn lemma_mbc3_rom_bank_select(m: CartModel, addr: u16, v: u8, off: u16)
    requires
        m.mbc is Mbc3,
        0x2000 <= addr <= 0x3FFF,
        off < 0x4000,
    ensures
        m.write_spec(addr, v).read_spec((0x4000 + off) as u16) == byte_or_ff(
            m.rom,
            (if v as int % 128 == 0 {
                1
            } else {
                v as int % 128
            }) * 0x4000 + off,
        ),
{
}

/// Law: on MBC3 a RAM bank select 0x00-0x03 makes 0xA000-0xBFFF show that SRAM bank once RAM
/// is enabled, and an RTC register select 0x08-0x0C makes it read 0xFF.
pub proof fn lemma_mbc3_ram_bank_select(m: CartModel, v: u8, off: u16)
    requires
        m.mbc matches Mbc::Mbc3 { ram_enabled, .. } && ram_enabled,
        m.sram.len() > 0,
        off < 0x2000,
    ensures
        v <= 3 ==> m.write_spec(0x4000, v).read_spec((0xA000 + off) as u16) == byte_or_ff(
            m.sram,
            v as int * 0x2000 + off,
        ),
        0x08 <= v <= 0x0C ==> m.write_spec(0x4000, v).read_spec((0xA000 + off) as u16) == 0xFF,
{
}


/// Law: on MBC5 a write of `lo` to 0x2000-0x2FFF and `hi` to 0x3000-0x3FFF select the 9-bit
/// ROM bank `(hi & 1) * 256 + lo` for 0x4000-0x7FFF, bank 0 included.
pub proof fn lemma_mbc5_rom_bank_select(m: CartModel, lo: u8, hi: u8, a1: u16, a2: u16, off: u16)
    requires
        m.mbc is Mbc5,
        0x2000 <= a1 <= 0x2FFF,
        0x3000 <= a2 <= 0x3FFF,
        off < 0x4000,
    ensures
        m.write_spec(a1, lo).write_spec(a2, hi).read_spec((0x4000 + off) as u16) == byte_or_ff(
            m.rom,
            ((hi as int % 2) * 256 + lo as int) * 0x4000 + off,
        ),
        m.write_spec(a2, hi).write_spec(a1, lo).read_spec((0x4000 + off) as u16) == byte_or_ff(
            m.rom,
            ((hi as int % 2) * 256 + lo as int) * 0x4000 + off,
        ),
{
}

} // verus!
