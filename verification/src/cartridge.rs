//! Cartridges: the ROM image, the optional external RAM, and MBC1 bank
//! switching.
//!
//! A cartridge serves reads and writes in the ROM region (0000-7FFF) and
//! the external-RAM region (A000-BFFF). The plain variant maps the ROM
//! image directly and backs A000-BFFF with an 8 KiB buffer; the MBC1
//! variant interprets writes into the ROM region as bank-control commands
//! and indexes ROM and RAM through the selected banks.

use vstd::prelude::*;

verus! {

/// Why a cartridge could not be built from a ROM image.
#[derive(Clone, Copy, PartialEq, Eq, Debug)]
pub enum Error {
    /// The image is shorter than 0x8000 bytes.
    InvalidRomSize,
    /// The RAM-size header byte (0149) is not in the recognized set.
    InvalidHeader(&'static str),
    /// The MBC-type header byte (0147) names a mapper this core does not
    /// implement.
    UnimplementedMBC(u8),
}

/// A cartridge with no memory bank controller: ROM is mapped as-is and
/// A000-BFFF hits a private 8 KiB RAM buffer.
pub struct CartridgeROM {
    pub rom: Vec<u8>,
    pub ram: Vec<u8>,
}

/// An MBC1 cartridge: up to 128 ROM banks of 0x4000 bytes and up to 4 RAM
/// banks of 0x2000 bytes, selected by writes into the ROM region.
pub struct CartridgeMBC1 {
    pub rom: Vec<u8>,
    pub ram: Vec<u8>,
    /// Number of ROM banks the header claims, capped at the 128 banks MBC1
    /// can address (the cap never changes which bank is selected, because
    /// the two bank registers cannot name a bank past 127).
    pub rom_bank_count: u32,
    /// Number of RAM banks the header claims.
    pub ram_bank_count: u32,
    /// The low five bank bits; the zero value is replaced by 1 when
    /// written, so this register is never zero.
    pub bank_low: u8,
    /// The two upper bits: high ROM-bank bits in ROM mode, the RAM bank in
    /// RAM mode.
    pub bank_high: u8,
    /// Banking mode: false = ROM mode, true = RAM mode.
    pub mode: bool,
    /// Whether external RAM is enabled; while disabled, reads in A000-BFFF
    /// return 0xFF and writes are dropped.
    pub ram_enabled: bool,
}

/// A cartridge of either kind.
pub enum Cartridge {
    Rom(CartridgeROM),
    Mbc1(CartridgeMBC1),
}

/// The mathematical state of a cartridge.
pub ghost enum CartView {
    Rom { rom: Seq<u8>, ram: Seq<u8> },
    Mbc1 {
        rom: Seq<u8>,
        ram: Seq<u8>,
        rom_banks: int,
        ram_banks: int,
        bank_low: u8,
        bank_high: u8,
        mode: bool,
        ram_enabled: bool,
    },
}

impl View for CartridgeROM {
    type V = CartView;

    open spec fn view(&self) -> CartView {
        CartView::Rom { rom: self.rom@, ram: self.ram@ }
    }
}

impl View for CartridgeMBC1 {
    type V = CartView;

    open spec fn view(&self) -> CartView {
        CartView::Mbc1 {
            rom: self.rom@,
            ram: self.ram@,
            rom_banks: self.rom_bank_count as int,
            ram_banks: self.ram_bank_count as int,
            bank_low: self.bank_low,
            bank_high: self.bank_high,
            mode: self.mode,
            ram_enabled: self.ram_enabled,
        }
    }
}

impl View for Cartridge {
    type V = CartView;

    open spec fn view(&self) -> CartView {
        match self {
            Cartridge::Rom(c) => c@,
            Cartridge::Mbc1(c) => c@,
        }
    }
}

impl CartView {
    pub open spec fn wf(self) -> bool {
        match self {
            CartView::Rom { rom, ram } => rom.len() >= 0x8000 && ram.len() == 0x2000,
            CartView::Mbc1 { rom, ram, rom_banks, ram_banks, bank_low, bank_high, .. } => rom.len()
                >= 0x8000 && 2 <= rom_banks <= 128 && 0 <= ram_banks <= 16 && ram.len()
                == ram_banks * 0x2000 && 1 <= bank_low < 32 && bank_high < 4,
        }
    }

    /// The ROM bank that backs reads in 4000-7FFF: the five low bits (with
    /// the zero quirk already applied) below the two upper bits, reduced
    /// modulo the bank count.
    pub open spec fn spec_rom_bank(self) -> int {
        match self {
            CartView::Rom { .. } => 1,
            CartView::Mbc1 { rom_banks, bank_low, bank_high, .. } => (bank_high * 32 + bank_low)
                % rom_banks,
        }
    }

    /// The RAM bank that backs A000-BFFF: the two upper bits in RAM mode,
    /// bank 0 in ROM mode.
    pub open spec fn spec_ram_bank(self) -> int {
        match self {
            CartView::Rom { .. } => 0,
            CartView::Mbc1 { ram_banks, bank_high, mode, .. } => if mode && ram_banks > 0 {
                (bank_high as int) % ram_banks
            } else {
                0
            },
        }
    }

    /// The byte a read of `addr` returns. Out-of-image ROM indexes and
    /// disabled or missing RAM read as 0xFF.
    pub open spec fn spec_read(self, addr: u16) -> u8 {
        match self {
            CartView::Rom { rom, ram } => if addr < 0x8000 {
                if addr < rom.len() {
                    rom[addr as int]
                } else {
                    0xFF
                }
            } else {
                ram[addr - 0xA000]
            },
            CartView::Mbc1 { rom, ram, ram_enabled, .. } => if addr < 0x4000 {
                if addr < rom.len() {
                    rom[addr as int]
                } else {
                    0xFF
                }
            } else if addr < 0x8000 {
                if self.spec_rom_bank() * 0x4000 + (addr - 0x4000) < rom.len() {
                    rom[self.spec_rom_bank() * 0x4000 + (addr - 0x4000)]
                } else {
                    0xFF
                }
            } else {
                if ram_enabled && self.spec_ram_bank() * 0x2000 + (addr - 0xA000) < ram.len() {
                    ram[self.spec_ram_bank() * 0x2000 + (addr - 0xA000)]
                } else {
                    0xFF
                }
            },
        }
    }

    /// The cartridge after a write of `value` to `addr`. ROM-region writes
    /// are dropped on the plain cartridge and drive the four MBC1 bank
    /// registers; RAM-region writes store when the RAM is there to take
    /// them.
    pub open spec fn spec_write(self, addr: u16, value: u8) -> CartView {
        match self {
            CartView::Rom { rom, ram } => if addr < 0x8000 {
                self
            } else {
                CartView::Rom { rom, ram: ram.update(addr - 0xA000, value) }
            },
            CartView::Mbc1 { rom, ram, rom_banks, ram_banks, bank_low, bank_high, mode, ram_enabled } => {
                if addr < 0x2000 {
                    CartView::Mbc1 {
                        rom,
                        ram,
                        rom_banks,
                        ram_banks,
                        bank_low,
                        bank_high,
                        mode,
                        ram_enabled: value % 16 == 0xA,
                    }
                } else if addr < 0x4000 {
                    CartView::Mbc1 {
                        rom,
                        ram,
                        rom_banks,
                        ram_banks,
                        bank_low: if value % 32 == 0 {
                            1
                        } else {
                            value % 32
                        },
                        bank_high,
                        mode,
                        ram_enabled,
                    }
                } else if addr < 0x6000 {
                    CartView::Mbc1 {
                        rom,
                        ram,
                        rom_banks,
                        ram_banks,
                        bank_low,
                        bank_high: value % 4,
                        mode,
                        ram_enabled,
                    }
                } else if addr < 0x8000 {
                    CartView::Mbc1 {
                        rom,
                        ram,
                        rom_banks,
                        ram_banks,
                        bank_low,
                        bank_high,
                        mode: value % 2 == 1,
                        ram_enabled,
                    }
                } else {
                    if ram_enabled && self.spec_ram_bank() * 0x2000 + (addr - 0xA000) < ram.len() {
                        CartView::Mbc1 {
                            rom,
                            ram: ram.update(
                                self.spec_ram_bank() * 0x2000 + (addr - 0xA000),
                                value,
                            ),
                            rom_banks,
                            ram_banks,
                            bank_low,
                            bank_high,
                            mode,
                            ram_enabled,
                        }
                    } else {
                        self
                    }
                }
            },
        }
    }

    /// Addresses the cartridge owns: the ROM region and the external-RAM
    /// region.
    pub open spec fn in_range(addr: u16) -> bool {
        addr < 0x8000 || (0xA000 <= addr < 0xC000)
    }

    /// The raw ROM image.
    pub open spec fn spec_rom_bytes(self) -> Seq<u8> {
        match self {
            CartView::Rom { rom, .. } => rom,
            CartView::Mbc1 { rom, .. } => rom,
        }
    }

    /// The external RAM contents.
    pub open spec fn spec_ram_bytes(self) -> Seq<u8> {
        match self {
            CartView::Rom { ram, .. } => ram,
            CartView::Mbc1 { ram, .. } => ram,
        }
    }
}

impl CartridgeROM {
    /// Builds a plain cartridge from a ROM image at least 0x8000 bytes
    /// long, with 8 KiB of zeroed external RAM.
    pub fn new(rom: Vec<u8>) -> (r: Result<CartridgeROM, Error>)
        ensures
            match r {
                Ok(c) => c@ == (CartView::Rom {
                    rom: rom@,
                    ram: Seq::new(0x2000, |i: int| 0u8),
                }) && c@.wf(),
                Err(e) => e matches Error::InvalidRomSize,
            },
            r matches Err(_) <==> rom@.len() < 0x8000,
    {
        if rom.len() < 0x8000 {
            return Err(Error::InvalidRomSize);
        }
        let mut ram: Vec<u8> = Vec::new();
        while ram.len() < 0x2000
            invariant
                ram@ =~= Seq::new(ram@.len(), |i: int| 0u8),
                ram@.len() <= 0x2000,
            decreases 0x2000 - ram@.len(),
        {
            ram.push(0);
        }
        assert(ram@ =~= Seq::new(0x2000, |i: int| 0u8));
        Ok(CartridgeROM { rom, ram })
    }

    /// A read in the cartridge's address ranges: ROM as mapped, RAM from
    /// the private buffer.
    pub fn read_8(&self, address: u16) -> (value: u8)
        requires
            self@.wf(),
            CartView::in_range(address),
        ensures
            value == self@.spec_read(address),
    {
        if address < 0x8000 {
            if (address as usize) < self.rom.len() {
                self.rom[address as usize]
            } else {
                0xFF
            }
        } else {
            self.ram[(address - 0xA000) as usize]
        }
    }

    /// A write in the cartridge's address ranges: stored in RAM, silently
    /// ignored in the ROM region.
    pub fn write_8(&mut self, address: u16, value: u8)
        requires
            old(self)@.wf(),
            CartView::in_range(address),
        ensures
            final(self)@.wf(),
            final(self)@ == old(self)@.spec_write(address, value),
    {
        if address >= 0xA000 {
            let i = (address - 0xA000) as usize;
            self.ram[i] = value;
        }
    }
}

impl CartridgeMBC1 {
    /// A read in the cartridge's address ranges, indexed through the
    /// selected banks; disabled RAM and indexes past the image read 0xFF.
    pub fn read_8(&self, address: u16) -> (value: u8)
        requires
            self@.wf(),
            CartView::in_range(address),
        ensures
            value == self@.spec_read(address),
    {
        if address < 0x4000 {
            if (address as usize) < self.rom.len() {
                self.rom[address as usize]
            } else {
                0xFF
            }
        } else if address < 0x8000 {
            let bank: u32 = ((self.bank_high as u32) * 32 + (self.bank_low as u32))
                % self.rom_bank_count;
            let index: usize = (bank as usize) * 0x4000 + (address as usize - 0x4000);
            if index < self.rom.len() {
                self.rom[index]
            } else {
                0xFF
            }
        } else {
            let bank: u32 = if self.mode && self.ram_bank_count > 0 {
                (self.bank_high as u32) % self.ram_bank_count
            } else {
                0
            };
            let index: usize = (bank as usize) * 0x2000 + (address as usize - 0xA000);
            if self.ram_enabled && index < self.ram.len() {
                self.ram[index]
            } else {
                0xFF
            }
        }
    }

    /// A write in the cartridge's address ranges: the four quarters of the
    /// ROM region drive RAM enable, the low bank bits (with the zero
    /// quirk), the upper bank bits and the banking mode; RAM-region writes
    /// store when RAM is enabled and present.
    pub fn write_8(&mut self, address: u16, value: u8)
        requires
            old(self)@.wf(),
            CartView::in_range(address),
        ensures
            final(self)@.wf(),
            final(self)@ == old(self)@.spec_write(address, value),
    {
        if address < 0x2000 {
            self.ram_enabled = value % 16 == 0xA;
        } else if address < 0x4000 {
            let low = value % 32;
            self.bank_low = if low == 0 {
                1
            } else {
                low
            };
        } else if address < 0x6000 {
            self.bank_high = value % 4;
        } else if address < 0x8000 {
            self.mode = value % 2 == 1;
        } else {
            let bank: u32 = if self.mode && self.ram_bank_count > 0 {
                (self.bank_high as u32) % self.ram_bank_count
            } else {
                0
            };
            let index: usize = (bank as usize) * 0x2000 + (address as usize - 0xA000);
            if self.ram_enabled && index < self.ram.len() {
                self.ram[index] = value;
            }
        }
    }

    /// Builds an MBC1 cartridge from a ROM image, validating the size and
    /// the RAM-size header byte (0149). ROM bank count comes from header
    /// byte 0148 as 2^(code+1), capped at the 128 banks MBC1 addresses.
    pub fn new(rom: Vec<u8>) -> (r: Result<CartridgeMBC1, Error>)
        ensures
            match r {
                Ok(c) => c@.wf() && c@ == (CartView::Mbc1 {
                    rom: rom@,
                    ram: Seq::new((spec_ram_banks(rom@) * 0x2000) as nat, |i: int| 0),
                    rom_banks: spec_rom_banks(rom@),
                    ram_banks: spec_ram_banks(rom@),
                    bank_low: 1,
                    bank_high: 0,
                    mode: false,
                    ram_enabled: false,
                }),
                Err(e) => (rom@.len() < 0x8000 <==> (e matches Error::InvalidRomSize)) && (
                rom@.len() >= 0x8000 ==> (e matches Error::InvalidHeader(_)) && !valid_ram_code(
                    rom@[0x149],
                )),
            },
            r matches Err(_) <==> (rom@.len() < 0x8000 || !valid_ram_code(rom@[0x149])),
    {
        if rom.len() < 0x8000 {
            return Err(Error::InvalidRomSize);
        }
        let rom_size = rom[0x0148];
        let rom_bank_count: u32 = if rom_size == 0 {
            2
        } else if rom_size == 1 {
            4
        } else if rom_size == 2 {
            8
        } else if rom_size == 3 {
            16
        } else if rom_size == 4 {
            32
        } else if rom_size == 5 {
            64
        } else {
            128
        };
        let ram_size = rom[0x0149];
        let ram_bank_count: u32 = if ram_size == 0 {
            0
        } else if ram_size == 2 {
            1
        } else if ram_size == 3 {
            4
        } else if ram_size == 4 {
            16
        } else if ram_size == 5 {
            8
        } else {
            return Err(Error::InvalidHeader("Invalid RAM size header."));
        };
        let mut ram: Vec<u8> = Vec::new();
        let target: usize = (ram_bank_count as usize) * 0x2000;
        while ram.len() < target
            invariant
                ram@ =~= Seq::new(ram@.len(), |i: int| 0u8),
                target == ram_bank_count * 0x2000,
                ram@.len() <= target,
            decreases target - ram@.len(),
        {
            ram.push(0);
        }
        assert(ram@ =~= Seq::new((ram_bank_count * 0x2000) as nat, |i: int| 0u8));
        Ok(
            CartridgeMBC1 {
                rom,
                ram,
                rom_bank_count,
                ram_bank_count,
                bank_low: 1,
                bank_high: 0,
                mode: false,
                ram_enabled: false,
            },
        )
    }
}

impl Cartridge {
    /// Builds a cartridge from a raw ROM image: header byte 0147 picks the
    /// mapper (00 = none, 01-03 = MBC1, anything else is unimplemented),
    /// an image shorter than 0x8000 is rejected, and the MBC1 path also
    /// validates the RAM-size byte.
    pub fn new(rom: Vec<u8>) -> (r: Result<Cartridge, Error>)
        ensures
            match r {
                Ok(c) => c@.wf() && (if rom@[0x147] == 0 {
                    c@ == (CartView::Rom { rom: rom@, ram: Seq::new(0x2000, |i: int| 0u8) })
                } else {
                    c@ == (CartView::Mbc1 {
                        rom: rom@,
                        ram: Seq::new((spec_ram_banks(rom@) * 0x2000) as nat, |i: int| 0),
                        rom_banks: spec_rom_banks(rom@),
                        ram_banks: spec_ram_banks(rom@),
                        bank_low: 1,
                        bank_high: 0,
                        mode: false,
                        ram_enabled: false,
                    })
                }),
                Err(e) => if rom@.len() < 0x8000 {
                    e matches Error::InvalidRomSize
                } else if rom@[0x147] == 0 || 4 <= rom@[0x147] {
                    (e matches Error::UnimplementedMBC(m) && m == rom@[0x147])
                } else {
                    e matches Error::InvalidHeader(_)
                },
            },
            r matches Ok(_) <==> (rom@.len() >= 0x8000 && (rom@[0x147] == 0 || (1 <= rom@[0x147]
                <= 3 && valid_ram_code(rom@[0x149])))),
    {
        if rom.len() < 0x8000 {
            return Err(Error::InvalidRomSize);
        }
        let mbc = rom[0x0147];
        if mbc == 0 {
            match CartridgeROM::new(rom) {
                Ok(c) => Ok(Cartridge::Rom(c)),
                Err(e) => Err(e),
            }
        } else if mbc <= 3 {
            match CartridgeMBC1::new(rom) {
                Ok(c) => Ok(Cartridge::Mbc1(c)),
                Err(e) => Err(e),
            }
        } else {
            Err(Error::UnimplementedMBC(mbc))
        }
    }

    /// A read in the ROM or external-RAM region.
    pub fn read_8(&self, address: u16) -> (value: u8)
        requires
            self@.wf(),
            CartView::in_range(address),
        ensures
            value == self@.spec_read(address),
    {
        match self {
            Cartridge::Rom(c) => c.read_8(address),
            Cartridge::Mbc1(c) => c.read_8(address),
        }
    }

    /// A write in the ROM or external-RAM region.
    pub fn write_8(&mut self, address: u16, value: u8)
        requires
            old(self)@.wf(),
            CartView::in_range(address),
        ensures
            final(self)@.wf(),
            final(self)@ == old(self)@.spec_write(address, value),
    {
        match self {
            Cartridge::Rom(c) => c.write_8(address, value),
            Cartridge::Mbc1(c) => c.write_8(address, value),
        }
    }

    /// A borrow of the raw ROM image.
    pub fn borrow_rom(&self) -> (rom: &Vec<u8>)
        ensures
            rom@ == self@.spec_rom_bytes(),
    {
        match self {
            Cartridge::Rom(c) => &c.rom,
            Cartridge::Mbc1(c) => &c.rom,
        }
    }

    /// A copy of the raw ROM image.
    pub fn dump_rom(&self) -> (rom: Vec<u8>)
        ensures
            rom@ == self@.spec_rom_bytes(),
    {
        let source = self.borrow_rom();
        let mut out: Vec<u8> = Vec::new();
        let mut i: usize = 0;
        while i < source.len()
            invariant
                i <= source@.len(),
                out@ =~= source@.take(i as int),
            decreases source@.len() - i,
        {
            out.push(source[i]);

            i = i + 1;
        }
        assert(out@ =~= source@);
        out
    }

    /// A copy of the external RAM contents.
    pub fn dump_ram(&self) -> (ram: Vec<u8>)
        ensures
            ram@ == self@.spec_ram_bytes(),
    {
        let source = match self {
            Cartridge::Rom(c) => &c.ram,
            Cartridge::Mbc1(c) => &c.ram,
        };
        let mut out: Vec<u8> = Vec::new();
        let mut i: usize = 0;
        while i < source.len()
            invariant
                i <= source@.len(),
                out@ =~= source@.take(i as int),
            decreases source@.len() - i,
        {
            out.push(source[i]);
            i = i + 1;
        }
        assert(out@ =~= source@);
        out
    }
}

/// The ROM bank count a header claims: 2^(code+1), capped at the 128
/// banks MBC1 can address.
pub open spec fn spec_rom_banks(rom: Seq<u8>) -> int {
    if rom[0x148] == 0 {
        2
    } else if rom[0x148] == 1 {
        4
    } else if rom[0x148] == 2 {
        8
    } else if rom[0x148] == 3 {
        16
    } else if rom[0x148] == 4 {
        32
    } else if rom[0x148] == 5 {
        64
    } else {
        128
    }
}

/// Whether the RAM-size header byte is in the recognized set.
pub open spec fn valid_ram_code(code: u8) -> bool {
    code == 0 || code == 2 || code == 3 || code == 4 || code == 5
}

/// The RAM bank count a header claims: none, 8 KiB, 32 KiB, 128 KiB or
/// 64 KiB.
pub open spec fn spec_ram_banks(rom: Seq<u8>) -> int {
    if rom[0x149] == 0 {
        0
    } else if rom[0x149] == 2 {
        1
    } else if rom[0x149] == 3 {
        4
    } else if rom[0x149] == 4 {
        16
    } else {
        8
    }
}

} // verus!
