//! The memory map unit: the unified 64 KiB address space.
//!
//! Reads and writes are routed by address: the cartridge serves the ROM
//! and external-RAM regions, the boot ROM shadows 0000-00FF while the
//! FF50 latch is clear, E000-FDFF mirrors C000-DDFF, FEA0-FEFF is
//! unusable (reads 0xFF, writes dropped), FF00 is the joypad, FF04-FF07
//! the timer, a write to FF46 launches the 160-byte OAM DMA copy, and a
//! nonzero write to FF50 disables the boot overlay for good. Everything
//! else is a plain byte of the MMU's own memory.
//!
//! The whole unit is modeled by [`MmuView`]; `spec_read8` and
//! `spec_write8` are the routing table in mathematical form and every
//! executable access is proved equal to them.

use vstd::prelude::*;
use crate::cartridge::{Cartridge, CartView};
use crate::joypad::Joypad;
use crate::timer::Timer;

verus! {

/// The mathematical state of the address space.
pub ghost struct MmuView {
    /// The MMU-owned 64 KiB byte array (only the non-cartridge regions of
    /// it are ever addressed).
    pub mem: Seq<u8>,
    pub cart: CartView,
    pub boot: Seq<u8>,
    pub boot_enabled: bool,
    pub timer: Timer,
    pub joypad: Joypad,
}

impl MmuView {
    pub open spec fn wf(self) -> bool {
        self.mem.len() == 0x10000 && self.boot.len() == 256 && self.cart.wf()
            && self.timer.wf() && self.joypad.wf()
    }
}

/// The byte a read of `addr` returns, by the routing table.
#[verifier::opaque]
pub open spec fn spec_read8(v: MmuView, addr: u16) -> u8 {
    if v.boot_enabled && addr < 0x100 {
        v.boot[addr as int]
    } else if CartView::in_range(addr) {
        v.cart.spec_read(addr)
    } else if 0xE000 <= addr < 0xFE00 {
        v.mem[addr - 0x2000]
    } else if 0xFEA0 <= addr < 0xFF00 {
        0xFF
    } else if addr == 0xFF00 {
        v.joypad.spec_read()
    } else if 0xFF04 <= addr <= 0xFF07 {
        v.timer.spec_read(addr)
    } else {
        v.mem[addr as int]
    }
}

/// The memory bytes after the OAM DMA triggered by writing `value` to
/// FF46: OAM receives the 160 bytes read (through the routing table, from
/// the pre-write state) starting at `value * 256`, and FF46 itself keeps
/// the written value.
#[verifier::opaque]
pub open spec fn spec_dma_mem(v: MmuView, value: u8) -> Seq<u8> {
    Seq::new(
        0x10000,
        |i: int|
            if 0xFE00 <= i < 0xFEA0 {
                spec_read8(v, (value * 256 + (i - 0xFE00)) as u16)
            } else if i == 0xFF46 {
                value
            } else {
                v.mem[i]
            },
    )
}

/// The state after a write of `value` to `addr`, by the routing table.
#[verifier::opaque]
pub open spec fn spec_write8(v: MmuView, addr: u16, value: u8) -> MmuView {
    if CartView::in_range(addr) {
        MmuView { cart: v.cart.spec_write(addr, value), ..v }
    } else if 0xE000 <= addr < 0xFE00 {
        MmuView { mem: v.mem.update(addr - 0x2000, value), ..v }
    } else if 0xFEA0 <= addr < 0xFF00 {
        v
    } else if addr == 0xFF00 {
        MmuView {
            joypad: Joypad { select_mode: Joypad::spec_select_of(value), ..v.joypad },
            ..v
        }
    } else if 0xFF04 <= addr <= 0xFF07 {
        MmuView { timer: v.timer.spec_write(addr, value), ..v }
    } else if addr == 0xFF46 {
        MmuView { mem: spec_dma_mem(v, value), ..v }
    } else if addr == 0xFF50 {
        MmuView {
            mem: v.mem.update(addr as int, value),
            boot_enabled: v.boot_enabled && value == 0,
            ..v
        }
    } else {
        MmuView { mem: v.mem.update(addr as int, value), ..v }
    }
}

/// The state after one timer T-cycle: the timer advances and, when its
/// overflow reload fires, bit 2 of IF (FF0F) is raised.
pub open spec fn spec_timer_tick(v: MmuView) -> MmuView {
    let (t, raise) = v.timer.spec_tick();
    if raise {
        MmuView {
            timer: t,
            mem: v.mem.update(
                0xFF0F,
                (v.mem[0xFF0F] + (1 - (v.mem[0xFF0F] / 4) % 2) * 4) as u8,
            ),
            ..v
        }
    } else {
        MmuView { timer: t, ..v }
    }
}

pub struct MemoryMapUnit {
    pub memory: Vec<u8>,
    pub cartridge: Cartridge,
    pub boot_rom: Vec<u8>,
    pub boot_enabled: bool,
    pub timer: Timer,
    pub joypad: Joypad,
}

impl View for MemoryMapUnit {
    type V = MmuView;

    open spec fn view(&self) -> MmuView {
        MmuView {
            mem: self.memory@,
            cart: self.cartridge@,
            boot: self.boot_rom@,
            boot_enabled: self.boot_enabled,
            timer: self.timer,
            joypad: self.joypad,
        }
    }
}

impl MemoryMapUnit {
    /// Builds the address space around a cartridge and a 256-byte boot
    /// ROM; all MMU-owned memory starts zeroed and the boot overlay is
    /// enabled.
    pub fn new(cartridge: Cartridge, boot_rom: Vec<u8>) -> (m: MemoryMapUnit)
        requires
            cartridge@.wf(),
            boot_rom@.len() == 256,
        ensures
            m@.wf(),
            m@ == (MmuView {
                mem: Seq::new(0x10000, |i: int| 0u8),
                cart: cartridge@,
                boot: boot_rom@,
                boot_enabled: true,
                timer: Timer::new_spec(),
                joypad: Joypad::new_spec(),
            }),
    {
        let mut memory: Vec<u8> = Vec::new();
        while memory.len() < 0x10000
            invariant
                memory@ =~= Seq::new(memory@.len(), |i: int| 0u8),
                memory@.len() <= 0x10000,
            decreases 0x10000 - memory@.len(),
        {
            memory.push(0);
        }
        assert(memory@ =~= Seq::new(0x10000, |i: int| 0u8));
        MemoryMapUnit {
            memory,
            cartridge,
            boot_rom,
            boot_enabled: true,
            timer: Timer::new(),
            joypad: Joypad::new(),
        }
    }

    /// Whether the boot ROM still shadows 0000-00FF.
    pub fn boot_rom_enabled(&self) -> (e: bool)
        ensures
            e == self@.boot_enabled,
    {
        self.boot_enabled
    }

    /// A read of one byte, routed by the address.
    pub fn read_8(&self, address: u16) -> (value: u8)
        requires
            self@.wf(),
        ensures
            value == spec_read8(self@, address),
    {
        proof {
            reveal(spec_read8);
        }
        if self.boot_enabled && address < 0x100 {
            self.boot_rom[address as usize]
        } else if address < 0x8000 || (0xA000 <= address && address < 0xC000) {
            self.cartridge.read_8(address)
        } else if 0xE000 <= address && address < 0xFE00 {
            self.memory[(address - 0x2000) as usize]
        } else if 0xFEA0 <= address && address < 0xFF00 {
            0xFF
        } else if address == 0xFF00 {
            self.joypad.read()
        } else if 0xFF04 <= address && address <= 0xFF07 {
            self.timer.read_8(address)
        } else {
            self.memory[address as usize]
        }
    }

    /// A 16-bit read: the little-endian composition of the two byte reads
    /// at `address` and `address + 1` (wrapping at the top of the address
    /// space).
    pub fn read_16(&self, address: u16) -> (value: u16)
        requires
            self@.wf(),
        ensures
            value == spec_read8(self@, address) + spec_read8(
                self@,
                ((address + 1) % 0x10000) as u16,
            ) * 256,
    {
        let low = self.read_8(address);
        let high = self.read_8((((address as u32) + 1) % 0x10000) as u16);
        (low as u16) + (high as u16) * 256
    }

    /// A write of one byte, routed by the address.
    pub fn write_8(&mut self, address: u16, value: u8)
        requires
            old(self)@.wf(),
        ensures
            final(self)@.wf(),
            final(self)@ == spec_write8(old(self)@, address, value),
    {
        proof {
            reveal(spec_write8);
        }
        if address < 0x8000 || (0xA000 <= address && address < 0xC000) {
            self.cartridge.write_8(address, value);
        } else if 0xE000 <= address && address < 0xFE00 {
            let i = (address - 0x2000) as usize;
            self.memory[i] = value;
        } else if 0xFEA0 <= address && address < 0xFF00 {
        } else if address == 0xFF00 {
            self.joypad.write(value);
        } else if 0xFF04 <= address && address <= 0xFF07 {
            self.timer.write_8(address, value);
        } else if address == 0xFF46 {
            self.dma_transfer(value);
        } else if address == 0xFF50 {
            self.memory[0xFF50] = value;
            if value != 0 {
                self.boot_enabled = false;
            }
        } else {
            let i = address as usize;
            self.memory[i] = value;
        }
    }

    /// A 16-bit write decomposed into its two bytes, low byte first,
    /// wrapping at the top of the address space.
    pub fn write_16(&mut self, address: u16, value: u16)
        requires
            old(self)@.wf(),
        ensures
            final(self)@.wf(),
            final(self)@ == spec_write8(
                spec_write8(old(self)@, address, (value % 256) as u8),
                ((address + 1) % 0x10000) as u16,
                (value / 256) as u8,
            ),
    {
        self.write_8(address, (value % 256) as u8);
        self.write_8((((address as u32) + 1) % 0x10000) as u16, (value / 256) as u8);
    }

    /// The OAM DMA: copies the 160 bytes starting at `value * 256` (read
    /// through the routing table, from the state before the copy) into
    /// FE00-FE9F, and stores `value` at FF46. The copy is performed
    /// instantaneously; real hardware spreads it over 160 M-cycles.
    fn dma_transfer(&mut self, value: u8)
        requires
            old(self)@.wf(),
        ensures
            final(self)@.wf(),
            final(self)@ == (MmuView { mem: spec_dma_mem(old(self)@, value), ..old(self)@ }),
    {
        proof {
            reveal(spec_dma_mem);
        }
        let ghost v0 = self@;
        let source: u16 = (value as u16) * 256;
        let mut buffer: Vec<u8> = Vec::new();
        while buffer.len() < 160
            invariant
                self@ == v0,
                self@.wf(),
                source == value * 256,
                buffer@.len() <= 160,
                forall|j: int|
                    0 <= j < buffer@.len() ==> buffer@[j] == spec_read8(v0, (value * 256 + j) as u16),
            decreases 160 - buffer@.len(),
        {
            let b = self.read_8(source + buffer.len() as u16);
            buffer.push(b);
        }
        self.memory[0xFF46] = value;
        let mut i: usize = 0;
        while i < 160
            invariant
                0 <= i <= 160,
                buffer@.len() == 160,
                forall|j: int|
                    0 <= j < 160 ==> buffer@[j] == spec_read8(v0, (value * 256 + j) as u16),
                self.cartridge == old(self).cartridge,
                self.boot_rom == old(self).boot_rom,
                self.boot_enabled == old(self).boot_enabled,
                self.timer == old(self).timer,
                self.joypad == old(self).joypad,
                self.memory@.len() == 0x10000,
                forall|k: int|
                    0 <= k < 0x10000 && !(0xFE00 <= k < 0xFE00 + i) && k != 0xFF46
                        ==> self.memory@[k] == v0.mem[k],
                self.memory@[0xFF46] == value,
                forall|j: int| 0 <= j < i ==> self.memory@[0xFE00 + j] == buffer@[j],
            decreases 160 - i,
        {
            let b = buffer[i];
            self.memory[0xFE00 + i] = b;
            i = i + 1;
        }
        assert forall|k: int| 0 <= k < 0x10000 implies self.memory@[k] == spec_dma_mem(
            v0,
            value,
        )[k] by {
            if 0xFE00 <= k < 0xFEA0 {
                assert(self.memory@[k] == buffer@[k - 0xFE00]);
            }
        }
        assert(self.memory@ =~= spec_dma_mem(v0, value));
    }

    /// Advances the timer by one T-cycle; when the overflow reload fires,
    /// raises bit 2 of IF.
    pub fn timer_tick(&mut self)
        requires
            old(self)@.wf(),
        ensures
            final(self)@.wf(),
            final(self)@ == spec_timer_tick(old(self)@),
    {
        let raise = self.timer.tick();
        if raise {
            let iff = self.memory[0xFF0F];
            let raised: u8 = iff + (1 - (iff / 4) % 2) * 4;
            self.memory[0xFF0F] = raised;
        }
    }

    /// A snapshot of the whole address space as reads would see it.
    pub fn get_memory_dump(&self) -> (dump: Vec<u8>)
        requires
            self@.wf(),
        ensures
            dump@.len() == 0x10000,
            forall|a: int| 0 <= a < 0x10000 ==> dump@[a] == spec_read8(self@, a as u16),
    {
        let mut dump: Vec<u8> = Vec::new();
        while dump.len() < 0x10000
            invariant
                self@.wf(),
                dump@.len() <= 0x10000,
                forall|a: int| 0 <= a < dump@.len() ==> dump@[a] == spec_read8(self@, a as u16),
            decreases 0x10000 - dump@.len(),
        {
            let b = self.read_8(dump.len() as u16);
            dump.push(b);
        }
        dump
    }

    /// A copy of the VRAM bytes (8000-9FFF).
    pub fn vram(&self) -> (v: Vec<u8>)
        requires
            self@.wf(),
        ensures
            v@ == self@.mem.subrange(0x8000, 0xA000),
    {
        let mut v: Vec<u8> = Vec::new();
        while v.len() < 0x2000
            invariant
                self@.wf(),
                v@.len() <= 0x2000,
                v@ =~= self@.mem.subrange(0x8000, 0x8000 + v@.len() as int),
            decreases 0x2000 - v@.len(),
        {
            let b = self.memory[0x8000 + v.len()];
            v.push(b);
        }
        assert(v@ =~= self@.mem.subrange(0x8000, 0xA000));
        v
    }

    /// A borrow of the cartridge's raw ROM image.
    pub fn borrow_rom(&self) -> (rom: &Vec<u8>)
        ensures
            rom@ == self@.cart.spec_rom_bytes(),
    {
        self.cartridge.borrow_rom()
    }
}

/// Whether a write of a byte to `addr` is stored so that the next read of
/// `addr` returns it. This covers every address except the ROM and
/// bank-control region, external RAM the cartridge cannot store (disabled
/// or absent), the unusable region FEA0-FEFF, the joypad register FF00,
/// the divider FF04, the TAC register FF07 (only three of its bits are
/// kept) and the DMA trigger FF46.
pub open spec fn spec_stores_byte(v: MmuView, addr: u16) -> bool {
    (0x8000 <= addr < 0xA000) || (0xC000 <= addr < 0xFEA0) || (0xA000 <= addr < 0xC000
        && spec_cart_stores(v.cart, addr)) || addr == 0xFF05 || addr == 0xFF06 || (0xFF01 <= addr
        <= 0xFF03) || (0xFF08 <= addr <= 0xFF45) || 0xFF47 <= addr
}

/// Whether the cartridge stores a byte written at `addr` in the
/// external-RAM region: the plain cartridge always does, MBC1 only with
/// RAM enabled and the selected bank inside the allocated RAM.
pub open spec fn spec_cart_stores(c: CartView, addr: u16) -> bool {
    match c {
        CartView::Rom { .. } => true,
        CartView::Mbc1 { ram, ram_enabled, .. } => ram_enabled && c.spec_ram_bank() * 0x2000 + (
        addr - 0xA000) < ram.len(),
    }
}

/// After a write at any address that stores its byte, the next read of the
/// same address returns the written value.
pub proof fn lemma_write_then_read(v: MmuView, addr: u16, value: u8)
    requires
        v.wf(),
        spec_stores_byte(v, addr),
    ensures
        spec_read8(spec_write8(v, addr, value), addr) == value,
{
    reveal(spec_read8);
    reveal(spec_write8);
    let w = spec_write8(v, addr, value);
    if 0xA000 <= addr < 0xC000 {
        assert(w.cart.spec_ram_bank() == v.cart.spec_ram_bank());
        assert(w.cart.spec_read(addr) == value);
    }
}

} // verus!
