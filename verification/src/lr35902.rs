//! The Sharp LR35902 CPU: register file, flags, instruction set and
//! interrupt dispatch.
//!
//! The register file keeps the four flags as booleans and the eight 8-bit
//! registers as bytes; the F byte and the 16-bit pairs are assembled
//! arithmetically, which keeps the low nibble of F zero by construction.
//! Every instruction helper is specified by a spec function over the
//! register file (and the memory model where it touches memory), and the
//! opcode dispatcher is verified against a spec-level interpreter.

use vstd::prelude::*;
use vstd::pervasive::unreached;
use crate::mmu::{MemoryMapUnit, MmuView, spec_read8, spec_write8};
use crate::ClockTicks;

verus! {

/// One of the eight 8-bit registers.
#[derive(Copy, Clone)]
pub enum Register8 {
    A,
    F,
    B,
    C,
    D,
    E,
    H,
    L,
}

/// One of the six 16-bit registers (four of them pairs of 8-bit halves).
#[derive(Copy, Clone)]
pub enum Register16 {
    AF,
    BC,
    DE,
    HL,
    SP,
    PC,
}

/// The CPU register file. Flags live in the high nibble of F:
/// bit 7 = Z (zero), bit 6 = N (subtract), bit 5 = H (half-carry),
/// bit 4 = C (carry); the low nibble of F is always zero.
#[derive(Clone, Copy, PartialEq, Eq, Structural, Debug)]
pub struct Registers {
    pub a: u8,
    pub b: u8,
    pub c: u8,
    pub d: u8,
    pub e: u8,
    pub h: u8,
    pub l: u8,
    pub zf: bool,
    pub nf: bool,
    pub hf: bool,
    pub cf: bool,
    pub sp: u16,
    pub pc: u16,
}

impl Registers {
    /// The F register assembled from the four flag bits; its low nibble is
    /// zero by construction.
    pub open spec fn spec_f(self) -> u8 {
        ((if self.zf { 128int } else { 0int }) + (if self.nf { 64int } else { 0int }) + (if self.hf {
            32int
        } else {
            0int
        }) + (if self.cf { 16int } else { 0int })) as u8
    }

    /// The value of an 8-bit register.
    pub open spec fn spec_get_8(self, register: Register8) -> u8 {
        match register {
            Register8::A => self.a,
            Register8::F => self.spec_f(),
            Register8::B => self.b,
            Register8::C => self.c,
            Register8::D => self.d,
            Register8::E => self.e,
            Register8::H => self.h,
            Register8::L => self.l,
        }
    }

    /// The register file after storing `value` in an 8-bit register.
    /// A store to F keeps only the four flag bits.
    pub open spec fn spec_set_8(self, register: Register8, value: u8) -> Registers {
        match register {
            Register8::A => Registers { a: value, ..self },
            Register8::F => Registers {
                zf: (value / 128) % 2 == 1,
                nf: (value / 64) % 2 == 1,
                hf: (value / 32) % 2 == 1,
                cf: (value / 16) % 2 == 1,
                ..self
            },
            Register8::B => Registers { b: value, ..self },
            Register8::C => Registers { c: value, ..self },
            Register8::D => Registers { d: value, ..self },
            Register8::E => Registers { e: value, ..self },
            Register8::H => Registers { h: value, ..self },
            Register8::L => Registers { l: value, ..self },
        }
    }

    /// The value of a 16-bit register; pairs combine high * 256 + low.
    pub open spec fn spec_get_16(self, register: Register16) -> u16 {
        match register {
            Register16::AF => (self.a * 256 + self.spec_f()) as u16,
            Register16::BC => (self.b * 256 + self.c) as u16,
            Register16::DE => (self.d * 256 + self.e) as u16,
            Register16::HL => (self.h * 256 + self.l) as u16,
            Register16::SP => self.sp,
            Register16::PC => self.pc,
        }
    }

    /// The register file after storing `value` in a 16-bit register.
    pub open spec fn spec_set_16(self, register: Register16, value: u16) -> Registers {
        match register {
            Register16::AF => Registers {
                a: (value / 256) as u8,
                zf: (value / 128) % 2 == 1,
                nf: (value / 64) % 2 == 1,
                hf: (value / 32) % 2 == 1,
                cf: (value / 16) % 2 == 1,
                ..self
            },
            Register16::BC => Registers { b: (value / 256) as u8, c: (value % 256) as u8, ..self },
            Register16::DE => Registers { d: (value / 256) as u8, e: (value % 256) as u8, ..self },
            Register16::HL => Registers { h: (value / 256) as u8, l: (value % 256) as u8, ..self },
            Register16::SP => Registers { sp: value, ..self },
            Register16::PC => Registers { pc: value, ..self },
        }
    }

    /// The register file after setting all four flags.
    pub open spec fn spec_with_flags(self, z: bool, n: bool, h: bool, c: bool) -> Registers {
        Registers { zf: z, nf: n, hf: h, cf: c, ..self }
    }

    pub fn set_8(&mut self, register: Register8, value: u8)
        ensures
            *final(self) == old(self).spec_set_8(register, value),
    {
        match register {
            Register8::A => self.a = value,
            Register8::F => {
                self.zf = (value / 128) % 2 == 1;
                self.nf = (value / 64) % 2 == 1;
                self.hf = (value / 32) % 2 == 1;
                self.cf = (value / 16) % 2 == 1;
            },
            Register8::B => self.b = value,
            Register8::C => self.c = value,
            Register8::D => self.d = value,
            Register8::E => self.e = value,
            Register8::H => self.h = value,
            Register8::L => self.l = value,
        }
    }

    pub fn get_8(&self, register: Register8) -> (value: u8)
        ensures
            value == self.spec_get_8(register),
    {
        match register {
            Register8::A => self.a,
            Register8::F => {
                (if self.zf { 128u8 } else { 0u8 }) + (if self.nf { 64u8 } else { 0u8 }) + (if self.hf {
                    32u8
                } else {
                    0u8
                }) + (if self.cf { 16u8 } else { 0u8 })
            },
            Register8::B => self.b,
            Register8::C => self.c,
            Register8::D => self.d,
            Register8::E => self.e,
            Register8::H => self.h,
            Register8::L => self.l,
        }
    }

    pub fn set_16(&mut self, register: Register16, value: u16)
        ensures
            *final(self) == old(self).spec_set_16(register, value),
    {
        match register {
            Register16::AF => {
                self.a = (value / 256) as u8;
                let low = value % 256;
                self.zf = (low / 128) % 2 == 1;
                self.nf = (low / 64) % 2 == 1;
                self.hf = (low / 32) % 2 == 1;
                self.cf = (low / 16) % 2 == 1;
                assert(low / 128 == value / 128 % 2 && low / 64 % 2 == value / 64 % 2 && low / 32
                    % 2 == value / 32 % 2 && low / 16 % 2 == value / 16 % 2) by (bit_vector)
                    requires
                        low == value % 256,
                ;
            },
            Register16::BC => {
                self.b = (value / 256) as u8;
                self.c = (value % 256) as u8;
            },
            Register16::DE => {
                self.d = (value / 256) as u8;
                self.e = (value % 256) as u8;
            },
            Register16::HL => {
                self.h = (value / 256) as u8;
                self.l = (value % 256) as u8;
            },
            Register16::SP => self.sp = value,
            Register16::PC => self.pc = value,
        }
    }

    pub fn get_16(&self, register: Register16) -> (value: u16)
        ensures
            value == self.spec_get_16(register),
    {
        match register {
            Register16::AF => (self.a as u16) * 256 + (self.get_8(Register8::F) as u16),
            Register16::BC => (self.b as u16) * 256 + (self.c as u16),
            Register16::DE => (self.d as u16) * 256 + (self.e as u16),
            Register16::HL => (self.h as u16) * 256 + (self.l as u16),
            Register16::SP => self.sp,
            Register16::PC => self.pc,
        }
    }

    /// Advances PC by `value`, wrapping at the top of the address space.
    pub fn inc_pc(&mut self, value: u16)
        ensures
            *final(self) == (Registers {
                pc: ((old(self).pc + value) % 0x10000) as u16,
                ..*old(self)
            }),
    {
        self.pc = (((self.pc as u32) + (value as u32)) % 0x10000) as u16;
    }

    pub fn set_zero_flag(&mut self, value: bool)
        ensures
            *final(self) == (Registers { zf: value, ..*old(self) }),
    {
        self.zf = value;
    }

    pub fn get_zero_flag(&self) -> (value: bool)
        ensures
            value == self.zf,
    {
        self.zf
    }

    pub fn set_n_flag(&mut self, value: bool)
        ensures
            *final(self) == (Registers { nf: value, ..*old(self) }),
    {
        self.nf = value;
    }

    pub fn get_n_flag(&self) -> (value: bool)
        ensures
            value == self.nf,
    {
        self.nf
    }

    pub fn set_h_flag(&mut self, value: bool)
        ensures
            *final(self) == (Registers { hf: value, ..*old(self) }),
    {
        self.hf = value;
    }

    pub fn get_h_flag(&self) -> (value: bool)
        ensures
            value == self.hf,
    {
        self.hf
    }

    pub fn set_carry_flag(&mut self, value: bool)
        ensures
            *final(self) == (Registers { cf: value, ..*old(self) }),
    {
        self.cf = value;
    }

    pub fn get_carry_flag(&self) -> (value: bool)
        ensures
            value == self.cf,
    {
        self.cf
    }

    pub fn set_flags(&mut self, z: bool, n: bool, h: bool, c: bool)
        ensures
            *final(self) == old(self).spec_with_flags(z, n, h, c),
    {
        self.zf = z;
        self.nf = n;
        self.hf = h;
        self.cf = c;
    }
}

impl Default for Registers {
    /// The reset register file: every register and flag zero.
    fn default() -> (r: Registers)
        ensures
            r == (Registers {
                a: 0,
                b: 0,
                c: 0,
                d: 0,
                e: 0,
                h: 0,
                l: 0,
                zf: false,
                nf: false,
                hf: false,
                cf: false,
                sp: 0,
                pc: 0,
            }),
    {
        Registers {
            a: 0,
            b: 0,
            c: 0,
            d: 0,
            e: 0,
            h: 0,
            l: 0,
            zf: false,
            nf: false,
            hf: false,
            cf: false,
            sp: 0,
            pc: 0,
        }
    }
}

/// A fatal decode fault: one of the eleven unused opcodes was fetched.
#[derive(Clone, Copy, PartialEq, Eq, Structural, Debug)]
pub enum CpuError {
    IllegalOpcode(u8),
}

/// The CPU: register file, interrupt master enable, HALT latch and the
/// delayed-EI latch.
#[derive(Clone, Copy, PartialEq, Eq, Structural, Debug)]
pub struct LR35902 {
    pub registers: Registers,
    /// Interrupt master enable.
    pub ime: bool,
    /// Set by HALT; cleared when an interrupt is serviced or pending.
    pub halted: bool,
    /// Set by EI; IME is enabled only after the next instruction.
    pub ei_pending: bool,
}

/// The VBlank interrupt bit of IE/IF.
pub const VBLANKBIT: u8 = 1;

/// The LCD-STAT interrupt bit of IE/IF.
pub const LCDBIT: u8 = 2;

/// The timer interrupt bit of IE/IF.
pub const TIMERBIT: u8 = 4;

/// The serial interrupt bit of IE/IF.
pub const SERIALBIT: u8 = 8;

/// The joypad interrupt bit of IE/IF.
pub const JOYPADBIT: u8 = 16;

/// Reduction into the 16-bit address space.
pub open spec fn wrap16(x: int) -> u16 {
    (x % 0x10000) as u16
}

/// A byte read as a signed displacement.
pub open spec fn signed8(v: u8) -> int {
    if v < 128 {
        v as int
    } else {
        v - 256
    }
}

/// The 16-bit immediate at `pc`: little-endian, the second byte fetched
/// from the wrapped successor address.
pub open spec fn spec_imm16(m: crate::mmu::MmuView, pc: u16) -> u16 {
    (crate::mmu::spec_read8(m, pc) + crate::mmu::spec_read8(m, wrap16(pc + 1)) * 256) as u16
}

/// 2 to the `n`, for bit positions within a byte.
pub open spec fn spec_pow2u8(n: u8) -> u8 {
    if n == 0 {
        1
    } else if n == 1 {
        2
    } else if n == 2 {
        4
    } else if n == 3 {
        8
    } else if n == 4 {
        16
    } else if n == 5 {
        32
    } else if n == 6 {
        64
    } else {
        128
    }
}

// The ALU, as register-file transforms over plain values.

/// ADD/ADC: A += x + cin. Z on zero result, N clear, H on carry from bit
/// 3 (with the carry-in included), C on carry from bit 7.
pub open spec fn sr_add(r: Registers, x: u8, cin: int) -> Registers {
    Registers {
        a: ((r.a + x + cin) % 256) as u8,
        zf: (r.a + x + cin) % 256 == 0,
        nf: false,
        hf: r.a % 16 + x % 16 + cin > 15,
        cf: r.a + x + cin > 255,
        ..r
    }
}

/// SUB/SBC: A -= x + cin. N set, H on borrow from bit 4, C on borrow
/// from bit 8.
pub open spec fn sr_sub(r: Registers, x: u8, cin: int) -> Registers {
    Registers {
        a: ((r.a - x - cin) % 256) as u8,
        zf: (r.a - x - cin) % 256 == 0,
        nf: true,
        hf: r.a % 16 < x % 16 + cin,
        cf: r.a < x + cin,
        ..r
    }
}

/// CP: the flags of SUB without the store.
pub open spec fn sr_cp(r: Registers, x: u8) -> Registers {
    Registers { a: r.a, ..sr_sub(r, x, 0) }
}

/// AND: Z on zero, N clear, H set, C clear.
pub open spec fn sr_and(r: Registers, x: u8) -> Registers {
    Registers { a: r.a & x, zf: r.a & x == 0, nf: false, hf: true, cf: false, ..r }
}

/// OR: Z on zero, N, H, C clear.
pub open spec fn sr_or(r: Registers, x: u8) -> Registers {
    Registers { a: r.a | x, zf: r.a | x == 0, nf: false, hf: false, cf: false, ..r }
}

/// XOR: Z on zero, N, H, C clear.
pub open spec fn sr_xor(r: Registers, x: u8) -> Registers {
    Registers { a: r.a ^ x, zf: r.a ^ x == 0, nf: false, hf: false, cf: false, ..r }
}

/// The incremented byte and the INC flags: Z and H by the result, N
/// clear, C untouched.
pub open spec fn inc8_val(v: u8) -> u8 {
    ((v + 1) % 256) as u8
}

/// The decremented byte; DEC sets N and borrows H from the low nibble.
pub open spec fn dec8_val(v: u8) -> u8 {
    ((v - 1) % 256) as u8
}

/// DAA: adjusts A back to packed BCD after an add or subtract, using N,
/// H and C of that operation; Z by the result, H cleared, C set exactly
/// when the high-digit adjustment applied.
pub open spec fn sr_daa(r: Registers) -> Registers {
    let adj_low = r.hf || (!r.nf && r.a % 16 > 9);
    let adj_high = r.cf || (!r.nf && r.a > 0x99);
    let offset = (if adj_low { 6int } else { 0int }) + (if adj_high { 0x60int } else { 0int });
    let res = if r.nf {
        ((r.a - offset) % 256) as u8
    } else {
        ((r.a + offset) % 256) as u8
    };
    Registers { a: res, zf: res == 0, hf: false, cf: adj_high, ..r }
}

// The rotate and shift family over a byte value; the carry out is the
// bit that left the byte.

pub open spec fn rlc_val(v: u8) -> u8 {
    ((v % 128) * 2 + v / 128) as u8
}

pub open spec fn rl_val(v: u8, c: bool) -> u8 {
    ((v % 128) * 2 + if c { 1int } else { 0int }) as u8
}

pub open spec fn rrc_val(v: u8) -> u8 {
    (v / 2 + (v % 2) * 128) as u8
}

pub open spec fn rr_val(v: u8, c: bool) -> u8 {
    (v / 2 + if c { 128int } else { 0int }) as u8
}

pub open spec fn sla_val(v: u8) -> u8 {
    ((v % 128) * 2) as u8
}

pub open spec fn sra_val(v: u8) -> u8 {
    (v / 2 + (v / 128) * 128) as u8
}

pub open spec fn srl_val(v: u8) -> u8 {
    (v / 2) as u8
}

pub open spec fn swap_val(v: u8) -> u8 {
    ((v % 16) * 16 + v / 16) as u8
}

/// Carry out of a left rotate or shift: bit 7.
pub open spec fn left_carry(v: u8) -> bool {
    v >= 128
}

/// Carry out of a right rotate or shift: bit 0.
pub open spec fn right_carry(v: u8) -> bool {
    v % 2 == 1
}

/// The CPU after consuming one byte at PC.
pub open spec fn c_fetch(c: LR35902) -> LR35902 {
    LR35902 {
        registers: Registers { pc: wrap16(c.registers.pc + 1), ..c.registers },
        ..c
    }
}

// The instruction transforms. Each `i_` function is the mathematical
// effect of one instruction form on the CPU (and the memory model where
// it touches memory), applied after the opcode byte itself has been
// consumed. The executable helpers below are verified against them, and
// the opcode tables compose them.

pub open spec fn i_load_8(c: LR35902, d: Register8, s: Register8) -> LR35902 {
    LR35902 { registers: c.registers.spec_set_8(d, c.registers.spec_get_8(s)), ..c }
}

pub open spec fn i_load_8_at(c: LR35902, m: MmuView, d: Register16, s: Register8) -> (
    LR35902,
    MmuView,
) {
    (c, spec_write8(m, c.registers.spec_get_16(d), c.registers.spec_get_8(s)))
}

pub open spec fn i_load_8_at_increment(c: LR35902, m: MmuView, d: Register16, s: Register8) -> (
    LR35902,
    MmuView,
) {
    (
        LR35902 {
            registers: c.registers.spec_set_16(d, wrap16(c.registers.spec_get_16(d) + 1)),
            ..c
        },
        spec_write8(m, c.registers.spec_get_16(d), c.registers.spec_get_8(s)),
    )
}

pub open spec fn i_load_8_at_decrement(c: LR35902, m: MmuView, d: Register16, s: Register8) -> (
    LR35902,
    MmuView,
) {
    (
        LR35902 {
            registers: c.registers.spec_set_16(d, wrap16(c.registers.spec_get_16(d) - 1)),
            ..c
        },
        spec_write8(m, c.registers.spec_get_16(d), c.registers.spec_get_8(s)),
    )
}

pub open spec fn i_load_8_from(c: LR35902, m: MmuView, d: Register8, s: Register16) -> LR35902 {
    LR35902 {
        registers: c.registers.spec_set_8(d, spec_read8(m, c.registers.spec_get_16(s))),
        ..c
    }
}

pub open spec fn i_load_8_from_increment(c: LR35902, m: MmuView, d: Register8, s: Register16) -> LR35902 {
    let c1 = i_load_8_from(c, m, d, s);
    LR35902 {
        registers: c1.registers.spec_set_16(s, wrap16(c1.registers.spec_get_16(s) + 1)),
        ..c1
    }
}

pub open spec fn i_load_8_from_decrement(c: LR35902, m: MmuView, d: Register8, s: Register16) -> LR35902 {
    let c1 = i_load_8_from(c, m, d, s);
    LR35902 {
        registers: c1.registers.spec_set_16(s, wrap16(c1.registers.spec_get_16(s) - 1)),
        ..c1
    }
}

pub open spec fn i_load_8_immediate(c: LR35902, m: MmuView, d: Register8) -> LR35902 {
    let c1 = c_fetch(c);
    LR35902 {
        registers: c1.registers.spec_set_8(d, spec_read8(m, c.registers.pc)),
        ..c1
    }
}

pub open spec fn i_load_8_immediate_at(c: LR35902, m: MmuView, d: Register16) -> (
    LR35902,
    MmuView,
) {
    (
        c_fetch(c),
        spec_write8(m, c.registers.spec_get_16(d), spec_read8(m, c.registers.pc)),
    )
}

pub open spec fn i_load_8_from_immediate(c: LR35902, m: MmuView, d: Register8) -> LR35902 {
    let c2 = c_fetch(c_fetch(c));
    LR35902 {
        registers: c2.registers.spec_set_8(d, spec_read8(m, spec_imm16(m, c.registers.pc))),
        ..c2
    }
}

pub open spec fn i_load_8_at_immediate(c: LR35902, m: MmuView, s: Register8) -> (
    LR35902,
    MmuView,
) {
    (
        c_fetch(c_fetch(c)),
        spec_write8(m, spec_imm16(m, c.registers.pc), c.registers.spec_get_8(s)),
    )
}

pub open spec fn i_load_8_from_io(c: LR35902, m: MmuView, d: Register8, s: Register8) -> LR35902 {
    LR35902 {
        registers: c.registers.spec_set_8(
            d,
            spec_read8(m, (0xFF00 + c.registers.spec_get_8(s)) as u16),
        ),
        ..c
    }
}

pub open spec fn i_load_8_from_io_immediate(c: LR35902, m: MmuView, d: Register8) -> LR35902 {
    let c1 = c_fetch(c);
    LR35902 {
        registers: c1.registers.spec_set_8(
            d,
            spec_read8(m, (0xFF00 + spec_read8(m, c.registers.pc)) as u16),
        ),
        ..c1
    }
}

pub open spec fn i_load_8_at_io(c: LR35902, m: MmuView, d: Register8, s: Register8) -> (
    LR35902,
    MmuView,
) {
    (
        c,
        spec_write8(
            m,
            (0xFF00 + c.registers.spec_get_8(d)) as u16,
            c.registers.spec_get_8(s),
        ),
    )
}

pub open spec fn i_load_8_at_io_immediate(c: LR35902, m: MmuView, s: Register8) -> (
    LR35902,
    MmuView,
) {
    (
        c_fetch(c),
        spec_write8(
            m,
            (0xFF00 + spec_read8(m, c.registers.pc)) as u16,
            c.registers.spec_get_8(s),
        ),
    )
}

pub open spec fn i_load_16(c: LR35902, d: Register16, s: Register16) -> LR35902 {
    LR35902 { registers: c.registers.spec_set_16(d, c.registers.spec_get_16(s)), ..c }
}

pub open spec fn i_load_16_at_immediate(c: LR35902, m: MmuView, s: Register16) -> (
    LR35902,
    MmuView,
) {
    let addr = spec_imm16(m, c.registers.pc);
    let v = c_fetch(c_fetch(c)).registers.spec_get_16(s);
    (
        c_fetch(c_fetch(c)),
        spec_write8(spec_write8(m, addr, (v % 256) as u8), wrap16(addr + 1), (v / 256) as u8),
    )
}

pub open spec fn i_load_16_immediate(c: LR35902, m: MmuView, d: Register16) -> LR35902 {
    let c2 = c_fetch(c_fetch(c));
    LR35902 {
        registers: c2.registers.spec_set_16(d, spec_imm16(m, c.registers.pc)),
        ..c2
    }
}

/// LD HL,SP+e8: a signed displacement added to a 16-bit register, with H
/// and C drawn from the unsigned low byte.
pub open spec fn i_load_16_add_immediate(c: LR35902, m: MmuView, d: Register16, s: Register16) -> LR35902 {
    let e = spec_read8(m, c.registers.pc);
    let c1 = c_fetch(c);
    let val = c1.registers.spec_get_16(s);
    let res = wrap16(val + signed8(e));
    LR35902 {
        registers: Registers {
            zf: false,
            nf: false,
            hf: val % 16 + e % 16 > 15,
            cf: val % 256 + e > 255,
            ..c1.registers.spec_set_16(d, res)
        },
        ..c1
    }
}

pub open spec fn i_push(c: LR35902, m: MmuView, s: Register16) -> (LR35902, MmuView) {
    let sp2 = wrap16(c.registers.sp - 2);
    let v = c.registers.spec_get_16(s);
    (
        LR35902 { registers: Registers { sp: sp2, ..c.registers }, ..c },
        spec_write8(spec_write8(m, sp2, (v % 256) as u8), wrap16(sp2 + 1), (v / 256) as u8),
    )
}

pub open spec fn i_pop(c: LR35902, m: MmuView, d: Register16) -> LR35902 {
    let sp = c.registers.sp;
    let v = (spec_read8(m, sp) + spec_read8(m, wrap16(sp + 1)) * 256) as u16;
    LR35902 {
        registers: Registers {
            sp: wrap16(sp + 2),
            ..c.registers.spec_set_16(d, v)
        },
        ..c
    }
}

impl LR35902 {
    /// The reset CPU: cleared register file, interrupts disabled, not
    /// halted.
    pub open spec fn new_spec() -> LR35902 {
        LR35902 {
            registers: Registers {
                a: 0,
                b: 0,
                c: 0,
                d: 0,
                e: 0,
                h: 0,
                l: 0,
                zf: false,
                nf: false,
                hf: false,
                cf: false,
                sp: 0,
                pc: 0,
            },
            ime: false,
            halted: false,
            ei_pending: false,
        }
    }

    /// A fresh CPU at reset.
    pub fn new() -> (c: LR35902)
        ensures
            c == LR35902::new_spec(),
    {
        LR35902 {
            registers: Registers {
                a: 0,
                b: 0,
                c: 0,
                d: 0,
                e: 0,
                h: 0,
                l: 0,
                zf: false,
                nf: false,
                hf: false,
                cf: false,
                sp: 0,
                pc: 0,
            },
            ime: false,
            halted: false,
            ei_pending: false,
        }
    }

    /// Consumes the byte at PC.
    fn pc_next_8(&mut self, mmu: &MemoryMapUnit) -> (v: u8)
        requires
            mmu@.wf(),
        ensures
            *final(self) == c_fetch(*old(self)),
            v == spec_read8(mmu@, old(self).registers.pc),
    {
        let v = mmu.read_8(self.registers.pc);
        self.registers.pc = (((self.registers.pc as u32) + 1) % 0x10000) as u16;
        v
    }

    /// Consumes the little-endian 16-bit immediate at PC.
    fn pc_next_16(&mut self, mmu: &MemoryMapUnit) -> (v: u16)
        requires
            mmu@.wf(),
        ensures
            *final(self) == c_fetch(c_fetch(*old(self))),
            v == spec_imm16(mmu@, old(self).registers.pc),
    {
        let v = mmu.read_16(self.registers.pc);
        self.registers.pc = (((self.registers.pc as u32) + 2) % 0x10000) as u16;
        v
    }

    fn load_8(&mut self, destination: Register8, source: Register8) -> (t: ClockTicks)
        ensures
            *final(self) == i_load_8(*old(self), destination, source),
            t == 4,
    {
        let v = self.registers.get_8(source);
        self.registers.set_8(destination, v);
        4
    }

    fn load_8_at(
        &mut self,
        mmu: &mut MemoryMapUnit,
        destination: Register16,
        source: Register8,
    ) -> (t: ClockTicks)
        requires
            old(mmu)@.wf(),
        ensures
            final(mmu)@.wf(),
            (*final(self), final(mmu)@) == i_load_8_at(
                *old(self),
                old(mmu)@,
                destination,
                source,
            ),
            t == 8,
    {
        let address = self.registers.get_16(destination);
        let value = self.registers.get_8(source);
        mmu.write_8(address, value);
        8
    }

    fn load_8_at_increment(
        &mut self,
        mmu: &mut MemoryMapUnit,
        destination: Register16,
        source: Register8,
    ) -> (t: ClockTicks)
        requires
            old(mmu)@.wf(),
        ensures
            final(mmu)@.wf(),
            (*final(self), final(mmu)@) == i_load_8_at_increment(
                *old(self),
                old(mmu)@,
                destination,
                source,
            ),
            t == 8,
    {
        self.load_8_at(mmu, destination, source);
        let v = self.registers.get_16(destination);
        self.registers.set_16(destination, (((v as u32) + 1) % 0x10000) as u16);
        8
    }

    fn load_8_at_decrement(
        &mut self,
        mmu: &mut MemoryMapUnit,
        destination: Register16,
        source: Register8,
    ) -> (t: ClockTicks)
        requires
            old(mmu)@.wf(),
        ensures
            final(mmu)@.wf(),
            (*final(self), final(mmu)@) == i_load_8_at_decrement(
                *old(self),
                old(mmu)@,
                destination,
                source,
            ),
            t == 8,
    {
        self.load_8_at(mmu, destination, source);
        let v = self.registers.get_16(destination);
        proof {
            lemma_wrap_sub(v, 1);
        }
        self.registers.set_16(destination, (((v as u32) + 0xFFFF) % 0x10000) as u16);
        8
    }

    fn load_8_from(
        &mut self,
        mmu: &MemoryMapUnit,
        destination: Register8,
        source: Register16,
    ) -> (t: ClockTicks)
        requires
            mmu@.wf(),
        ensures
            *final(self) == i_load_8_from(*old(self), mmu@, destination, source),
            t == 8,
    {
        let address = self.registers.get_16(source);
        let value = mmu.read_8(address);
        self.registers.set_8(destination, value);
        8
    }

    fn load_8_from_increment(
        &mut self,
        mmu: &MemoryMapUnit,
        destination: Register8,
        source: Register16,
    ) -> (t: ClockTicks)
        requires
            mmu@.wf(),
        ensures
            *final(self) == i_load_8_from_increment(*old(self), mmu@, destination, source),
            t == 8,
    {
        self.load_8_from(mmu, destination, source);
        let v = self.registers.get_16(source);
        self.registers.set_16(source, (((v as u32) + 1) % 0x10000) as u16);
        8
    }

    fn load_8_from_decrement(
        &mut self,
        mmu: &MemoryMapUnit,
        destination: Register8,
        source: Register16,
    ) -> (t: ClockTicks)
        requires
            mmu@.wf(),
        ensures
            *final(self) == i_load_8_from_decrement(*old(self), mmu@, destination, source),
            t == 8,
    {
        self.load_8_from(mmu, destination, source);
        let v = self.registers.get_16(source);
        proof {
            lemma_wrap_sub(v, 1);
        }
        self.registers.set_16(source, (((v as u32) + 0xFFFF) % 0x10000) as u16);
        8
    }

    fn load_8_immediate(&mut self, mmu: &MemoryMapUnit, destination: Register8) -> (t: ClockTicks)
        requires
            mmu@.wf(),
        ensures
            *final(self) == i_load_8_immediate(*old(self), mmu@, destination),
            t == 8,
    {
        let value = self.pc_next_8(mmu);
        self.registers.set_8(destination, value);
        8
    }

    fn load_8_immediate_at(
        &mut self,
        mmu: &mut MemoryMapUnit,
        destination: Register16,
    ) -> (t: ClockTicks)
        requires
            old(mmu)@.wf(),
        ensures
            final(mmu)@.wf(),
            (*final(self), final(mmu)@) == i_load_8_immediate_at(
                *old(self),
                old(mmu)@,
                destination,
            ),
            t == 12,
    {
        let address = self.registers.get_16(destination);
        let value = self.pc_next_8(mmu);
        mmu.write_8(address, value);
        12
    }

    fn load_8_from_immediate(
        &mut self,
        mmu: &MemoryMapUnit,
        destination: Register8,
    ) -> (t: ClockTicks)
        requires
            mmu@.wf(),
        ensures
            *final(self) == i_load_8_from_immediate(*old(self), mmu@, destination),
            t == 16,
    {
        let address = self.pc_next_16(mmu);
        let value = mmu.read_8(address);
        self.registers.set_8(destination, value);
        16
    }

    fn load_8_at_immediate(&mut self, mmu: &mut MemoryMapUnit, source: Register8) -> (t: ClockTicks)
        requires
            old(mmu)@.wf(),
        ensures
            final(mmu)@.wf(),
            (*final(self), final(mmu)@) == i_load_8_at_immediate(*old(self), old(mmu)@, source),
            t == 16,
    {
        let address = self.pc_next_16(mmu);
        let value = self.registers.get_8(source);
        mmu.write_8(address, value);
        16
    }

    fn load_8_from_io(
        &mut self,
        mmu: &MemoryMapUnit,
        destination: Register8,
        source: Register8,
    ) -> (t: ClockTicks)
        requires
            mmu@.wf(),
        ensures
            *final(self) == i_load_8_from_io(*old(self), mmu@, destination, source),
            t == 8,
    {
        let address = 0xFF00 + self.registers.get_8(source) as u16;
        let value = mmu.read_8(address);
        self.registers.set_8(destination, value);
        8
    }

    fn load_8_from_io_immediate(
        &mut self,
        mmu: &MemoryMapUnit,
        destination: Register8,
    ) -> (t: ClockTicks)
        requires
            mmu@.wf(),
        ensures
            *final(self) == i_load_8_from_io_immediate(*old(self), mmu@, destination),
            t == 12,
    {
        let offset = self.pc_next_8(mmu);
        let value = mmu.read_8(0xFF00 + offset as u16);
        self.registers.set_8(destination, value);
        12
    }

    fn load_8_at_io(
        &mut self,
        mmu: &mut MemoryMapUnit,
        destination: Register8,
        source: Register8,
    ) -> (t: ClockTicks)
        requires
            old(mmu)@.wf(),
        ensures
            final(mmu)@.wf(),
            (*final(self), final(mmu)@) == i_load_8_at_io(
                *old(self),
                old(mmu)@,
                destination,
                source,
            ),
            t == 8,
    {
        let address = 0xFF00 + self.registers.get_8(destination) as u16;
        let value = self.registers.get_8(source);
        mmu.write_8(address, value);
        8
    }

    fn load_8_at_io_immediate(
        &mut self,
        mmu: &mut MemoryMapUnit,
        source: Register8,
    ) -> (t: ClockTicks)
        requires
            old(mmu)@.wf(),
        ensures
            final(mmu)@.wf(),
            (*final(self), final(mmu)@) == i_load_8_at_io_immediate(*old(self), old(mmu)@, source),
            t == 12,
    {
        let offset = self.pc_next_8(mmu);
        let value = self.registers.get_8(source);
        mmu.write_8(0xFF00 + offset as u16, value);
        12
    }

    fn load_16(&mut self, destination: Register16, source: Register16) -> (t: ClockTicks)
        ensures
            *final(self) == i_load_16(*old(self), destination, source),
            t == 8,
    {
        let value = self.registers.get_16(source);
        self.registers.set_16(destination, value);
        8
    }

    #[verifier::rlimit(100)]
    fn load_16_at_immediate(&mut self, mmu: &mut MemoryMapUnit, source: Register16) -> (t:
        ClockTicks)
        requires
            old(mmu)@.wf(),
        ensures
            final(mmu)@.wf(),
            (*final(self), final(mmu)@) == i_load_16_at_immediate(*old(self), old(mmu)@, source),
            t == 20,
    {
        let address = self.pc_next_16(mmu);
        let value = self.registers.get_16(source);
        mmu.write_16(address, value);
        20
    }

    fn load_16_immediate(&mut self, mmu: &MemoryMapUnit, destination: Register16) -> (t:
        ClockTicks)
        requires
            mmu@.wf(),
        ensures
            *final(self) == i_load_16_immediate(*old(self), mmu@, destination),
            t == 12,
    {
        let value = self.pc_next_16(mmu);
        self.registers.set_16(destination, value);
        12
    }

    #[verifier::rlimit(100)]
    fn load_16_add_immediate(
        &mut self,
        mmu: &MemoryMapUnit,
        destination: Register16,
        source: Register16,
    ) -> (t: ClockTicks)
        requires
            mmu@.wf(),
        ensures
            *final(self) == i_load_16_add_immediate(*old(self), mmu@, destination, source),
            t == 12,
    {
        let immediate = self.pc_next_8(mmu);
        let value = self.registers.get_16(source);
        let h_flag = (value % 16) + (immediate % 16) as u16 > 15;
        let c_flag = (value % 256) + (immediate as u16) > 255;
        let target: u16 = (((value as u32) + (immediate as u32) + (if immediate < 128 {
            0u32
        } else {
            0xFF00u32
        })) % 0x10000) as u16;
        proof {
            lemma_signed_wrap(value, immediate);
        }
        self.registers.set_16(destination, target);
        self.registers.set_flags(false, false, h_flag, c_flag);
        12
    }

    fn push(&mut self, mmu: &mut MemoryMapUnit, source: Register16) -> (t: ClockTicks)
        requires
            old(mmu)@.wf(),
        ensures
            final(mmu)@.wf(),
            (*final(self), final(mmu)@) == i_push(*old(self), old(mmu)@, source),
            t == 16,
    {
        let value = self.registers.get_16(source);
        let address = self.registers.get_16(Register16::SP);
        proof {
            lemma_wrap_sub(address, 2);
        }
        let sp2: u16 = (((address as u32) + 0xFFFE) % 0x10000) as u16;
        self.registers.set_16(Register16::SP, sp2);
        mmu.write_16(sp2, value);
        16
    }

    fn pop(&mut self, mmu: &MemoryMapUnit, destination: Register16) -> (t: ClockTicks)
        requires
            mmu@.wf(),
        ensures
            *final(self) == i_pop(*old(self), mmu@, destination),
            t == 12,
    {
        let address = self.registers.get_16(Register16::SP);
        let value = mmu.read_16(address);
        self.registers.set_16(destination, value);
        self.registers.set_16(Register16::SP, (((address as u32) + 2) % 0x10000) as u16);
        12
    }
}

/// Subtracting `k` and adding `0x10000 - k` agree modulo 0x10000.
proof fn lemma_wrap_sub(v: u16, k: u16)
    ensures
        wrap16(v - k) == ((v + (0x10000 - k)) as int % 0x10000) as u16,
{
    vstd::arithmetic::div_mod::lemma_mod_add_multiples_vanish(v - k, 0x10000);
}

/// The unsigned trick behind signed displacement adds: adding the two's
/// complement bias reaches the same 16-bit result as adding the signed
/// value.
proof fn lemma_signed_wrap(value: u16, immediate: u8)
    ensures
        wrap16(value + signed8(immediate)) == (((value + immediate + (if immediate < 128 {
            0int
        } else {
            0xFF00int
        })) as int) % 0x10000) as u16,
{
    if immediate >= 128 {
        vstd::arithmetic::div_mod::lemma_mod_add_multiples_vanish(
            value + immediate - 256,
            0x10000,
        );
    }
}

/// ADD A,r / ADC A,r: the carry-in is the C flag when `with_carry`.
pub open spec fn i_add_8(c: LR35902, s: Register8, with_carry: bool) -> LR35902 {
    let cin: int = if with_carry && c.registers.cf { 1 } else { 0 };
    LR35902 { registers: sr_add(c.registers, c.registers.spec_get_8(s), cin), ..c }
}

pub open spec fn i_add_8_from(c: LR35902, m: MmuView, s: Register16, with_carry: bool) -> LR35902 {
    let cin: int = if with_carry && c.registers.cf { 1 } else { 0 };
    LR35902 {
        registers: sr_add(c.registers, spec_read8(m, c.registers.spec_get_16(s)), cin),
        ..c
    }
}

pub open spec fn i_add_8_imm(c: LR35902, m: MmuView, with_carry: bool) -> LR35902 {
    let cin: int = if with_carry && c.registers.cf { 1 } else { 0 };
    let c1 = c_fetch(c);
    LR35902 { registers: sr_add(c1.registers, spec_read8(m, c.registers.pc), cin), ..c1 }
}

/// SUB A,r / SBC A,r.
pub open spec fn i_sub_8(c: LR35902, s: Register8, with_carry: bool) -> LR35902 {
    let cin: int = if with_carry && c.registers.cf { 1 } else { 0 };
    LR35902 { registers: sr_sub(c.registers, c.registers.spec_get_8(s), cin), ..c }
}

pub open spec fn i_sub_8_from(c: LR35902, m: MmuView, s: Register16, with_carry: bool) -> LR35902 {
    let cin: int = if with_carry && c.registers.cf { 1 } else { 0 };
    LR35902 {
        registers: sr_sub(c.registers, spec_read8(m, c.registers.spec_get_16(s)), cin),
        ..c
    }
}

pub open spec fn i_sub_8_imm(c: LR35902, m: MmuView, with_carry: bool) -> LR35902 {
    let cin: int = if with_carry && c.registers.cf { 1 } else { 0 };
    let c1 = c_fetch(c);
    LR35902 { registers: sr_sub(c1.registers, spec_read8(m, c.registers.pc), cin), ..c1 }
}

pub open spec fn i_and_8(c: LR35902, s: Register8) -> LR35902 {
    LR35902 { registers: sr_and(c.registers, c.registers.spec_get_8(s)), ..c }
}

pub open spec fn i_and_8_from(c: LR35902, m: MmuView, s: Register16) -> LR35902 {
    LR35902 { registers: sr_and(c.registers, spec_read8(m, c.registers.spec_get_16(s))), ..c }
}

pub open spec fn i_and_8_imm(c: LR35902, m: MmuView) -> LR35902 {
    let c1 = c_fetch(c);
    LR35902 { registers: sr_and(c1.registers, spec_read8(m, c.registers.pc)), ..c1 }
}

pub open spec fn i_or_8(c: LR35902, s: Register8) -> LR35902 {
    LR35902 { registers: sr_or(c.registers, c.registers.spec_get_8(s)), ..c }
}

pub open spec fn i_or_8_from(c: LR35902, m: MmuView, s: Register16) -> LR35902 {
    LR35902 { registers: sr_or(c.registers, spec_read8(m, c.registers.spec_get_16(s))), ..c }
}

pub open spec fn i_or_8_imm(c: LR35902, m: MmuView) -> LR35902 {
    let c1 = c_fetch(c);
    LR35902 { registers: sr_or(c1.registers, spec_read8(m, c.registers.pc)), ..c1 }
}

pub open spec fn i_xor_8(c: LR35902, s: Register8) -> LR35902 {
    LR35902 { registers: sr_xor(c.registers, c.registers.spec_get_8(s)), ..c }
}

pub open spec fn i_xor_8_from(c: LR35902, m: MmuView, s: Register16) -> LR35902 {
    LR35902 { registers: sr_xor(c.registers, spec_read8(m, c.registers.spec_get_16(s))), ..c }
}

pub open spec fn i_xor_8_imm(c: LR35902, m: MmuView) -> LR35902 {
    let c1 = c_fetch(c);
    LR35902 { registers: sr_xor(c1.registers, spec_read8(m, c.registers.pc)), ..c1 }
}

/// CP A,r: the flags of the subtraction, A untouched.
pub open spec fn i_cp_8(c: LR35902, s: Register8) -> LR35902 {
    LR35902 { registers: sr_cp(c.registers, c.registers.spec_get_8(s)), ..c }
}

pub open spec fn i_cp_8_from(c: LR35902, m: MmuView, s: Register16) -> LR35902 {
    LR35902 { registers: sr_cp(c.registers, spec_read8(m, c.registers.spec_get_16(s))), ..c }
}

pub open spec fn i_cp_8_imm(c: LR35902, m: MmuView) -> LR35902 {
    let c1 = c_fetch(c);
    LR35902 { registers: sr_cp(c1.registers, spec_read8(m, c.registers.pc)), ..c1 }
}

/// INC r: Z and H by the result, N cleared, C untouched.
pub open spec fn i_inc_8(c: LR35902, d: Register8) -> LR35902 {
    let v = c.registers.spec_get_8(d);
    LR35902 {
        registers: Registers {
            zf: inc8_val(v) == 0,
            nf: false,
            hf: v % 16 == 15,
            ..c.registers.spec_set_8(d, inc8_val(v))
        },
        ..c
    }
}

pub open spec fn i_inc_8_at(c: LR35902, m: MmuView, rr: Register16) -> (LR35902, MmuView) {
    let addr = c.registers.spec_get_16(rr);
    let v = spec_read8(m, addr);
    (
        LR35902 {
            registers: Registers {
                zf: inc8_val(v) == 0,
                nf: false,
                hf: v % 16 == 15,
                ..c.registers
            },
            ..c
        },
        spec_write8(m, addr, inc8_val(v)),
    )
}

/// DEC r: Z by the result, N set, H on low-nibble borrow, C untouched.
pub open spec fn i_dec_8(c: LR35902, d: Register8) -> LR35902 {
    let v = c.registers.spec_get_8(d);
    LR35902 {
        registers: Registers {
            zf: dec8_val(v) == 0,
            nf: true,
            hf: v % 16 == 0,
            ..c.registers.spec_set_8(d, dec8_val(v))
        },
        ..c
    }
}

pub open spec fn i_dec_8_at(c: LR35902, m: MmuView, rr: Register16) -> (LR35902, MmuView) {
    let addr = c.registers.spec_get_16(rr);
    let v = spec_read8(m, addr);
    (
        LR35902 {
            registers: Registers {
                zf: dec8_val(v) == 0,
                nf: true,
                hf: v % 16 == 0,
                ..c.registers
            },
            ..c
        },
        spec_write8(m, addr, dec8_val(v)),
    )
}

/// ADD HL,rr: N cleared, H on carry from bit 11, C on carry from bit 15,
/// Z untouched.
pub open spec fn i_add_16(c: LR35902, d: Register16, s: Register16) -> LR35902 {
    let dv = c.registers.spec_get_16(d);
    let sv = c.registers.spec_get_16(s);
    LR35902 {
        registers: Registers {
            nf: false,
            hf: dv % 0x1000 + sv % 0x1000 > 0xFFF,
            cf: dv + sv > 0xFFFF,
            ..c.registers.spec_set_16(d, wrap16(dv + sv))
        },
        ..c
    }
}

/// ADD SP,e8: Z and N cleared, H and C from the unsigned low byte.
pub open spec fn i_add_16_immediate(c: LR35902, m: MmuView, d: Register16) -> LR35902 {
    let e = spec_read8(m, c.registers.pc);
    let c1 = c_fetch(c);
    let val = c1.registers.spec_get_16(d);
    LR35902 {
        registers: Registers {
            zf: false,
            nf: false,
            hf: val % 16 + e % 16 > 15,
            cf: val % 256 + e > 255,
            ..c1.registers.spec_set_16(d, wrap16(val + signed8(e)))
        },
        ..c1
    }
}

pub open spec fn i_inc_16(c: LR35902, d: Register16) -> LR35902 {
    LR35902 {
        registers: c.registers.spec_set_16(d, wrap16(c.registers.spec_get_16(d) + 1)),
        ..c
    }
}

pub open spec fn i_dec_16(c: LR35902, d: Register16) -> LR35902 {
    LR35902 {
        registers: c.registers.spec_set_16(d, wrap16(c.registers.spec_get_16(d) - 1)),
        ..c
    }
}

impl LR35902 {
    /// A += x + cin with the ADD flag rules.
    fn alu_add(&mut self, x: u8, cin: u8)
        requires
            cin <= 1,
        ensures
            *final(self) == (LR35902 {
                registers: sr_add(old(self).registers, x, cin as int),
                ..*old(self)
            }),
    {
        let a = self.registers.a;
        let sum: u32 = a as u32 + x as u32 + cin as u32;
        self.registers.a = (sum % 256) as u8;
        self.registers.zf = sum % 256 == 0;
        self.registers.nf = false;
        self.registers.hf = (a % 16) + (x % 16) + cin > 15;
        self.registers.cf = sum > 255;
    }

    /// A -= x + cin with the SUB flag rules; returns the stored result so
    /// CP can discard it.
    fn alu_sub(&mut self, x: u8, cin: u8)
        requires
            cin <= 1,
        ensures
            *final(self) == (LR35902 {
                registers: sr_sub(old(self).registers, x, cin as int),
                ..*old(self)
            }),
    {
        let a = self.registers.a;
        let diff: u32 = (a as u32 + 512) - (x as u32 + cin as u32);
        proof {
            lemma_sub_wrap_byte(a, x, cin);
        }
        self.registers.a = (diff % 256) as u8;
        self.registers.zf = diff % 256 == 0;
        self.registers.nf = true;
        self.registers.hf = (a % 16) < (x % 16) + cin;
        self.registers.cf = (a as u32) < (x as u32) + (cin as u32);
    }

    fn carry_in(&self) -> (cin: u8)
        ensures
            cin == (if self.registers.cf { 1int } else { 0int }),
    {
        if self.registers.cf {
            1
        } else {
            0
        }
    }

    fn add_8(&mut self, source: Register8) -> (t: ClockTicks)
        ensures
            *final(self) == i_add_8(*old(self), source, false),
            t == 4,
    {
        let x = self.registers.get_8(source);
        self.alu_add(x, 0);
        4
    }

    fn add_8_from(&mut self, mmu: &MemoryMapUnit, source: Register16) -> (t: ClockTicks)
        requires
            mmu@.wf(),
        ensures
            *final(self) == i_add_8_from(*old(self), mmu@, source, false),
            t == 8,
    {
        let x = mmu.read_8(self.registers.get_16(source));
        self.alu_add(x, 0);
        8
    }

    fn add_8_immediate(&mut self, mmu: &MemoryMapUnit) -> (t: ClockTicks)
        requires
            mmu@.wf(),
        ensures
            *final(self) == i_add_8_imm(*old(self), mmu@, false),
            t == 8,
    {
        let x = self.pc_next_8(mmu);
        self.alu_add(x, 0);
        8
    }

    fn add_carry_8(&mut self, source: Register8) -> (t: ClockTicks)
        ensures
            *final(self) == i_add_8(*old(self), source, true),
            t == 4,
    {
        let x = self.registers.get_8(source);
        let cin = self.carry_in();
        self.alu_add(x, cin);
        4
    }

    fn add_carry_8_from(&mut self, mmu: &MemoryMapUnit, source: Register16) -> (t: ClockTicks)
        requires
            mmu@.wf(),
        ensures
            *final(self) == i_add_8_from(*old(self), mmu@, source, true),
            t == 8,
    {
        let x = mmu.read_8(self.registers.get_16(source));
        let cin = self.carry_in();
        self.alu_add(x, cin);
        8
    }

    fn add_carry_8_immediate(&mut self, mmu: &MemoryMapUnit) -> (t: ClockTicks)
        requires
            mmu@.wf(),
        ensures
            *final(self) == i_add_8_imm(*old(self), mmu@, true),
            t == 8,
    {
        let x = self.pc_next_8(mmu);
        let cin = self.carry_in();
        self.alu_add(x, cin);
        8
    }

    fn sub_8(&mut self, source: Register8) -> (t: ClockTicks)
        ensures
            *final(self) == i_sub_8(*old(self), source, false),
            t == 4,
    {
        let x = self.registers.get_8(source);
        self.alu_sub(x, 0);
        4
    }

    fn sub_8_from(&mut self, mmu: &MemoryMapUnit, source: Register16) -> (t: ClockTicks)
        requires
            mmu@.wf(),
        ensures
            *final(self) == i_sub_8_from(*old(self), mmu@, source, false),
            t == 8,
    {
        let x = mmu.read_8(self.registers.get_16(source));
        self.alu_sub(x, 0);
        8
    }

    fn sub_8_immediate(&mut self, mmu: &MemoryMapUnit) -> (t: ClockTicks)
        requires
            mmu@.wf(),
        ensures
            *final(self) == i_sub_8_imm(*old(self), mmu@, false),
            t == 8,
    {
        let x = self.pc_next_8(mmu);
        self.alu_sub(x, 0);
        8
    }

    fn sub_carry_8(&mut self, source: Register8) -> (t: ClockTicks)
        ensures
            *final(self) == i_sub_8(*old(self), source, true),
            t == 4,
    {
        let x = self.registers.get_8(source);
        let cin = self.carry_in();
        self.alu_sub(x, cin);
        4
    }

    fn sub_carry_8_from(&mut self, mmu: &MemoryMapUnit, source: Register16) -> (t: ClockTicks)
        requires
            mmu@.wf(),
        ensures
            *final(self) == i_sub_8_from(*old(self), mmu@, source, true),
            t == 8,
    {
        let x = mmu.read_8(self.registers.get_16(source));
        let cin = self.carry_in();
        self.alu_sub(x, cin);
        8
    }

    fn sub_carry_8_immediate(&mut self, mmu: &MemoryMapUnit) -> (t: ClockTicks)
        requires
            mmu@.wf(),
        ensures
            *final(self) == i_sub_8_imm(*old(self), mmu@, true),
            t == 8,
    {
        let x = self.pc_next_8(mmu);
        let cin = self.carry_in();
        self.alu_sub(x, cin);
        8
    }

    fn alu_and(&mut self, x: u8)
        ensures
            *final(self) == (LR35902 {
                registers: sr_and(old(self).registers, x),
                ..*old(self)
            }),
    {
        let res = self.registers.a & x;
        self.registers.a = res;
        self.registers.zf = res == 0;
        self.registers.nf = false;
        self.registers.hf = true;
        self.registers.cf = false;
    }

    fn and_8(&mut self, source: Register8) -> (t: ClockTicks)
        ensures
            *final(self) == i_and_8(*old(self), source),
            t == 4,
    {
        let x = self.registers.get_8(source);
        self.alu_and(x);
        4
    }

    fn and_8_from(&mut self, mmu: &MemoryMapUnit, source: Register16) -> (t: ClockTicks)
        requires
            mmu@.wf(),
        ensures
            *final(self) == i_and_8_from(*old(self), mmu@, source),
            t == 8,
    {
        let x = mmu.read_8(self.registers.get_16(source));
        self.alu_and(x);
        8
    }

    fn and_8_immediate(&mut self, mmu: &MemoryMapUnit) -> (t: ClockTicks)
        requires
            mmu@.wf(),
        ensures
            *final(self) == i_and_8_imm(*old(self), mmu@),
            t == 8,
    {
        let x = self.pc_next_8(mmu);
        self.alu_and(x);
        8
    }

    fn alu_or(&mut self, x: u8)
        ensures
            *final(self) == (LR35902 {
                registers: sr_or(old(self).registers, x),
                ..*old(self)
            }),
    {
        let res = self.registers.a | x;
        self.registers.a = res;
        self.registers.zf = res == 0;
        self.registers.nf = false;
        self.registers.hf = false;
        self.registers.cf = false;
    }

    fn or_8(&mut self, source: Register8) -> (t: ClockTicks)
        ensures
            *final(self) == i_or_8(*old(self), source),
            t == 4,
    {
        let x = self.registers.get_8(source);
        self.alu_or(x);
        4
    }

    fn or_8_from(&mut self, mmu: &MemoryMapUnit, source: Register16) -> (t: ClockTicks)
        requires
            mmu@.wf(),
        ensures
            *final(self) == i_or_8_from(*old(self), mmu@, source),
            t == 8,
    {
        let x = mmu.read_8(self.registers.get_16(source));
        self.alu_or(x);
        8
    }

    fn or_8_immediate(&mut self, mmu: &MemoryMapUnit) -> (t: ClockTicks)
        requires
            mmu@.wf(),
        ensures
            *final(self) == i_or_8_imm(*old(self), mmu@),
            t == 8,
    {
        let x = self.pc_next_8(mmu);
        self.alu_or(x);
        8
    }

    fn alu_xor(&mut self, x: u8)
        ensures
            *final(self) == (LR35902 {
                registers: sr_xor(old(self).registers, x),
                ..*old(self)
            }),
    {
        let res = self.registers.a ^ x;
        self.registers.a = res;
        self.registers.zf = res == 0;
        self.registers.nf = false;
        self.registers.hf = false;
        self.registers.cf = false;
    }

    fn xor_8(&mut self, source: Register8) -> (t: ClockTicks)
        ensures
            *final(self) == i_xor_8(*old(self), source),
            t == 4,
    {
        let x = self.registers.get_8(source);
        self.alu_xor(x);
        4
    }

    fn xor_8_from(&mut self, mmu: &MemoryMapUnit, source: Register16) -> (t: ClockTicks)
        requires
            mmu@.wf(),
        ensures
            *final(self) == i_xor_8_from(*old(self), mmu@, source),
            t == 8,
    {
        let x = mmu.read_8(self.registers.get_16(source));
        self.alu_xor(x);
        8
    }

    fn xor_8_immediate(&mut self, mmu: &MemoryMapUnit) -> (t: ClockTicks)
        requires
            mmu@.wf(),
        ensures
            *final(self) == i_xor_8_imm(*old(self), mmu@),
            t == 8,
    {
        let x = self.pc_next_8(mmu);
        self.alu_xor(x);
        8
    }

    fn alu_cp(&mut self, x: u8)
        ensures
            *final(self) == (LR35902 {
                registers: sr_cp(old(self).registers, x),
                ..*old(self)
            }),
    {
        let a = self.registers.a;
        self.alu_sub(x, 0);
        self.registers.a = a;
    }

    fn cp_8(&mut self, source: Register8) -> (t: ClockTicks)
        ensures
            *final(self) == i_cp_8(*old(self), source),
            t == 4,
    {
        let x = self.registers.get_8(source);
        self.alu_cp(x);
        4
    }

    fn cp_8_from(&mut self, mmu: &MemoryMapUnit, source: Register16) -> (t: ClockTicks)
        requires
            mmu@.wf(),
        ensures
            *final(self) == i_cp_8_from(*old(self), mmu@, source),
            t == 8,
    {
        let x = mmu.read_8(self.registers.get_16(source));
        self.alu_cp(x);
        8
    }

    fn cp_8_immediate(&mut self, mmu: &MemoryMapUnit) -> (t: ClockTicks)
        requires
            mmu@.wf(),
        ensures
            *final(self) == i_cp_8_imm(*old(self), mmu@),
            t == 8,
    {
        let x = self.pc_next_8(mmu);
        self.alu_cp(x);
        8
    }

    fn inc_8(&mut self, destination: Register8) -> (t: ClockTicks)
        ensures
            *final(self) == i_inc_8(*old(self), destination),
            t == 4,
    {
        let v = self.registers.get_8(destination);
        let res: u8 = ((v as u16 + 1) % 256) as u8;
        self.registers.set_8(destination, res);
        self.registers.zf = res == 0;
        self.registers.nf = false;
        self.registers.hf = v % 16 == 15;
        4
    }

    fn inc_8_at(&mut self, mmu: &mut MemoryMapUnit, destination: Register16) -> (t: ClockTicks)
        requires
            old(mmu)@.wf(),
        ensures
            final(mmu)@.wf(),
            (*final(self), final(mmu)@) == i_inc_8_at(*old(self), old(mmu)@, destination),
            t == 12,
    {
        let address = self.registers.get_16(destination);
        let v = mmu.read_8(address);
        let res: u8 = ((v as u16 + 1) % 256) as u8;
        self.registers.zf = res == 0;
        self.registers.nf = false;
        self.registers.hf = v % 16 == 15;
        mmu.write_8(address, res);
        12
    }

    fn dec_8(&mut self, destination: Register8) -> (t: ClockTicks)
        ensures
            *final(self) == i_dec_8(*old(self), destination),
            t == 4,
    {
        let v = self.registers.get_8(destination);
        let res: u8 = ((v as u16 + 255) % 256) as u8;
        proof {
            vstd::arithmetic::div_mod::lemma_mod_add_multiples_vanish(v - 1, 256);
        }
        self.registers.set_8(destination, res);
        self.registers.zf = res == 0;
        self.registers.nf = true;
        self.registers.hf = v % 16 == 0;
        4
    }

    fn dec_8_at(&mut self, mmu: &mut MemoryMapUnit, destination: Register16) -> (t: ClockTicks)
        requires
            old(mmu)@.wf(),
        ensures
            final(mmu)@.wf(),
            (*final(self), final(mmu)@) == i_dec_8_at(*old(self), old(mmu)@, destination),
            t == 12,
    {
        let address = self.registers.get_16(destination);
        let v = mmu.read_8(address);
        let res: u8 = ((v as u16 + 255) % 256) as u8;
        proof {
            vstd::arithmetic::div_mod::lemma_mod_add_multiples_vanish(v - 1, 256);
        }
        self.registers.zf = res == 0;
        self.registers.nf = true;
        self.registers.hf = v % 16 == 0;
        mmu.write_8(address, res);
        12
    }

    fn add_16(&mut self, destination: Register16, source: Register16) -> (t: ClockTicks)
        ensures
            *final(self) == i_add_16(*old(self), destination, source),
            t == 8,
    {
        let dv = self.registers.get_16(destination);
        let sv = self.registers.get_16(source);
        let res: u16 = (((dv as u32) + (sv as u32)) % 0x10000) as u16;
        self.registers.set_16(destination, res);
        self.registers.nf = false;
        self.registers.hf = (dv % 0x1000) + (sv % 0x1000) > 0xFFF;
        self.registers.cf = (dv as u32) + (sv as u32) > 0xFFFF;
        8
    }

    fn add_16_immediate(&mut self, mmu: &MemoryMapUnit, destination: Register16) -> (t: ClockTicks)
        requires
            mmu@.wf(),
        ensures
            *final(self) == i_add_16_immediate(*old(self), mmu@, destination),
            t == 16,
    {
        let immediate = self.pc_next_8(mmu);
        let value = self.registers.get_16(destination);
        let h_flag = (value % 16) + (immediate % 16) as u16 > 15;
        let c_flag = (value % 256) + (immediate as u16) > 255;
        let target: u16 = (((value as u32) + (immediate as u32) + (if immediate < 128 {
            0u32
        } else {
            0xFF00u32
        })) % 0x10000) as u16;
        proof {
            lemma_signed_wrap(value, immediate);
        }
        self.registers.set_16(destination, target);
        self.registers.zf = false;
        self.registers.nf = false;
        self.registers.hf = h_flag;
        self.registers.cf = c_flag;
        16
    }

    fn inc_16(&mut self, destination: Register16) -> (t: ClockTicks)
        ensures
            *final(self) == i_inc_16(*old(self), destination),
            t == 8,
    {
        let v = self.registers.get_16(destination);
        self.registers.set_16(destination, (((v as u32) + 1) % 0x10000) as u16);
        8
    }

    fn dec_16(&mut self, destination: Register16) -> (t: ClockTicks)
        ensures
            *final(self) == i_dec_16(*old(self), destination),
            t == 8,
    {
        let v = self.registers.get_16(destination);
        proof {
            lemma_wrap_sub(v, 1);
        }
        self.registers.set_16(destination, (((v as u32) + 0xFFFF) % 0x10000) as u16);
        8
    }
}

/// Borrowing a byte: adding 512 keeps the difference positive without
/// moving it modulo 256.
proof fn lemma_sub_wrap_byte(a: u8, x: u8, cin: u8)
    ensures
        ((a + 512 - x - cin) as int % 256) == ((a - x - cin) as int % 256),
{
    vstd::arithmetic::div_mod::lemma_mod_add_multiples_vanish(a + 256 - x - cin, 256);
    vstd::arithmetic::div_mod::lemma_mod_add_multiples_vanish(a - x - cin, 256);
}

/// SCF: carry set, N and H cleared.
pub open spec fn i_scf(c: LR35902) -> LR35902 {
    LR35902 {
        registers: Registers { nf: false, hf: false, cf: true, ..c.registers },
        ..c
    }
}

/// CCF: carry complemented, N and H cleared.
pub open spec fn i_ccf(c: LR35902) -> LR35902 {
    LR35902 {
        registers: Registers { nf: false, hf: false, cf: !c.registers.cf, ..c.registers },
        ..c
    }
}

/// CPL: A complemented, N and H set.
pub open spec fn i_cpl(c: LR35902) -> LR35902 {
    LR35902 {
        registers: Registers { a: !c.registers.a, nf: true, hf: true, ..c.registers },
        ..c
    }
}

pub open spec fn i_daa(c: LR35902) -> LR35902 {
    LR35902 { registers: sr_daa(c.registers), ..c }
}

/// JP HL.
pub open spec fn i_jump(c: LR35902, s: Register16) -> LR35902 {
    LR35902 {
        registers: Registers { pc: c.registers.spec_get_16(s), ..c.registers },
        ..c
    }
}

/// JP cc,nn: the immediate is consumed either way; the jump lands only
/// when the condition held.
pub open spec fn i_jump_if_16(c: LR35902, m: MmuView, cond: bool) -> LR35902 {
    let target = spec_imm16(m, c.registers.pc);
    let c2 = c_fetch(c_fetch(c));
    if cond {
        LR35902 { registers: Registers { pc: target, ..c2.registers }, ..c2 }
    } else {
        c2
    }
}

/// JR cc,e8: a signed displacement from the address after the immediate.
pub open spec fn i_jump_if_8(c: LR35902, m: MmuView, cond: bool) -> LR35902 {
    let e = spec_read8(m, c.registers.pc);
    let c1 = c_fetch(c);
    if cond {
        LR35902 {
            registers: Registers {
                pc: wrap16(c1.registers.pc + signed8(e)),
                ..c1.registers
            },
            ..c1
        }
    } else {
        c1
    }
}

/// RST: the return address is pushed and PC jumps to the vector.
pub open spec fn i_call_vec(c: LR35902, m: MmuView, address: u16) -> (LR35902, MmuView) {
    let (c1, m1) = i_push(c, m, Register16::PC);
    (
        LR35902 { registers: Registers { pc: address, ..c1.registers }, ..c1 },
        m1,
    )
}

/// CALL cc,nn: the immediate is consumed either way; when the condition
/// held, the address after it is pushed and PC jumps.
pub open spec fn i_call(c: LR35902, m: MmuView, cond: bool) -> (LR35902, MmuView) {
    let target = spec_imm16(m, c.registers.pc);
    let c2 = c_fetch(c_fetch(c));
    if cond {
        i_call_vec(c2, m, target)
    } else {
        (c2, m)
    }
}

/// RET: PC popped from the stack.
pub open spec fn i_ret(c: LR35902, m: MmuView) -> LR35902 {
    i_pop(c, m, Register16::PC)
}

pub open spec fn i_ret_if(c: LR35902, m: MmuView, cond: bool) -> LR35902 {
    if cond {
        i_pop(c, m, Register16::PC)
    } else {
        c
    }
}

/// RETI: RET plus an immediate IME enable.
pub open spec fn i_ret_interrupt(c: LR35902, m: MmuView) -> LR35902 {
    LR35902 { ime: true, ..i_pop(c, m, Register16::PC) }
}

/// STOP: the byte after the opcode is consumed and execution continues.
pub open spec fn i_stop(c: LR35902) -> LR35902 {
    c_fetch(c)
}

/// DI: IME cleared at once, a pending delayed enable dropped.
pub open spec fn i_di(c: LR35902) -> LR35902 {
    LR35902 { ime: false, ei_pending: false, ..c }
}

/// EI: IME is enabled only after the next instruction completes.
pub open spec fn i_ei(c: LR35902) -> LR35902 {
    LR35902 { ei_pending: true, ..c }
}

pub open spec fn i_halt(c: LR35902) -> LR35902 {
    LR35902 { halted: true, ..c }
}

/// RLCA / RLA: rotate A left, Z always cleared, C the bit that left.
pub open spec fn i_rotate_left_acc(c: LR35902, with_carry: bool) -> LR35902 {
    let a = c.registers.a;
    let res = if with_carry {
        rl_val(a, c.registers.cf)
    } else {
        rlc_val(a)
    };
    LR35902 {
        registers: Registers {
            a: res,
            zf: false,
            nf: false,
            hf: false,
            cf: left_carry(a),
            ..c.registers
        },
        ..c
    }
}

/// RRCA / RRA.
pub open spec fn i_rotate_right_acc(c: LR35902, with_carry: bool) -> LR35902 {
    let a = c.registers.a;
    let res = if with_carry {
        rr_val(a, c.registers.cf)
    } else {
        rrc_val(a)
    };
    LR35902 {
        registers: Registers {
            a: res,
            zf: false,
            nf: false,
            hf: false,
            cf: right_carry(a),
            ..c.registers
        },
        ..c
    }
}

/// The CB-prefixed rotates on a register: Z by the result.
pub open spec fn i_rotate_left(c: LR35902, d: Register8, with_carry: bool) -> LR35902 {
    let v = c.registers.spec_get_8(d);
    let res = if with_carry {
        rl_val(v, c.registers.cf)
    } else {
        rlc_val(v)
    };
    LR35902 {
        registers: c.registers.spec_with_flags(res == 0, false, false, left_carry(v)).spec_set_8(
            d,
            res,
        ),
        ..c
    }
}

pub open spec fn i_rotate_left_at(c: LR35902, m: MmuView, rr: Register16, with_carry: bool) -> (
    LR35902,
    MmuView,
) {
    let addr = c.registers.spec_get_16(rr);
    let v = spec_read8(m, addr);
    let res = if with_carry {
        rl_val(v, c.registers.cf)
    } else {
        rlc_val(v)
    };
    (
        LR35902 {
            registers: c.registers.spec_with_flags(res == 0, false, false, left_carry(v)),
            ..c
        },
        spec_write8(m, addr, res),
    )
}

pub open spec fn i_rotate_right(c: LR35902, d: Register8, with_carry: bool) -> LR35902 {
    let v = c.registers.spec_get_8(d);
    let res = if with_carry {
        rr_val(v, c.registers.cf)
    } else {
        rrc_val(v)
    };
    LR35902 {
        registers: c.registers.spec_with_flags(res == 0, false, false, right_carry(v)).spec_set_8(
            d,
            res,
        ),
        ..c
    }
}

pub open spec fn i_rotate_right_at(c: LR35902, m: MmuView, rr: Register16, with_carry: bool) -> (
    LR35902,
    MmuView,
) {
    let addr = c.registers.spec_get_16(rr);
    let v = spec_read8(m, addr);
    let res = if with_carry {
        rr_val(v, c.registers.cf)
    } else {
        rrc_val(v)
    };
    (
        LR35902 {
            registers: c.registers.spec_with_flags(res == 0, false, false, right_carry(v)),
            ..c
        },
        spec_write8(m, addr, res),
    )
}

/// SLA: shift left, bit 0 cleared.
pub open spec fn i_shift_left(c: LR35902, d: Register8) -> LR35902 {
    let v = c.registers.spec_get_8(d);
    let res = sla_val(v);
    LR35902 {
        registers: c.registers.spec_set_8(d, res).spec_with_flags(
            res == 0,
            false,
            false,
            left_carry(v),
        ),
        ..c
    }
}

pub open spec fn i_shift_left_at(c: LR35902, m: MmuView, rr: Register16) -> (LR35902, MmuView) {
    let addr = c.registers.spec_get_16(rr);
    let v = spec_read8(m, addr);
    let res = sla_val(v);
    (
        LR35902 {
            registers: c.registers.spec_with_flags(res == 0, false, false, left_carry(v)),
            ..c
        },
        spec_write8(m, addr, res),
    )
}

/// SRA: shift right, bit 7 kept.
pub open spec fn i_shift_right(c: LR35902, d: Register8) -> LR35902 {
    let v = c.registers.spec_get_8(d);
    let res = sra_val(v);
    LR35902 {
        registers: c.registers.spec_set_8(d, res).spec_with_flags(
            res == 0,
            false,
            false,
            right_carry(v),
        ),
        ..c
    }
}

pub open spec fn i_shift_right_at(c: LR35902, m: MmuView, rr: Register16) -> (LR35902, MmuView) {
    let addr = c.registers.spec_get_16(rr);
    let v = spec_read8(m, addr);
    let res = sra_val(v);
    (
        LR35902 {
            registers: c.registers.spec_with_flags(res == 0, false, false, right_carry(v)),
            ..c
        },
        spec_write8(m, addr, res),
    )
}

/// SWAP: nibbles exchanged, carry cleared.
pub open spec fn i_swap(c: LR35902, d: Register8) -> LR35902 {
    let v = c.registers.spec_get_8(d);
    let res = swap_val(v);
    LR35902 {
        registers: c.registers.spec_set_8(d, res).spec_with_flags(res == 0, false, false, false),
        ..c
    }
}

pub open spec fn i_swap_at(c: LR35902, m: MmuView, rr: Register16) -> (LR35902, MmuView) {
    let addr = c.registers.spec_get_16(rr);
    let v = spec_read8(m, addr);
    let res = swap_val(v);
    (
        LR35902 {
            registers: c.registers.spec_with_flags(res == 0, false, false, false),
            ..c
        },
        spec_write8(m, addr, res),
    )
}

/// SRL: shift right, bit 7 cleared.
pub open spec fn i_shift_right_logic(c: LR35902, d: Register8) -> LR35902 {
    let v = c.registers.spec_get_8(d);
    let res = srl_val(v);
    LR35902 {
        registers: c.registers.spec_set_8(d, res).spec_with_flags(
            res == 0,
            false,
            false,
            right_carry(v),
        ),
        ..c
    }
}

pub open spec fn i_shift_right_logic_at(c: LR35902, m: MmuView, rr: Register16) -> (
    LR35902,
    MmuView,
) {
    let addr = c.registers.spec_get_16(rr);
    let v = spec_read8(m, addr);
    let res = srl_val(v);
    (
        LR35902 {
            registers: c.registers.spec_with_flags(res == 0, false, false, right_carry(v)),
            ..c
        },
        spec_write8(m, addr, res),
    )
}

/// BIT n,r: Z is the complement of the tested bit, N cleared, H set, C
/// untouched.
pub open spec fn i_bit(c: LR35902, n: u8, s: Register8) -> LR35902 {
    LR35902 {
        registers: Registers {
            zf: (c.registers.spec_get_8(s) / spec_pow2u8(n)) % 2 == 0,
            nf: false,
            hf: true,
            ..c.registers
        },
        ..c
    }
}

pub open spec fn i_bit_at(c: LR35902, m: MmuView, n: u8, rr: Register16) -> LR35902 {
    LR35902 {
        registers: Registers {
            zf: (spec_read8(m, c.registers.spec_get_16(rr)) / spec_pow2u8(n)) % 2 == 0,
            nf: false,
            hf: true,
            ..c.registers
        },
        ..c
    }
}

/// RES n,r: no flags.
pub open spec fn i_reset_bit(c: LR35902, n: u8, d: Register8) -> LR35902 {
    LR35902 {
        registers: c.registers.spec_set_8(d, c.registers.spec_get_8(d) & !spec_pow2u8(n)),
        ..c
    }
}

pub open spec fn i_reset_bit_at(c: LR35902, m: MmuView, n: u8, rr: Register16) -> (
    LR35902,
    MmuView,
) {
    let addr = c.registers.spec_get_16(rr);
    (c, spec_write8(m, addr, spec_read8(m, addr) & !spec_pow2u8(n)))
}

/// SET n,r: no flags.
pub open spec fn i_set_bit(c: LR35902, n: u8, d: Register8) -> LR35902 {
    LR35902 {
        registers: c.registers.spec_set_8(d, c.registers.spec_get_8(d) | spec_pow2u8(n)),
        ..c
    }
}

pub open spec fn i_set_bit_at(c: LR35902, m: MmuView, n: u8, rr: Register16) -> (
    LR35902,
    MmuView,
) {
    let addr = c.registers.spec_get_16(rr);
    (c, spec_write8(m, addr, spec_read8(m, addr) | spec_pow2u8(n)))
}

impl LR35902 {
    fn set_carry_flag(&mut self) -> (t: ClockTicks)
        ensures
            *final(self) == i_scf(*old(self)),
            t == 4,
    {
        self.registers.nf = false;
        self.registers.hf = false;
        self.registers.cf = true;
        4
    }

    fn complement_carry_flag(&mut self) -> (t: ClockTicks)
        ensures
            *final(self) == i_ccf(*old(self)),
            t == 4,
    {
        self.registers.nf = false;
        self.registers.hf = false;
        self.registers.cf = !self.registers.cf;
        4
    }

    fn complement(&mut self) -> (t: ClockTicks)
        ensures
            *final(self) == i_cpl(*old(self)),
            t == 4,
    {
        self.registers.a = !self.registers.a;
        self.registers.nf = true;
        self.registers.hf = true;
        4
    }

    fn decimal_adjust(&mut self) -> (t: ClockTicks)
        ensures
            *final(self) == i_daa(*old(self)),
            t == 4,
    {
        let a = self.registers.a;
        let adj_low = self.registers.hf || (!self.registers.nf && a % 16 > 9);
        let adj_high = self.registers.cf || (!self.registers.nf && a > 0x99);
        let offset: u8 = (if adj_low { 6u8 } else { 0u8 }) + (if adj_high { 0x60u8 } else { 0u8 });
        let result: u8 = if self.registers.nf {
            proof {
                vstd::arithmetic::div_mod::lemma_mod_add_multiples_vanish(a - offset, 256);
            }
            (((a as u16) + 256 - (offset as u16)) % 256) as u8
        } else {
            (((a as u16) + (offset as u16)) % 256) as u8
        };
        self.registers.a = result;
        self.registers.zf = result == 0;
        self.registers.hf = false;
        self.registers.cf = adj_high;
        4
    }

    fn jump(&mut self, source: Register16) -> (t: ClockTicks)
        ensures
            *final(self) == i_jump(*old(self), source),
            t == 4,
    {
        let value = self.registers.get_16(source);
        self.registers.pc = value;
        4
    }

    fn jump_if_immediate_16(&mut self, mmu: &MemoryMapUnit, condition: bool) -> (t: ClockTicks)
        requires
            mmu@.wf(),
        ensures
            *final(self) == i_jump_if_16(*old(self), mmu@, condition),
            t == (if condition { 16int } else { 12int }),
    {
        let value = self.pc_next_16(mmu);
        if !condition {
            return 12;
        }
        self.registers.pc = value;
        16
    }

    fn jump_if_immediate_8(&mut self, mmu: &MemoryMapUnit, condition: bool) -> (t: ClockTicks)
        requires
            mmu@.wf(),
        ensures
            *final(self) == i_jump_if_8(*old(self), mmu@, condition),
            t == (if condition { 12int } else { 8int }),
    {
        let value = self.pc_next_8(mmu);
        if !condition {
            return 8;
        }
        let pc = self.registers.pc;
        proof {
            lemma_signed_wrap(pc, value);
        }
        self.registers.pc = (((pc as u32) + (value as u32) + (if value < 128 {
            0u32
        } else {
            0xFF00u32
        })) % 0x10000) as u16;
        12
    }

    fn call(&mut self, mmu: &mut MemoryMapUnit, condition: bool) -> (t: ClockTicks)
        requires
            old(mmu)@.wf(),
        ensures
            final(mmu)@.wf(),
            (*final(self), final(mmu)@) == i_call(*old(self), old(mmu)@, condition),
            t == (if condition { 24int } else { 12int }),
    {
        let address = self.pc_next_16(mmu);
        if !condition {
            return 12;
        }
        self.push(mmu, Register16::PC);
        self.registers.pc = address;
        24
    }

    fn call_vec(&mut self, mmu: &mut MemoryMapUnit, address: u16) -> (t: ClockTicks)
        requires
            old(mmu)@.wf(),
        ensures
            final(mmu)@.wf(),
            (*final(self), final(mmu)@) == i_call_vec(*old(self), old(mmu)@, address),
            t == 16,
    {
        self.push(mmu, Register16::PC);
        self.registers.pc = address;
        16
    }

    fn ret(&mut self, mmu: &MemoryMapUnit) -> (t: ClockTicks)
        requires
            mmu@.wf(),
        ensures
            *final(self) == i_ret(*old(self), mmu@),
            t == 16,
    {
        self.pop(mmu, Register16::PC);
        16
    }

    fn ret_if(&mut self, mmu: &MemoryMapUnit, condition: bool) -> (t: ClockTicks)
        requires
            mmu@.wf(),
        ensures
            *final(self) == i_ret_if(*old(self), mmu@, condition),
            t == (if condition { 20int } else { 8int }),
    {
        if !condition {
            return 8;
        }
        self.pop(mmu, Register16::PC);
        20
    }

    fn ret_interrupt(&mut self, mmu: &MemoryMapUnit) -> (t: ClockTicks)
        requires
            mmu@.wf(),
        ensures
            *final(self) == i_ret_interrupt(*old(self), mmu@),
            t == 16,
    {
        self.ime = true;
        self.pop(mmu, Register16::PC);
        16
    }

    fn stop(&mut self, mmu: &MemoryMapUnit) -> (t: ClockTicks)
        requires
            mmu@.wf(),
        ensures
            *final(self) == i_stop(*old(self)),
            t == 4,
    {
        self.pc_next_8(mmu);
        4
    }

    fn disable_interrupts(&mut self) -> (t: ClockTicks)
        ensures
            *final(self) == i_di(*old(self)),
            t == 4,
    {
        self.ime = false;
        self.ei_pending = false;
        4
    }

    fn enable_interrupts(&mut self) -> (t: ClockTicks)
        ensures
            *final(self) == i_ei(*old(self)),
            t == 4,
    {
        self.ei_pending = true;
        4
    }

    fn halt(&mut self) -> (t: ClockTicks)
        ensures
            *final(self) == i_halt(*old(self)),
            t == 4,
    {
        self.halted = true;
        4
    }

    fn rotate_left_accumulator(&mut self, with_carry: bool) -> (t: ClockTicks)
        ensures
            *final(self) == i_rotate_left_acc(*old(self), with_carry),
            t == 4,
    {
        let a = self.registers.a;
        let res: u8 = if with_carry {
            (a % 128) * 2 + (if self.registers.cf { 1u8 } else { 0u8 })
        } else {
            (a % 128) * 2 + a / 128
        };
        self.registers.a = res;
        self.registers.zf = false;
        self.registers.nf = false;
        self.registers.hf = false;
        self.registers.cf = a >= 128;
        4
    }

    fn rotate_right_accumulator(&mut self, with_carry: bool) -> (t: ClockTicks)
        ensures
            *final(self) == i_rotate_right_acc(*old(self), with_carry),
            t == 4,
    {
        let a = self.registers.a;
        let res: u8 = if with_carry {
            a / 2 + (if self.registers.cf { 128u8 } else { 0u8 })
        } else {
            a / 2 + (a % 2) * 128
        };
        self.registers.a = res;
        self.registers.zf = false;
        self.registers.nf = false;
        self.registers.hf = false;
        self.registers.cf = a % 2 == 1;
        4
    }

    /// The rotate result and flag update shared by the CB rotates.
    fn rotate_value(&mut self, v: u8, right: bool, with_carry: bool) -> (res: u8)
        ensures
            right ==> res == (if with_carry {
                rr_val(v, old(self).registers.cf)
            } else {
                rrc_val(v)
            }),
            !right ==> res == (if with_carry {
                rl_val(v, old(self).registers.cf)
            } else {
                rlc_val(v)
            }),
            *final(self) == (LR35902 {
                registers: old(self).registers.spec_with_flags(
                    res == 0,
                    false,
                    false,
                    if right {
                        right_carry(v)
                    } else {
                        left_carry(v)
                    },
                ),
                ..*old(self)
            }),
    {
        let res: u8 = if right {
            if with_carry {
                v / 2 + (if self.registers.cf { 128u8 } else { 0u8 })
            } else {
                v / 2 + (v % 2) * 128
            }
        } else {
            if with_carry {
                (v % 128) * 2 + (if self.registers.cf { 1u8 } else { 0u8 })
            } else {
                (v % 128) * 2 + v / 128
            }
        };
        let carry = if right {
            v % 2 == 1
        } else {
            v >= 128
        };
        self.registers.set_flags(res == 0, false, false, carry);
        res
    }

    fn rotate_left(&mut self, destination: Register8) -> (t: ClockTicks)
        ensures
            *final(self) == i_rotate_left(*old(self), destination, false),
            t == 8,
    {
        let v = self.registers.get_8(destination);
        let res = self.rotate_value(v, false, false);
        self.registers.set_8(destination, res);
        8
    }

    fn rotate_left_at(&mut self, mmu: &mut MemoryMapUnit, destination: Register16) -> (t:
        ClockTicks)
        requires
            old(mmu)@.wf(),
        ensures
            final(mmu)@.wf(),
            (*final(self), final(mmu)@) == i_rotate_left_at(
                *old(self),
                old(mmu)@,
                destination,
                false,
            ),
            t == 16,
    {
        let address = self.registers.get_16(destination);
        let v = mmu.read_8(address);
        let res = self.rotate_value(v, false, false);
        mmu.write_8(address, res);
        16
    }

    fn rotate_left_carry(&mut self, destination: Register8) -> (t: ClockTicks)
        ensures
            *final(self) == i_rotate_left(*old(self), destination, true),
            t == 8,
    {
        let v = self.registers.get_8(destination);
        let res = self.rotate_value(v, false, true);
        self.registers.set_8(destination, res);
        8
    }

    fn rotate_left_carry_at(&mut self, mmu: &mut MemoryMapUnit, destination: Register16) -> (t:
        ClockTicks)
        requires
            old(mmu)@.wf(),
        ensures
            final(mmu)@.wf(),
            (*final(self), final(mmu)@) == i_rotate_left_at(
                *old(self),
                old(mmu)@,
                destination,
                true,
            ),
            t == 16,
    {
        let address = self.registers.get_16(destination);
        let v = mmu.read_8(address);
        let res = self.rotate_value(v, false, true);
        mmu.write_8(address, res);
        16
    }

    fn rotate_right(&mut self, destination: Register8) -> (t: ClockTicks)
        ensures
            *final(self) == i_rotate_right(*old(self), destination, false),
            t == 8,
    {
        let v = self.registers.get_8(destination);
        let res = self.rotate_value(v, true, false);
        self.registers.set_8(destination, res);
        8
    }

    fn rotate_right_at(&mut self, mmu: &mut MemoryMapUnit, destination: Register16) -> (t:
        ClockTicks)
        requires
            old(mmu)@.wf(),
        ensures
            final(mmu)@.wf(),
            (*final(self), final(mmu)@) == i_rotate_right_at(
                *old(self),
                old(mmu)@,
                destination,
                false,
            ),
            t == 16,
    {
        let address = self.registers.get_16(destination);
        let v = mmu.read_8(address);
        let res = self.rotate_value(v, true, false);
        mmu.write_8(address, res);
        16
    }

    fn rotate_right_carry(&mut self, destination: Register8) -> (t: ClockTicks)
        ensures
            *final(self) == i_rotate_right(*old(self), destination, true),
            t == 8,
    {
        let v = self.registers.get_8(destination);
        let res = self.rotate_value(v, true, true);
        self.registers.set_8(destination, res);
        8
    }

    fn rotate_right_carry_at(&mut self, mmu: &mut MemoryMapUnit, destination: Register16) -> (t:
        ClockTicks)
        requires
            old(mmu)@.wf(),
        ensures
            final(mmu)@.wf(),
            (*final(self), final(mmu)@) == i_rotate_right_at(
                *old(self),
                old(mmu)@,
                destination,
                true,
            ),
            t == 16,
    {
        let address = self.registers.get_16(destination);
        let v = mmu.read_8(address);
        let res = self.rotate_value(v, true, true);
        mmu.write_8(address, res);
        16
    }

    fn shift_left(&mut self, destination: Register8) -> (t: ClockTicks)
        ensures
            *final(self) == i_shift_left(*old(self), destination),
            t == 8,
    {
        let v = self.registers.get_8(destination);
        let res: u8 = (v % 128) * 2;
        self.registers.set_8(destination, res);
        self.registers.set_flags(res == 0, false, false, v >= 128);
        8
    }

    fn shift_left_at(&mut self, mmu: &mut MemoryMapUnit, destination: Register16) -> (t:
        ClockTicks)
        requires
            old(mmu)@.wf(),
        ensures
            final(mmu)@.wf(),
            (*final(self), final(mmu)@) == i_shift_left_at(*old(self), old(mmu)@, destination),
            t == 16,
    {
        let address = self.registers.get_16(destination);
        let v = mmu.read_8(address);
        let res: u8 = (v % 128) * 2;
        mmu.write_8(address, res);
        self.registers.set_flags(res == 0, false, false, v >= 128);
        16
    }

    fn shift_right(&mut self, destination: Register8) -> (t: ClockTicks)
        ensures
            *final(self) == i_shift_right(*old(self), destination),
            t == 8,
    {
        let v = self.registers.get_8(destination);
        let res: u8 = v / 2 + (v / 128) * 128;
        self.registers.set_8(destination, res);
        self.registers.set_flags(res == 0, false, false, v % 2 == 1);
        8
    }

    fn shift_right_at(&mut self, mmu: &mut MemoryMapUnit, destination: Register16) -> (t:
        ClockTicks)
        requires
            old(mmu)@.wf(),
        ensures
            final(mmu)@.wf(),
            (*final(self), final(mmu)@) == i_shift_right_at(*old(self), old(mmu)@, destination),
            t == 16,
    {
        let address = self.registers.get_16(destination);
        let v = mmu.read_8(address);
        let res: u8 = v / 2 + (v / 128) * 128;
        mmu.write_8(address, res);
        self.registers.set_flags(res == 0, false, false, v % 2 == 1);
        16
    }

    fn swap(&mut self, destination: Register8) -> (t: ClockTicks)
        ensures
            *final(self) == i_swap(*old(self), destination),
            t == 8,
    {
        let v = self.registers.get_8(destination);
        let res: u8 = (v % 16) * 16 + v / 16;
        self.registers.set_8(destination, res);
        self.registers.set_flags(res == 0, false, false, false);
        8
    }

    fn swap_at(&mut self, mmu: &mut MemoryMapUnit, destination: Register16) -> (t: ClockTicks)
        requires
            old(mmu)@.wf(),
        ensures
            final(mmu)@.wf(),
            (*final(self), final(mmu)@) == i_swap_at(*old(self), old(mmu)@, destination),
            t == 16,
    {
        let address = self.registers.get_16(destination);
        let v = mmu.read_8(address);
        let res: u8 = (v % 16) * 16 + v / 16;
        mmu.write_8(address, res);
        self.registers.set_flags(res == 0, false, false, false);
        16
    }

    fn shift_right_logic(&mut self, destination: Register8) -> (t: ClockTicks)
        ensures
            *final(self) == i_shift_right_logic(*old(self), destination),
            t == 8,
    {
        let v = self.registers.get_8(destination);
        let res: u8 = v / 2;
        self.registers.set_8(destination, res);
        self.registers.set_flags(res == 0, false, false, v % 2 == 1);
        8
    }

    fn shift_right_logic_at(&mut self, mmu: &mut MemoryMapUnit, destination: Register16) -> (t:
        ClockTicks)
        requires
            old(mmu)@.wf(),
        ensures
            final(mmu)@.wf(),
            (*final(self), final(mmu)@) == i_shift_right_logic_at(
                *old(self),
                old(mmu)@,
                destination,
            ),
            t == 16,
    {
        let address = self.registers.get_16(destination);
        let v = mmu.read_8(address);
        let res: u8 = v / 2;
        mmu.write_8(address, res);
        self.registers.set_flags(res == 0, false, false, v % 2 == 1);
        16
    }

    /// 2 to the `n` as a byte weight.
    fn pow2(n: u8) -> (p: u8)
        requires
            n < 8,
        ensures
            p == spec_pow2u8(n),
    {
        if n == 0 {
            1
        } else if n == 1 {
            2
        } else if n == 2 {
            4
        } else if n == 3 {
            8
        } else if n == 4 {
            16
        } else if n == 5 {
            32
        } else if n == 6 {
            64
        } else {
            128
        }
    }

    fn bit(&mut self, n: u8, source: Register8) -> (t: ClockTicks)
        requires
            n < 8,
        ensures
            *final(self) == i_bit(*old(self), n, source),
            t == 8,
    {
        let v = self.registers.get_8(source);
        let p = Self::pow2(n);
        self.registers.zf = (v / p) % 2 == 0;
        self.registers.nf = false;
        self.registers.hf = true;
        8
    }

    fn bit_at(&mut self, mmu: &MemoryMapUnit, n: u8, source: Register16) -> (t: ClockTicks)
        requires
            n < 8,
            mmu@.wf(),
        ensures
            *final(self) == i_bit_at(*old(self), mmu@, n, source),
            t == 12,
    {
        let v = mmu.read_8(self.registers.get_16(source));
        let p = Self::pow2(n);
        self.registers.zf = (v / p) % 2 == 0;
        self.registers.nf = false;
        self.registers.hf = true;
        12
    }

    fn reset_bit(&mut self, n: u8, source: Register8) -> (t: ClockTicks)
        requires
            n < 8,
        ensures
            *final(self) == i_reset_bit(*old(self), n, source),
            t == 8,
    {
        let v = self.registers.get_8(source);
        let p = Self::pow2(n);
        self.registers.set_8(source, v & !p);
        8
    }

    fn reset_bit_at(&mut self, mmu: &mut MemoryMapUnit, n: u8, source: Register16) -> (t:
        ClockTicks)
        requires
            n < 8,
            old(mmu)@.wf(),
        ensures
            final(mmu)@.wf(),
            (*final(self), final(mmu)@) == i_reset_bit_at(*old(self), old(mmu)@, n, source),
            t == 16,
    {
        let address = self.registers.get_16(source);
        let v = mmu.read_8(address);
        let p = Self::pow2(n);
        mmu.write_8(address, v & !p);
        16
    }

    fn set_bit(&mut self, n: u8, source: Register8) -> (t: ClockTicks)
        requires
            n < 8,
        ensures
            *final(self) == i_set_bit(*old(self), n, source),
            t == 8,
    {
        let v = self.registers.get_8(source);
        let p = Self::pow2(n);
        self.registers.set_8(source, v | p);
        8
    }

    fn set_bit_at(&mut self, mmu: &mut MemoryMapUnit, n: u8, source: Register16) -> (t: ClockTicks)
        requires
            n < 8,
            old(mmu)@.wf(),
        ensures
            final(mmu)@.wf(),
            (*final(self), final(mmu)@) == i_set_bit_at(*old(self), old(mmu)@, n, source),
            t == 16,
    {
        let address = self.registers.get_16(source);
        let v = mmu.read_8(address);
        let p = Self::pow2(n);
        mmu.write_8(address, v | p);
        16
    }
}


/// Whether `op` is one of the eleven unused opcodes that halt the core.
pub open spec fn illegal_opcode(op: u8) -> bool {
    op == 0xD3 || op == 0xDB || op == 0xDD || op == 0xE3 || op == 0xE4 || op == 0xEB || op == 0xEC
        || op == 0xED || op == 0xF4 || op == 0xFC || op == 0xFD
}

/// The condition a conditional jump, call or return tests, read from the
/// flags; unconditional opcodes count as taken.
pub open spec fn opcode_taken(op: u8, r: Registers) -> bool {
    if op == 0x20 || op == 0xC0 || op == 0xC2 || op == 0xC4 {
        !r.zf
    } else if op == 0x28 || op == 0xC8 || op == 0xCA || op == 0xCC {
        r.zf
    } else if op == 0x30 || op == 0xD0 || op == 0xD2 || op == 0xD4 {
        !r.cf
    } else if op == 0x38 || op == 0xD8 || op == 0xDA || op == 0xDC {
        r.cf
    } else {
        true
    }
}

/// The T-cycle cost of a CB-prefixed opcode, the prefix fetch included:
/// 8 for register forms, 16 for (HL) forms, 12 for BIT n,(HL).
pub open spec fn cb_cycles(op: u8) -> int {
    if op % 8 == 6 {
        if 0x40 <= op < 0x80 {
            12
        } else {
            16
        }
    } else {
        8
    }
}

/// The canonical DMG T-cycle cost of a primary opcode; conditional
/// branches cost the long value exactly when taken. The CB prefix is
/// costed by `cb_cycles` instead, and the unused opcodes end in the
/// decode error.
pub open spec fn opcode_cycles(op: u8, taken: bool) -> int {
    match op {
        0 => 4int,
        1 => 12int,
        2 => 8int,
        3 => 8int,
        4 => 4int,
        5 => 4int,
        6 => 8int,
        7 => 4int,
        8 => 20int,
        9 => 8int,
        10 => 8int,
        11 => 8int,
        12 => 4int,
        13 => 4int,
        14 => 8int,
        15 => 4int,
        16 => 4int,
        17 => 12int,
        18 => 8int,
        19 => 8int,
        20 => 4int,
        21 => 4int,
        22 => 8int,
        23 => 4int,
        24 => 12int,
        25 => 8int,
        26 => 8int,
        27 => 8int,
        28 => 4int,
        29 => 4int,
        30 => 8int,
        31 => 4int,
        32 => if taken { 12int } else { 8int },
        33 => 12int,
        34 => 8int,
        35 => 8int,
        36 => 4int,
        37 => 4int,
        38 => 8int,
        39 => 4int,
        40 => if taken { 12int } else { 8int },
        41 => 8int,
        42 => 8int,
        43 => 8int,
        44 => 4int,
        45 => 4int,
        46 => 8int,
        47 => 4int,
        48 => if taken { 12int } else { 8int },
        49 => 12int,
        50 => 8int,
        51 => 8int,
        52 => 12int,
        53 => 12int,
        54 => 12int,
        55 => 4int,
        56 => if taken { 12int } else { 8int },
        57 => 8int,
        58 => 8int,
        59 => 8int,
        60 => 4int,
        61 => 4int,
        62 => 8int,
        63 => 4int,
        64 => 4int,
        65 => 4int,
        66 => 4int,
        67 => 4int,
        68 => 4int,
        69 => 4int,
        70 => 8int,
        71 => 4int,
        72 => 4int,
        73 => 4int,
        74 => 4int,
        75 => 4int,
        76 => 4int,
        77 => 4int,
        78 => 8int,
        79 => 4int,
        80 => 4int,
        81 => 4int,
        82 => 4int,
        83 => 4int,
        84 => 4int,
        85 => 4int,
        86 => 8int,
        87 => 4int,
        88 => 4int,
        89 => 4int,
        90 => 4int,
        91 => 4int,
        92 => 4int,
        93 => 4int,
        94 => 8int,
        95 => 4int,
        96 => 4int,
        97 => 4int,
        98 => 4int,
        99 => 4int,
        100 => 4int,
        101 => 4int,
        102 => 8int,
        103 => 4int,
        104 => 4int,
        105 => 4int,
        106 => 4int,
        107 => 4int,
        108 => 4int,
        109 => 4int,
        110 => 8int,
        111 => 4int,
        112 => 8int,
        113 => 8int,
        114 => 8int,
        115 => 8int,
        116 => 8int,
        117 => 8int,
        118 => 4int,
        119 => 8int,
        120 => 4int,
        121 => 4int,
        122 => 4int,
        123 => 4int,
        124 => 4int,
        125 => 4int,
        126 => 8int,
        127 => 4int,
        128 => 4int,
        129 => 4int,
        130 => 4int,
        131 => 4int,
        132 => 4int,
        133 => 4int,
        134 => 8int,
        135 => 4int,
        136 => 4int,
        137 => 4int,
        138 => 4int,
        139 => 4int,
        140 => 4int,
        141 => 4int,
        142 => 8int,
        143 => 4int,
        144 => 4int,
        145 => 4int,
        146 => 4int,
        147 => 4int,
        148 => 4int,
        149 => 4int,
        150 => 8int,
        151 => 4int,
        152 => 4int,
        153 => 4int,
        154 => 4int,
        155 => 4int,
        156 => 4int,
        157 => 4int,
        158 => 8int,
        159 => 4int,
        160 => 4int,
        161 => 4int,
        162 => 4int,
        163 => 4int,
        164 => 4int,
        165 => 4int,
        166 => 8int,
        167 => 4int,
        168 => 4int,
        169 => 4int,
        170 => 4int,
        171 => 4int,
        172 => 4int,
        173 => 4int,
        174 => 8int,
        175 => 4int,
        176 => 4int,
        177 => 4int,
        178 => 4int,
        179 => 4int,
        180 => 4int,
        181 => 4int,
        182 => 8int,
        183 => 4int,
        184 => 4int,
        185 => 4int,
        186 => 4int,
        187 => 4int,
        188 => 4int,
        189 => 4int,
        190 => 8int,
        191 => 4int,
        192 => if taken { 20int } else { 8int },
        193 => 12int,
        194 => if taken { 16int } else { 12int },
        195 => 16int,
        196 => if taken { 24int } else { 12int },
        197 => 16int,
        198 => 8int,
        199 => 16int,
        200 => if taken { 20int } else { 8int },
        201 => 16int,
        202 => if taken { 16int } else { 12int },
        203 => 4int,
        204 => if taken { 24int } else { 12int },
        205 => 24int,
        206 => 8int,
        207 => 16int,
        208 => if taken { 20int } else { 8int },
        209 => 12int,
        210 => if taken { 16int } else { 12int },
        211 => 4int,
        212 => if taken { 24int } else { 12int },
        213 => 16int,
        214 => 8int,
        215 => 16int,
        216 => if taken { 20int } else { 8int },
        217 => 16int,
        218 => if taken { 16int } else { 12int },
        219 => 4int,
        220 => if taken { 24int } else { 12int },
        221 => 4int,
        222 => 8int,
        223 => 16int,
        224 => 12int,
        225 => 12int,
        226 => 8int,
        227 => 4int,
        228 => 4int,
        229 => 16int,
        230 => 8int,
        231 => 16int,
        232 => 16int,
        233 => 4int,
        234 => 16int,
        235 => 4int,
        236 => 4int,
        237 => 4int,
        238 => 8int,
        239 => 16int,
        240 => 12int,
        241 => 12int,
        242 => 8int,
        243 => 4int,
        244 => 4int,
        245 => 16int,
        246 => 8int,
        247 => 16int,
        248 => 12int,
        249 => 8int,
        250 => 16int,
        251 => 4int,
        252 => 4int,
        253 => 4int,
        254 => 8int,
        255 => 16int,
    }
}


/// The T-cycle cost of the instruction whose opcode byte `op` has just
/// been consumed, with `c` the post-fetch CPU and `m` the memory; the
/// CB-prefixed cost depends on the second opcode byte at PC.
pub open spec fn spec_op_cycles_full(op: u8, c: LR35902, m: MmuView) -> int {
    if op == 0xCB {
        cb_cycles(spec_read8(m, c.registers.pc))
    } else {
        opcode_cycles(op, opcode_taken(op, c.registers))
    }
}

pub open spec fn spec_run_0x(op: u8, c: LR35902, m: MmuView) -> (LR35902, MmuView) {
    match op {
        0 => (c, m),
        1 => (i_load_16_immediate(c, m, Register16::BC), m),
        2 => i_load_8_at(c, m, Register16::BC, Register8::A),
        3 => (i_inc_16(c, Register16::BC), m),
        4 => (i_inc_8(c, Register8::B), m),
        5 => (i_dec_8(c, Register8::B), m),
        6 => (i_load_8_immediate(c, m, Register8::B), m),
        7 => (i_rotate_left_acc(c, false), m),
        8 => i_load_16_at_immediate(c, m, Register16::SP),
        9 => (i_add_16(c, Register16::HL, Register16::BC), m),
        10 => (i_load_8_from(c, m, Register8::A, Register16::BC), m),
        11 => (i_dec_16(c, Register16::BC), m),
        12 => (i_inc_8(c, Register8::C), m),
        13 => (i_dec_8(c, Register8::C), m),
        14 => (i_load_8_immediate(c, m, Register8::C), m),
        15 => (i_rotate_right_acc(c, false), m),
        _ => (c, m),
    }
}

pub open spec fn spec_run_1x(op: u8, c: LR35902, m: MmuView) -> (LR35902, MmuView) {
    match op {
        16 => (i_stop(c), m),
        17 => (i_load_16_immediate(c, m, Register16::DE), m),
        18 => i_load_8_at(c, m, Register16::DE, Register8::A),
        19 => (i_inc_16(c, Register16::DE), m),
        20 => (i_inc_8(c, Register8::D), m),
        21 => (i_dec_8(c, Register8::D), m),
        22 => (i_load_8_immediate(c, m, Register8::D), m),
        23 => (i_rotate_left_acc(c, true), m),
        24 => (i_jump_if_8(c, m, true), m),
        25 => (i_add_16(c, Register16::HL, Register16::DE), m),
        26 => (i_load_8_from(c, m, Register8::A, Register16::DE), m),
        27 => (i_dec_16(c, Register16::DE), m),
        28 => (i_inc_8(c, Register8::E), m),
        29 => (i_dec_8(c, Register8::E), m),
        30 => (i_load_8_immediate(c, m, Register8::E), m),
        31 => (i_rotate_right_acc(c, true), m),
        _ => (c, m),
    }
}

pub open spec fn spec_run_2x(op: u8, c: LR35902, m: MmuView) -> (LR35902, MmuView) {
    match op {
        32 => (i_jump_if_8(c, m, !c.registers.zf), m),
        33 => (i_load_16_immediate(c, m, Register16::HL), m),
        34 => i_load_8_at_increment(c, m, Register16::HL, Register8::A),
        35 => (i_inc_16(c, Register16::HL), m),
        36 => (i_inc_8(c, Register8::H), m),
        37 => (i_dec_8(c, Register8::H), m),
        38 => (i_load_8_immediate(c, m, Register8::H), m),
        39 => (i_daa(c), m),
        40 => (i_jump_if_8(c, m, c.registers.zf), m),
        41 => (i_add_16(c, Register16::HL, Register16::HL), m),
        42 => (i_load_8_from_increment(c, m, Register8::A, Register16::HL), m),
        43 => (i_dec_16(c, Register16::HL), m),
        44 => (i_inc_8(c, Register8::L), m),
        45 => (i_dec_8(c, Register8::L), m),
        46 => (i_load_8_immediate(c, m, Register8::L), m),
        47 => (i_cpl(c), m),
        _ => (c, m),
    }
}

pub open spec fn spec_run_3x(op: u8, c: LR35902, m: MmuView) -> (LR35902, MmuView) {
    match op {
        48 => (i_jump_if_8(c, m, !c.registers.cf), m),
        49 => (i_load_16_immediate(c, m, Register16::SP), m),
        50 => i_load_8_at_decrement(c, m, Register16::HL, Register8::A),
        51 => (i_inc_16(c, Register16::SP), m),
        52 => i_inc_8_at(c, m, Register16::HL),
        53 => i_dec_8_at(c, m, Register16::HL),
        54 => i_load_8_immediate_at(c, m, Register16::HL),
        55 => (i_scf(c), m),
        56 => (i_jump_if_8(c, m, c.registers.cf), m),
        57 => (i_add_16(c, Register16::HL, Register16::SP), m),
        58 => (i_load_8_from_decrement(c, m, Register8::A, Register16::HL), m),
        59 => (i_dec_16(c, Register16::SP), m),
        60 => (i_inc_8(c, Register8::A), m),
        61 => (i_dec_8(c, Register8::A), m),
        62 => (i_load_8_immediate(c, m, Register8::A), m),
        63 => (i_ccf(c), m),
        _ => (c, m),
    }
}

pub open spec fn spec_run_4x(op: u8, c: LR35902, m: MmuView) -> (LR35902, MmuView) {
    match op {
        64 => (i_load_8(c, Register8::B, Register8::B), m),
        65 => (i_load_8(c, Register8::B, Register8::C), m),
        66 => (i_load_8(c, Register8::B, Register8::D), m),
        67 => (i_load_8(c, Register8::B, Register8::E), m),
        68 => (i_load_8(c, Register8::B, Register8::H), m),
        69 => (i_load_8(c, Register8::B, Register8::L), m),
        70 => (i_load_8_from(c, m, Register8::B, Register16::HL), m),
        71 => (i_load_8(c, Register8::B, Register8::A), m),
        72 => (i_load_8(c, Register8::C, Register8::B), m),
        73 => (i_load_8(c, Register8::C, Register8::C), m),
        74 => (i_load_8(c, Register8::C, Register8::D), m),
        75 => (i_load_8(c, Register8::C, Register8::E), m),
        76 => (i_load_8(c, Register8::C, Register8::H), m),
        77 => (i_load_8(c, Register8::C, Register8::L), m),
        78 => (i_load_8_from(c, m, Register8::C, Register16::HL), m),
        79 => (i_load_8(c, Register8::C, Register8::A), m),
        _ => (c, m),
    }
}

pub open spec fn spec_run_5x(op: u8, c: LR35902, m: MmuView) -> (LR35902, MmuView) {
    match op {
        80 => (i_load_8(c, Register8::D, Register8::B), m),
        81 => (i_load_8(c, Register8::D, Register8::C), m),
        82 => (i_load_8(c, Register8::D, Register8::D), m),
        83 => (i_load_8(c, Register8::D, Register8::E), m),
        84 => (i_load_8(c, Register8::D, Register8::H), m),
        85 => (i_load_8(c, Register8::D, Register8::L), m),
        86 => (i_load_8_from(c, m, Register8::D, Register16::HL), m),
        87 => (i_load_8(c, Register8::D, Register8::A), m),
        88 => (i_load_8(c, Register8::E, Register8::B), m),
        89 => (i_load_8(c, Register8::E, Register8::C), m),
        90 => (i_load_8(c, Register8::E, Register8::D), m),
        91 => (i_load_8(c, Register8::E, Register8::E), m),
        92 => (i_load_8(c, Register8::E, Register8::H), m),
        93 => (i_load_8(c, Register8::E, Register8::L), m),
        94 => (i_load_8_from(c, m, Register8::E, Register16::HL), m),
        95 => (i_load_8(c, Register8::E, Register8::A), m),
        _ => (c, m),
    }
}

pub open spec fn spec_run_6x(op: u8, c: LR35902, m: MmuView) -> (LR35902, MmuView) {
    match op {
        96 => (i_load_8(c, Register8::H, Register8::B), m),
        97 => (i_load_8(c, Register8::H, Register8::C), m),
        98 => (i_load_8(c, Register8::H, Register8::D), m),
        99 => (i_load_8(c, Register8::H, Register8::E), m),
        100 => (i_load_8(c, Register8::H, Register8::H), m),
        101 => (i_load_8(c, Register8::H, Register8::L), m),
        102 => (i_load_8_from(c, m, Register8::H, Register16::HL), m),
        103 => (i_load_8(c, Register8::H, Register8::A), m),
        104 => (i_load_8(c, Register8::L, Register8::B), m),
        105 => (i_load_8(c, Register8::L, Register8::C), m),
        106 => (i_load_8(c, Register8::L, Register8::D), m),
        107 => (i_load_8(c, Register8::L, Register8::E), m),
        108 => (i_load_8(c, Register8::L, Register8::H), m),
        109 => (i_load_8(c, Register8::L, Register8::L), m),
        110 => (i_load_8_from(c, m, Register8::L, Register16::HL), m),
        111 => (i_load_8(c, Register8::L, Register8::A), m),
        _ => (c, m),
    }
}

pub open spec fn spec_run_7x(op: u8, c: LR35902, m: MmuView) -> (LR35902, MmuView) {
    match op {
        112 => i_load_8_at(c, m, Register16::HL, Register8::B),
        113 => i_load_8_at(c, m, Register16::HL, Register8::C),
        114 => i_load_8_at(c, m, Register16::HL, Register8::D),
        115 => i_load_8_at(c, m, Register16::HL, Register8::E),
        116 => i_load_8_at(c, m, Register16::HL, Register8::H),
        117 => i_load_8_at(c, m, Register16::HL, Register8::L),
        118 => (i_halt(c), m),
        119 => i_load_8_at(c, m, Register16::HL, Register8::A),
        120 => (i_load_8(c, Register8::A, Register8::B), m),
        121 => (i_load_8(c, Register8::A, Register8::C), m),
        122 => (i_load_8(c, Register8::A, Register8::D), m),
        123 => (i_load_8(c, Register8::A, Register8::E), m),
        124 => (i_load_8(c, Register8::A, Register8::H), m),
        125 => (i_load_8(c, Register8::A, Register8::L), m),
        126 => (i_load_8_from(c, m, Register8::A, Register16::HL), m),
        127 => (i_load_8(c, Register8::A, Register8::A), m),
        _ => (c, m),
    }
}

pub open spec fn spec_run_8x(op: u8, c: LR35902, m: MmuView) -> (LR35902, MmuView) {
    match op {
        128 => (i_add_8(c, Register8::B, false), m),
        129 => (i_add_8(c, Register8::C, false), m),
        130 => (i_add_8(c, Register8::D, false), m),
        131 => (i_add_8(c, Register8::E, false), m),
        132 => (i_add_8(c, Register8::H, false), m),
        133 => (i_add_8(c, Register8::L, false), m),
        134 => (i_add_8_from(c, m, Register16::HL, false), m),
        135 => (i_add_8(c, Register8::A, false), m),
        136 => (i_add_8(c, Register8::B, true), m),
        137 => (i_add_8(c, Register8::C, true), m),
        138 => (i_add_8(c, Register8::D, true), m),
        139 => (i_add_8(c, Register8::E, true), m),
        140 => (i_add_8(c, Register8::H, true), m),
        141 => (i_add_8(c, Register8::L, true), m),
        142 => (i_add_8_from(c, m, Register16::HL, true), m),
        143 => (i_add_8(c, Register8::A, true), m),
        _ => (c, m),
    }
}

pub open spec fn spec_run_9x(op: u8, c: LR35902, m: MmuView) -> (LR35902, MmuView) {
    match op {
        144 => (i_sub_8(c, Register8::B, false), m),
        145 => (i_sub_8(c, Register8::C, false), m),
        146 => (i_sub_8(c, Register8::D, false), m),
        147 => (i_sub_8(c, Register8::E, false), m),
        148 => (i_sub_8(c, Register8::H, false), m),
        149 => (i_sub_8(c, Register8::L, false), m),
        150 => (i_sub_8_from(c, m, Register16::HL, false), m),
        151 => (i_sub_8(c, Register8::A, false), m),
        152 => (i_sub_8(c, Register8::B, true), m),
        153 => (i_sub_8(c, Register8::C, true), m),
        154 => (i_sub_8(c, Register8::D, true), m),
        155 => (i_sub_8(c, Register8::E, true), m),
        156 => (i_sub_8(c, Register8::H, true), m),
        157 => (i_sub_8(c, Register8::L, true), m),
        158 => (i_sub_8_from(c, m, Register16::HL, true), m),
        159 => (i_sub_8(c, Register8::A, true), m),
        _ => (c, m),
    }
}

pub open spec fn spec_run_ax(op: u8, c: LR35902, m: MmuView) -> (LR35902, MmuView) {
    match op {
        160 => (i_and_8(c, Register8::B), m),
        161 => (i_and_8(c, Register8::C), m),
        162 => (i_and_8(c, Register8::D), m),
        163 => (i_and_8(c, Register8::E), m),
        164 => (i_and_8(c, Register8::H), m),
        165 => (i_and_8(c, Register8::L), m),
        166 => (i_and_8_from(c, m, Register16::HL), m),
        167 => (i_and_8(c, Register8::A), m),
        168 => (i_xor_8(c, Register8::B), m),
        169 => (i_xor_8(c, Register8::C), m),
        170 => (i_xor_8(c, Register8::D), m),
        171 => (i_xor_8(c, Register8::E), m),
        172 => (i_xor_8(c, Register8::H), m),
        173 => (i_xor_8(c, Register8::L), m),
        174 => (i_xor_8_from(c, m, Register16::HL), m),
        175 => (i_xor_8(c, Register8::A), m),
        _ => (c, m),
    }
}

pub open spec fn spec_run_bx(op: u8, c: LR35902, m: MmuView) -> (LR35902, MmuView) {
    match op {
        176 => (i_or_8(c, Register8::B), m),
        177 => (i_or_8(c, Register8::C), m),
        178 => (i_or_8(c, Register8::D), m),
        179 => (i_or_8(c, Register8::E), m),
        180 => (i_or_8(c, Register8::H), m),
        181 => (i_or_8(c, Register8::L), m),
        182 => (i_or_8_from(c, m, Register16::HL), m),
        183 => (i_or_8(c, Register8::A), m),
        184 => (i_cp_8(c, Register8::B), m),
        185 => (i_cp_8(c, Register8::C), m),
        186 => (i_cp_8(c, Register8::D), m),
        187 => (i_cp_8(c, Register8::E), m),
        188 => (i_cp_8(c, Register8::H), m),
        189 => (i_cp_8(c, Register8::L), m),
        190 => (i_cp_8_from(c, m, Register16::HL), m),
        191 => (i_cp_8(c, Register8::A), m),
        _ => (c, m),
    }
}

pub open spec fn spec_run_cx(op: u8, c: LR35902, m: MmuView) -> (LR35902, MmuView) {
    match op {
        192 => (i_ret_if(c, m, !c.registers.zf), m),
        193 => (i_pop(c, m, Register16::BC), m),
        194 => (i_jump_if_16(c, m, !c.registers.zf), m),
        195 => (i_jump_if_16(c, m, true), m),
        196 => i_call(c, m, !c.registers.zf),
        197 => i_push(c, m, Register16::BC),
        198 => (i_add_8_imm(c, m, false), m),
        199 => i_call_vec(c, m, 0x00u16),
        200 => (i_ret_if(c, m, c.registers.zf), m),
        201 => (i_ret(c, m), m),
        202 => (i_jump_if_16(c, m, c.registers.zf), m),
        203 => spec_exec_cb(spec_read8(m, c.registers.pc), c_fetch(c), m),
        204 => i_call(c, m, c.registers.zf),
        205 => i_call(c, m, true),
        206 => (i_add_8_imm(c, m, true), m),
        207 => i_call_vec(c, m, 0x08u16),
        _ => (c, m),
    }
}

pub open spec fn spec_run_dx(op: u8, c: LR35902, m: MmuView) -> (LR35902, MmuView) {
    match op {
        208 => (i_ret_if(c, m, !c.registers.cf), m),
        209 => (i_pop(c, m, Register16::DE), m),
        210 => (i_jump_if_16(c, m, !c.registers.cf), m),
        211 => (c, m),
        212 => i_call(c, m, !c.registers.cf),
        213 => i_push(c, m, Register16::DE),
        214 => (i_sub_8_imm(c, m, false), m),
        215 => i_call_vec(c, m, 0x10u16),
        216 => (i_ret_if(c, m, c.registers.cf), m),
        217 => (i_ret_interrupt(c, m), m),
        218 => (i_jump_if_16(c, m, c.registers.cf), m),
        219 => (c, m),
        220 => i_call(c, m, c.registers.cf),
        221 => (c, m),
        222 => (i_sub_8_imm(c, m, true), m),
        223 => i_call_vec(c, m, 0x18u16),
        _ => (c, m),
    }
}

pub open spec fn spec_run_ex(op: u8, c: LR35902, m: MmuView) -> (LR35902, MmuView) {
    match op {
        224 => i_load_8_at_io_immediate(c, m, Register8::A),
        225 => (i_pop(c, m, Register16::HL), m),
        226 => i_load_8_at_io(c, m, Register8::C, Register8::A),
        227 => (c, m),
        228 => (c, m),
        229 => i_push(c, m, Register16::HL),
        230 => (i_and_8_imm(c, m), m),
        231 => i_call_vec(c, m, 0x20u16),
        232 => (i_add_16_immediate(c, m, Register16::SP), m),
        233 => (i_jump(c, Register16::HL), m),
        234 => i_load_8_at_immediate(c, m, Register8::A),
        235 => (c, m),
        236 => (c, m),
        237 => (c, m),
        238 => (i_xor_8_imm(c, m), m),
        239 => i_call_vec(c, m, 0x28u16),
        _ => (c, m),
    }
}

pub open spec fn spec_run_fx(op: u8, c: LR35902, m: MmuView) -> (LR35902, MmuView) {
    match op {
        240 => (i_load_8_from_io_immediate(c, m, Register8::A), m),
        241 => (i_pop(c, m, Register16::AF), m),
        242 => (i_load_8_from_io(c, m, Register8::A, Register8::C), m),
        243 => (i_di(c), m),
        244 => (c, m),
        245 => i_push(c, m, Register16::AF),
        246 => (i_or_8_imm(c, m), m),
        247 => i_call_vec(c, m, 0x30u16),
        248 => (i_load_16_add_immediate(c, m, Register16::HL, Register16::SP), m),
        249 => (i_load_16(c, Register16::SP, Register16::HL), m),
        250 => (i_load_8_from_immediate(c, m, Register8::A), m),
        251 => (i_ei(c), m),
        252 => (c, m),
        253 => (c, m),
        254 => (i_cp_8_imm(c, m), m),
        255 => i_call_vec(c, m, 0x38u16),
        _ => (c, m),
    }
}

/// The effect of the primary opcode `op` on the post-fetch state: the
/// spec-level interpreter the dispatcher is verified against.
pub open spec fn spec_exec_op(op: u8, c: LR35902, m: MmuView) -> (LR35902, MmuView) {
    if op / 16 == 0 {
        spec_run_0x(op, c, m)
    } else if op / 16 == 1 {
        spec_run_1x(op, c, m)
    } else if op / 16 == 2 {
        spec_run_2x(op, c, m)
    } else if op / 16 == 3 {
        spec_run_3x(op, c, m)
    } else if op / 16 == 4 {
        spec_run_4x(op, c, m)
    } else if op / 16 == 5 {
        spec_run_5x(op, c, m)
    } else if op / 16 == 6 {
        spec_run_6x(op, c, m)
    } else if op / 16 == 7 {
        spec_run_7x(op, c, m)
    } else if op / 16 == 8 {
        spec_run_8x(op, c, m)
    } else if op / 16 == 9 {
        spec_run_9x(op, c, m)
    } else if op / 16 == 10 {
        spec_run_ax(op, c, m)
    } else if op / 16 == 11 {
        spec_run_bx(op, c, m)
    } else if op / 16 == 12 {
        spec_run_cx(op, c, m)
    } else if op / 16 == 13 {
        spec_run_dx(op, c, m)
    } else if op / 16 == 14 {
        spec_run_ex(op, c, m)
    } else {
        spec_run_fx(op, c, m)
    }
}

pub open spec fn spec_cb_0x(op: u8, c: LR35902, m: MmuView) -> (LR35902, MmuView) {
    match op {
        0 => (i_rotate_left(c, Register8::B, false), m),
        1 => (i_rotate_left(c, Register8::C, false), m),
        2 => (i_rotate_left(c, Register8::D, false), m),
        3 => (i_rotate_left(c, Register8::E, false), m),
        4 => (i_rotate_left(c, Register8::H, false), m),
        5 => (i_rotate_left(c, Register8::L, false), m),
        6 => i_rotate_left_at(c, m, Register16::HL, false),
        7 => (i_rotate_left(c, Register8::A, false), m),
        8 => (i_rotate_right(c, Register8::B, false), m),
        9 => (i_rotate_right(c, Register8::C, false), m),
        10 => (i_rotate_right(c, Register8::D, false), m),
        11 => (i_rotate_right(c, Register8::E, false), m),
        12 => (i_rotate_right(c, Register8::H, false), m),
        13 => (i_rotate_right(c, Register8::L, false), m),
        14 => i_rotate_right_at(c, m, Register16::HL, false),
        15 => (i_rotate_right(c, Register8::A, false), m),
        _ => (c, m),
    }
}

pub open spec fn spec_cb_1x(op: u8, c: LR35902, m: MmuView) -> (LR35902, MmuView) {
    match op {
        16 => (i_rotate_left(c, Register8::B, true), m),
        17 => (i_rotate_left(c, Register8::C, true), m),
        18 => (i_rotate_left(c, Register8::D, true), m),
        19 => (i_rotate_left(c, Register8::E, true), m),
        20 => (i_rotate_left(c, Register8::H, true), m),
        21 => (i_rotate_left(c, Register8::L, true), m),
        22 => i_rotate_left_at(c, m, Register16::HL, true),
        23 => (i_rotate_left(c, Register8::A, true), m),
        24 => (i_rotate_right(c, Register8::B, true), m),
        25 => (i_rotate_right(c, Register8::C, true), m),
        26 => (i_rotate_right(c, Register8::D, true), m),
        27 => (i_rotate_right(c, Register8::E, true), m),
        28 => (i_rotate_right(c, Register8::H, true), m),
        29 => (i_rotate_right(c, Register8::L, true), m),
        30 => i_rotate_right_at(c, m, Register16::HL, true),
        31 => (i_rotate_right(c, Register8::A, true), m),
        _ => (c, m),
    }
}

pub open spec fn spec_cb_2x(op: u8, c: LR35902, m: MmuView) -> (LR35902, MmuView) {
    match op {
        32 => (i_shift_left(c, Register8::B), m),
        33 => (i_shift_left(c, Register8::C), m),
        34 => (i_shift_left(c, Register8::D), m),
        35 => (i_shift_left(c, Register8::E), m),
        36 => (i_shift_left(c, Register8::H), m),
        37 => (i_shift_left(c, Register8::L), m),
        38 => i_shift_left_at(c, m, Register16::HL),
        39 => (i_shift_left(c, Register8::A), m),
        40 => (i_shift_right(c, Register8::B), m),
        41 => (i_shift_right(c, Register8::C), m),
        42 => (i_shift_right(c, Register8::D), m),
        43 => (i_shift_right(c, Register8::E), m),
        44 => (i_shift_right(c, Register8::H), m),
        45 => (i_shift_right(c, Register8::L), m),
        46 => i_shift_right_at(c, m, Register16::HL),
        47 => (i_shift_right(c, Register8::A), m),
        _ => (c, m),
    }
}

pub open spec fn spec_cb_3x(op: u8, c: LR35902, m: MmuView) -> (LR35902, MmuView) {
    match op {
        48 => (i_swap(c, Register8::B), m),
        49 => (i_swap(c, Register8::C), m),
        50 => (i_swap(c, Register8::D), m),
        51 => (i_swap(c, Register8::E), m),
        52 => (i_swap(c, Register8::H), m),
        53 => (i_swap(c, Register8::L), m),
        54 => i_swap_at(c, m, Register16::HL),
        55 => (i_swap(c, Register8::A), m),
        56 => (i_shift_right_logic(c, Register8::B), m),
        57 => (i_shift_right_logic(c, Register8::C), m),
        58 => (i_shift_right_logic(c, Register8::D), m),
        59 => (i_shift_right_logic(c, Register8::E), m),
        60 => (i_shift_right_logic(c, Register8::H), m),
        61 => (i_shift_right_logic(c, Register8::L), m),
        62 => i_shift_right_logic_at(c, m, Register16::HL),
        63 => (i_shift_right_logic(c, Register8::A), m),
        _ => (c, m),
    }
}

pub open spec fn spec_cb_4x(op: u8, c: LR35902, m: MmuView) -> (LR35902, MmuView) {
    match op {
        64 => (i_bit(c, 0, Register8::B), m),
        65 => (i_bit(c, 0, Register8::C), m),
        66 => (i_bit(c, 0, Register8::D), m),
        67 => (i_bit(c, 0, Register8::E), m),
        68 => (i_bit(c, 0, Register8::H), m),
        69 => (i_bit(c, 0, Register8::L), m),
        70 => (i_bit_at(c, m, 0, Register16::HL), m),
        71 => (i_bit(c, 0, Register8::A), m),
        72 => (i_bit(c, 1, Register8::B), m),
        73 => (i_bit(c, 1, Register8::C), m),
        74 => (i_bit(c, 1, Register8::D), m),
        75 => (i_bit(c, 1, Register8::E), m),
        76 => (i_bit(c, 1, Register8::H), m),
        77 => (i_bit(c, 1, Register8::L), m),
        78 => (i_bit_at(c, m, 1, Register16::HL), m),
        79 => (i_bit(c, 1, Register8::A), m),
        _ => (c, m),
    }
}

pub open spec fn spec_cb_5x(op: u8, c: LR35902, m: MmuView) -> (LR35902, MmuView) {
    match op {
        80 => (i_bit(c, 2, Register8::B), m),
        81 => (i_bit(c, 2, Register8::C), m),
        82 => (i_bit(c, 2, Register8::D), m),
        83 => (i_bit(c, 2, Register8::E), m),
        84 => (i_bit(c, 2, Register8::H), m),
        85 => (i_bit(c, 2, Register8::L), m),
        86 => (i_bit_at(c, m, 2, Register16::HL), m),
        87 => (i_bit(c, 2, Register8::A), m),
        88 => (i_bit(c, 3, Register8::B), m),
        89 => (i_bit(c, 3, Register8::C), m),
        90 => (i_bit(c, 3, Register8::D), m),
        91 => (i_bit(c, 3, Register8::E), m),
        92 => (i_bit(c, 3, Register8::H), m),
        93 => (i_bit(c, 3, Register8::L), m),
        94 => (i_bit_at(c, m, 3, Register16::HL), m),
        95 => (i_bit(c, 3, Register8::A), m),
        _ => (c, m),
    }
}

pub open spec fn spec_cb_6x(op: u8, c: LR35902, m: MmuView) -> (LR35902, MmuView) {
    match op {
        96 => (i_bit(c, 4, Register8::B), m),
        97 => (i_bit(c, 4, Register8::C), m),
        98 => (i_bit(c, 4, Register8::D), m),
        99 => (i_bit(c, 4, Register8::E), m),
        100 => (i_bit(c, 4, Register8::H), m),
        101 => (i_bit(c, 4, Register8::L), m),
        102 => (i_bit_at(c, m, 4, Register16::HL), m),
        103 => (i_bit(c, 4, Register8::A), m),
        104 => (i_bit(c, 5, Register8::B), m),
        105 => (i_bit(c, 5, Register8::C), m),
        106 => (i_bit(c, 5, Register8::D), m),
        107 => (i_bit(c, 5, Register8::E), m),
        108 => (i_bit(c, 5, Register8::H), m),
        109 => (i_bit(c, 5, Register8::L), m),
        110 => (i_bit_at(c, m, 5, Register16::HL), m),
        111 => (i_bit(c, 5, Register8::A), m),
        _ => (c, m),
    }
}

pub open spec fn spec_cb_7x(op: u8, c: LR35902, m: MmuView) -> (LR35902, MmuView) {
    match op {
        112 => (i_bit(c, 6, Register8::B), m),
        113 => (i_bit(c, 6, Register8::C), m),
        114 => (i_bit(c, 6, Register8::D), m),
        115 => (i_bit(c, 6, Register8::E), m),
        116 => (i_bit(c, 6, Register8::H), m),
        117 => (i_bit(c, 6, Register8::L), m),
        118 => (i_bit_at(c, m, 6, Register16::HL), m),
        119 => (i_bit(c, 6, Register8::A), m),
        120 => (i_bit(c, 7, Register8::B), m),
        121 => (i_bit(c, 7, Register8::C), m),
        122 => (i_bit(c, 7, Register8::D), m),
        123 => (i_bit(c, 7, Register8::E), m),
        124 => (i_bit(c, 7, Register8::H), m),
        125 => (i_bit(c, 7, Register8::L), m),
        126 => (i_bit_at(c, m, 7, Register16::HL), m),
        127 => (i_bit(c, 7, Register8::A), m),
        _ => (c, m),
    }
}

pub open spec fn spec_cb_8x(op: u8, c: LR35902, m: MmuView) -> (LR35902, MmuView) {
    match op {
        128 => (i_reset_bit(c, 0, Register8::B), m),
        129 => (i_reset_bit(c, 0, Register8::C), m),
        130 => (i_reset_bit(c, 0, Register8::D), m),
        131 => (i_reset_bit(c, 0, Register8::E), m),
        132 => (i_reset_bit(c, 0, Register8::H), m),
        133 => (i_reset_bit(c, 0, Register8::L), m),
        134 => i_reset_bit_at(c, m, 0, Register16::HL),
        135 => (i_reset_bit(c, 0, Register8::A), m),
        136 => (i_reset_bit(c, 1, Register8::B), m),
        137 => (i_reset_bit(c, 1, Register8::C), m),
        138 => (i_reset_bit(c, 1, Register8::D), m),
        139 => (i_reset_bit(c, 1, Register8::E), m),
        140 => (i_reset_bit(c, 1, Register8::H), m),
        141 => (i_reset_bit(c, 1, Register8::L), m),
        142 => i_reset_bit_at(c, m, 1, Register16::HL),
        143 => (i_reset_bit(c, 1, Register8::A), m),
        _ => (c, m),
    }
}

pub open spec fn spec_cb_9x(op: u8, c: LR35902, m: MmuView) -> (LR35902, MmuView) {
    match op {
        144 => (i_reset_bit(c, 2, Register8::B), m),
        145 => (i_reset_bit(c, 2, Register8::C), m),
        146 => (i_reset_bit(c, 2, Register8::D), m),
        147 => (i_reset_bit(c, 2, Register8::E), m),
        148 => (i_reset_bit(c, 2, Register8::H), m),
        149 => (i_reset_bit(c, 2, Register8::L), m),
        150 => i_reset_bit_at(c, m, 2, Register16::HL),
        151 => (i_reset_bit(c, 2, Register8::A), m),
        152 => (i_reset_bit(c, 3, Register8::B), m),
        153 => (i_reset_bit(c, 3, Register8::C), m),
        154 => (i_reset_bit(c, 3, Register8::D), m),
        155 => (i_reset_bit(c, 3, Register8::E), m),
        156 => (i_reset_bit(c, 3, Register8::H), m),
        157 => (i_reset_bit(c, 3, Register8::L), m),
        158 => i_reset_bit_at(c, m, 3, Register16::HL),
        159 => (i_reset_bit(c, 3, Register8::A), m),
        _ => (c, m),
    }
}

pub open spec fn spec_cb_ax(op: u8, c: LR35902, m: MmuView) -> (LR35902, MmuView) {
    match op {
        160 => (i_reset_bit(c, 4, Register8::B), m),
        161 => (i_reset_bit(c, 4, Register8::C), m),
        162 => (i_reset_bit(c, 4, Register8::D), m),
        163 => (i_reset_bit(c, 4, Register8::E), m),
        164 => (i_reset_bit(c, 4, Register8::H), m),
        165 => (i_reset_bit(c, 4, Register8::L), m),
        166 => i_reset_bit_at(c, m, 4, Register16::HL),
        167 => (i_reset_bit(c, 4, Register8::A), m),
        168 => (i_reset_bit(c, 5, Register8::B), m),
        169 => (i_reset_bit(c, 5, Register8::C), m),
        170 => (i_reset_bit(c, 5, Register8::D), m),
        171 => (i_reset_bit(c, 5, Register8::E), m),
        172 => (i_reset_bit(c, 5, Register8::H), m),
        173 => (i_reset_bit(c, 5, Register8::L), m),
        174 => i_reset_bit_at(c, m, 5, Register16::HL),
        175 => (i_reset_bit(c, 5, Register8::A), m),
        _ => (c, m),
    }
}

pub open spec fn spec_cb_bx(op: u8, c: LR35902, m: MmuView) -> (LR35902, MmuView) {
    match op {
        176 => (i_reset_bit(c, 6, Register8::B), m),
        177 => (i_reset_bit(c, 6, Register8::C), m),
        178 => (i_reset_bit(c, 6, Register8::D), m),
        179 => (i_reset_bit(c, 6, Register8::E), m),
        180 => (i_reset_bit(c, 6, Register8::H), m),
        181 => (i_reset_bit(c, 6, Register8::L), m),
        182 => i_reset_bit_at(c, m, 6, Register16::HL),
        183 => (i_reset_bit(c, 6, Register8::A), m),
        184 => (i_reset_bit(c, 7, Register8::B), m),
        185 => (i_reset_bit(c, 7, Register8::C), m),
        186 => (i_reset_bit(c, 7, Register8::D), m),
        187 => (i_reset_bit(c, 7, Register8::E), m),
        188 => (i_reset_bit(c, 7, Register8::H), m),
        189 => (i_reset_bit(c, 7, Register8::L), m),
        190 => i_reset_bit_at(c, m, 7, Register16::HL),
        191 => (i_reset_bit(c, 7, Register8::A), m),
        _ => (c, m),
    }
}

pub open spec fn spec_cb_cx(op: u8, c: LR35902, m: MmuView) -> (LR35902, MmuView) {
    match op {
        192 => (i_set_bit(c, 0, Register8::B), m),
        193 => (i_set_bit(c, 0, Register8::C), m),
        194 => (i_set_bit(c, 0, Register8::D), m),
        195 => (i_set_bit(c, 0, Register8::E), m),
        196 => (i_set_bit(c, 0, Register8::H), m),
        197 => (i_set_bit(c, 0, Register8::L), m),
        198 => i_set_bit_at(c, m, 0, Register16::HL),
        199 => (i_set_bit(c, 0, Register8::A), m),
        200 => (i_set_bit(c, 1, Register8::B), m),
        201 => (i_set_bit(c, 1, Register8::C), m),
        202 => (i_set_bit(c, 1, Register8::D), m),
        203 => (i_set_bit(c, 1, Register8::E), m),
        204 => (i_set_bit(c, 1, Register8::H), m),
        205 => (i_set_bit(c, 1, Register8::L), m),
        206 => i_set_bit_at(c, m, 1, Register16::HL),
        207 => (i_set_bit(c, 1, Register8::A), m),
        _ => (c, m),
    }
}

pub open spec fn spec_cb_dx(op: u8, c: LR35902, m: MmuView) -> (LR35902, MmuView) {
    match op {
        208 => (i_set_bit(c, 2, Register8::B), m),
        209 => (i_set_bit(c, 2, Register8::C), m),
        210 => (i_set_bit(c, 2, Register8::D), m),
        211 => (i_set_bit(c, 2, Register8::E), m),
        212 => (i_set_bit(c, 2, Register8::H), m),
        213 => (i_set_bit(c, 2, Register8::L), m),
        214 => i_set_bit_at(c, m, 2, Register16::HL),
        215 => (i_set_bit(c, 2, Register8::A), m),
        216 => (i_set_bit(c, 3, Register8::B), m),
        217 => (i_set_bit(c, 3, Register8::C), m),
        218 => (i_set_bit(c, 3, Register8::D), m),
        219 => (i_set_bit(c, 3, Register8::E), m),
        220 => (i_set_bit(c, 3, Register8::H), m),
        221 => (i_set_bit(c, 3, Register8::L), m),
        222 => i_set_bit_at(c, m, 3, Register16::HL),
        223 => (i_set_bit(c, 3, Register8::A), m),
        _ => (c, m),
    }
}

pub open spec fn spec_cb_ex(op: u8, c: LR35902, m: MmuView) -> (LR35902, MmuView) {
    match op {
        224 => (i_set_bit(c, 4, Register8::B), m),
        225 => (i_set_bit(c, 4, Register8::C), m),
        226 => (i_set_bit(c, 4, Register8::D), m),
        227 => (i_set_bit(c, 4, Register8::E), m),
        228 => (i_set_bit(c, 4, Register8::H), m),
        229 => (i_set_bit(c, 4, Register8::L), m),
        230 => i_set_bit_at(c, m, 4, Register16::HL),
        231 => (i_set_bit(c, 4, Register8::A), m),
        232 => (i_set_bit(c, 5, Register8::B), m),
        233 => (i_set_bit(c, 5, Register8::C), m),
        234 => (i_set_bit(c, 5, Register8::D), m),
        235 => (i_set_bit(c, 5, Register8::E), m),
        236 => (i_set_bit(c, 5, Register8::H), m),
        237 => (i_set_bit(c, 5, Register8::L), m),
        238 => i_set_bit_at(c, m, 5, Register16::HL),
        239 => (i_set_bit(c, 5, Register8::A), m),
        _ => (c, m),
    }
}

pub open spec fn spec_cb_fx(op: u8, c: LR35902, m: MmuView) -> (LR35902, MmuView) {
    match op {
        240 => (i_set_bit(c, 6, Register8::B), m),
        241 => (i_set_bit(c, 6, Register8::C), m),
        242 => (i_set_bit(c, 6, Register8::D), m),
        243 => (i_set_bit(c, 6, Register8::E), m),
        244 => (i_set_bit(c, 6, Register8::H), m),
        245 => (i_set_bit(c, 6, Register8::L), m),
        246 => i_set_bit_at(c, m, 6, Register16::HL),
        247 => (i_set_bit(c, 6, Register8::A), m),
        248 => (i_set_bit(c, 7, Register8::B), m),
        249 => (i_set_bit(c, 7, Register8::C), m),
        250 => (i_set_bit(c, 7, Register8::D), m),
        251 => (i_set_bit(c, 7, Register8::E), m),
        252 => (i_set_bit(c, 7, Register8::H), m),
        253 => (i_set_bit(c, 7, Register8::L), m),
        254 => i_set_bit_at(c, m, 7, Register16::HL),
        255 => (i_set_bit(c, 7, Register8::A), m),
        _ => (c, m),
    }
}

/// The effect of the CB-prefixed opcode `op` on the state after both
/// opcode bytes were consumed.
pub open spec fn spec_exec_cb(op: u8, c: LR35902, m: MmuView) -> (LR35902, MmuView) {
    if op / 16 == 0 {
        spec_cb_0x(op, c, m)
    } else if op / 16 == 1 {
        spec_cb_1x(op, c, m)
    } else if op / 16 == 2 {
        spec_cb_2x(op, c, m)
    } else if op / 16 == 3 {
        spec_cb_3x(op, c, m)
    } else if op / 16 == 4 {
        spec_cb_4x(op, c, m)
    } else if op / 16 == 5 {
        spec_cb_5x(op, c, m)
    } else if op / 16 == 6 {
        spec_cb_6x(op, c, m)
    } else if op / 16 == 7 {
        spec_cb_7x(op, c, m)
    } else if op / 16 == 8 {
        spec_cb_8x(op, c, m)
    } else if op / 16 == 9 {
        spec_cb_9x(op, c, m)
    } else if op / 16 == 10 {
        spec_cb_ax(op, c, m)
    } else if op / 16 == 11 {
        spec_cb_bx(op, c, m)
    } else if op / 16 == 12 {
        spec_cb_cx(op, c, m)
    } else if op / 16 == 13 {
        spec_cb_dx(op, c, m)
    } else if op / 16 == 14 {
        spec_cb_ex(op, c, m)
    } else {
        spec_cb_fx(op, c, m)
    }
}

impl LR35902 {

    #[verifier::spinoff_prover]
    #[verifier::rlimit(100)]
    fn run_0x(&mut self, mmu: &mut MemoryMapUnit, opcode: u8) -> (t: ClockTicks)
        requires
            opcode / 16 == 0,
            !illegal_opcode(opcode),
            old(mmu)@.wf(),
        ensures
            final(mmu)@.wf(),
            (*final(self), final(mmu)@) == spec_run_0x(opcode, *old(self), old(mmu)@),
            t == spec_op_cycles_full(opcode, *old(self), old(mmu)@),
    {
        match opcode {
            0 => 4,
            1 => self.load_16_immediate(mmu, Register16::BC),
            2 => self.load_8_at(mmu, Register16::BC, Register8::A),
            3 => self.inc_16(Register16::BC),
            4 => self.inc_8(Register8::B),
            5 => self.dec_8(Register8::B),
            6 => self.load_8_immediate(mmu, Register8::B),
            7 => self.rotate_left_accumulator(false),
            8 => self.load_16_at_immediate(mmu, Register16::SP),
            9 => self.add_16(Register16::HL, Register16::BC),
            10 => self.load_8_from(mmu, Register8::A, Register16::BC),
            11 => self.dec_16(Register16::BC),
            12 => self.inc_8(Register8::C),
            13 => self.dec_8(Register8::C),
            14 => self.load_8_immediate(mmu, Register8::C),
            15 => self.rotate_right_accumulator(false),
            _ => unreached(),
        }
    }


    #[verifier::spinoff_prover]
    #[verifier::rlimit(100)]
    fn run_1x(&mut self, mmu: &mut MemoryMapUnit, opcode: u8) -> (t: ClockTicks)
        requires
            opcode / 16 == 1,
            !illegal_opcode(opcode),
            old(mmu)@.wf(),
        ensures
            final(mmu)@.wf(),
            (*final(self), final(mmu)@) == spec_run_1x(opcode, *old(self), old(mmu)@),
            t == spec_op_cycles_full(opcode, *old(self), old(mmu)@),
    {
        match opcode {
            16 => self.stop(mmu),
            17 => self.load_16_immediate(mmu, Register16::DE),
            18 => self.load_8_at(mmu, Register16::DE, Register8::A),
            19 => self.inc_16(Register16::DE),
            20 => self.inc_8(Register8::D),
            21 => self.dec_8(Register8::D),
            22 => self.load_8_immediate(mmu, Register8::D),
            23 => self.rotate_left_accumulator(true),
            24 => self.jump_if_immediate_8(mmu, true),
            25 => self.add_16(Register16::HL, Register16::DE),
            26 => self.load_8_from(mmu, Register8::A, Register16::DE),
            27 => self.dec_16(Register16::DE),
            28 => self.inc_8(Register8::E),
            29 => self.dec_8(Register8::E),
            30 => self.load_8_immediate(mmu, Register8::E),
            31 => self.rotate_right_accumulator(true),
            _ => unreached(),
        }
    }


    #[verifier::spinoff_prover]
    #[verifier::rlimit(100)]
    fn run_2x(&mut self, mmu: &mut MemoryMapUnit, opcode: u8) -> (t: ClockTicks)
        requires
            opcode / 16 == 2,
            !illegal_opcode(opcode),
            old(mmu)@.wf(),
        ensures
            final(mmu)@.wf(),
            (*final(self), final(mmu)@) == spec_run_2x(opcode, *old(self), old(mmu)@),
            t == spec_op_cycles_full(opcode, *old(self), old(mmu)@),
    {
        match opcode {
            32 => {
                let cond = !self.registers.get_zero_flag();
                self.jump_if_immediate_8(mmu, cond)
            },
            33 => self.load_16_immediate(mmu, Register16::HL),
            34 => self.load_8_at_increment(mmu, Register16::HL, Register8::A),
            35 => self.inc_16(Register16::HL),
            36 => self.inc_8(Register8::H),
            37 => self.dec_8(Register8::H),
            38 => self.load_8_immediate(mmu, Register8::H),
            39 => self.decimal_adjust(),
            40 => {
                let cond = self.registers.get_zero_flag();
                self.jump_if_immediate_8(mmu, cond)
            },
            41 => self.add_16(Register16::HL, Register16::HL),
            42 => self.load_8_from_increment(mmu, Register8::A, Register16::HL),
            43 => self.dec_16(Register16::HL),
            44 => self.inc_8(Register8::L),
            45 => self.dec_8(Register8::L),
            46 => self.load_8_immediate(mmu, Register8::L),
            47 => self.complement(),
            _ => unreached(),
        }
    }


    #[verifier::spinoff_prover]
    #[verifier::rlimit(100)]
    fn run_3x(&mut self, mmu: &mut MemoryMapUnit, opcode: u8) -> (t: ClockTicks)
        requires
            opcode / 16 == 3,
            !illegal_opcode(opcode),
            old(mmu)@.wf(),
        ensures
            final(mmu)@.wf(),
            (*final(self), final(mmu)@) == spec_run_3x(opcode, *old(self), old(mmu)@),
            t == spec_op_cycles_full(opcode, *old(self), old(mmu)@),
    {
        match opcode {
            48 => {
                let cond = !self.registers.get_carry_flag();
                self.jump_if_immediate_8(mmu, cond)
            },
            49 => self.load_16_immediate(mmu, Register16::SP),
            50 => self.load_8_at_decrement(mmu, Register16::HL, Register8::A),
            51 => self.inc_16(Register16::SP),
            52 => self.inc_8_at(mmu, Register16::HL),
            53 => self.dec_8_at(mmu, Register16::HL),
            54 => self.load_8_immediate_at(mmu, Register16::HL),
            55 => self.set_carry_flag(),
            56 => {
                let cond = self.registers.get_carry_flag();
                self.jump_if_immediate_8(mmu, cond)
            },
            57 => self.add_16(Register16::HL, Register16::SP),
            58 => self.load_8_from_decrement(mmu, Register8::A, Register16::HL),
            59 => self.dec_16(Register16::SP),
            60 => self.inc_8(Register8::A),
            61 => self.dec_8(Register8::A),
            62 => self.load_8_immediate(mmu, Register8::A),
            63 => self.complement_carry_flag(),
            _ => unreached(),
        }
    }


    #[verifier::spinoff_prover]
    #[verifier::rlimit(100)]
    fn run_4x(&mut self, mmu: &mut MemoryMapUnit, opcode: u8) -> (t: ClockTicks)
        requires
            opcode / 16 == 4,
            !illegal_opcode(opcode),
            old(mmu)@.wf(),
        ensures
            final(mmu)@.wf(),
            (*final(self), final(mmu)@) == spec_run_4x(opcode, *old(self), old(mmu)@),
            t == spec_op_cycles_full(opcode, *old(self), old(mmu)@),
    {
        match opcode {
            64 => self.load_8(Register8::B, Register8::B),
            65 => self.load_8(Register8::B, Register8::C),
            66 => self.load_8(Register8::B, Register8::D),
            67 => self.load_8(Register8::B, Register8::E),
            68 => self.load_8(Register8::B, Register8::H),
            69 => self.load_8(Register8::B, Register8::L),
            70 => self.load_8_from(mmu, Register8::B, Register16::HL),
            71 => self.load_8(Register8::B, Register8::A),
            72 => self.load_8(Register8::C, Register8::B),
            73 => self.load_8(Register8::C, Register8::C),
            74 => self.load_8(Register8::C, Register8::D),
            75 => self.load_8(Register8::C, Register8::E),
            76 => self.load_8(Register8::C, Register8::H),
            77 => self.load_8(Register8::C, Register8::L),
            78 => self.load_8_from(mmu, Register8::C, Register16::HL),
            79 => self.load_8(Register8::C, Register8::A),
            _ => unreached(),
        }
    }


    #[verifier::spinoff_prover]
    #[verifier::rlimit(100)]
    fn run_5x(&mut self, mmu: &mut MemoryMapUnit, opcode: u8) -> (t: ClockTicks)
        requires
            opcode / 16 == 5,
            !illegal_opcode(opcode),
            old(mmu)@.wf(),
        ensures
            final(mmu)@.wf(),
            (*final(self), final(mmu)@) == spec_run_5x(opcode, *old(self), old(mmu)@),
            t == spec_op_cycles_full(opcode, *old(self), old(mmu)@),
    {
        match opcode {
            80 => self.load_8(Register8::D, Register8::B),
            81 => self.load_8(Register8::D, Register8::C),
            82 => self.load_8(Register8::D, Register8::D),
            83 => self.load_8(Register8::D, Register8::E),
            84 => self.load_8(Register8::D, Register8::H),
            85 => self.load_8(Register8::D, Register8::L),
            86 => self.load_8_from(mmu, Register8::D, Register16::HL),
            87 => self.load_8(Register8::D, Register8::A),
            88 => self.load_8(Register8::E, Register8::B),
            89 => self.load_8(Register8::E, Register8::C),
            90 => self.load_8(Register8::E, Register8::D),
            91 => self.load_8(Register8::E, Register8::E),
            92 => self.load_8(Register8::E, Register8::H),
            93 => self.load_8(Register8::E, Register8::L),
            94 => self.load_8_from(mmu, Register8::E, Register16::HL),
            95 => self.load_8(Register8::E, Register8::A),
            _ => unreached(),
        }
    }


    #[verifier::spinoff_prover]
    #[verifier::rlimit(100)]
    fn run_6x(&mut self, mmu: &mut MemoryMapUnit, opcode: u8) -> (t: ClockTicks)
        requires
            opcode / 16 == 6,
            !illegal_opcode(opcode),
            old(mmu)@.wf(),
        ensures
            final(mmu)@.wf(),
            (*final(self), final(mmu)@) == spec_run_6x(opcode, *old(self), old(mmu)@),
            t == spec_op_cycles_full(opcode, *old(self), old(mmu)@),
    {
        match opcode {
            96 => self.load_8(Register8::H, Register8::B),
            97 => self.load_8(Register8::H, Register8::C),
            98 => self.load_8(Register8::H, Register8::D),
            99 => self.load_8(Register8::H, Register8::E),
            100 => self.load_8(Register8::H, Register8::H),
            101 => self.load_8(Register8::H, Register8::L),
            102 => self.load_8_from(mmu, Register8::H, Register16::HL),
            103 => self.load_8(Register8::H, Register8::A),
            104 => self.load_8(Register8::L, Register8::B),
            105 => self.load_8(Register8::L, Register8::C),
            106 => self.load_8(Register8::L, Register8::D),
            107 => self.load_8(Register8::L, Register8::E),
            108 => self.load_8(Register8::L, Register8::H),
            109 => self.load_8(Register8::L, Register8::L),
            110 => self.load_8_from(mmu, Register8::L, Register16::HL),
            111 => self.load_8(Register8::L, Register8::A),
            _ => unreached(),
        }
    }


    #[verifier::spinoff_prover]
    #[verifier::rlimit(100)]
    fn run_7x(&mut self, mmu: &mut MemoryMapUnit, opcode: u8) -> (t: ClockTicks)
        requires
            opcode / 16 == 7,
            !illegal_opcode(opcode),
            old(mmu)@.wf(),
        ensures
            final(mmu)@.wf(),
            (*final(self), final(mmu)@) == spec_run_7x(opcode, *old(self), old(mmu)@),
            t == spec_op_cycles_full(opcode, *old(self), old(mmu)@),
    {
        match opcode {
            112 => self.load_8_at(mmu, Register16::HL, Register8::B),
            113 => self.load_8_at(mmu, Register16::HL, Register8::C),
            114 => self.load_8_at(mmu, Register16::HL, Register8::D),
            115 => self.load_8_at(mmu, Register16::HL, Register8::E),
            116 => self.load_8_at(mmu, Register16::HL, Register8::H),
            117 => self.load_8_at(mmu, Register16::HL, Register8::L),
            118 => self.halt(),
            119 => self.load_8_at(mmu, Register16::HL, Register8::A),
            120 => self.load_8(Register8::A, Register8::B),
            121 => self.load_8(Register8::A, Register8::C),
            122 => self.load_8(Register8::A, Register8::D),
            123 => self.load_8(Register8::A, Register8::E),
            124 => self.load_8(Register8::A, Register8::H),
            125 => self.load_8(Register8::A, Register8::L),
            126 => self.load_8_from(mmu, Register8::A, Register16::HL),
            127 => self.load_8(Register8::A, Register8::A),
            _ => unreached(),
        }
    }


    #[verifier::spinoff_prover]
    #[verifier::rlimit(100)]
    fn run_8x(&mut self, mmu: &mut MemoryMapUnit, opcode: u8) -> (t: ClockTicks)
        requires
            opcode / 16 == 8,
            !illegal_opcode(opcode),
            old(mmu)@.wf(),
        ensures
            final(mmu)@.wf(),
            (*final(self), final(mmu)@) == spec_run_8x(opcode, *old(self), old(mmu)@),
            t == spec_op_cycles_full(opcode, *old(self), old(mmu)@),
    {
        match opcode {
            128 => self.add_8(Register8::B),
            129 => self.add_8(Register8::C),
            130 => self.add_8(Register8::D),
            131 => self.add_8(Register8::E),
            132 => self.add_8(Register8::H),
            133 => self.add_8(Register8::L),
            134 => self.add_8_from(mmu, Register16::HL),
            135 => self.add_8(Register8::A),
            136 => self.add_carry_8(Register8::B),
            137 => self.add_carry_8(Register8::C),
            138 => self.add_carry_8(Register8::D),
            139 => self.add_carry_8(Register8::E),
            140 => self.add_carry_8(Register8::H),
            141 => self.add_carry_8(Register8::L),
            142 => self.add_carry_8_from(mmu, Register16::HL),
            143 => self.add_carry_8(Register8::A),
            _ => unreached(),
        }
    }


    #[verifier::spinoff_prover]
    #[verifier::rlimit(100)]
    fn run_9x(&mut self, mmu: &mut MemoryMapUnit, opcode: u8) -> (t: ClockTicks)
        requires
            opcode / 16 == 9,
            !illegal_opcode(opcode),
            old(mmu)@.wf(),
        ensures
            final(mmu)@.wf(),
            (*final(self), final(mmu)@) == spec_run_9x(opcode, *old(self), old(mmu)@),
            t == spec_op_cycles_full(opcode, *old(self), old(mmu)@),
    {
        match opcode {
            144 => self.sub_8(Register8::B),
            145 => self.sub_8(Register8::C),
            146 => self.sub_8(Register8::D),
            147 => self.sub_8(Register8::E),
            148 => self.sub_8(Register8::H),
            149 => self.sub_8(Register8::L),
            150 => self.sub_8_from(mmu, Register16::HL),
            151 => self.sub_8(Register8::A),
            152 => self.sub_carry_8(Register8::B),
            153 => self.sub_carry_8(Register8::C),
            154 => self.sub_carry_8(Register8::D),
            155 => self.sub_carry_8(Register8::E),
            156 => self.sub_carry_8(Register8::H),
            157 => self.sub_carry_8(Register8::L),
            158 => self.sub_carry_8_from(mmu, Register16::HL),
            159 => self.sub_carry_8(Register8::A),
            _ => unreached(),
        }
    }


    #[verifier::spinoff_prover]
    #[verifier::rlimit(100)]
    fn run_ax(&mut self, mmu: &mut MemoryMapUnit, opcode: u8) -> (t: ClockTicks)
        requires
            opcode / 16 == 10,
            !illegal_opcode(opcode),
            old(mmu)@.wf(),
        ensures
            final(mmu)@.wf(),
            (*final(self), final(mmu)@) == spec_run_ax(opcode, *old(self), old(mmu)@),
            t == spec_op_cycles_full(opcode, *old(self), old(mmu)@),
    {
        match opcode {
            160 => self.and_8(Register8::B),
            161 => self.and_8(Register8::C),
            162 => self.and_8(Register8::D),
            163 => self.and_8(Register8::E),
            164 => self.and_8(Register8::H),
            165 => self.and_8(Register8::L),
            166 => self.and_8_from(mmu, Register16::HL),
            167 => self.and_8(Register8::A),
            168 => self.xor_8(Register8::B),
            169 => self.xor_8(Register8::C),
            170 => self.xor_8(Register8::D),
            171 => self.xor_8(Register8::E),
            172 => self.xor_8(Register8::H),
            173 => self.xor_8(Register8::L),
            174 => self.xor_8_from(mmu, Register16::HL),
            175 => self.xor_8(Register8::A),
            _ => unreached(),
        }
    }


    #[verifier::spinoff_prover]
    #[verifier::rlimit(100)]
    fn run_bx(&mut self, mmu: &mut MemoryMapUnit, opcode: u8) -> (t: ClockTicks)
        requires
            opcode / 16 == 11,
            !illegal_opcode(opcode),
            old(mmu)@.wf(),
        ensures
            final(mmu)@.wf(),
            (*final(self), final(mmu)@) == spec_run_bx(opcode, *old(self), old(mmu)@),
            t == spec_op_cycles_full(opcode, *old(self), old(mmu)@),
    {
        match opcode {
            176 => self.or_8(Register8::B),
            177 => self.or_8(Register8::C),
            178 => self.or_8(Register8::D),
            179 => self.or_8(Register8::E),
            180 => self.or_8(Register8::H),
            181 => self.or_8(Register8::L),
            182 => self.or_8_from(mmu, Register16::HL),
            183 => self.or_8(Register8::A),
            184 => self.cp_8(Register8::B),
            185 => self.cp_8(Register8::C),
            186 => self.cp_8(Register8::D),
            187 => self.cp_8(Register8::E),
            188 => self.cp_8(Register8::H),
            189 => self.cp_8(Register8::L),
            190 => self.cp_8_from(mmu, Register16::HL),
            191 => self.cp_8(Register8::A),
            _ => unreached(),
        }
    }


    #[verifier::spinoff_prover]
    #[verifier::rlimit(100)]
    fn run_cx(&mut self, mmu: &mut MemoryMapUnit, opcode: u8) -> (t: ClockTicks)
        requires
            opcode / 16 == 12,
            !illegal_opcode(opcode),
            old(mmu)@.wf(),
        ensures
            final(mmu)@.wf(),
            (*final(self), final(mmu)@) == spec_run_cx(opcode, *old(self), old(mmu)@),
            t == spec_op_cycles_full(opcode, *old(self), old(mmu)@),
    {
        match opcode {
            192 => {
                let cond = !self.registers.get_zero_flag();
                self.ret_if(mmu, cond)
            },
            193 => self.pop(mmu, Register16::BC),
            194 => {
                let cond = !self.registers.get_zero_flag();
                self.jump_if_immediate_16(mmu, cond)
            },
            195 => self.jump_if_immediate_16(mmu, true),
            196 => {
                let cond = !self.registers.get_zero_flag();
                self.call(mmu, cond)
            },
            197 => self.push(mmu, Register16::BC),
            198 => self.add_8_immediate(mmu),
            199 => self.call_vec(mmu, 0x00u16),
            200 => {
                let cond = self.registers.get_zero_flag();
                self.ret_if(mmu, cond)
            },
            201 => self.ret(mmu),
            202 => {
                let cond = self.registers.get_zero_flag();
                self.jump_if_immediate_16(mmu, cond)
            },
            203 => self.prefix_cb(mmu),
            204 => {
                let cond = self.registers.get_zero_flag();
                self.call(mmu, cond)
            },
            205 => self.call(mmu, true),
            206 => self.add_carry_8_immediate(mmu),
            207 => self.call_vec(mmu, 0x08u16),
            _ => unreached(),
        }
    }


    #[verifier::spinoff_prover]
    #[verifier::rlimit(100)]
    fn run_dx(&mut self, mmu: &mut MemoryMapUnit, opcode: u8) -> (t: ClockTicks)
        requires
            opcode / 16 == 13,
            !illegal_opcode(opcode),
            old(mmu)@.wf(),
        ensures
            final(mmu)@.wf(),
            (*final(self), final(mmu)@) == spec_run_dx(opcode, *old(self), old(mmu)@),
            t == spec_op_cycles_full(opcode, *old(self), old(mmu)@),
    {
        match opcode {
            208 => {
                let cond = !self.registers.get_carry_flag();
                self.ret_if(mmu, cond)
            },
            209 => self.pop(mmu, Register16::DE),
            210 => {
                let cond = !self.registers.get_carry_flag();
                self.jump_if_immediate_16(mmu, cond)
            },
            211 => unreached(),
            212 => {
                let cond = !self.registers.get_carry_flag();
                self.call(mmu, cond)
            },
            213 => self.push(mmu, Register16::DE),
            214 => self.sub_8_immediate(mmu),
            215 => self.call_vec(mmu, 0x10u16),
            216 => {
                let cond = self.registers.get_carry_flag();
                self.ret_if(mmu, cond)
            },
            217 => self.ret_interrupt(mmu),
            218 => {
                let cond = self.registers.get_carry_flag();
                self.jump_if_immediate_16(mmu, cond)
            },
            219 => unreached(),
            220 => {
                let cond = self.registers.get_carry_flag();
                self.call(mmu, cond)
            },
            221 => unreached(),
            222 => self.sub_carry_8_immediate(mmu),
            223 => self.call_vec(mmu, 0x18u16),
            _ => unreached(),
        }
    }


    #[verifier::spinoff_prover]
    #[verifier::rlimit(100)]
    fn run_ex(&mut self, mmu: &mut MemoryMapUnit, opcode: u8) -> (t: ClockTicks)
        requires
            opcode / 16 == 14,
            !illegal_opcode(opcode),
            old(mmu)@.wf(),
        ensures
            final(mmu)@.wf(),
            (*final(self), final(mmu)@) == spec_run_ex(opcode, *old(self), old(mmu)@),
            t == spec_op_cycles_full(opcode, *old(self), old(mmu)@),
    {
        match opcode {
            224 => self.load_8_at_io_immediate(mmu, Register8::A),
            225 => self.pop(mmu, Register16::HL),
            226 => self.load_8_at_io(mmu, Register8::C, Register8::A),
            227 => unreached(),
            228 => unreached(),
            229 => self.push(mmu, Register16::HL),
            230 => self.and_8_immediate(mmu),
            231 => self.call_vec(mmu, 0x20u16),
            232 => self.add_16_immediate(mmu, Register16::SP),
            233 => self.jump(Register16::HL),
            234 => self.load_8_at_immediate(mmu, Register8::A),
            235 => unreached(),
            236 => unreached(),
            237 => unreached(),
            238 => self.xor_8_immediate(mmu),
            239 => self.call_vec(mmu, 0x28u16),
            _ => unreached(),
        }
    }


    #[verifier::spinoff_prover]
    #[verifier::rlimit(100)]
    fn run_fx(&mut self, mmu: &mut MemoryMapUnit, opcode: u8) -> (t: ClockTicks)
        requires
            opcode / 16 == 15,
            !illegal_opcode(opcode),
            old(mmu)@.wf(),
        ensures
            final(mmu)@.wf(),
            (*final(self), final(mmu)@) == spec_run_fx(opcode, *old(self), old(mmu)@),
            t == spec_op_cycles_full(opcode, *old(self), old(mmu)@),
    {
        match opcode {
            240 => self.load_8_from_io_immediate(mmu, Register8::A),
            241 => self.pop(mmu, Register16::AF),
            242 => self.load_8_from_io(mmu, Register8::A, Register8::C),
            243 => self.disable_interrupts(),
            244 => unreached(),
            245 => self.push(mmu, Register16::AF),
            246 => self.or_8_immediate(mmu),
            247 => self.call_vec(mmu, 0x30u16),
            248 => self.load_16_add_immediate(mmu, Register16::HL, Register16::SP),
            249 => self.load_16(Register16::SP, Register16::HL),
            250 => self.load_8_from_immediate(mmu, Register8::A),
            251 => self.enable_interrupts(),
            252 => unreached(),
            253 => unreached(),
            254 => self.cp_8_immediate(mmu),
            255 => self.call_vec(mmu, 0x38u16),
            _ => unreached(),
        }
    }


    #[verifier::spinoff_prover]
    #[verifier::rlimit(100)]
    fn cb_0x(&mut self, mmu: &mut MemoryMapUnit, opcode: u8) -> (t: ClockTicks)
        requires
            opcode / 16 == 0,
            old(mmu)@.wf(),
        ensures
            final(mmu)@.wf(),
            (*final(self), final(mmu)@) == spec_cb_0x(opcode, *old(self), old(mmu)@),
            t == cb_cycles(opcode),
    {
        match opcode {
            0 => self.rotate_left(Register8::B),
            1 => self.rotate_left(Register8::C),
            2 => self.rotate_left(Register8::D),
            3 => self.rotate_left(Register8::E),
            4 => self.rotate_left(Register8::H),
            5 => self.rotate_left(Register8::L),
            6 => self.rotate_left_at(mmu, Register16::HL),
            7 => self.rotate_left(Register8::A),
            8 => self.rotate_right(Register8::B),
            9 => self.rotate_right(Register8::C),
            10 => self.rotate_right(Register8::D),
            11 => self.rotate_right(Register8::E),
            12 => self.rotate_right(Register8::H),
            13 => self.rotate_right(Register8::L),
            14 => self.rotate_right_at(mmu, Register16::HL),
            15 => self.rotate_right(Register8::A),
            _ => unreached(),
        }
    }


    #[verifier::spinoff_prover]
    #[verifier::rlimit(100)]
    fn cb_1x(&mut self, mmu: &mut MemoryMapUnit, opcode: u8) -> (t: ClockTicks)
        requires
            opcode / 16 == 1,
            old(mmu)@.wf(),
        ensures
            final(mmu)@.wf(),
            (*final(self), final(mmu)@) == spec_cb_1x(opcode, *old(self), old(mmu)@),
            t == cb_cycles(opcode),
    {
        match opcode {
            16 => self.rotate_left_carry(Register8::B),
            17 => self.rotate_left_carry(Register8::C),
            18 => self.rotate_left_carry(Register8::D),
            19 => self.rotate_left_carry(Register8::E),
            20 => self.rotate_left_carry(Register8::H),
            21 => self.rotate_left_carry(Register8::L),
            22 => self.rotate_left_carry_at(mmu, Register16::HL),
            23 => self.rotate_left_carry(Register8::A),
            24 => self.rotate_right_carry(Register8::B),
            25 => self.rotate_right_carry(Register8::C),
            26 => self.rotate_right_carry(Register8::D),
            27 => self.rotate_right_carry(Register8::E),
            28 => self.rotate_right_carry(Register8::H),
            29 => self.rotate_right_carry(Register8::L),
            30 => self.rotate_right_carry_at(mmu, Register16::HL),
            31 => self.rotate_right_carry(Register8::A),
            _ => unreached(),
        }
    }


    #[verifier::spinoff_prover]
    #[verifier::rlimit(100)]
    fn cb_2x(&mut self, mmu: &mut MemoryMapUnit, opcode: u8) -> (t: ClockTicks)
        requires
            opcode / 16 == 2,
            old(mmu)@.wf(),
        ensures
            final(mmu)@.wf(),
            (*final(self), final(mmu)@) == spec_cb_2x(opcode, *old(self), old(mmu)@),
            t == cb_cycles(opcode),
    {
        match opcode {
            32 => self.shift_left(Register8::B),
            33 => self.shift_left(Register8::C),
            34 => self.shift_left(Register8::D),
            35 => self.shift_left(Register8::E),
            36 => self.shift_left(Register8::H),
            37 => self.shift_left(Register8::L),
            38 => self.shift_left_at(mmu, Register16::HL),
            39 => self.shift_left(Register8::A),
            40 => self.shift_right(Register8::B),
            41 => self.shift_right(Register8::C),
            42 => self.shift_right(Register8::D),
            43 => self.shift_right(Register8::E),
            44 => self.shift_right(Register8::H),
            45 => self.shift_right(Register8::L),
            46 => self.shift_right_at(mmu, Register16::HL),
            47 => self.shift_right(Register8::A),
            _ => unreached(),
        }
    }


    #[verifier::spinoff_prover]
    #[verifier::rlimit(100)]
    fn cb_3x(&mut self, mmu: &mut MemoryMapUnit, opcode: u8) -> (t: ClockTicks)
        requires
            opcode / 16 == 3,
            old(mmu)@.wf(),
        ensures
            final(mmu)@.wf(),
            (*final(self), final(mmu)@) == spec_cb_3x(opcode, *old(self), old(mmu)@),
            t == cb_cycles(opcode),
    {
        match opcode {
            48 => self.swap(Register8::B),
            49 => self.swap(Register8::C),
            50 => self.swap(Register8::D),
            51 => self.swap(Register8::E),
            52 => self.swap(Register8::H),
            53 => self.swap(Register8::L),
            54 => self.swap_at(mmu, Register16::HL),
            55 => self.swap(Register8::A),
            56 => self.shift_right_logic(Register8::B),
            57 => self.shift_right_logic(Register8::C),
            58 => self.shift_right_logic(Register8::D),
            59 => self.shift_right_logic(Register8::E),
            60 => self.shift_right_logic(Register8::H),
            61 => self.shift_right_logic(Register8::L),
            62 => self.shift_right_logic_at(mmu, Register16::HL),
            63 => self.shift_right_logic(Register8::A),
            _ => unreached(),
        }
    }


    #[verifier::spinoff_prover]
    #[verifier::rlimit(100)]
    fn cb_4x(&mut self, mmu: &mut MemoryMapUnit, opcode: u8) -> (t: ClockTicks)
        requires
            opcode / 16 == 4,
            old(mmu)@.wf(),
        ensures
            final(mmu)@.wf(),
            (*final(self), final(mmu)@) == spec_cb_4x(opcode, *old(self), old(mmu)@),
            t == cb_cycles(opcode),
    {
        match opcode {
            64 => self.bit(0, Register8::B),
            65 => self.bit(0, Register8::C),
            66 => self.bit(0, Register8::D),
            67 => self.bit(0, Register8::E),
            68 => self.bit(0, Register8::H),
            69 => self.bit(0, Register8::L),
            70 => self.bit_at(mmu, 0, Register16::HL),
            71 => self.bit(0, Register8::A),
            72 => self.bit(1, Register8::B),
            73 => self.bit(1, Register8::C),
            74 => self.bit(1, Register8::D),
            75 => self.bit(1, Register8::E),
            76 => self.bit(1, Register8::H),
            77 => self.bit(1, Register8::L),
            78 => self.bit_at(mmu, 1, Register16::HL),
            79 => self.bit(1, Register8::A),
            _ => unreached(),
        }
    }


    #[verifier::spinoff_prover]
    #[verifier::rlimit(100)]
    fn cb_5x(&mut self, mmu: &mut MemoryMapUnit, opcode: u8) -> (t: ClockTicks)
        requires
            opcode / 16 == 5,
            old(mmu)@.wf(),
        ensures
            final(mmu)@.wf(),
            (*final(self), final(mmu)@) == spec_cb_5x(opcode, *old(self), old(mmu)@),
            t == cb_cycles(opcode),
    {
        match opcode {
            80 => self.bit(2, Register8::B),
            81 => self.bit(2, Register8::C),
            82 => self.bit(2, Register8::D),
            83 => self.bit(2, Register8::E),
            84 => self.bit(2, Register8::H),
            85 => self.bit(2, Register8::L),
            86 => self.bit_at(mmu, 2, Register16::HL),
            87 => self.bit(2, Register8::A),
            88 => self.bit(3, Register8::B),
            89 => self.bit(3, Register8::C),
            90 => self.bit(3, Register8::D),
            91 => self.bit(3, Register8::E),
            92 => self.bit(3, Register8::H),
            93 => self.bit(3, Register8::L),
            94 => self.bit_at(mmu, 3, Register16::HL),
            95 => self.bit(3, Register8::A),
            _ => unreached(),
        }
    }


    #[verifier::spinoff_prover]
    #[verifier::rlimit(100)]
    fn cb_6x(&mut self, mmu: &mut MemoryMapUnit, opcode: u8) -> (t: ClockTicks)
        requires
            opcode / 16 == 6,
            old(mmu)@.wf(),
        ensures
            final(mmu)@.wf(),
            (*final(self), final(mmu)@) == spec_cb_6x(opcode, *old(self), old(mmu)@),
            t == cb_cycles(opcode),
    {
        match opcode {
            96 => self.bit(4, Register8::B),
            97 => self.bit(4, Register8::C),
            98 => self.bit(4, Register8::D),
            99 => self.bit(4, Register8::E),
            100 => self.bit(4, Register8::H),
            101 => self.bit(4, Register8::L),
            102 => self.bit_at(mmu, 4, Register16::HL),
            103 => self.bit(4, Register8::A),
            104 => self.bit(5, Register8::B),
            105 => self.bit(5, Register8::C),
            106 => self.bit(5, Register8::D),
            107 => self.bit(5, Register8::E),
            108 => self.bit(5, Register8::H),
            109 => self.bit(5, Register8::L),
            110 => self.bit_at(mmu, 5, Register16::HL),
            111 => self.bit(5, Register8::A),
            _ => unreached(),
        }
    }


    #[verifier::spinoff_prover]
    #[verifier::rlimit(100)]
    fn cb_7x(&mut self, mmu: &mut MemoryMapUnit, opcode: u8) -> (t: ClockTicks)
        requires
            opcode / 16 == 7,
            old(mmu)@.wf(),
        ensures
            final(mmu)@.wf(),
            (*final(self), final(mmu)@) == spec_cb_7x(opcode, *old(self), old(mmu)@),
            t == cb_cycles(opcode),
    {
        match opcode {
            112 => self.bit(6, Register8::B),
            113 => self.bit(6, Register8::C),
            114 => self.bit(6, Register8::D),
            115 => self.bit(6, Register8::E),
            116 => self.bit(6, Register8::H),
            117 => self.bit(6, Register8::L),
            118 => self.bit_at(mmu, 6, Register16::HL),
            119 => self.bit(6, Register8::A),
            120 => self.bit(7, Register8::B),
            121 => self.bit(7, Register8::C),
            122 => self.bit(7, Register8::D),
            123 => self.bit(7, Register8::E),
            124 => self.bit(7, Register8::H),
            125 => self.bit(7, Register8::L),
            126 => self.bit_at(mmu, 7, Register16::HL),
            127 => self.bit(7, Register8::A),
            _ => unreached(),
        }
    }


    #[verifier::spinoff_prover]
    #[verifier::rlimit(100)]
    fn cb_8x(&mut self, mmu: &mut MemoryMapUnit, opcode: u8) -> (t: ClockTicks)
        requires
            opcode / 16 == 8,
            old(mmu)@.wf(),
        ensures
            final(mmu)@.wf(),
            (*final(self), final(mmu)@) == spec_cb_8x(opcode, *old(self), old(mmu)@),
            t == cb_cycles(opcode),
    {
        match opcode {
            128 => self.reset_bit(0, Register8::B),
            129 => self.reset_bit(0, Register8::C),
            130 => self.reset_bit(0, Register8::D),
            131 => self.reset_bit(0, Register8::E),
            132 => self.reset_bit(0, Register8::H),
            133 => self.reset_bit(0, Register8::L),
            134 => self.reset_bit_at(mmu, 0, Register16::HL),
            135 => self.reset_bit(0, Register8::A),
            136 => self.reset_bit(1, Register8::B),
            137 => self.reset_bit(1, Register8::C),
            138 => self.reset_bit(1, Register8::D),
            139 => self.reset_bit(1, Register8::E),
            140 => self.reset_bit(1, Register8::H),
            141 => self.reset_bit(1, Register8::L),
            142 => self.reset_bit_at(mmu, 1, Register16::HL),
            143 => self.reset_bit(1, Register8::A),
            _ => unreached(),
        }
    }


    #[verifier::spinoff_prover]
    #[verifier::rlimit(100)]
    fn cb_9x(&mut self, mmu: &mut MemoryMapUnit, opcode: u8) -> (t: ClockTicks)
        requires
            opcode / 16 == 9,
            old(mmu)@.wf(),
        ensures
            final(mmu)@.wf(),
            (*final(self), final(mmu)@) == spec_cb_9x(opcode, *old(self), old(mmu)@),
            t == cb_cycles(opcode),
    {
        match opcode {
            144 => self.reset_bit(2, Register8::B),
            145 => self.reset_bit(2, Register8::C),
            146 => self.reset_bit(2, Register8::D),
            147 => self.reset_bit(2, Register8::E),
            148 => self.reset_bit(2, Register8::H),
            149 => self.reset_bit(2, Register8::L),
            150 => self.reset_bit_at(mmu, 2, Register16::HL),
            151 => self.reset_bit(2, Register8::A),
            152 => self.reset_bit(3, Register8::B),
            153 => self.reset_bit(3, Register8::C),
            154 => self.reset_bit(3, Register8::D),
            155 => self.reset_bit(3, Register8::E),
            156 => self.reset_bit(3, Register8::H),
            157 => self.reset_bit(3, Register8::L),
            158 => self.reset_bit_at(mmu, 3, Register16::HL),
            159 => self.reset_bit(3, Register8::A),
            _ => unreached(),
        }
    }


    #[verifier::spinoff_prover]
    #[verifier::rlimit(100)]
    fn cb_ax(&mut self, mmu: &mut MemoryMapUnit, opcode: u8) -> (t: ClockTicks)
        requires
            opcode / 16 == 10,
            old(mmu)@.wf(),
        ensures
            final(mmu)@.wf(),
            (*final(self), final(mmu)@) == spec_cb_ax(opcode, *old(self), old(mmu)@),
            t == cb_cycles(opcode),
    {
        match opcode {
            160 => self.reset_bit(4, Register8::B),
            161 => self.reset_bit(4, Register8::C),
            162 => self.reset_bit(4, Register8::D),
            163 => self.reset_bit(4, Register8::E),
            164 => self.reset_bit(4, Register8::H),
            165 => self.reset_bit(4, Register8::L),
            166 => self.reset_bit_at(mmu, 4, Register16::HL),
            167 => self.reset_bit(4, Register8::A),
            168 => self.reset_bit(5, Register8::B),
            169 => self.reset_bit(5, Register8::C),
            170 => self.reset_bit(5, Register8::D),
            171 => self.reset_bit(5, Register8::E),
            172 => self.reset_bit(5, Register8::H),
            173 => self.reset_bit(5, Register8::L),
            174 => self.reset_bit_at(mmu, 5, Register16::HL),
            175 => self.reset_bit(5, Register8::A),
            _ => unreached(),
        }
    }


    #[verifier::spinoff_prover]
    #[verifier::rlimit(100)]
    fn cb_bx(&mut self, mmu: &mut MemoryMapUnit, opcode: u8) -> (t: ClockTicks)
        requires
            opcode / 16 == 11,
            old(mmu)@.wf(),
        ensures
            final(mmu)@.wf(),
            (*final(self), final(mmu)@) == spec_cb_bx(opcode, *old(self), old(mmu)@),
            t == cb_cycles(opcode),
    {
        match opcode {
            176 => self.reset_bit(6, Register8::B),
            177 => self.reset_bit(6, Register8::C),
            178 => self.reset_bit(6, Register8::D),
            179 => self.reset_bit(6, Register8::E),
            180 => self.reset_bit(6, Register8::H),
            181 => self.reset_bit(6, Register8::L),
            182 => self.reset_bit_at(mmu, 6, Register16::HL),
            183 => self.reset_bit(6, Register8::A),
            184 => self.reset_bit(7, Register8::B),
            185 => self.reset_bit(7, Register8::C),
            186 => self.reset_bit(7, Register8::D),
            187 => self.reset_bit(7, Register8::E),
            188 => self.reset_bit(7, Register8::H),
            189 => self.reset_bit(7, Register8::L),
            190 => self.reset_bit_at(mmu, 7, Register16::HL),
            191 => self.reset_bit(7, Register8::A),
            _ => unreached(),
        }
    }


    #[verifier::spinoff_prover]
    #[verifier::rlimit(100)]
    fn cb_cx(&mut self, mmu: &mut MemoryMapUnit, opcode: u8) -> (t: ClockTicks)
        requires
            opcode / 16 == 12,
            old(mmu)@.wf(),
        ensures
            final(mmu)@.wf(),
            (*final(self), final(mmu)@) == spec_cb_cx(opcode, *old(self), old(mmu)@),
            t == cb_cycles(opcode),
    {
        match opcode {
            192 => self.set_bit(0, Register8::B),
            193 => self.set_bit(0, Register8::C),
            194 => self.set_bit(0, Register8::D),
            195 => self.set_bit(0, Register8::E),
            196 => self.set_bit(0, Register8::H),
            197 => self.set_bit(0, Register8::L),
            198 => self.set_bit_at(mmu, 0, Register16::HL),
            199 => self.set_bit(0, Register8::A),
            200 => self.set_bit(1, Register8::B),
            201 => self.set_bit(1, Register8::C),
            202 => self.set_bit(1, Register8::D),
            203 => self.set_bit(1, Register8::E),
            204 => self.set_bit(1, Register8::H),
            205 => self.set_bit(1, Register8::L),
            206 => self.set_bit_at(mmu, 1, Register16::HL),
            207 => self.set_bit(1, Register8::A),
            _ => unreached(),
        }
    }


    #[verifier::spinoff_prover]
    #[verifier::rlimit(100)]
    fn cb_dx(&mut self, mmu: &mut MemoryMapUnit, opcode: u8) -> (t: ClockTicks)
        requires
            opcode / 16 == 13,
            old(mmu)@.wf(),
        ensures
            final(mmu)@.wf(),
            (*final(self), final(mmu)@) == spec_cb_dx(opcode, *old(self), old(mmu)@),
            t == cb_cycles(opcode),
    {
        match opcode {
            208 => self.set_bit(2, Register8::B),
            209 => self.set_bit(2, Register8::C),
            210 => self.set_bit(2, Register8::D),
            211 => self.set_bit(2, Register8::E),
            212 => self.set_bit(2, Register8::H),
            213 => self.set_bit(2, Register8::L),
            214 => self.set_bit_at(mmu, 2, Register16::HL),
            215 => self.set_bit(2, Register8::A),
            216 => self.set_bit(3, Register8::B),
            217 => self.set_bit(3, Register8::C),
            218 => self.set_bit(3, Register8::D),
            219 => self.set_bit(3, Register8::E),
            220 => self.set_bit(3, Register8::H),
            221 => self.set_bit(3, Register8::L),
            222 => self.set_bit_at(mmu, 3, Register16::HL),
            223 => self.set_bit(3, Register8::A),
            _ => unreached(),
        }
    }


    #[verifier::spinoff_prover]
    #[verifier::rlimit(100)]
    fn cb_ex(&mut self, mmu: &mut MemoryMapUnit, opcode: u8) -> (t: ClockTicks)
        requires
            opcode / 16 == 14,
            old(mmu)@.wf(),
        ensures
            final(mmu)@.wf(),
            (*final(self), final(mmu)@) == spec_cb_ex(opcode, *old(self), old(mmu)@),
            t == cb_cycles(opcode),
    {
        match opcode {
            224 => self.set_bit(4, Register8::B),
            225 => self.set_bit(4, Register8::C),
            226 => self.set_bit(4, Register8::D),
            227 => self.set_bit(4, Register8::E),
            228 => self.set_bit(4, Register8::H),
            229 => self.set_bit(4, Register8::L),
            230 => self.set_bit_at(mmu, 4, Register16::HL),
            231 => self.set_bit(4, Register8::A),
            232 => self.set_bit(5, Register8::B),
            233 => self.set_bit(5, Register8::C),
            234 => self.set_bit(5, Register8::D),
            235 => self.set_bit(5, Register8::E),
            236 => self.set_bit(5, Register8::H),
            237 => self.set_bit(5, Register8::L),
            238 => self.set_bit_at(mmu, 5, Register16::HL),
            239 => self.set_bit(5, Register8::A),
            _ => unreached(),
        }
    }


    #[verifier::spinoff_prover]
    #[verifier::rlimit(100)]
    fn cb_fx(&mut self, mmu: &mut MemoryMapUnit, opcode: u8) -> (t: ClockTicks)
        requires
            opcode / 16 == 15,
            old(mmu)@.wf(),
        ensures
            final(mmu)@.wf(),
            (*final(self), final(mmu)@) == spec_cb_fx(opcode, *old(self), old(mmu)@),
            t == cb_cycles(opcode),
    {
        match opcode {
            240 => self.set_bit(6, Register8::B),
            241 => self.set_bit(6, Register8::C),
            242 => self.set_bit(6, Register8::D),
            243 => self.set_bit(6, Register8::E),
            244 => self.set_bit(6, Register8::H),
            245 => self.set_bit(6, Register8::L),
            246 => self.set_bit_at(mmu, 6, Register16::HL),
            247 => self.set_bit(6, Register8::A),
            248 => self.set_bit(7, Register8::B),
            249 => self.set_bit(7, Register8::C),
            250 => self.set_bit(7, Register8::D),
            251 => self.set_bit(7, Register8::E),
            252 => self.set_bit(7, Register8::H),
            253 => self.set_bit(7, Register8::L),
            254 => self.set_bit_at(mmu, 7, Register16::HL),
            255 => self.set_bit(7, Register8::A),
            _ => unreached(),
        }
    }


    /// Fetches and executes the CB-prefixed opcode at PC.
    #[verifier::spinoff_prover]
    fn prefix_cb(&mut self, mmu: &mut MemoryMapUnit) -> (t: ClockTicks)
        requires
            old(mmu)@.wf(),
        ensures
            final(mmu)@.wf(),
            (*final(self), final(mmu)@) == spec_exec_cb(
                spec_read8(old(mmu)@, old(self).registers.pc),
                c_fetch(*old(self)),
                old(mmu)@,
            ),
            t == cb_cycles(spec_read8(old(mmu)@, old(self).registers.pc)),
    {
        let opcode = self.pc_next_8(mmu);
        let hi = opcode / 16;
        if hi == 0 {
            self.cb_0x(mmu, opcode)
        } else if hi == 1 {
            self.cb_1x(mmu, opcode)
        } else if hi == 2 {
            self.cb_2x(mmu, opcode)
        } else if hi == 3 {
            self.cb_3x(mmu, opcode)
        } else if hi == 4 {
            self.cb_4x(mmu, opcode)
        } else if hi == 5 {
            self.cb_5x(mmu, opcode)
        } else if hi == 6 {
            self.cb_6x(mmu, opcode)
        } else if hi == 7 {
            self.cb_7x(mmu, opcode)
        } else if hi == 8 {
            self.cb_8x(mmu, opcode)
        } else if hi == 9 {
            self.cb_9x(mmu, opcode)
        } else if hi == 10 {
            self.cb_ax(mmu, opcode)
        } else if hi == 11 {
            self.cb_bx(mmu, opcode)
        } else if hi == 12 {
            self.cb_cx(mmu, opcode)
        } else if hi == 13 {
            self.cb_dx(mmu, opcode)
        } else if hi == 14 {
            self.cb_ex(mmu, opcode)
        } else {
            self.cb_fx(mmu, opcode)
        }
    }

    /// Fetches, decodes and executes one instruction; returns its exact
    /// T-cycle cost per the canonical DMG table (conditional branches
    /// cost the long value exactly when taken), or the decode error on
    /// one of the eleven unused opcodes, whose only effect is then the
    /// opcode fetch itself.
    #[verifier::spinoff_prover]
    pub fn next_instruction(&mut self, mmu: &mut MemoryMapUnit) -> (r: Result<
        ClockTicks,
        CpuError,
    >)
        requires
            old(mmu)@.wf(),
        ensures
            final(mmu)@.wf(),
            ({
                let op = spec_read8(old(mmu)@, old(self).registers.pc);
                &&& (illegal_opcode(op) ==> (r matches Err(e) && e == (CpuError::IllegalOpcode(
                    op,
                ))) && *final(self) == c_fetch(*old(self)) && final(mmu)@ == old(mmu)@)
                &&& (!illegal_opcode(op) ==> (r matches Ok(t) && t == spec_op_cycles_full(
                    op,
                    c_fetch(*old(self)),
                    old(mmu)@,
                ) && (*final(self), final(mmu)@) == spec_exec_op(
                    op,
                    c_fetch(*old(self)),
                    old(mmu)@,
                )))
            }),
    {
        let opcode = self.pc_next_8(mmu);
        if opcode == 0xD3 || opcode == 0xDB || opcode == 0xDD || opcode == 0xE3 || opcode == 0xE4
            || opcode == 0xEB || opcode == 0xEC || opcode == 0xED || opcode == 0xF4 || opcode
            == 0xFC || opcode == 0xFD {
            return Err(CpuError::IllegalOpcode(opcode));
        }
        let hi = opcode / 16;
        let t = if hi == 0 {
            self.run_0x(mmu, opcode)
        } else if hi == 1 {
            self.run_1x(mmu, opcode)
        } else if hi == 2 {
            self.run_2x(mmu, opcode)
        } else if hi == 3 {
            self.run_3x(mmu, opcode)
        } else if hi == 4 {
            self.run_4x(mmu, opcode)
        } else if hi == 5 {
            self.run_5x(mmu, opcode)
        } else if hi == 6 {
            self.run_6x(mmu, opcode)
        } else if hi == 7 {
            self.run_7x(mmu, opcode)
        } else if hi == 8 {
            self.run_8x(mmu, opcode)
        } else if hi == 9 {
            self.run_9x(mmu, opcode)
        } else if hi == 10 {
            self.run_ax(mmu, opcode)
        } else if hi == 11 {
            self.run_bx(mmu, opcode)
        } else if hi == 12 {
            self.run_cx(mmu, opcode)
        } else if hi == 13 {
            self.run_dx(mmu, opcode)
        } else if hi == 14 {
            self.run_ex(mmu, opcode)
        } else {
            self.run_fx(mmu, opcode)
        };
        Ok(t)
    }
}

/// The index of the lowest interrupt bit set in both IE and IF, or -1
/// when none is: 0 = VBlank, 1 = LCD-STAT, 2 = Timer, 3 = Serial,
/// 4 = Joypad.
pub open spec fn spec_irq_bit(ie: u8, iff: u8) -> int {
    if ie % 2 == 1 && iff % 2 == 1 {
        0
    } else if (ie / 2) % 2 == 1 && (iff / 2) % 2 == 1 {
        1
    } else if (ie / 4) % 2 == 1 && (iff / 4) % 2 == 1 {
        2
    } else if (ie / 8) % 2 == 1 && (iff / 8) % 2 == 1 {
        3
    } else if (ie / 16) % 2 == 1 && (iff / 16) % 2 == 1 {
        4
    } else {
        -1
    }
}

/// The state after servicing the lowest enabled pending interrupt: IME
/// cleared, HALT left, that bit of IF cleared, PC pushed and set to the
/// fixed vector 0x40 + 8 * bit.
pub open spec fn spec_service(c: LR35902, m: MmuView) -> (LR35902, MmuView) {
    let ie = spec_read8(m, 0xFFFF);
    let iff = spec_read8(m, 0xFF0F);
    let k = spec_irq_bit(ie, iff);
    let (c1, m1) = i_push(c, m, Register16::PC);
    (
        LR35902 {
            registers: Registers { pc: (0x40 + 8 * k) as u16, ..c1.registers },
            ime: false,
            halted: false,
            ..c1
        },
        spec_write8(m1, 0xFF0F, (iff - spec_pow2u8(k as u8)) as u8),
    )
}

/// Commits a delayed EI: when the latch was set before the instruction
/// and the instruction did not clear it, IME turns on after it.
pub open spec fn spec_ei_commit(was_pending: bool, s: (LR35902, MmuView)) -> (LR35902, MmuView) {
    if was_pending && s.0.ei_pending {
        (LR35902 { ime: true, ei_pending: false, ..s.0 }, s.1)
    } else {
        s
    }
}

/// Every instruction costs at most 24 T-cycles.
pub proof fn lemma_step_cycles_bounded(op: u8, c: LR35902, m: MmuView)
    ensures
        0 <= spec_op_cycles_full(op, c, m) <= 24,
{
}

/// Whether a CPU step from this state completes without the decode
/// fault.
pub open spec fn spec_cpu_step_ok(c: LR35902, m: MmuView) -> bool {
    let k = spec_irq_bit(spec_read8(m, 0xFFFF), spec_read8(m, 0xFF0F));
    (c.ime && k >= 0) || c.halted || !illegal_opcode(spec_read8(m, c.registers.pc))
}

/// One CPU step as a function of the state: the post state and the
/// T-cycle cost (0 both for an idle halted CPU and for the decode
/// fault, which leaves the CPU right after the opcode fetch).
pub open spec fn spec_cpu_step(c: LR35902, m: MmuView) -> (LR35902, MmuView, int) {
    let k = spec_irq_bit(spec_read8(m, 0xFFFF), spec_read8(m, 0xFF0F));
    if c.ime && k >= 0 {
        let (c2, m2) = spec_service(c, m);
        (c2, m2, 20)
    } else if c.halted {
        (LR35902 { halted: k < 0, ..c }, m, 0)
    } else {
        let op = spec_read8(m, c.registers.pc);
        if illegal_opcode(op) {
            (c_fetch(c), m, 0)
        } else {
            let s = spec_ei_commit(c.ei_pending, spec_exec_op(op, c_fetch(c), m));
            (s.0, s.1, spec_op_cycles_full(op, c_fetch(c), m))
        }
    }
}

impl LR35902 {
    /// Services the lowest enabled pending interrupt, if any; returns
    /// whether one was serviced.
    fn check_for_interrupt(&mut self, mmu: &mut MemoryMapUnit) -> (serviced: bool)
        requires
            old(mmu)@.wf(),
        ensures
            final(mmu)@.wf(),
            serviced == (spec_irq_bit(
                spec_read8(old(mmu)@, 0xFFFF),
                spec_read8(old(mmu)@, 0xFF0F),
            ) >= 0),
            serviced ==> (*final(self), final(mmu)@) == spec_service(*old(self), old(mmu)@),
            !serviced ==> *final(self) == *old(self) && final(mmu)@ == old(mmu)@,
    {
        let ie = mmu.read_8(0xFFFF);
        let iff = mmu.read_8(0xFF0F);
        let k: u8 = if ie % 2 == 1 && iff % 2 == 1 {
            0
        } else if (ie / 2) % 2 == 1 && (iff / 2) % 2 == 1 {
            1
        } else if (ie / 4) % 2 == 1 && (iff / 4) % 2 == 1 {
            2
        } else if (ie / 8) % 2 == 1 && (iff / 8) % 2 == 1 {
            3
        } else if (ie / 16) % 2 == 1 && (iff / 16) % 2 == 1 {
            4
        } else {
            return false;
        };
        self.push(mmu, Register16::PC);
        self.registers.pc = 0x40 + 8 * (k as u16);
        self.ime = false;
        self.halted = false;
        let weight = Self::pow2(k);
        mmu.write_8(0xFF0F, iff - weight);
        true
    }

    /// One CPU step. With IME set and an interrupt both enabled and
    /// pending, the interrupt is serviced for 20 T-cycles. A halted CPU
    /// with nothing pending idles at no cost; a pending interrupt with
    /// IME clear only leaves HALT. Otherwise one instruction runs, after
    /// which a delayed EI from the previous instruction takes effect. The
    /// decode error surfaces on the eleven unused opcodes and leaves the
    /// CPU stopped right after the opcode fetch.
    #[verifier::spinoff_prover]
    #[verifier::rlimit(30)]
    pub fn step(&mut self, mmu: &mut MemoryMapUnit) -> (r: Result<ClockTicks, CpuError>)
        requires
            old(mmu)@.wf(),
        ensures
            final(mmu)@.wf(),
            r matches Ok(t) ==> t <= 24,
            (r matches Ok(_)) <==> spec_cpu_step_ok(*old(self), old(mmu)@),
            (*final(self), final(mmu)@) == (
                spec_cpu_step(*old(self), old(mmu)@).0,
                spec_cpu_step(*old(self), old(mmu)@).1,
            ),
            r matches Ok(t) ==> t == spec_cpu_step(*old(self), old(mmu)@).2,
            ({
                let c0 = *old(self);
                let m0 = old(mmu)@;
                let k = spec_irq_bit(spec_read8(m0, 0xFFFF), spec_read8(m0, 0xFF0F));
                let op = spec_read8(m0, c0.registers.pc);
                &&& (c0.ime && k >= 0 ==> (r matches Ok(t) && t == 20) && (
                *final(self),
                final(mmu)@,
                ) == spec_service(c0, m0))
                &&& (!(c0.ime && k >= 0) && c0.halted ==> (r matches Ok(t) && t == 0) && final(mmu)@ == m0 && *final(self) == (LR35902 { halted: k < 0, ..c0 }))
                &&& (!(c0.ime && k >= 0) && !c0.halted && illegal_opcode(op) ==> (r matches Err(e)
                    && e == (CpuError::IllegalOpcode(op))) && *final(self) == c_fetch(c0) && final(mmu)@ == m0)
                &&& (!(c0.ime && k >= 0) && !c0.halted && !illegal_opcode(op) ==> (r matches Ok(t)
                    && t == spec_op_cycles_full(op, c_fetch(c0), m0)) && (
                *final(self),
                final(mmu)@,
                ) == spec_ei_commit(c0.ei_pending, spec_exec_op(op, c_fetch(c0), m0)))
            }),
    {
        if self.ime {
            if self.check_for_interrupt(mmu) {
                return Ok(20);
            }
        }
        if self.halted {
            let ie = mmu.read_8(0xFFFF);
            let iff = mmu.read_8(0xFF0F);
            let pending = (ie % 2 == 1 && iff % 2 == 1) || ((ie / 2) % 2 == 1 && (iff / 2) % 2
                == 1) || ((ie / 4) % 2 == 1 && (iff / 4) % 2 == 1) || ((ie / 8) % 2 == 1 && (iff
                / 8) % 2 == 1) || ((ie / 16) % 2 == 1 && (iff / 16) % 2 == 1);
            if pending {
                self.halted = false;
            }
            return Ok(0);
        }
        let was_pending = self.ei_pending;
        proof {
            lemma_step_cycles_bounded(
                spec_read8(mmu@, self.registers.pc),
                c_fetch(*self),
                mmu@,
            );
        }
        let result = self.next_instruction(mmu);
        match result {
            Ok(t) => {
                if was_pending && self.ei_pending {
                    self.ime = true;
                    self.ei_pending = false;
                }
                Ok(t)
            },
            Err(e) => Err(e),
        }
    }
}

} // verus!
