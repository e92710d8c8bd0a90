//! Machine-wide laws, proved over the subsystem models.
//!
//! Each proof function here states a property that relates several
//! operations; the per-operation contracts live with the operations
//! themselves.

use vstd::prelude::*;
use crate::dmg::{GameView, spec_game_run};
use crate::lr35902::{LR35902, Register16, i_push, i_pop, i_call, i_ret, wrap16};
use crate::mmu::{MmuView, spec_cart_stores, spec_read8, spec_write8};
use crate::ppu::{Mode, PpuView, spec_ppu_step, spec_inc_frames, lemma_fb_after_len};

verus! {

/// Addresses backed by a plain MMU byte with no routing side effects:
/// VRAM, work RAM and its echo, OAM, and high RAM. A write there is
/// stored as-is and disturbs no other such address but its echo alias.
pub open spec fn spec_plain_addr(a: u16) -> bool {
    (0x8000 <= a < 0xA000) || (0xC000 <= a < 0xFEA0) || (0xFF80 <= a <= 0xFFFE)
}

/// The MMU byte index a plain address is stored at (the echo region
/// aliases work RAM).
pub open spec fn spec_plain_slot(a: u16) -> int {
    if 0xE000 <= a < 0xFE00 {
        a - 0x2000
    } else {
        a as int
    }
}

/// Addresses where a pushed byte is stored and read back unchanged:
/// plain RAM, or external cartridge RAM that is enabled and backed.
pub open spec fn spec_stack_addr(m: MmuView, a: u16) -> bool {
    spec_plain_addr(a) || (0xA000 <= a < 0xC000 && spec_cart_stores(m.cart, a))
}

/// Executing the machine is deterministic: the transition of each
/// T-cycle is a function of the state alone, so equal machines remain
/// equal over any run. In particular two runs of the same opcode stream
/// from the same state produce identical register files and memory.
pub proof fn lemma_run_deterministic(g1: GameView, g2: GameView, n: nat)
    requires
        g1 == g2,
    ensures
        spec_game_run(g1, n) == spec_game_run(g2, n),
{
}

/// PUSH rr followed by POP rr restores rr, SP and with them the whole
/// register file, provided the two stacked bytes land where a byte is
/// stored: plain RAM, or enabled external RAM (a stack in ROM or the
/// I/O page is left out: those regions do not store the pushed bytes).
pub proof fn lemma_push_pop_roundtrip(c: LR35902, m: MmuView, rr: Register16)
    requires
        m.wf(),
        spec_stack_addr(m, wrap16(c.registers.sp - 2)),
        spec_stack_addr(m, wrap16(c.registers.sp - 1)),
        !(rr is SP),
    ensures
        ({
            let (c1, m1) = i_push(c, m, rr);
            i_pop(c1, m1, rr).registers == c.registers
        }),
{
    let sp2 = wrap16(c.registers.sp - 2);
    let sp1 = wrap16(c.registers.sp - 1);
    let v = c.registers.spec_get_16(rr);
    let (c1, m1) = i_push(c, m, rr);
    lemma_stack_bytes_read_back(m, sp2, sp1, (v % 256) as u8, (v / 256) as u8);
    let c2 = i_pop(c1, m1, rr);
    assert(c2.registers.spec_get_16(rr) == v);
    assert(c2.registers == c.registers);
}

/// Two pushed bytes at consecutive stack addresses are read back
/// unchanged.
proof fn lemma_stack_bytes_read_back(m: MmuView, a_low: u16, a_high: u16, lo: u8, hi: u8)
    requires
        m.wf(),
        spec_stack_addr(m, a_low),
        spec_stack_addr(m, a_high),
        a_high == wrap16(a_low + 1),
        a_low != 0xFFFF,
    ensures
        spec_read8(spec_write8(spec_write8(m, a_low, lo), a_high, hi), a_low) == lo,
        spec_read8(spec_write8(spec_write8(m, a_low, lo), a_high, hi), a_high) == hi,
{
    reveal(crate::mmu::spec_read8);
    reveal(crate::mmu::spec_write8);
    assert(a_high == a_low + 1);
    assert(spec_plain_addr(a_low) ==> spec_plain_slot(a_low) != spec_plain_slot(a_high));
}

/// CALL nn followed by RET brings PC back to the instruction after the
/// CALL, restores SP, and touches no flags, under the same stack
/// proviso as the push/pop round trip. Both transforms apply after
/// their opcode byte was consumed, so the return address is the byte
/// after the 16-bit call target.
pub proof fn lemma_call_ret_roundtrip(c: LR35902, m: MmuView)
    requires
        m.wf(),
        spec_stack_addr(m, wrap16(c.registers.sp - 2)),
        spec_stack_addr(m, wrap16(c.registers.sp - 1)),
    ensures
        ({
            let (c1, m1) = i_call(c, m, true);
            let c2 = i_ret(c1, m1);
            &&& c2.registers.pc == wrap16(c.registers.pc + 2)
            &&& c2.registers.sp == c.registers.sp
            &&& c2.registers.zf == c.registers.zf
            &&& c2.registers.nf == c.registers.nf
            &&& c2.registers.hf == c.registers.hf
            &&& c2.registers.cf == c.registers.cf
            &&& c2.registers.a == c.registers.a
        }),
{
    let sp2 = wrap16(c.registers.sp - 2);
    let sp1 = wrap16(c.registers.sp - 1);
    let ret_addr = wrap16(c.registers.pc + 2);
    let (c1, m1) = i_call(c, m, true);
    assert(c1.registers.sp == sp2);
    lemma_stack_bytes_read_back(m, sp2, sp1, (ret_addr % 256) as u8, (ret_addr / 256) as u8);
    let c2 = i_ret(c1, m1);
    assert(c2.registers.pc == ret_addr);
}

/// The PPU after `k` phase steps, with the T-cycles they charged.
pub open spec fn spec_ppu_run(p: PpuView, m: MmuView, k: nat) -> (PpuView, MmuView, int)
    decreases k,
{
    if k == 0 {
        (p, m, 0)
    } else {
        let (p1, m1, t) = spec_ppu_step(p, m);
        let (p2, m2, total) = spec_ppu_run(p1, m1, (k - 1) as nat);
        (p2, m2, t + total)
    }
}

/// A write to one of the registers the PPU drives (IF, STAT, LY) never
/// changes LCDC.
proof fn lemma_write_keeps_lcdc(m: MmuView, a: u16, v: u8)
    requires
        m.wf(),
        a == 0xFF0F || a == 0xFF41 || a == 0xFF44,
    ensures
        spec_read8(spec_write8(m, a, v), 0xFF40) == spec_read8(m, 0xFF40),
        spec_write8(m, a, v).wf(),
{
    reveal(crate::mmu::spec_read8);
    reveal(crate::mmu::spec_write8);
}

/// Entering a mode leaves LCDC alone.
proof fn lemma_enter_keeps_lcdc(m: MmuView, mode: Mode)
    requires
        m.wf(),
    ensures
        spec_read8(crate::ppu::spec_enter_mode(m, mode), 0xFF40) == spec_read8(m, 0xFF40),
        crate::ppu::spec_enter_mode(m, mode).wf(),
{
    let stat = spec_read8(m, 0xFF41);
    let stat2 = ((stat - stat % 4) + mode.spec_bits()) as u8;
    let m1 = spec_write8(m, 0xFF41, stat2);
    lemma_write_keeps_lcdc(m, 0xFF41, stat2);
    let source = match mode {
        Mode::HBlank => (stat2 / 8) % 2 == 1,
        Mode::VBlank => (stat2 / 16) % 2 == 1,
        Mode::OAMSearch => (stat2 / 32) % 2 == 1,
        Mode::PixelTransfer => false,
    };
    let mid = if source && (spec_read8(m1, 0xFFFF) / 2) % 2 == 1 {
        spec_write8(m1, 0xFF0F, crate::ppu::set_bit8(spec_read8(m1, 0xFF0F), 2))
    } else {
        m1
    };
    if source && (spec_read8(m1, 0xFFFF) / 2) % 2 == 1 {
        lemma_write_keeps_lcdc(m1, 0xFF0F, crate::ppu::set_bit8(spec_read8(m1, 0xFF0F), 2));
    }
    if mode is VBlank {
        lemma_write_keeps_lcdc(mid, 0xFF0F, crate::ppu::set_bit8(spec_read8(mid, 0xFF0F), 1));
    }
}

/// The coincidence check leaves LCDC alone.
proof fn lemma_lyc_keeps_lcdc(m: MmuView)
    requires
        m.wf(),
    ensures
        spec_read8(crate::ppu::spec_lyc_check(m), 0xFF40) == spec_read8(m, 0xFF40),
        crate::ppu::spec_lyc_check(m).wf(),
{
    lemma_write_keeps_lcdc(m, 0xFF0F, crate::ppu::set_bit8(spec_read8(m, 0xFF0F), 2));
}

/// The timing face of one PPU step with the LCD enabled: mode, line,
/// frame counter and cost move as the scanline machine prescribes, and
/// the step never touches LCDC itself.
#[verifier::spinoff_prover]
#[verifier::rlimit(100)]
proof fn lemma_ppu_step_timing(p: PpuView, m: MmuView)
    requires
        p.wf(),
        m.wf(),
        spec_read8(m, 0xFF40) >= 128,
    ensures
        ({
            let (p1, m1, t) = spec_ppu_step(p, m);
            &&& p1.wf()
            &&& m1.wf()
            &&& ((p.mode is OAMSearch) ==> (p1.mode is PixelTransfer) && p1.line == p.line
                && p1.frames == p.frames && t == 80)
            &&& ((p.mode is PixelTransfer) ==> (p1.mode is HBlank) && p1.line == p.line
                && p1.frames == p.frames && t == 172)
            &&& ((p.mode is HBlank) ==> t == 204 && p1.line == p.line + 1 && (p.line == 143 ==> (
            p1.mode is VBlank) && p1.frames == spec_inc_frames(p.frames)) && (p.line < 143 ==> (
            p1.mode is OAMSearch) && p1.frames == p.frames))
            &&& ((p.mode is VBlank) ==> t == 456 && p1.frames == p.frames && (p.line == 153 ==> (
            p1.mode is OAMSearch) && p1.line == 0) && (p.line < 153 ==> (p1.mode is VBlank)
                && p1.line == p.line + 1))
            &&& spec_read8(m1, 0xFF40) == spec_read8(m, 0xFF40)
        }),
{
    if p.mode is PixelTransfer {
        lemma_fb_after_len(p, m);
        lemma_enter_keeps_lcdc(m, Mode::HBlank);
    }
    if p.mode is OAMSearch {
        lemma_enter_keeps_lcdc(m, Mode::PixelTransfer);
    }
    if p.mode is HBlank {
        let line2 = (p.line + 1) as u8;
        let ma = spec_write8(m, 0xFF44, line2);
        lemma_write_keeps_lcdc(m, 0xFF44, line2);
        lemma_lyc_keeps_lcdc(ma);
        let mb = crate::ppu::spec_lyc_check(ma);
        lemma_enter_keeps_lcdc(mb, Mode::VBlank);
        lemma_enter_keeps_lcdc(mb, Mode::OAMSearch);
    }
    if p.mode is VBlank {
        let line2: u8 = if p.line >= 153 {
            0
        } else {
            (p.line + 1) as u8
        };
        let ma = spec_write8(m, 0xFF44, line2);
        lemma_write_keeps_lcdc(m, 0xFF44, line2);
        lemma_lyc_keeps_lcdc(ma);
        let mb = crate::ppu::spec_lyc_check(ma);
        lemma_enter_keeps_lcdc(mb, Mode::OAMSearch);
    }
}

/// One visible line from its OAM-search start: three phase steps, 456
/// T-cycles, LY one higher; the frame counter moves (and VBlank is
/// entered) exactly when line 143 completes.
proof fn lemma_ppu_one_line(p: PpuView, m: MmuView)
    requires
        p.wf(),
        m.wf(),
        spec_read8(m, 0xFF40) >= 128,
        p.mode is OAMSearch,
        p.line < 144,
    ensures
        ({
            let (p3, m3, t) = spec_ppu_run(p, m, 3);
            &&& t == 456
            &&& p3.line == p.line + 1
            &&& p3.fb.len() == p.fb.len()
            &&& p3.wf()
            &&& (p.line == 143 ==> (p3.mode is VBlank) && p3.frames == spec_inc_frames(p.frames))
            &&& (p.line < 143 ==> (p3.mode is OAMSearch) && p3.frames == p.frames)
            &&& spec_read8(m3, 0xFF40) == spec_read8(m, 0xFF40)
            &&& m3.wf()
        }),
{
    reveal_with_fuel(spec_ppu_run, 4);
    let (p1, m1, t1) = spec_ppu_step(p, m);
    let (p2, m2, t2) = spec_ppu_step(p1, m1);
    lemma_ppu_step_timing(p, m);
    lemma_ppu_step_timing(p1, m1);
    lemma_ppu_step_timing(p2, m2);
}

/// The visible part of a frame: 432 phase steps from (OAM search, LY 0)
/// reach VBlank at LY 144 after exactly 144 * 456 T-cycles, completing
/// the frame exactly once.
proof fn lemma_ppu_visible_lines(p: PpuView, m: MmuView, upto: nat)
    requires
        p.wf(),
        m.wf(),
        spec_read8(m, 0xFF40) >= 128,
        p.mode is OAMSearch,
        p.line + upto <= 144,
        p.line + upto >= 1,
    ensures
        ({
            let (p2, m2, t) = spec_ppu_run(p, m, 3 * upto);
            &&& t == 456 * upto
            &&& p2.line == p.line + upto
            &&& p2.wf()
            &&& (p.line + upto == 144 ==> (p2.mode is VBlank) && p2.frames == spec_inc_frames(
                p.frames,
            ))
            &&& (p.line + upto < 144 ==> (p2.mode is OAMSearch) && p2.frames == p.frames)
            &&& spec_read8(m2, 0xFF40) == spec_read8(m, 0xFF40)
            &&& m2.wf()
        }),
    decreases upto,
{
    if upto == 0 {
    } else if upto == 1 {
        lemma_ppu_one_line(p, m);
        let (p1, m1, t1) = spec_ppu_run(p, m, 3);
        lemma_ppu_run_add(p, m, 3, 0);
    } else {
        lemma_ppu_one_line(p, m);
        let (p1, m1, t1) = spec_ppu_run(p, m, 3);
        lemma_ppu_visible_lines(p1, m1, (upto - 1) as nat);
        lemma_ppu_run_add(p, m, 3, 3 * (upto - 1) as nat);
    }
}

/// Splitting a PPU run: `a + b` steps are `a` steps then `b` more.
#[verifier::spinoff_prover]
#[verifier::rlimit(100)]
proof fn lemma_ppu_run_add(p: PpuView, m: MmuView, a: nat, b: nat)
    ensures
        ({
            let (p1, m1, t1) = spec_ppu_run(p, m, a);
            let (p2, m2, t2) = spec_ppu_run(p1, m1, b);
            spec_ppu_run(p, m, a + b) == (p2, m2, t1 + t2)
        }),
    decreases a,
{
    if a > 0 {
        let (p1, m1, t1) = spec_ppu_step(p, m);
        lemma_ppu_run_add(p1, m1, (a - 1) as nat, b);
    }
}

/// The blank part of a frame: from (VBlank, LY 144), ten more steps of
/// 456 T-cycles each bring LY back to 0 in OAM search, with no further
/// frame completion.
#[verifier::spinoff_prover]
#[verifier::rlimit(100)]
proof fn lemma_ppu_vblank_lines(p: PpuView, m: MmuView, upto: nat)
    requires
        p.wf(),
        m.wf(),
        spec_read8(m, 0xFF40) >= 128,
        p.mode is VBlank,
        p.line + upto == 154,
    ensures
        ({
            let (p2, m2, t) = spec_ppu_run(p, m, upto);
            &&& t == 456 * upto
            &&& p2.line == 0
            &&& p2.mode is OAMSearch
            &&& p2.frames == p.frames
            &&& p2.fb == p.fb
            &&& p2.wf()
            &&& spec_read8(m2, 0xFF40) == spec_read8(m, 0xFF40)
        }),
    decreases upto,
{
    reveal_with_fuel(spec_ppu_run, 2);
    lemma_ppu_step_timing(p, m);
    if upto == 1 {
        assert(p.line == 153);
    } else {
        let (p1, m1, t1) = spec_ppu_step(p, m);
        assert(p.line < 153);
        lemma_ppu_vblank_lines(p1, m1, (upto - 1) as nat);
    }
}

/// A whole frame: starting at LY 0 in OAM search with the LCD enabled,
/// the PPU charges exactly 70,224 T-cycles (442 phase steps) to return
/// to LY 0 in OAM search, and the frame-complete counter advances
/// exactly once, at the VBlank entry inside the run.
pub proof fn lemma_ppu_frame(p: PpuView, m: MmuView)
    requires
        p.wf(),
        m.wf(),
        spec_read8(m, 0xFF40) >= 128,
        p.mode is OAMSearch,
        p.line == 0,
    ensures
        ({
            let (p2, m2, t) = spec_ppu_run(p, m, 442);
            &&& t == 70224
            &&& p2.line == 0
            &&& p2.mode is OAMSearch
            &&& p2.frames == spec_inc_frames(p.frames)
            &&& p2.wf()
        }),
{
    lemma_ppu_visible_lines(p, m, 144);
    let (p1, m1, t1) = spec_ppu_run(p, m, 432);
    lemma_ppu_vblank_lines(p1, m1, 10);
    lemma_ppu_run_add(p, m, 432, 10);
}

} // verus!
