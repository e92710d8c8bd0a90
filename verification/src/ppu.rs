//! The pixel processing unit: a four-state scanline machine and the
//! renderer.
//!
//! Each visible line runs OAM search (80 T-cycles, mode 2), pixel
//! transfer (172, mode 3) and HBlank (204, mode 0); lines 144-153 are
//! VBlank (mode 1), 456 T-cycles each, for a frame of exactly 70,224
//! T-cycles. On every mode change the low two bits of STAT (FF41) are
//! rewritten and the enabled STAT sources raise the LCD interrupt;
//! entering VBlank also raises the VBlank interrupt and completes the
//! frame. The renderer resolves each pixel of a line to a 2-bit shade:
//! the background (or the window where it applies) through BGP, and on
//! top of it the winning sprite - the lowest-X opaque one of the first
//! ten on the line - through OBP0/OBP1, honoring flips, 8x16 mode and
//! the behind-background priority bit.

use vstd::prelude::*;
use crate::mmu::{MemoryMapUnit, MmuView, spec_read8, spec_write8};
use crate::lr35902::{signed8, spec_pow2u8};
use crate::ClockTicks;

verus! {

/// The PPU mode, as exposed in STAT bits 0-1 (HBlank 0, VBlank 1, OAM
/// search 2, pixel transfer 3).
#[derive(Clone, Copy, PartialEq, Eq, Structural, Debug)]
pub enum Mode {
    HBlank,
    VBlank,
    OAMSearch,
    PixelTransfer,
}

impl Mode {
    /// The value of STAT bits 0-1 in this mode.
    pub open spec fn spec_bits(self) -> u8 {
        match self {
            Mode::HBlank => 0,
            Mode::VBlank => 1,
            Mode::OAMSearch => 2,
            Mode::PixelTransfer => 3,
        }
    }

    pub fn bits(self) -> (b: u8)
        ensures
            b == self.spec_bits(),
    {
        match self {
            Mode::HBlank => 0,
            Mode::VBlank => 1,
            Mode::OAMSearch => 2,
            Mode::PixelTransfer => 3,
        }
    }
}

/// The mathematical state of the PPU.
pub ghost struct PpuView {
    pub mode: Mode,
    /// The current scanline (LY), 0-153.
    pub line: u8,
    /// 160x144 palette-resolved shades, row-major.
    pub fb: Seq<u8>,
    /// Completed frames, counted at each VBlank entry (wrapping).
    pub frames: u64,
    /// The window's internal line counter: advanced only on lines where
    /// the window was rendered, reset on VBlank entry.
    pub wline: u8,
}

impl PpuView {
    pub open spec fn wf(self) -> bool {
        self.fb.len() == 160 * 144 && self.line <= 153 && ((self.mode is VBlank) <==> self.line
            >= 144)
    }
}

/// `v` with the bit of weight `w` (a power of two) set.
pub open spec fn set_bit8(v: u8, w: u8) -> u8 {
    (v + (1 - (v / w) % 2) * w) as u8
}

/// The memory after a mode change: STAT bits 0-1 rewritten; the mode's
/// STAT source (FF41 bit 3, 4 or 5 for HBlank, VBlank, OAM search), if
/// enabled together with the LCD interrupt, raises IF bit 1; entering
/// VBlank always raises IF bit 0.
pub open spec fn spec_enter_mode(m: MmuView, mode: Mode) -> MmuView {
    let stat = spec_read8(m, 0xFF41);
    let stat2 = ((stat - stat % 4) + mode.spec_bits()) as u8;
    let m1 = spec_write8(m, 0xFF41, stat2);
    let ie = spec_read8(m1, 0xFFFF);
    let source = match mode {
        Mode::HBlank => (stat2 / 8) % 2 == 1,
        Mode::VBlank => (stat2 / 16) % 2 == 1,
        Mode::OAMSearch => (stat2 / 32) % 2 == 1,
        Mode::PixelTransfer => false,
    };
    let m2 = if source && (ie / 2) % 2 == 1 {
        spec_write8(m1, 0xFF0F, set_bit8(spec_read8(m1, 0xFF0F), 2))
    } else {
        m1
    };
    if mode is VBlank {
        spec_write8(m2, 0xFF0F, set_bit8(spec_read8(m2, 0xFF0F), 1))
    } else {
        m2
    }
}

/// The memory after the LY = LYC coincidence check: with STAT bit 6 and
/// the LCD interrupt enabled, equality raises IF bit 1.
pub open spec fn spec_lyc_check(m: MmuView) -> MmuView {
    let ly = spec_read8(m, 0xFF44);
    let lyc = spec_read8(m, 0xFF45);
    let stat = spec_read8(m, 0xFF41);
    let ie = spec_read8(m, 0xFFFF);
    if ly == lyc && (stat / 64) % 2 == 1 && (ie / 2) % 2 == 1 {
        spec_write8(m, 0xFF0F, set_bit8(spec_read8(m, 0xFF0F), 2))
    } else {
        m
    }
}

/// 4 to the `idx`, the weight of a 2-bit palette entry.
pub open spec fn spec_pow4(idx: u8) -> u8 {
    if idx == 0 {
        1
    } else if idx == 1 {
        4
    } else if idx == 2 {
        16
    } else {
        64
    }
}

/// The shade a palette register assigns to a 2-bit color index.
pub open spec fn spec_shade(pal: u8, idx: u8) -> u8 {
    (pal / spec_pow4(idx)) % 4
}

/// The 2-bit color index of a background or window tile pixel: the tile
/// id comes from the 32x32 map at `map_base`, the two bitplane bytes
/// from 0x8000 + id * 16 in unsigned mode or 0x9000 + (signed) id * 16
/// otherwise, and bit 7 - fx of each plane forms the index.
pub open spec fn spec_tile_color(
    m: MmuView,
    unsigned_mode: bool,
    map_base: int,
    tx: int,
    ty: int,
    fx: int,
    fy: int,
) -> u8 {
    let id = spec_read8(m, (map_base + ty * 32 + tx) as u16);
    let base = if unsigned_mode {
        0x8000 + id * 16
    } else {
        0x9000 + signed8(id) * 16
    };
    let lo = spec_read8(m, (base + fy * 2) as u16);
    let hi = spec_read8(m, (base + fy * 2 + 1) as u16);
    ((lo / spec_pow2u8((7 - fx) as u8)) % 2 + ((hi / spec_pow2u8((7 - fx) as u8)) % 2) * 2) as u8
}

/// The background (or window) 2-bit color index under pixel `x` of line
/// `ly`. With the background disabled (LCDC bit 0) the index is 0; with
/// the window enabled (bit 5) and the pixel at or right of WX - 7 on a
/// line at or below WY, the window's own map and line counter replace
/// the scrolled background.
pub open spec fn spec_bg_index(m: MmuView, ly: u8, wline: u8, x: int) -> u8 {
    let lcdc = spec_read8(m, 0xFF40);
    if lcdc % 2 == 0 {
        0
    } else {
        let wy = spec_read8(m, 0xFF4A);
        let wx = spec_read8(m, 0xFF4B);
        if (lcdc / 32) % 2 == 1 && ly >= wy && x + 7 >= wx {
            let u = x + 7 - wx;
            let map_base = if (lcdc / 64) % 2 == 1 {
                0x9C00int
            } else {
                0x9800int
            };
            spec_tile_color(
                m,
                (lcdc / 16) % 2 == 1,
                map_base,
                u / 8,
                wline as int / 8,
                u % 8,
                wline as int % 8,
            )
        } else {
            let scy = spec_read8(m, 0xFF42);
            let scx = spec_read8(m, 0xFF43);
            let y = (scy + ly) % 256;
            let u = (scx + x) % 256;
            let map_base = if (lcdc / 8) % 2 == 1 {
                0x9C00int
            } else {
                0x9800int
            };
            spec_tile_color(m, (lcdc / 16) % 2 == 1, map_base, u / 8, y / 8, u % 8, y % 8)
        }
    }
}

/// Sprite height: 8, or 16 with LCDC bit 2.
pub open spec fn spec_spr_h(m: MmuView) -> int {
    if (spec_read8(m, 0xFF40) / 4) % 2 == 1 {
        16
    } else {
        8
    }
}

/// The OAM byte `k` of sprite `i`.
pub open spec fn spec_oam(m: MmuView, i: int, k: int) -> u8 {
    spec_read8(m, (0xFE00 + 4 * i + k) as u16)
}

/// Whether sprite `i` covers line `ly`.
pub open spec fn spec_spr_visible(m: MmuView, ly: u8, i: int) -> bool {
    let sy = spec_oam(m, i, 0);
    ly + 16 >= sy && ly + 16 < sy + spec_spr_h(m)
}

/// How many of the sprites before `i` cover line `ly`; only the first
/// ten visible sprites take part in the line.
pub open spec fn spec_vis_count(m: MmuView, ly: u8, i: int) -> int
    decreases i,
{
    if i <= 0 {
        0
    } else {
        spec_vis_count(m, ly, i - 1) + (if spec_spr_visible(m, ly, i - 1) {
            1int
        } else {
            0int
        })
    }
}

/// The 2-bit color index of sprite `i` under pixel `x` of line `ly`,
/// with vertical and horizontal flips applied and the low tile-index
/// bit ignored in 8x16 mode.
pub open spec fn spec_spr_color(m: MmuView, ly: u8, x: int, i: int) -> u8 {
    let sy = spec_oam(m, i, 0);
    let sx = spec_oam(m, i, 1);
    let tile = spec_oam(m, i, 2);
    let attr = spec_oam(m, i, 3);
    let h = spec_spr_h(m);
    let row0 = ly + 16 - sy;
    let row = if (attr / 64) % 2 == 1 {
        h - 1 - row0
    } else {
        row0
    };
    let col0 = x + 8 - sx;
    let col = if (attr / 32) % 2 == 1 {
        7 - col0
    } else {
        col0
    };
    let id = if h == 16 {
        (tile - tile % 2) as int
    } else {
        tile as int
    };
    let lo = spec_read8(m, (0x8000 + id * 16 + row * 2) as u16);
    let hi = spec_read8(m, (0x8000 + id * 16 + row * 2 + 1) as u16);
    ((lo / spec_pow2u8((7 - col) as u8)) % 2 + ((hi / spec_pow2u8((7 - col) as u8)) % 2) * 2) as u8
}

/// Whether sprite `i` contributes a candidate pixel at `x`: among the
/// first ten visible on the line, covering `x`, and not transparent.
pub open spec fn spec_spr_candidate(m: MmuView, ly: u8, x: int, i: int) -> bool {
    spec_spr_visible(m, ly, i) && spec_vis_count(m, ly, i) < 10 && ({
        let sx = spec_oam(m, i, 1);
        x + 8 >= sx && x + 8 < sx + 8
    }) && spec_spr_color(m, ly, x, i) != 0
}

/// The sprite that wins pixel `x` among the candidates with index below
/// `i`: the lowest X, earliest OAM entry on ties; 40 when there is none.
pub open spec fn spec_best_sprite(m: MmuView, ly: u8, x: int, i: int) -> int
    decreases i,
{
    if i <= 0 {
        40
    } else {
        let prev = spec_best_sprite(m, ly, x, i - 1);
        if spec_spr_candidate(m, ly, x, i - 1) {
            if prev == 40 || spec_oam(m, i - 1, 1) < spec_oam(m, prev, 1) {
                i - 1
            } else {
                prev
            }
        } else {
            prev
        }
    }
}

/// The final shade of pixel `x` on line `ly`: the winning sprite pixel
/// through its object palette, unless sprites are disabled, no sprite
/// won, or the winner sits behind a non-zero background pixel; the
/// background index through BGP otherwise.
pub open spec fn spec_line_pixel(m: MmuView, ly: u8, wline: u8, x: int) -> u8 {
    let lcdc = spec_read8(m, 0xFF40);
    let bg = spec_bg_index(m, ly, wline, x);
    let best = spec_best_sprite(m, ly, x, 40);
    if (lcdc / 2) % 2 == 1 && best < 40 && !((spec_oam(m, best, 3) / 128) % 2 == 1 && bg != 0) {
        let pal = if (spec_oam(m, best, 3) / 16) % 2 == 1 {
            spec_read8(m, 0xFF49)
        } else {
            spec_read8(m, 0xFF48)
        };
        spec_shade(pal, spec_spr_color(m, ly, x, best))
    } else {
        spec_shade(spec_read8(m, 0xFF47), bg)
    }
}

/// The framebuffer after line `p.line` is rendered.
#[verifier::opaque]
pub open spec fn spec_fb_after(p: PpuView, m: MmuView) -> Seq<u8> {
    Seq::new(
        160 * 144,
        |i: int|
            if p.line * 160 <= i < p.line * 160 + 160 {
                spec_line_pixel(m, p.line, p.wline, i - p.line * 160)
            } else {
                p.fb[i]
            },
    )
}

/// Whether the window is rendered anywhere on line `ly` (it then
/// advances the internal window line counter).
pub open spec fn spec_window_on_line(m: MmuView, ly: u8) -> bool {
    let lcdc = spec_read8(m, 0xFF40);
    lcdc % 2 == 1 && (lcdc / 32) % 2 == 1 && ly >= spec_read8(m, 0xFF4A) && spec_read8(m, 0xFF4B)
        <= 166
}

/// One more completed frame, wrapping.
pub open spec fn spec_inc_frames(frames: u64) -> u64 {
    if frames == 0xFFFF_FFFF_FFFF_FFFF {
        0
    } else {
        (frames + 1) as u64
    }
}

/// One PPU step: each call runs the current phase to its end and
/// returns its T-cycle cost. With the LCD disabled (LCDC bit 7 clear)
/// the machine idles for 4 T-cycles, touching nothing, so no frame
/// completes and no interrupt is raised until the LCD is re-enabled.
/// Pixel transfer renders the line; HBlank advances LY and enters
/// VBlank after line 143 (completing the frame); each VBlank step is
/// one blank line, and after line 153 LY wraps to 0 into OAM search.
pub open spec fn spec_ppu_step(p: PpuView, m: MmuView) -> (PpuView, MmuView, int) {
    if spec_read8(m, 0xFF40) < 128 {
        (p, m, 4)
    } else {
        spec_ppu_step_on(p, m)
    }
}

/// One PPU step with the LCD enabled.
pub open spec fn spec_ppu_step_on(p: PpuView, m: MmuView) -> (PpuView, MmuView, int) {
    match p.mode {
        Mode::OAMSearch => (
            PpuView { mode: Mode::PixelTransfer, ..p },
            spec_enter_mode(m, Mode::PixelTransfer),
            80,
        ),
        Mode::PixelTransfer => (
            PpuView {
                mode: Mode::HBlank,
                fb: spec_fb_after(p, m),
                wline: if spec_window_on_line(m, p.line) {
                    ((p.wline + 1) % 256) as u8
                } else {
                    p.wline
                },
                ..p
            },
            spec_enter_mode(m, Mode::HBlank),
            172,
        ),
        Mode::HBlank => {
            let line2 = (p.line + 1) as u8;
            let m1 = spec_lyc_check(spec_write8(m, 0xFF44, line2));
            if line2 == 144 {
                (
                    PpuView {
                        mode: Mode::VBlank,
                        line: line2,
                        frames: spec_inc_frames(p.frames),
                        wline: 0,
                        ..p
                    },
                    spec_enter_mode(m1, Mode::VBlank),
                    204,
                )
            } else {
                (
                    PpuView { mode: Mode::OAMSearch, line: line2, ..p },
                    spec_enter_mode(m1, Mode::OAMSearch),
                    204,
                )
            }
        },
        Mode::VBlank => {
            if p.line >= 153 {
                let m1 = spec_lyc_check(spec_write8(m, 0xFF44, 0));
                (
                    PpuView { mode: Mode::OAMSearch, line: 0, ..p },
                    spec_enter_mode(m1, Mode::OAMSearch),
                    456,
                )
            } else {
                let line2 = (p.line + 1) as u8;
                let m1 = spec_lyc_check(spec_write8(m, 0xFF44, line2));
                (PpuView { line: line2, ..p }, m1, 456)
            }
        },
    }
}

/// The sprite that wins a pixel, when there is one, is itself a
/// candidate for that pixel.
proof fn lemma_best_is_candidate(m: MmuView, ly: u8, x: int, i: int)
    ensures
        spec_best_sprite(m, ly, x, i) == 40 || (spec_best_sprite(m, ly, x, i) < i
            && spec_spr_candidate(m, ly, x, spec_best_sprite(m, ly, x, i))),
    decreases i,
{
    if i > 0 {
        lemma_best_is_candidate(m, ly, x, i - 1);
    }
}

/// The rendered framebuffer keeps its 160 x 144 size.
pub proof fn lemma_fb_after_len(p: PpuView, m: MmuView)
    ensures
        spec_fb_after(p, m).len() == 160 * 144,
{
    reveal(spec_fb_after);
}

pub struct PixelProcessingUnit {
    pub mode: Mode,
    pub line: u8,
    pub framebuffer: Vec<u8>,
    pub frame_count: u64,
    pub window_line: u8,
}

impl View for PixelProcessingUnit {
    type V = PpuView;

    open spec fn view(&self) -> PpuView {
        PpuView {
            mode: self.mode,
            line: self.line,
            fb: self.framebuffer@,
            frames: self.frame_count,
            wline: self.window_line,
        }
    }
}

impl PixelProcessingUnit {
    /// A fresh PPU at the top of the frame, the framebuffer all shade 0
    /// (the reset-white baseline).
    pub fn new() -> (p: PixelProcessingUnit)
        ensures
            p@.wf(),
            p@ == (PpuView {
                mode: Mode::OAMSearch,
                line: 0,
                fb: Seq::new(160 * 144, |i: int| 0u8),
                frames: 0,
                wline: 0,
            }),
    {
        let mut framebuffer: Vec<u8> = Vec::new();
        while framebuffer.len() < 160 * 144
            invariant
                framebuffer@ =~= Seq::new(framebuffer@.len(), |i: int| 0u8),
                framebuffer@.len() <= 160 * 144,
            decreases 160 * 144 - framebuffer@.len(),
        {
            framebuffer.push(0);
        }
        assert(framebuffer@ =~= Seq::new(160 * 144, |i: int| 0u8));
        PixelProcessingUnit {
            mode: Mode::OAMSearch,
            line: 0,
            framebuffer,
            frame_count: 0,
            window_line: 0,
        }
    }

    /// Rewrites STAT bits 0-1 and raises the interrupts the transition
    /// owes.
    fn enter_mode(&mut self, mmu: &mut MemoryMapUnit, mode: Mode)
        requires
            old(mmu)@.wf(),
        ensures
            final(mmu)@.wf(),
            final(mmu)@ == spec_enter_mode(old(mmu)@, mode),
            *final(self) == (PixelProcessingUnit { mode, ..*old(self) }),
    {
        self.mode = mode;
        let stat = mmu.read_8(0xFF41);
        let stat2: u8 = (stat - stat % 4) + mode.bits();
        mmu.write_8(0xFF41, stat2);
        let ie = mmu.read_8(0xFFFF);
        let source = match mode {
            Mode::HBlank => (stat2 / 8) % 2 == 1,
            Mode::VBlank => (stat2 / 16) % 2 == 1,
            Mode::OAMSearch => (stat2 / 32) % 2 == 1,
            Mode::PixelTransfer => false,
        };
        if source && (ie / 2) % 2 == 1 {
            let iff = mmu.read_8(0xFF0F);
            mmu.write_8(0xFF0F, iff + (1 - (iff / 2) % 2) * 2);
        }
        if let Mode::VBlank = mode {
            let iff = mmu.read_8(0xFF0F);
            mmu.write_8(0xFF0F, iff + (1 - (iff / 1) % 2) * 1);
        }
    }

    /// The LY = LYC coincidence interrupt source.
    fn lyc_check(&self, mmu: &mut MemoryMapUnit)
        requires
            old(mmu)@.wf(),
        ensures
            final(mmu)@.wf(),
            final(mmu)@ == spec_lyc_check(old(mmu)@),
    {
        let ly = mmu.read_8(0xFF44);
        let lyc = mmu.read_8(0xFF45);
        let stat = mmu.read_8(0xFF41);
        let ie = mmu.read_8(0xFFFF);
        if ly == lyc && (stat / 64) % 2 == 1 && (ie / 2) % 2 == 1 {
            let iff = mmu.read_8(0xFF0F);
            mmu.write_8(0xFF0F, iff + (1 - (iff / 2) % 2) * 2);
        }
    }

    /// One step of the four-phase machine; returns the T-cycle cost of
    /// the phase that just completed.
    #[verifier::spinoff_prover]
    #[verifier::rlimit(100)]
    pub fn step(&mut self, mmu: &mut MemoryMapUnit) -> (t: ClockTicks)
        requires
            old(self)@.wf(),
            old(mmu)@.wf(),
        ensures
            final(self)@.wf(),
            final(mmu)@.wf(),
            (final(self)@, final(mmu)@, t as int) == spec_ppu_step(old(self)@, old(mmu)@),
            t <= 456,
    {
        if mmu.read_8(0xFF40) < 128 {
            return 4;
        }
        match self.mode {
            Mode::OAMSearch => {
                self.enter_mode(mmu, Mode::PixelTransfer);
                80
            },
            Mode::PixelTransfer => {
                proof {
                    lemma_fb_after_len(self@, mmu@);
                }
                self.draw_line(mmu);
                let won = Self::window_on_line(mmu, self.line);
                if won {
                    self.window_line = ((self.window_line as u16 + 1) % 256) as u8;
                }
                self.enter_mode(mmu, Mode::HBlank);
                172
            },
            Mode::HBlank => {
                self.line = self.line + 1;
                mmu.write_8(0xFF44, self.line);
                self.lyc_check(mmu);
                if self.line == 144 {
                    self.frame_count = if self.frame_count == 0xFFFF_FFFF_FFFF_FFFF {
                        0
                    } else {
                        self.frame_count + 1
                    };
                    self.window_line = 0;
                    self.enter_mode(mmu, Mode::VBlank);
                } else {
                    self.enter_mode(mmu, Mode::OAMSearch);
                }
                204
            },
            Mode::VBlank => {
                if self.line >= 153 {
                    self.line = 0;
                    mmu.write_8(0xFF44, 0);
                    self.lyc_check(mmu);
                    self.enter_mode(mmu, Mode::OAMSearch);
                } else {
                    self.line = self.line + 1;
                    mmu.write_8(0xFF44, self.line);
                    self.lyc_check(mmu);
                }
                456
            },
        }
    }

    /// Whether the window is rendered anywhere on `ly`.
    fn window_on_line(mmu: &MemoryMapUnit, ly: u8) -> (r: bool)
        requires
            mmu@.wf(),
        ensures
            r == spec_window_on_line(mmu@, ly),
    {
        let lcdc = mmu.read_8(0xFF40);
        lcdc % 2 == 1 && (lcdc / 32) % 2 == 1 && ly >= mmu.read_8(0xFF4A) && mmu.read_8(0xFF4B)
            <= 166
    }

    /// Renders line `self.line` into the framebuffer.
    fn draw_line(&mut self, mmu: &MemoryMapUnit)
        requires
            old(self)@.wf(),
            mmu@.wf(),
            old(self).line < 144,
        ensures
            *final(self) == (PixelProcessingUnit {
                framebuffer: final(self).framebuffer,
                ..*old(self)
            }),
            final(self).framebuffer@ == spec_fb_after(old(self)@, mmu@),
    {
        proof {
            reveal(spec_fb_after);
        }
        let base: usize = (self.line as usize) * 160;
        let mut x: usize = 0;
        while x < 160
            invariant
                x <= 160,
                base == old(self)@.line * 160,
                old(self).line < 144,
                old(self)@.wf(),
                mmu@.wf(),
                self.mode == old(self).mode,
                self.line == old(self).line,
                self.frame_count == old(self).frame_count,
                self.window_line == old(self).window_line,
                self.framebuffer@.len() == 160 * 144,
                forall|i: int|
                    0 <= i < 160 * 144 && !(base <= i < base + x) ==> self.framebuffer@[i]
                        == old(self).framebuffer@[i],
                forall|j: int|
                    0 <= j < x ==> self.framebuffer@[base + j] == spec_line_pixel(
                        mmu@,
                        old(self).line,
                        old(self).window_line,
                        j,
                    ),
            decreases 160 - x,
        {
            let px = Self::line_pixel(mmu, self.line, self.window_line, x);
            self.framebuffer[base + x] = px;
            x = x + 1;
        }
        assert forall|i: int| 0 <= i < 160 * 144 implies self.framebuffer@[i] == spec_fb_after(
            old(self)@,
            mmu@,
        )[i] by {
            if base <= i < base + 160 {
                assert(self.framebuffer@[base + (i - base)] == spec_line_pixel(
                    mmu@,
                    old(self).line,
                    old(self).window_line,
                    i - base,
                ));
            }
        }
        assert(self.framebuffer@ =~= spec_fb_after(old(self)@, mmu@));
    }

    /// The 2-bit color index of the background or window under pixel
    /// `x`.
    fn bg_index(mmu: &MemoryMapUnit, ly: u8, wline: u8, x: usize) -> (idx: u8)
        requires
            mmu@.wf(),
            x < 160,
        ensures
            idx == spec_bg_index(mmu@, ly, wline, x as int),
            idx < 4,
    {
        let lcdc = mmu.read_8(0xFF40);
        if lcdc % 2 == 0 {
            0
        } else {
            let wy = mmu.read_8(0xFF4A);
            let wx = mmu.read_8(0xFF4B);
            if (lcdc / 32) % 2 == 1 && ly >= wy && x + 7 >= wx as usize {
                let u: usize = x + 7 - wx as usize;
                let map_base: u16 = if (lcdc / 64) % 2 == 1 {
                    0x9C00
                } else {
                    0x9800
                };
                Self::tile_color(
                    mmu,
                    (lcdc / 16) % 2 == 1,
                    map_base,
                    u / 8,
                    (wline / 8) as usize,
                    u % 8,
                    (wline % 8) as usize,
                )
            } else {
                let scy = mmu.read_8(0xFF42);
                let scx = mmu.read_8(0xFF43);
                let y: usize = ((scy as usize) + (ly as usize)) % 256;
                let u: usize = ((scx as usize) + x) % 256;
                let map_base: u16 = if (lcdc / 8) % 2 == 1 {
                    0x9C00
                } else {
                    0x9800
                };
                Self::tile_color(mmu, (lcdc / 16) % 2 == 1, map_base, u / 8, y / 8, u % 8, y % 8)
            }
        }
    }

    /// One tile pixel out of the bitplanes, shared by background and
    /// window.
    fn tile_color(
        mmu: &MemoryMapUnit,
        unsigned_mode: bool,
        map_base: u16,
        tx: usize,
        ty: usize,
        fx: usize,
        fy: usize,
    ) -> (idx: u8)
        requires
            mmu@.wf(),
            map_base == 0x9800 || map_base == 0x9C00,
            tx < 32,
            ty < 32,
            fx < 8,
            fy < 8,
        ensures
            idx == spec_tile_color(
                mmu@,
                unsigned_mode,
                map_base as int,
                tx as int,
                ty as int,
                fx as int,
                fy as int,
            ),
            idx < 4,
    {
        let id = mmu.read_8(map_base + (ty as u16) * 32 + (tx as u16));
        let tile_base: u16 = if unsigned_mode {
            0x8000 + (id as u16) * 16
        } else {
            if id < 128 {
                0x9000 + (id as u16) * 16
            } else {
                0x9000 + (id as u16) * 16 - 0x1000
            }
        };
        let lo = mmu.read_8(tile_base + (fy as u16) * 2);
        let hi = mmu.read_8(tile_base + (fy as u16) * 2 + 1);
        let w = Self::pow2((7 - fx) as u8);
        (lo / w) % 2 + ((hi / w) % 2) * 2
    }

    /// 2 to the `n` as a byte weight.
    fn pow2(n: u8) -> (p: u8)
        requires
            n < 8,
        ensures
            p == spec_pow2u8(n),
    {
        if n == 0 {
            1
        } else if n == 1 {
            2
        } else if n == 2 {
            4
        } else if n == 3 {
            8
        } else if n == 4 {
            16
        } else if n == 5 {
            32
        } else if n == 6 {
            64
        } else {
            128
        }
    }

    /// 4 to the `idx` as a palette weight.
    fn pow4(idx: u8) -> (p: u8)
        requires
            idx < 4,
        ensures
            p == spec_pow4(idx),
    {
        if idx == 0 {
            1
        } else if idx == 1 {
            4
        } else if idx == 2 {
            16
        } else {
            64
        }
    }

    /// The 2-bit color index of sprite `i` under pixel `x`, flips
    /// applied; meaningful when the sprite is visible on the line and
    /// covers the pixel.
    fn spr_color(mmu: &MemoryMapUnit, ly: u8, x: usize, i: usize) -> (idx: u8)
        requires
            mmu@.wf(),
            x < 160,
            i < 40,
            spec_spr_visible(mmu@, ly, i as int),
            ({
                let sx = spec_oam(mmu@, i as int, 1);
                x + 8 >= sx && x + 8 < sx + 8
            }),
        ensures
            idx == spec_spr_color(mmu@, ly, x as int, i as int),
            idx < 4,
    {
        let base: u16 = 0xFE00 + 4 * (i as u16);
        let sy = mmu.read_8(base);
        let sx = mmu.read_8(base + 1);
        let tile = mmu.read_8(base + 2);
        let attr = mmu.read_8(base + 3);
        let h: u16 = if (mmu.read_8(0xFF40) / 4) % 2 == 1 {
            16
        } else {
            8
        };
        let row0: u16 = (ly as u16) + 16 - (sy as u16);
        let row: u16 = if (attr / 64) % 2 == 1 {
            h - 1 - row0
        } else {
            row0
        };
        let col0: u16 = (x as u16) + 8 - (sx as u16);
        let col: u16 = if (attr / 32) % 2 == 1 {
            7 - col0
        } else {
            col0
        };
        let id: u16 = if h == 16 {
            (tile - tile % 2) as u16
        } else {
            tile as u16
        };
        let lo = mmu.read_8(0x8000 + id * 16 + row * 2);
        let hi = mmu.read_8(0x8000 + id * 16 + row * 2 + 1);
        let w = Self::pow2((7 - col) as u8);
        (lo / w) % 2 + ((hi / w) % 2) * 2
    }

    /// The final shade of pixel `x` on line `ly`.
    #[verifier::spinoff_prover]
    #[verifier::rlimit(100)]
    fn line_pixel(mmu: &MemoryMapUnit, ly: u8, wline: u8, x: usize) -> (shade: u8)
        requires
            mmu@.wf(),
            x < 160,
        ensures
            shade == spec_line_pixel(mmu@, ly, wline, x as int),
    {
        let lcdc = mmu.read_8(0xFF40);
        let bg = Self::bg_index(mmu, ly, wline, x);
        let h: u16 = if (lcdc / 4) % 2 == 1 {
            16
        } else {
            8
        };
        let mut best: usize = 40;
        let mut cnt: u8 = 0;
        let mut i: usize = 0;
        while i < 40
            invariant
                mmu@.wf(),
                x < 160,
                i <= 40,
                h == spec_spr_h(mmu@),
                cnt <= i,
                cnt == spec_vis_count(mmu@, ly, i as int),
                best as int == spec_best_sprite(mmu@, ly, x as int, i as int),
                best == 40 || best < i,
            decreases 40 - i,
        {
            let base: u16 = 0xFE00 + 4 * (i as u16);
            let sy = mmu.read_8(base);
            let visible = (ly as u16) + 16 >= (sy as u16) && (ly as u16) + 16 < (sy as u16) + h;
            if visible {
                if cnt < 10 {
                    let sx = mmu.read_8(base + 1);
                    if (x as u16) + 8 >= (sx as u16) && (x as u16) + 8 < (sx as u16) + 8 {
                        let idx = Self::spr_color(mmu, ly, x, i);
                        if idx != 0 {
                            if best == 40 || sx < mmu.read_8(0xFE00 + 4 * (best as u16) + 1) {
                                best = i;
                            }
                        }
                    }
                }
                cnt = cnt + 1;
            }
            i = i + 1;
        }
        proof {
            lemma_best_is_candidate(mmu@, ly, x as int, 40);
        }
        if (lcdc / 2) % 2 == 1 && best < 40 {
            let attr = mmu.read_8(0xFE00 + 4 * (best as u16) + 3);
            if !((attr / 128) % 2 == 1 && bg != 0) {
                let pal = if (attr / 16) % 2 == 1 {
                    mmu.read_8(0xFF49)
                } else {
                    mmu.read_8(0xFF48)
                };
                let idx = Self::spr_color(mmu, ly, x, best);
                return (pal / Self::pow4(idx)) % 4;
            }
        }
        let bgp = mmu.read_8(0xFF47);
        (bgp / Self::pow4(bg)) % 4
    }
}

} // verus!
