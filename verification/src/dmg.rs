//! The machine coordinator: CPU, PPU, timer and memory in lockstep.
//!
//! Each master T-cycle ticks the timer, then the CPU when its cycle debt
//! has run out, then the PPU likewise; the cost an operation returns
//! becomes the new debt. Wall-clock pacing and the host channels stay
//! with the host; this type only computes.

use vstd::prelude::*;
use crate::cartridge::Cartridge;
use crate::clock::TickCoordinator;
use crate::joypad::Joypad;
use crate::lr35902::{
    LR35902, CpuError, Registers, spec_cpu_step, spec_cpu_step_ok, lemma_step_cycles_bounded,
    c_fetch,
};
use crate::mmu::{MemoryMapUnit, MmuView, spec_read8, spec_write8, spec_timer_tick};
use crate::ppu::{PixelProcessingUnit, PpuView, spec_ppu_step, set_bit8};
use crate::thread::{DmgButton, DmgMessage, GuiMessage};
use crate::ClockTicks;

verus! {

/// The mathematical state of the whole machine.
pub ghost struct GameView {
    pub cpu: LR35902,
    pub mmu: MmuView,
    pub ppu: PpuView,
    pub cpu_debt: int,
    pub ppu_debt: int,
}

impl GameView {
    pub open spec fn wf(self) -> bool {
        self.mmu.wf() && self.ppu.wf() && 0 <= self.cpu_debt <= 0x10000 && 0 <= self.ppu_debt
            <= 0x10000
    }
}

/// Whether the next machine T-cycle completes without a decode fault.
#[verifier::opaque]
pub open spec fn spec_game_tick_ok(g: GameView) -> bool {
    let m1 = spec_timer_tick(g.mmu);
    g.cpu_debt - 1 > 0 || spec_cpu_step_ok(g.cpu, m1)
}

/// One machine T-cycle: the timer advances; the CPU steps if its debt
/// ran out (a decode fault stops the cycle there); the PPU steps if its
/// debt ran out.
#[verifier::opaque]
pub open spec fn spec_game_tick(g: GameView) -> GameView {
    let m1 = spec_timer_tick(g.mmu);
    if g.cpu_debt - 1 <= 0 {
        let (c2, m2, t) = spec_cpu_step(g.cpu, m1);
        if !spec_cpu_step_ok(g.cpu, m1) {
            GameView { cpu: c2, mmu: m2, cpu_debt: 0, ppu_debt: g.ppu_debt, ..g }
        } else {
            let g2 = GameView { cpu: c2, mmu: m2, cpu_debt: t, ..g };
            spec_game_ppu_phase(g2)
        }
    } else {
        spec_game_ppu_phase(GameView { mmu: m1, cpu_debt: g.cpu_debt - 1, ..g })
    }
}

/// The PPU half of a machine T-cycle.
pub open spec fn spec_game_ppu_phase(g: GameView) -> GameView {
    if g.ppu_debt - 1 <= 0 {
        let (p2, m2, t) = spec_ppu_step(g.ppu, g.mmu);
        GameView { ppu: p2, mmu: m2, ppu_debt: t, ..g }
    } else {
        GameView { ppu_debt: g.ppu_debt - 1, ..g }
    }
}

/// `n` machine T-cycles, stopping at the first decode fault; the flag
/// says whether all of them completed.
pub open spec fn spec_game_run(g: GameView, n: nat) -> (GameView, bool)
    decreases n,
{
    if n == 0 {
        (g, true)
    } else if !spec_game_tick_ok(g) {
        (spec_game_tick(g), false)
    } else {
        spec_game_run(spec_game_tick(g), (n - 1) as nat)
    }
}

/// One step-mode instruction: the timer moves one T-cycle, the CPU's
/// debt is cleared and it steps at once, and the PPU absorbs the
/// cleared debt (a decode fault stops before the PPU).
pub open spec fn spec_step_instruction(g: GameView) -> GameView {
    let m1 = spec_timer_tick(g.mmu);
    let forgiven: int = if g.cpu_debt <= 0 {
        0
    } else {
        g.cpu_debt
    };
    let (c2, m2, t) = spec_cpu_step(g.cpu, m1);
    if !spec_cpu_step_ok(g.cpu, m1) {
        GameView { cpu: c2, mmu: m2, cpu_debt: 0, ..g }
    } else if g.ppu_debt - forgiven <= 0 {
        let (p2, m3, pt) = spec_ppu_step(g.ppu, m2);
        GameView { cpu: c2, mmu: m3, ppu: p2, cpu_debt: t, ppu_debt: pt, ..g }
    } else {
        GameView { cpu: c2, mmu: m2, cpu_debt: t, ppu_debt: g.ppu_debt - forgiven, ..g }
    }
}

pub struct DotMatrixGame {
    pub cpu: LR35902,
    pub mmu: MemoryMapUnit,
    pub ppu: PixelProcessingUnit,
    pub cpu_ticks: TickCoordinator,
    pub ppu_ticks: TickCoordinator,
    /// Host pacing: true while normal frame pacing is suspended and the
    /// core only advances on explicit step requests.
    pub step_mode: bool,
    /// Instructions still owed to the host's last step request.
    pub step_count: usize,
}

impl View for DotMatrixGame {
    type V = GameView;

    open spec fn view(&self) -> GameView {
        GameView {
            cpu: self.cpu,
            mmu: self.mmu@,
            ppu: self.ppu@,
            cpu_debt: self.cpu_ticks.ticks_to_wait as int,
            ppu_debt: self.ppu_ticks.ticks_to_wait as int,
        }
    }
}

impl DotMatrixGame {
    /// Builds a machine around a cartridge and a 256-byte boot ROM.
    pub fn new(cartridge: Cartridge, boot_rom: Vec<u8>) -> (g: DotMatrixGame)
        requires
            cartridge@.wf(),
            boot_rom@.len() == 256,
        ensures
            g@.wf(),
            g.cpu == LR35902::new_spec(),
            g.ppu@.frames == 0,
            g.ppu@.line == 0,
            g@.cpu_debt == 1,
            g@.ppu_debt == 1,
            g.mmu@.cart == cartridge@,
            g.mmu@.boot == boot_rom@,
            g.mmu@.boot_enabled,
    {
        DotMatrixGame {
            cpu: LR35902::new(),
            mmu: MemoryMapUnit::new(cartridge, boot_rom),
            ppu: PixelProcessingUnit::new(),
            cpu_ticks: TickCoordinator::new(),
            ppu_ticks: TickCoordinator::new(),
            step_mode: false,
            step_count: 0,
        }
    }

    /// Applies one host message between frames: buttons reach the
    /// joypad, pacing requests update the step-mode latches, a state
    /// request is answered with register and memory snapshots, and
    /// `Close` asks the caller to finish. Only the machine parts the
    /// message names change.
    pub fn handle_message(&mut self, message: GuiMessage) -> (r: (bool, Vec<DmgMessage>))
        requires
            old(self)@.wf(),
        ensures
            final(self)@.wf(),
            r.0 == !(message is Close),
            match message {
                GuiMessage::Close => *final(self) == *old(self) && r.1@.len() == 0,
                GuiMessage::StepMode(mode) => *final(self) == (DotMatrixGame {
                    step_mode: mode,
                    ..*old(self)
                }) && r.1@.len() == 0,
                GuiMessage::NextInstruction(count) => *final(self) == (DotMatrixGame {
                    step_count: count,
                    ..*old(self)
                }) && r.1@.len() == 0,
                GuiMessage::RequestState => *final(self) == *old(self) && r.1@.len() == 2 && (
                r.1@[0] matches DmgMessage::RegistersStatus(regs) && regs
                    == old(self).cpu.registers) && (r.1@[1] matches DmgMessage::MemoryState(mem)
                    && mem@.len() == 0x10000 && (forall|a: int|
                    0 <= a < 0x10000 ==> mem@[a] == spec_read8(old(self)@.mmu, a as u16))),
                GuiMessage::ButtonPressed(_) | GuiMessage::ButtonReleased(_) => r.1@.len() == 0,
            },
            ({
                let (j2, raise) = Joypad::spec_press(
                    old(self)@.mmu.joypad,
                    match message {
                        GuiMessage::ButtonPressed(b) => b,
                        _ => DmgButton::A,
                    },
                );
                let m1 = MmuView { joypad: j2, ..old(self)@.mmu };
                (message matches GuiMessage::ButtonPressed(_)) ==> final(self)@ == (GameView {
                    mmu: if raise {
                        spec_write8(m1, 0xFF0F, set_bit8(spec_read8(m1, 0xFF0F), 16))
                    } else {
                        m1
                    },
                    ..old(self)@
                })
            }),
            (message matches GuiMessage::ButtonReleased(b)) ==> final(self)@ == (GameView {
                mmu: MmuView {
                    joypad: Joypad::spec_release(
                        old(self)@.mmu.joypad,
                        match message {
                            GuiMessage::ButtonReleased(b2) => b2,
                            _ => DmgButton::A,
                        },
                    ),
                    ..old(self)@.mmu
                },
                ..old(self)@
            }),
    {
        match message {
            GuiMessage::Close => (false, Vec::new()),
            GuiMessage::StepMode(mode) => {
                self.step_mode = mode;
                (true, Vec::new())
            },
            GuiMessage::NextInstruction(count) => {
                self.step_count = count;
                (true, Vec::new())
            },
            GuiMessage::RequestState => {
                let mut replies: Vec<DmgMessage> = Vec::new();
                replies.push(DmgMessage::RegistersStatus(self.registers()));
                replies.push(DmgMessage::MemoryState(self.memory_dump()));
                (true, replies)
            },
            GuiMessage::ButtonPressed(button) => {
                self.button_pressed(button);
                (true, Vec::new())
            },
            GuiMessage::ButtonReleased(button) => {
                self.button_released(button);
                (true, Vec::new())
            },
        }
    }

    /// One machine T-cycle; the decode fault on an unused opcode is
    /// fatal and surfaces here.
    pub fn tick(&mut self) -> (r: Result<(), CpuError>)
        requires
            old(self)@.wf(),
        ensures
            final(self)@.wf(),
            final(self)@ == spec_game_tick(old(self)@),
            (r matches Ok(())) <==> spec_game_tick_ok(old(self)@),
            final(self).step_mode == old(self).step_mode,
            final(self).step_count == old(self).step_count,
    {
        proof {
            reveal(spec_game_tick);
            reveal(spec_game_tick_ok);
        }
        self.mmu.timer_tick();
        let cpu_due = self.cpu_ticks.tick();
        if cpu_due {
            proof {
                lemma_step_cycles_bounded(
                    spec_read8(self.mmu@, self.cpu.registers.pc),
                    c_fetch(self.cpu),
                    self.mmu@,
                );
            }
            match self.cpu.step(&mut self.mmu) {
                Ok(t) => {
                    self.cpu_ticks.wait_for(t);
                },
                Err(e) => {
                    self.cpu_ticks.wait_for(0);
                    return Err(e);
                },
            }
        }
        let ppu_due = self.ppu_ticks.tick();
        if ppu_due {
            let t = self.ppu.step(&mut self.mmu);
            self.ppu_ticks.wait_for(t);
        }
        Ok(())
    }

    /// Runs `n` machine T-cycles, stopping at the first decode fault.
    pub fn run_ticks(&mut self, n: usize) -> (r: Result<(), CpuError>)
        requires
            old(self)@.wf(),
        ensures
            final(self)@.wf(),
            (final(self)@, r matches Ok(())) == spec_game_run(old(self)@, n as nat),
            final(self).step_mode == old(self).step_mode,
            final(self).step_count == old(self).step_count,
    {
        let mut i: usize = 0;
        while i < n
            invariant
                i <= n,
                self@.wf(),
                (self@, true) == spec_game_run(old(self)@, i as nat),
                self.step_mode == old(self).step_mode,
                self.step_count == old(self).step_count,
            decreases n - i,
        {
            match self.tick() {
                Ok(()) => {},
                Err(e) => {
                    proof {
                        lemma_game_run_stops(old(self)@, i as nat, n as nat);
                    }
                    return Err(e);
                },
            }
            proof {
                lemma_game_run_extend(old(self)@, i as nat);
            }
            i = i + 1;
        }
        Ok(())
    }

    /// One instruction of step mode: the timer advances one T-cycle, the
    /// CPU's remaining debt is forgiven and it executes immediately, and
    /// the PPU catches up by the forgiven debt. Timing inside a stepped
    /// instruction is therefore approximate; normal pacing uses `tick`.
    #[verifier::spinoff_prover]
    pub fn step_instruction(&mut self) -> (r: Result<ClockTicks, CpuError>)
        requires
            old(self)@.wf(),
        ensures
            final(self)@.wf(),
            final(self)@ == spec_step_instruction(old(self)@),
            final(self).step_mode == old(self).step_mode,
            final(self).step_count == old(self).step_count,
            (r matches Ok(_)) <==> spec_cpu_step_ok(old(self)@.cpu, spec_timer_tick(old(self)@.mmu)),
            r matches Ok(t) ==> t == spec_cpu_step(
                old(self)@.cpu,
                spec_timer_tick(old(self)@.mmu),
            ).2,
    {
        self.mmu.timer_tick();
        let forgiven = self.cpu_ticks.tick_all();
        proof {
            lemma_step_cycles_bounded(
                spec_read8(self.mmu@, self.cpu.registers.pc),
                c_fetch(self.cpu),
                self.mmu@,
            );
        }
        match self.cpu.step(&mut self.mmu) {
            Ok(t) => {
                self.cpu_ticks.wait_for(t);
                if self.ppu_ticks.ticks(forgiven) {
                    let pt = self.ppu.step(&mut self.mmu);
                    self.ppu_ticks.wait_for(pt);
                }
                Ok(t)
            },
            Err(e) => {
                self.cpu_ticks.wait_for(0);
                Err(e)
            },
        }
    }

    /// Forwards a button press to the joypad; a press in the active half
    /// raises the joypad interrupt (IF bit 4).
    pub fn button_pressed(&mut self, button: DmgButton)
        requires
            old(self)@.wf(),
        ensures
            final(self)@.wf(),
            ({
                let (j2, raise) = Joypad::spec_press(old(self)@.mmu.joypad, button);
                let m1 = MmuView { joypad: j2, ..old(self)@.mmu };
                final(self)@ == (GameView {
                    mmu: if raise {
                        spec_write8(m1, 0xFF0F, set_bit8(spec_read8(m1, 0xFF0F), 16))
                    } else {
                        m1
                    },
                    ..old(self)@
                })
            }),
    {
        let raise = self.mmu.joypad.button_pressed(button);
        if raise {
            let iff = self.mmu.read_8(0xFF0F);
            self.mmu.write_8(0xFF0F, iff + (1 - (iff / 16) % 2) * 16);
        }
    }

    /// Forwards a button release to the joypad.
    pub fn button_released(&mut self, button: DmgButton)
        requires
            old(self)@.wf(),
        ensures
            final(self)@.wf(),
            final(self)@ == (GameView {
                mmu: MmuView {
                    joypad: Joypad::spec_release(old(self)@.mmu.joypad, button),
                    ..old(self)@.mmu
                },
                ..old(self)@
            }),
    {
        self.mmu.joypad.button_released(button);
    }

    /// A copy of the CPU register file, for the host's register view.
    pub fn registers(&self) -> (r: Registers)
        ensures
            r == self.cpu.registers,
    {
        self.cpu.registers
    }

    /// A snapshot of the 64 KiB address space as reads would see it.
    pub fn memory_dump(&self) -> (dump: Vec<u8>)
        requires
            self@.wf(),
        ensures
            dump@.len() == 0x10000,
            forall|a: int| 0 <= a < 0x10000 ==> dump@[a] == spec_read8(self@.mmu, a as u16),
    {
        self.mmu.get_memory_dump()
    }

    /// The completed-frame counter; it advances by one at each VBlank
    /// entry.
    pub fn frame_count(&self) -> (n: u64)
        ensures
            n == self@.ppu.frames,
    {
        self.ppu.frame_count
    }

    /// The current 160x144 framebuffer of 2-bit shades, row-major.
    pub fn framebuffer(&self) -> (fb: &Vec<u8>)
        ensures
            fb@ == self@.ppu.fb,
    {
        &self.ppu.framebuffer
    }
}

/// Running one more T-cycle from a clean prefix extends the run.
proof fn lemma_game_run_extend(g: GameView, i: nat)
    requires
        spec_game_run(g, i).1,
    ensures
        spec_game_run(g, i + 1) == (spec_game_tick(spec_game_run(g, i).0), spec_game_tick_ok(
            spec_game_run(g, i).0,
        )),
    decreases i,
{
    if i == 0 {
        assert(spec_game_run(g, 0).0 == g);
        assert(spec_game_run(g, 1) == if !spec_game_tick_ok(g) {
            (spec_game_tick(g), false)
        } else {
            spec_game_run(spec_game_tick(g), 0)
        });
    } else {
        assert(spec_game_tick_ok(g)) by {
            assert(spec_game_run(g, i) == if !spec_game_tick_ok(g) {
                (spec_game_tick(g), false)
            } else {
                spec_game_run(spec_game_tick(g), (i - 1) as nat)
            });
        }
        assert(spec_game_run(g, i) == spec_game_run(spec_game_tick(g), (i - 1) as nat));
        lemma_game_run_extend(spec_game_tick(g), (i - 1) as nat);
        assert(spec_game_run(g, (i + 1) as nat) == spec_game_run(
            spec_game_tick(g),
            ((i - 1) + 1) as nat,
        ));
    }
}

/// A decode fault at T-cycle `i` ends every longer run in the same
/// state.
proof fn lemma_game_run_stops(g: GameView, i: nat, n: nat)
    requires
        i < n,
        spec_game_run(g, i).1,
        !spec_game_tick_ok(spec_game_run(g, i).0),
    ensures
        spec_game_run(g, n) == (spec_game_tick(spec_game_run(g, i).0), false),
    decreases i,
{
    if i > 0 {
        lemma_game_run_stops(spec_game_tick(g), (i - 1) as nat, (n - 1) as nat);
    }
}

} // verus!
