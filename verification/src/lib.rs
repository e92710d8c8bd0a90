//! Core emulation engine of a Nintendo Game Boy (DMG): the Sharp LR35902
//! CPU, the memory map unit with cartridge banking, the pixel processing
//! unit, the divider/timer, the joypad register, and the cycle coordinator
//! that advances these subsystems in lockstep.
//!
//! Every subsystem transition is specified by a mathematical model (a spec
//! function over plain values) and the executable code is verified against
//! that model.

pub mod cartridge;
pub mod clock;
pub mod dmg;
pub mod joypad;
pub mod laws;
pub mod lr35902;
pub mod mmu;
pub mod ppu;
pub mod thread;
pub mod timer;

use vstd::prelude::*;

verus! {

/// Number of T-cycles (ticks of the 4.194304 MHz master clock) charged by an
/// operation.
pub type ClockTicks = usize;

} // verus!
