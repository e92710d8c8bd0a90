//! Messages exchanged between the emulation core and a host front end.
//!
//! The core and the host are two cooperating single-threaded actors joined
//! by two unidirectional channels; these enums are the payloads. The core
//! side only produces and consumes plain values, so the types live here and
//! the channel plumbing stays with the host.

use vstd::prelude::*;
use crate::lr35902::Registers;

verus! {

/// A message from the emulation core to the host.
pub enum DmgMessage {
    /// A snapshot of the CPU register file, sent on request.
    RegistersStatus(Registers),
    /// A snapshot of the 64 KiB address space, sent on request.
    MemoryState(Vec<u8>),
    /// A completed 160x144 frame of 2-bit shade indices, sent once per
    /// VBlank entry.
    Render(Vec<u8>),
}

/// One of the eight Game Boy buttons.
pub enum DmgButton {
    Up,
    Down,
    Left,
    Right,
    A,
    B,
    Start,
    Select,
}

/// A message from the host to the emulation core.
pub enum GuiMessage {
    ButtonPressed(DmgButton),
    ButtonReleased(DmgButton),
    NextInstruction(usize),
    RequestState,
    Close,
    StepMode(bool),
}

} // verus!
