//! The joypad register (FF00).
//!
//! Two 4-bit masks hold the button matrix: one for the directional pad and
//! one for the action buttons, a set bit meaning "released". Bits 4-5 of a
//! write to FF00 select which half appears in bits 0-3 of a read (a cleared
//! select bit activates its half; with both halves active the nibbles are
//! combined with AND, with neither the nibble reads 0xF). A press of a
//! button in an active half raises the joypad interrupt.

use vstd::prelude::*;
use crate::thread::DmgButton;

verus! {

/// Which halves of the button matrix are visible in FF00 bits 0-3,
/// as encoded by the two select bits (bit 4 gates the action buttons,
/// bit 5 gates the directional pad; 0 = selected).
pub enum SelectMode {
    /// Select bits 00: both halves combined with AND.
    Both,
    /// Select bits 01: the directional pad.
    DirectionalPad,
    /// Select bits 10: the action buttons.
    Buttons,
    /// Select bits 11: neither half; the nibble reads 0xF.
    Other,
}

pub struct Joypad {
    /// Action buttons, bits 0-3 = A, B, Select, Start; 1 = released.
    pub buttons: u8,
    /// Directional pad, bits 0-3 = Right, Left, Up, Down; 1 = released.
    pub d_pad: u8,
    pub select_mode: SelectMode,
}

impl Joypad {
    /// Both masks fit in four bits.
    pub open spec fn wf(self) -> bool {
        self.buttons < 16 && self.d_pad < 16
    }

    /// The two select bits as they appear in FF00 bits 4-5.
    pub open spec fn spec_select_bits(self) -> u8 {
        match self.select_mode {
            SelectMode::Both => 0,
            SelectMode::DirectionalPad => 1,
            SelectMode::Buttons => 2,
            SelectMode::Other => 3,
        }
    }

    /// The select mode stored by a write of `value` to FF00.
    pub open spec fn spec_select_of(value: u8) -> SelectMode {
        if (value / 16) % 4 == 0 {
            SelectMode::Both
        } else if (value / 16) % 4 == 1 {
            SelectMode::DirectionalPad
        } else if (value / 16) % 4 == 2 {
            SelectMode::Buttons
        } else {
            SelectMode::Other
        }
    }

    /// The nibble visible in FF00 bits 0-3: the AND of the active halves,
    /// 0xF when neither half is active.
    pub open spec fn spec_nibble(self) -> u8 {
        match self.select_mode {
            SelectMode::Both => self.d_pad & self.buttons,
            SelectMode::DirectionalPad => self.d_pad,
            SelectMode::Buttons => self.buttons,
            SelectMode::Other => 0xF,
        }
    }

    /// The byte a read of FF00 returns: select bits in 4-5, nibble in 0-3.
    pub open spec fn spec_read(self) -> u8 {
        (self.spec_select_bits() * 16 + self.spec_nibble()) as u8
    }

    /// The bit weight of `button` within its half of the matrix.
    pub open spec fn spec_button_weight(button: DmgButton) -> u8 {
        match button {
            DmgButton::Right => 1,
            DmgButton::Left => 2,
            DmgButton::Up => 4,
            DmgButton::Down => 8,
            DmgButton::A => 1,
            DmgButton::B => 2,
            DmgButton::Select => 4,
            DmgButton::Start => 8,
        }
    }

    /// Whether `button` sits in the directional-pad half.
    pub open spec fn spec_is_directional(button: DmgButton) -> bool {
        match button {
            DmgButton::Right | DmgButton::Left | DmgButton::Up | DmgButton::Down => true,
            _ => false,
        }
    }

    /// Whether the half holding `button` is active under the current select
    /// mode, so that a press of it raises the joypad interrupt.
    pub open spec fn spec_half_active(self, button: DmgButton) -> bool {
        match self.select_mode {
            SelectMode::Both => true,
            SelectMode::DirectionalPad => Self::spec_is_directional(button),
            SelectMode::Buttons => !Self::spec_is_directional(button),
            SelectMode::Other => false,
        }
    }

    /// The mask of the half holding `button`.
    pub open spec fn spec_half_of(self, button: DmgButton) -> u8 {
        if Self::spec_is_directional(button) {
            self.d_pad
        } else {
            self.buttons
        }
    }

    /// The reset joypad: everything released, neither half selected.
    pub open spec fn new_spec() -> Joypad {
        Joypad { buttons: 0xF, d_pad: 0xF, select_mode: SelectMode::Other }
    }

    /// The joypad after a press of `button`: its bit cleared; the press
    /// raises the interrupt exactly when the bit was set and the half
    /// holding the button is active.
    pub open spec fn spec_press(j: Joypad, button: DmgButton) -> (Joypad, bool) {
        let w = Self::spec_button_weight(button);
        let half = j.spec_half_of(button);
        let cleared = (half - (half / w) % 2 * w) as u8;
        let j2 = if Self::spec_is_directional(button) {
            Joypad { d_pad: cleared, ..j }
        } else {
            Joypad { buttons: cleared, ..j }
        };
        (j2, (half / w) % 2 == 1 && j.spec_half_active(button))
    }

    /// The joypad after a release of `button`: its bit set.
    pub open spec fn spec_release(j: Joypad, button: DmgButton) -> Joypad {
        let w = Self::spec_button_weight(button);
        let half = j.spec_half_of(button);
        let set = (half + (1 - (half / w) % 2) * w) as u8;
        if Self::spec_is_directional(button) {
            Joypad { d_pad: set, ..j }
        } else {
            Joypad { buttons: set, ..j }
        }
    }

    pub fn new() -> (j: Joypad)
        ensures
            j.wf(),
            j == Joypad::new_spec(),
    {
        Joypad { buttons: 0xF, d_pad: 0xF, select_mode: SelectMode::Other }
    }

    /// Clears the button's bit (1 -> 0 is "pressed"); returns whether the
    /// joypad interrupt is raised, which it is exactly when the bit was set
    /// and the half holding the button is active.
    pub fn button_pressed(&mut self, button: DmgButton) -> (raise: bool)
        requires
            old(self).wf(),
        ensures
            final(self).wf(),
            final(self).select_mode == old(self).select_mode,
            final(self).spec_half_of(button) == (
                old(self).spec_half_of(button)
                    - (old(self).spec_half_of(button) / Self::spec_button_weight(button)) % 2
                        * Self::spec_button_weight(button)
            ),
            Self::spec_is_directional(button) ==> final(self).buttons == old(self).buttons,
            !Self::spec_is_directional(button) ==> final(self).d_pad == old(self).d_pad,
            raise == (old(self).spec_half_of(button) / Self::spec_button_weight(button) % 2 == 1
                && old(self).spec_half_active(button)),
            (*final(self), raise) == Self::spec_press(*old(self), button),
    {
        let w: u8 = match button {
            DmgButton::Right => 1,
            DmgButton::Left => 2,
            DmgButton::Up => 4,
            DmgButton::Down => 8,
            DmgButton::A => 1,
            DmgButton::B => 2,
            DmgButton::Select => 4,
            DmgButton::Start => 8,
        };
        let directional = match button {
            DmgButton::Right | DmgButton::Left | DmgButton::Up | DmgButton::Down => true,
            _ => false,
        };
        let half: u8 = if directional { self.d_pad } else { self.buttons };
        let was_released = (half / w) % 2 == 1;
        let cleared: u8 = half - ((half / w) % 2) * w;
        if directional {
            self.d_pad = cleared;
        } else {
            self.buttons = cleared;
        }
        let active = match self.select_mode {
            SelectMode::Both => true,
            SelectMode::DirectionalPad => directional,
            SelectMode::Buttons => !directional,
            SelectMode::Other => false,
        };
        was_released && active
    }

    /// Sets the button's bit back to 1 (released).
    pub fn button_released(&mut self, button: DmgButton)
        requires
            old(self).wf(),
        ensures
            final(self).wf(),
            final(self).select_mode == old(self).select_mode,
            final(self).spec_half_of(button) == (
                old(self).spec_half_of(button)
                    + (1 - (old(self).spec_half_of(button) / Self::spec_button_weight(button)) % 2)
                        * Self::spec_button_weight(button)
            ),
            Self::spec_is_directional(button) ==> final(self).buttons == old(self).buttons,
            !Self::spec_is_directional(button) ==> final(self).d_pad == old(self).d_pad,
            *final(self) == Self::spec_release(*old(self), button),
    {
        let w: u8 = match button {
            DmgButton::Right => 1,
            DmgButton::Left => 2,
            DmgButton::Up => 4,
            DmgButton::Down => 8,
            DmgButton::A => 1,
            DmgButton::B => 2,
            DmgButton::Select => 4,
            DmgButton::Start => 8,
        };
        let directional = match button {
            DmgButton::Right | DmgButton::Left | DmgButton::Up | DmgButton::Down => true,
            _ => false,
        };
        let half: u8 = if directional { self.d_pad } else { self.buttons };
        assert(half < 16);
        let set: u8 = half + (1 - (half / w) % 2) * w;
        if directional {
            self.d_pad = set;
        } else {
            self.buttons = set;
        }
    }

    /// Stores the two select bits of `value`.
    pub fn write(&mut self, value: u8)
        ensures
            final(self).buttons == old(self).buttons,
            final(self).d_pad == old(self).d_pad,
            final(self).select_mode == Self::spec_select_of(value),
    {
        let bits = (value / 16) % 4;
        self.select_mode = if bits == 0 {
            SelectMode::Both
        } else if bits == 1 {
            SelectMode::DirectionalPad
        } else if bits == 2 {
            SelectMode::Buttons
        } else {
            SelectMode::Other
        };
    }

    /// Assembles the FF00 byte from the stored select bits and masks.
    pub fn read(&self) -> (value: u8)
        requires
            self.wf(),
        ensures
            value == self.spec_read(),
    {
        let nibble: u8 = match self.select_mode {
            SelectMode::Both => self.d_pad & self.buttons,
            SelectMode::DirectionalPad => self.d_pad,
            SelectMode::Buttons => self.buttons,
            SelectMode::Other => 0xF,
        };
        let sel: u8 = match self.select_mode {
            SelectMode::Both => 0,
            SelectMode::DirectionalPad => 1,
            SelectMode::Buttons => 2,
            SelectMode::Other => 3,
        };
        proof {
            let d = self.d_pad;
            let b = self.buttons;
            assert(d & b < 16) by (bit_vector)
                requires
                    d < 16,
            ;
        }
        sel * 16 + nibble
    }
}

/// Two writes to FF00 that carry the same select bits leave the register
/// reading the same value: the stored state depends only on those bits, and
/// a read is a function of the stored state.
pub proof fn lemma_same_select_same_read(j: Joypad, v1: u8, v2: u8)
    requires
        (v1 / 16) % 4 == (v2 / 16) % 4,
    ensures
        (Joypad { select_mode: Joypad::spec_select_of(v1), ..j }).spec_read() == (Joypad {
            select_mode: Joypad::spec_select_of(v2),
            ..j
        }).spec_read(),
{
}

} // verus!
