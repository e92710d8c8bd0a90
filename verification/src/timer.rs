//! The divider and timer registers (FF04-FF07).
//!
//! A 16-bit counter advances once per T-cycle; DIV (FF04) exposes its high
//! byte and any write resets the whole counter. TIMA (FF05) increments on a
//! falling edge of the signal `enable AND tapped-divider-bit`, where TAC
//! (FF07) bit 2 is the enable and bits 0-1 pick the tapped bit (9, 3, 5, 7
//! for selectors 0-3, periods 1024/16/64/256 T-cycles). Because the edge
//! detector watches the combined signal, writes to DIV or TAC that drop the
//! signal while it was high produce the spurious TIMA increment the DMG is
//! known for. On overflow TIMA holds zero for four T-cycles, then reloads
//! from TMA (FF06) and raises the timer interrupt; a TIMA write during the
//! window aborts the reload and a TMA write during it is what gets loaded.

use vstd::prelude::*;

verus! {

/// The two TAC clock-select bits (which divider bit feeds TIMA).
#[derive(Clone, Copy, PartialEq, Eq, Structural, Debug)]
pub enum ClockType {
    /// Selector 00: bit 9, period 1024 T-cycles.
    Zero,
    /// Selector 01: bit 3, period 16 T-cycles.
    One,
    /// Selector 10: bit 5, period 64 T-cycles.
    Two,
    /// Selector 11: bit 7, period 256 T-cycles.
    Three,
}

impl ClockType {
    /// The weight of the tapped divider bit (2 to the bit index).
    pub open spec fn spec_weight(self) -> u16 {
        match self {
            ClockType::Zero => 512,
            ClockType::One => 8,
            ClockType::Two => 32,
            ClockType::Three => 128,
        }
    }

    /// The selector as stored in TAC bits 0-1.
    pub open spec fn spec_bits(self) -> u8 {
        match self {
            ClockType::Zero => 0,
            ClockType::One => 1,
            ClockType::Two => 2,
            ClockType::Three => 3,
        }
    }

    /// The clock selected by the low two bits of a TAC write.
    pub open spec fn spec_of_bits(value: u8) -> ClockType {
        if value % 4 == 0 {
            ClockType::Zero
        } else if value % 4 == 1 {
            ClockType::One
        } else if value % 4 == 2 {
            ClockType::Two
        } else {
            ClockType::Three
        }
    }

    pub fn from_bits(value: u8) -> (c: ClockType)
        ensures
            c == Self::spec_of_bits(value),
    {
        let two = value % 4;
        if two == 0 {
            ClockType::Zero
        } else if two == 1 {
            ClockType::One
        } else if two == 2 {
            ClockType::Two
        } else {
            ClockType::Three
        }
    }

    pub fn weight(self) -> (w: u16)
        ensures
            w == self.spec_weight(),
    {
        match self {
            ClockType::Zero => 512,
            ClockType::One => 8,
            ClockType::Two => 32,
            ClockType::Three => 128,
        }
    }

    pub fn bits(self) -> (b: u8)
        ensures
            b == self.spec_bits(),
    {
        match self {
            ClockType::Zero => 0,
            ClockType::One => 1,
            ClockType::Two => 2,
            ClockType::Three => 3,
        }
    }
}

#[derive(Clone, Copy, PartialEq, Eq, Structural, Debug)]
pub struct Timer {
    /// The internal 16-bit divider, advanced once per T-cycle; DIV is its
    /// high byte.
    pub counter: u16,
    /// TIMA, the counting register (FF05).
    pub tima: u8,
    /// TMA, the modulo reloaded into TIMA after overflow (FF06).
    pub modulo: u8,
    /// TAC bit 2.
    pub enable: bool,
    /// TAC bits 0-1.
    pub selected_clock: ClockType,
    /// T-cycles left until the pending overflow reload fires; 0 when no
    /// overflow is pending.
    pub reload_delay: u8,
}

impl Timer {
    pub open spec fn wf(self) -> bool {
        self.reload_delay <= 4
    }

    /// The signal watched by the falling-edge detector: the enable bit
    /// ANDed with the tapped divider bit.
    pub open spec fn spec_signal(self) -> bool {
        self.enable && (self.counter / self.selected_clock.spec_weight()) % 2 == 1
    }

    /// The timer after a TIMA increment: on overflow TIMA becomes zero and
    /// the four-cycle reload window opens.
    pub open spec fn spec_inc_tima(self) -> Timer {
        if self.tima == 255 {
            Timer { tima: 0, reload_delay: 4, ..self }
        } else {
            Timer { tima: (self.tima + 1) as u8, ..self }
        }
    }

    /// One T-cycle: the reload window counts down (firing reloads TIMA from
    /// TMA and raises the interrupt), the divider advances, and a falling
    /// edge of the watched signal increments TIMA.
    pub open spec fn spec_tick(self) -> (Timer, bool) {
        let (t1, raise) = if self.reload_delay > 0 {
            if self.reload_delay == 1 {
                (Timer { tima: self.modulo, reload_delay: 0, ..self }, true)
            } else {
                (Timer { reload_delay: (self.reload_delay - 1) as u8, ..self }, false)
            }
        } else {
            (self, false)
        };
        let t2 = Timer { counter: ((t1.counter + 1) % 0x10000) as u16, ..t1 };
        if self.spec_signal() && !t2.spec_signal() {
            (t2.spec_inc_tima(), raise)
        } else {
            (t2, raise)
        }
    }

    /// The value a read of `address` returns; DIV is the divider's high
    /// byte and TAC reassembles enable and selector.
    pub open spec fn spec_read(self, address: u16) -> u8 {
        if address == 0xFF04 {
            (self.counter / 256) as u8
        } else if address == 0xFF05 {
            self.tima
        } else if address == 0xFF06 {
            self.modulo
        } else {
            ((if self.enable { 4int } else { 0int }) + self.selected_clock.spec_bits()) as u8
        }
    }

    /// The timer after a write to `address`. DIV and TAC writes that drop
    /// the watched signal while it was high increment TIMA; a TIMA write
    /// aborts a pending reload.
    pub open spec fn spec_write(self, address: u16, value: u8) -> Timer {
        if address == 0xFF04 {
            let t = Timer { counter: 0, ..self };
            if self.spec_signal() && !t.spec_signal() {
                t.spec_inc_tima()
            } else {
                t
            }
        } else if address == 0xFF05 {
            Timer { tima: value, reload_delay: 0, ..self }
        } else if address == 0xFF06 {
            Timer { modulo: value, ..self }
        } else {
            let t = Timer {
                enable: (value / 4) % 2 == 1,
                selected_clock: ClockType::spec_of_bits(value),
                ..self
            };
            if self.spec_signal() && !t.spec_signal() {
                t.spec_inc_tima()
            } else {
                t
            }
        }
    }

    /// The reset timer: everything zero, counting disabled.
    pub open spec fn new_spec() -> Timer {
        Timer {
            counter: 0,
            tima: 0,
            modulo: 0,
            enable: false,
            selected_clock: ClockType::Zero,
            reload_delay: 0,
        }
    }

    pub fn new() -> (t: Timer)
        ensures
            t == Timer::new_spec(),
    {
        Timer {
            counter: 0,
            tima: 0,
            modulo: 0,
            enable: false,
            selected_clock: ClockType::Zero,
            reload_delay: 0,
        }
    }

    fn signal(&self) -> (s: bool)
        ensures
            s == self.spec_signal(),
    {
        self.enable && (self.counter / self.selected_clock.weight()) % 2 == 1
    }

    fn inc_tima(&mut self)
        ensures
            *final(self) == old(self).spec_inc_tima(),
    {
        if self.tima == 255 {
            self.tima = 0;
            self.reload_delay = 4;
        } else {
            self.tima = self.tima + 1;
        }
    }

    /// Advances the timer by one T-cycle; returns whether the timer
    /// interrupt is raised (which happens exactly when the overflow reload
    /// fires).
    pub fn tick(&mut self) -> (raise: bool)
        requires
            old(self).wf(),
        ensures
            final(self).wf(),
            (*final(self), raise) == old(self).spec_tick(),
    {
        let mut raise = false;
        if self.reload_delay > 0 {
            if self.reload_delay == 1 {
                self.tima = self.modulo;
                self.reload_delay = 0;
                raise = true;
            } else {
                self.reload_delay = self.reload_delay - 1;
            }
        }
        let old_signal = self.enable && (self.counter / self.selected_clock.weight()) % 2 == 1;
        self.counter = (((self.counter as u32) + 1) % 0x10000) as u16;
        let new_signal = self.signal();
        if old_signal && !new_signal {
            self.inc_tima();
        }
        raise
    }

    /// A write to one of FF04-FF07.
    pub fn write_8(&mut self, address: u16, value: u8)
        requires
            old(self).wf(),
            0xFF04 <= address <= 0xFF07,
        ensures
            final(self).wf(),
            *final(self) == old(self).spec_write(address, value),
    {
        if address == 0xFF04 {
            let old_signal = self.signal();
            self.counter = 0;
            let new_signal = self.signal();
            if old_signal && !new_signal {
                self.inc_tima();
            }
        } else if address == 0xFF05 {
            self.tima = value;
            self.reload_delay = 0;
        } else if address == 0xFF06 {
            self.modulo = value;
        } else {
            let old_signal = self.signal();
            self.enable = (value / 4) % 2 == 1;
            self.selected_clock = ClockType::from_bits(value);
            let new_signal = self.signal();
            if old_signal && !new_signal {
                self.inc_tima();
            }
        }
    }

    /// A read of one of FF04-FF07.
    pub fn read_8(&self, address: u16) -> (value: u8)
        requires
            0xFF04 <= address <= 0xFF07,
        ensures
            value == self.spec_read(address),
    {
        if address == 0xFF04 {
            (self.counter / 256) as u8
        } else if address == 0xFF05 {
            self.tima
        } else if address == 0xFF06 {
            self.modulo
        } else {
            (if self.enable { 4u8 } else { 0u8 }) + self.selected_clock.bits()
        }
    }
}

/// The timer after `n` T-cycles.
pub open spec fn spec_tick_n(t: Timer, n: nat) -> Timer
    decreases n,
{
    if n == 0 {
        t
    } else {
        spec_tick_n(t, (n - 1) as nat).spec_tick().0
    }
}

/// The divider is not disturbed by TIMA activity: after `n` T-cycles it has
/// advanced by exactly `n`, wrapping at 16 bits.
pub proof fn lemma_counter_after_ticks(t: Timer, n: nat)
    ensures
        spec_tick_n(t, n).counter == (t.counter + n) % 0x10000,
    decreases n,
{
    if n == 0 {
        assert(t.counter == (t.counter + 0) % 0x10000);
    } else {
        lemma_counter_after_ticks(t, (n - 1) as nat);
    }
}

/// Writing any value to DIV makes the next read of DIV return zero, and
/// from there DIV increments once per 256 T-cycles, wrapping around: after
/// `n` further T-cycles a read of DIV returns `n / 256 mod 256`.
pub proof fn lemma_div_restarts_after_write(t: Timer, value: u8, n: nat)
    ensures
        spec_tick_n(t.spec_write(0xFF04, value), 0).spec_read(0xFF04) == 0,
        spec_tick_n(t.spec_write(0xFF04, value), n).spec_read(0xFF04) == (n / 256) % 256,
{
    let w = t.spec_write(0xFF04, value);
    assert(w.counter == 0);
    lemma_counter_after_ticks(w, n);
    assert(spec_tick_n(w, n).counter == n % 0x10000);
    assert((n % 0x10000) / 256 == (n / 256) % 256) by (nonlinear_arith);
}

} // verus!
