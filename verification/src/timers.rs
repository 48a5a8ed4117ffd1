//! The DIV/TIMA/TMA/TAC timer with its falling-edge detector.
//!
//! A free-running 16-bit counter advances every T-cycle; DIV presents its
//! high byte. TAC selects one of four tap bits of that counter and carries
//! an enable bit. TIMA increments on every falling edge of
//! (enable AND tap); on overflow it reloads from TMA and raises the Timer
//! interrupt.

use vstd::prelude::*;

use crate::TCycles;
use crate::interrupts::Interrupt;
use crate::interrupts::InterruptRegisters;
use crate::traits::wrap16;

verus! {

/// The DIV/TIMA/TMA/TAC timer block.
#[derive(Debug, Clone, Copy, PartialEq, Eq, Structural)]
pub struct Timers {
    /// The free-running system clock, one tick per T-cycle.
    pub system_clock: u16,
    /// The user-visible timer counter.
    pub tima: u8,
    /// The value reloaded into TIMA on overflow.
    pub tma: u8,
    /// Timer control: bit 2 enables, bits 1-0 select the tap.
    pub tac: u8,
}

/// The selected tap bit of the system clock: bit 9, 3, 5 or 7, chosen by
/// the low two bits of TAC.
pub open spec fn spec_tap_bit(tac: u8, clock: u16) -> bool {
    let sel = tac % 4;
    if sel == 0 {
        clock / 512 % 2 == 1
    } else if sel == 1 {
        clock / 8 % 2 == 1
    } else if sel == 2 {
        clock / 32 % 2 == 1
    } else {
        clock / 128 % 2 == 1
    }
}

/// Whether TAC's enable bit is set.
pub open spec fn spec_timer_enabled(tac: u8) -> bool {
    tac / 4 % 2 == 1
}

/// TIMA advanced by one: the incremented counter, or the reload value
/// together with a raised interrupt on overflow.
pub open spec fn spec_tima_inc(t: Timers) -> (Timers, bool) {
    if t.tima == 255 {
        (Timers { tima: t.tma, ..t }, true)
    } else {
        (Timers { tima: (t.tima + 1) as u8, ..t }, false)
    }
}

/// One T-cycle of the timer block: the system clock advances, and TIMA
/// increments exactly when the enabled tap falls from one to zero.
pub open spec fn spec_tick_one(t: Timers) -> (Timers, bool) {
    let clock2 = wrap16(t.system_clock + 1);
    let stepped = Timers { system_clock: clock2, ..t };
    if spec_timer_enabled(t.tac) && spec_tap_bit(t.tac, t.system_clock) && !spec_tap_bit(
        t.tac,
        clock2,
    ) {
        spec_tima_inc(stepped)
    } else {
        (stepped, false)
    }
}

/// The timer block and interrupt registers after `n` T-cycles.
pub open spec fn spec_tick_n(t: Timers, ints: InterruptRegisters, n: int) -> (
    Timers,
    InterruptRegisters,
)
    decreases n,
{
    if n <= 0 {
        (t, ints)
    } else {
        let prev = spec_tick_n(t, ints, n - 1);
        let stepped = spec_tick_one(prev.0);
        let ints2 = if stepped.1 {
            prev.1.spec_if_set(Interrupt::Timer)
        } else {
            prev.1
        };
        (stepped.0, ints2)
    }
}

/// The byte a timer register reads: DIV is the high byte of the system
/// clock; any unmatched address reads TAC (the dispatcher never passes
/// one).
pub open spec fn spec_timers_read(t: Timers, addr: u16) -> u8 {
    if addr == 0xFF04 {
        (t.system_clock / 256) as u8
    } else if addr == 0xFF05 {
        t.tima
    } else if addr == 0xFF06 {
        t.tma
    } else {
        t.tac
    }
}

/// The timer block after a register write, and whether the write raised
/// the Timer interrupt. Writing DIV clears the whole system clock; if that
/// makes the enabled tap fall, TIMA increments (the DIV reset glitch).
pub open spec fn spec_timers_write(t: Timers, addr: u16, value: u8) -> (Timers, bool) {
    if addr == 0xFF04 {
        let cleared = Timers { system_clock: 0u16, ..t };
        if spec_timer_enabled(t.tac) && spec_tap_bit(t.tac, t.system_clock) && !spec_tap_bit(
            t.tac,
            0u16,
        ) {
            spec_tima_inc(cleared)
        } else {
            (cleared, false)
        }
    } else if addr == 0xFF05 {
        (Timers { tima: value, ..t }, false)
    } else if addr == 0xFF06 {
        (Timers { tma: value, ..t }, false)
    } else {
        (Timers { tac: (value % 8) as u8, ..t }, false)
    }
}

impl Timers {
    /// Only the low three bits of TAC are ever set.
    pub open spec fn wf(self) -> bool {
        self.tac < 8
    }

    /// A timer block with everything at zero.
    pub fn new() -> (r: Timers)
        ensures
            r == (Timers { system_clock: 0u16, tima: 0u8, tma: 0u8, tac: 0u8 }),
            r.wf(),
    {
        Timers { system_clock: 0, tima: 0, tma: 0, tac: 0 }
    }

    /// Read a timer register.
    pub fn read(&self, addr: u16) -> (b: u8)
        ensures
            b == spec_timers_read(*self, addr),
    {
        if addr == 0xFF04 {
            (self.system_clock / 256) as u8
        } else if addr == 0xFF05 {
            self.tima
        } else if addr == 0xFF06 {
            self.tma
        } else {
            self.tac
        }
    }

    /// Write a timer register, raising the Timer interrupt where the
    /// write makes TIMA overflow.
    pub fn write(&mut self, addr: u16, value: u8, ints: &mut InterruptRegisters)
        requires
            old(self).wf(),
            old(ints).wf(),
        ensures
            final(self).wf(),
            final(ints).wf(),
            *final(self) == spec_timers_write(*old(self), addr, value).0,
            *final(ints) == (if spec_timers_write(*old(self), addr, value).1 {
                old(ints).spec_if_set(Interrupt::Timer)
            } else {
                *old(ints)
            }),
    {
        if addr == 0xFF04 {
            let prev = self.system_clock;
            self.system_clock = 0;
            if self.timer_enabled() && self.falling_edge(prev, 0) {
                self.increment_tima(ints);
            }
        } else if addr == 0xFF05 {
            self.tima = value;
        } else if addr == 0xFF06 {
            self.tma = value;
        } else {
            self.tac = value % 8;
        }
    }

    /// Advance the timer block by `cycles` T-cycles.
    pub fn tick(&mut self, cycles: TCycles, ints: &mut InterruptRegisters)
        requires
            old(self).wf(),
            old(ints).wf(),
            cycles >= 0,
        ensures
            final(self).wf(),
            final(ints).wf(),
            (*final(self), *final(ints)) == spec_tick_n(*old(self), *old(ints), cycles as int),
    {
        let mut i: TCycles = 0;
        while i < cycles
            invariant
                0 <= i <= cycles,
                self.wf(),
                ints.wf(),
                (*self, *ints) == spec_tick_n(*old(self), *old(ints), i as int),
            decreases cycles - i,
        {
            self.tick_one(ints);
            i = i + 1;
        }
    }

    /// Advance the timer block by one T-cycle.
    pub fn tick_one(&mut self, ints: &mut InterruptRegisters)
        requires
            old(self).wf(),
            old(ints).wf(),
        ensures
            final(self).wf(),
            final(ints).wf(),
            *final(self) == spec_tick_one(*old(self)).0,
            *final(ints) == (if spec_tick_one(*old(self)).1 {
                old(ints).spec_if_set(Interrupt::Timer)
            } else {
                *old(ints)
            }),
    {
        let prev = self.system_clock;
        let next = if prev == 0xFFFF {
            0
        } else {
            prev + 1
        };
        self.system_clock = next;
        if self.timer_enabled() && self.falling_edge(prev, next) {
            self.increment_tima(ints);
        }
    }

    /// Whether TAC's enable bit is set.
    fn timer_enabled(&self) -> (r: bool)
        ensures
            r == spec_timer_enabled(self.tac),
    {
        self.tac / 4 % 2 == 1
    }

    /// Whether the selected tap bit falls between the two clock values.
    fn falling_edge(&self, prev: u16, next: u16) -> (r: bool)
        ensures
            r == (spec_tap_bit(self.tac, prev) && !spec_tap_bit(self.tac, next)),
    {
        let sel = self.tac % 4;
        let before: bool;
        let after: bool;
        if sel == 0 {
            before = prev / 512 % 2 == 1;
            after = next / 512 % 2 == 1;
        } else if sel == 1 {
            before = prev / 8 % 2 == 1;
            after = next / 8 % 2 == 1;
        } else if sel == 2 {
            before = prev / 32 % 2 == 1;
            after = next / 32 % 2 == 1;
        } else {
            before = prev / 128 % 2 == 1;
            after = next / 128 % 2 == 1;
        }
        before && !after
    }

    /// Increment TIMA; on overflow reload it from TMA and raise the Timer
    /// interrupt.
    fn increment_tima(&mut self, ints: &mut InterruptRegisters)
        requires
            old(self).wf(),
            old(ints).wf(),
        ensures
            final(self).wf(),
            final(ints).wf(),
            *final(self) == spec_tima_inc(*old(self)).0,
            *final(ints) == (if spec_tima_inc(*old(self)).1 {
                old(ints).spec_if_set(Interrupt::Timer)
            } else {
                *old(ints)
            }),
    {
        if self.tima == 255 {
            self.tima = self.tma;
            ints.if_set(Interrupt::Timer);
        } else {
            self.tima = self.tima + 1;
        }
    }
}

/// The falling-edge law: across one T-cycle, TIMA advances exactly when
/// the enable bit and the selected tap bit were set for the old clock
/// value and the tap bit is clear for the new one. When it advances, it
/// steps to its successor, or to the reload value with the Timer interrupt
/// raised when it was at its ceiling; otherwise it is untouched.
pub proof fn lemma_timer_falling_edge(t: Timers)
    ensures
        ({
            let edge = spec_timer_enabled(t.tac) && spec_tap_bit(t.tac, t.system_clock)
                && !spec_tap_bit(t.tac, wrap16(t.system_clock + 1));
            let stepped = spec_tick_one(t);
            &&& stepped.0.system_clock == wrap16(t.system_clock + 1)
            &&& (edge && t.tima < 255 ==> stepped.0.tima == t.tima + 1 && !stepped.1)
            &&& (edge && t.tima == 255 ==> stepped.0.tima == t.tma && stepped.1)
            &&& (!edge ==> stepped.0.tima == t.tima && !stepped.1)
            &&& stepped.0.tma == t.tma && stepped.0.tac == t.tac
        }),
{
}

} // verus!
