//! The interrupt controller: the IE/IF register pair and priority
//! arbitration.
//!
//! Both registers carry five flag bits, one per interrupt source; writes
//! truncate the higher bits on sight. The set of serviceable interrupts is
//! the bitwise AND of the two registers, and arbitration picks its
//! highest-priority member: VBlank first, Joypad last.

use vstd::prelude::*;

use crate::traits::spec_priority;

verus! {

/// An interrupt source, in priority order: VBlank is the highest.
#[derive(Debug, Clone, Copy, PartialEq, Eq, Structural)]
pub enum Interrupt {
    VBlank,
    LcdStat,
    Timer,
    Serial,
    Joypad,
}

impl Interrupt {
    /// The interrupt's bit in the IE and IF registers.
    pub open spec fn spec_mask(self) -> u8 {
        match self {
            Interrupt::VBlank => 1,
            Interrupt::LcdStat => 2,
            Interrupt::Timer => 4,
            Interrupt::Serial => 8,
            Interrupt::Joypad => 16,
        }
    }

    /// The interrupt's bit in the IE and IF registers.
    pub fn as_interrupt_flag(&self) -> (m: u8)
        ensures
            m == self.spec_mask(),
    {
        match *self {
            Interrupt::VBlank => 1,
            Interrupt::LcdStat => 2,
            Interrupt::Timer => 4,
            Interrupt::Serial => 8,
            Interrupt::Joypad => 16,
        }
    }

    /// The fixed address of the interrupt's handler.
    pub fn handler_address(&self) -> (a: u16)
        ensures
            a == self.spec_handler_address(),
    {
        match *self {
            Interrupt::VBlank => 0x0040,
            Interrupt::LcdStat => 0x0048,
            Interrupt::Timer => 0x0050,
            Interrupt::Serial => 0x0058,
            Interrupt::Joypad => 0x0060,
        }
    }

    /// The fixed address of the interrupt's handler.
    pub open spec fn spec_handler_address(self) -> u16 {
        match self {
            Interrupt::VBlank => 0x0040,
            Interrupt::LcdStat => 0x0048,
            Interrupt::Timer => 0x0050,
            Interrupt::Serial => 0x0058,
            Interrupt::Joypad => 0x0060,
        }
    }
}

/// Whether the bit `mask` selects is set; `mask` must be a single-bit value.
pub open spec fn has_flag(bits: u8, mask: u8) -> bool {
    bits / mask % 2 == 1
}

/// The IE (enable) and IF (pending) interrupt registers.
#[derive(Debug, Clone, Copy, PartialEq, Eq, Structural)]
pub struct InterruptRegisters {
    /// Interrupt enable register (address 0xFFFF); low five bits only.
    pub reg_ie: u8,
    /// Interrupt flag register (address 0xFF0F); low five bits only.
    pub reg_if: u8,
}

impl InterruptRegisters {
    /// Only the low five bits of either register are ever set.
    pub open spec fn wf(self) -> bool {
        self.reg_ie < 32 && self.reg_if < 32
    }

    /// Both registers clear.
    pub fn new() -> (r: InterruptRegisters)
        ensures
            r == (InterruptRegisters { reg_ie: 0u8, reg_if: 0u8 }),
            r.wf(),
    {
        InterruptRegisters { reg_ie: 0, reg_if: 0 }
    }

    /// The register selected by `addr`: IE at 0xFFFF, IF at 0xFF0F; any
    /// other address reads IF (the dispatcher never passes one).
    pub open spec fn spec_read(self, addr: u16) -> u8 {
        if addr == 0xFFFF {
            self.reg_ie
        } else {
            self.reg_if
        }
    }

    /// Read the register selected by `addr`.
    pub fn read(&self, addr: u16) -> (b: u8)
        ensures
            b == self.spec_read(addr),
    {
        if addr == 0xFFFF {
            self.reg_ie
        } else {
            self.reg_if
        }
    }

    /// The registers after a write of `value` to `addr`; the high three
    /// bits of the value are discarded.
    pub open spec fn spec_write(self, addr: u16, value: u8) -> InterruptRegisters {
        if addr == 0xFFFF {
            InterruptRegisters { reg_ie: (value % 32) as u8, ..self }
        } else {
            InterruptRegisters { reg_if: (value % 32) as u8, ..self }
        }
    }

    /// Write `value`, truncated to its low five bits, to the register
    /// selected by `addr`.
    pub fn write(&mut self, addr: u16, value: u8)
        requires
            old(self).wf(),
        ensures
            final(self).wf(),
            *final(self) == old(self).spec_write(addr, value),
    {
        if addr == 0xFFFF {
            self.reg_ie = value % 32;
        } else {
            self.reg_if = value % 32;
        }
    }

    /// The registers with the pending bit of `interrupt` raised.
    pub open spec fn spec_if_set(self, interrupt: Interrupt) -> InterruptRegisters {
        if has_flag(self.reg_if, interrupt.spec_mask()) {
            self
        } else {
            InterruptRegisters { reg_if: (self.reg_if + interrupt.spec_mask()) as u8, ..self }
        }
    }

    /// Raise the pending flag of `interrupt`.
    pub fn if_set(&mut self, interrupt: Interrupt)
        requires
            old(self).wf(),
        ensures
            final(self).wf(),
            *final(self) == old(self).spec_if_set(interrupt),
            has_flag(final(self).reg_if, interrupt.spec_mask()),
    {
        let m = interrupt.as_interrupt_flag();
        if self.reg_if / m % 2 != 1 {
            self.reg_if = self.reg_if + m;
        }
    }

    /// The registers with the pending bit of `interrupt` cleared.
    pub open spec fn spec_if_reset(self, interrupt: Interrupt) -> InterruptRegisters {
        if has_flag(self.reg_if, interrupt.spec_mask()) {
            InterruptRegisters { reg_if: (self.reg_if - interrupt.spec_mask()) as u8, ..self }
        } else {
            self
        }
    }

    /// Clear the pending flag of `interrupt`.
    pub fn if_reset(&mut self, interrupt: Interrupt)
        requires
            old(self).wf(),
        ensures
            final(self).wf(),
            *final(self) == old(self).spec_if_reset(interrupt),
            !has_flag(final(self).reg_if, interrupt.spec_mask()),
    {
        let m = interrupt.as_interrupt_flag();
        if self.reg_if / m % 2 == 1 {
            self.reg_if = self.reg_if - m;
        }
    }

    /// The pending enabled interrupt with the highest priority, if any.
    pub fn priority_interrupt(&self) -> (r: Option<Interrupt>)
        ensures
            r == spec_priority(self.reg_ie, self.reg_if),
    {
        if self.reg_ie / 1 % 2 == 1 && self.reg_if / 1 % 2 == 1 {
            Some(Interrupt::VBlank)
        } else if self.reg_ie / 2 % 2 == 1 && self.reg_if / 2 % 2 == 1 {
            Some(Interrupt::LcdStat)
        } else if self.reg_ie / 4 % 2 == 1 && self.reg_if / 4 % 2 == 1 {
            Some(Interrupt::Timer)
        } else if self.reg_ie / 8 % 2 == 1 && self.reg_if / 8 % 2 == 1 {
            Some(Interrupt::Serial)
        } else if self.reg_ie / 16 % 2 == 1 && self.reg_if / 16 % 2 == 1 {
            Some(Interrupt::Joypad)
        } else {
            None
        }
    }
}

} // verus!
