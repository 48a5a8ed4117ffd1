//! The collaborator contracts between the CPU and the memory system.
//!
//! The CPU is parameterized by a memory-shaped collaborator so it can be
//! driven against a flat test memory as well as the real memory management
//! unit. The contract is small: byte reads and writes over the full 16-bit
//! address space, a clock tick, and the interrupt register pair. Writes and
//! ticks are specified as relations between the state before and after, so
//! each memory can state its own transition exactly.

use vstd::prelude::*;

use crate::TCycles;
use crate::interrupts::Interrupt;

verus! {

/// The address `a` reduced into the 16-bit address space.
pub open spec fn wrap16(a: int) -> u16 {
    (a % 0x10000) as u16
}

/// Reading and writing bytes over the 16-bit address space.
///
/// Every address can be read and written: unmapped addresses read a fixed
/// value and drop writes, so neither operation can fail.
pub trait ReadWriteMemory: Sized {
    /// Well-formedness of the memory and everything it owns.
    spec fn inv(&self) -> bool;

    /// The byte a read of `addr` yields.
    spec fn spec_read(&self, addr: u16) -> u8;

    /// How a write of `value` to `addr` relates the state before to the
    /// state after.
    spec fn write_rel(self, addr: u16, value: u8, post: Self) -> bool;

    /// How a two-byte little-endian write of `value` to `addr` and its
    /// successor relates the state before to the state after.
    spec fn write2_rel(self, addr: u16, value: u16, post: Self) -> bool;

    /// Read a byte from the given address.
    fn read(&self, addr: u16) -> (b: u8)
        requires
            self.inv(),
        ensures
            b == self.spec_read(addr),
    ;

    /// Write `value` to the given address.
    fn write(&mut self, addr: u16, value: u8)
        requires
            old(self).inv(),
        ensures
            final(self).inv(),
            old(self).write_rel(addr, value, *final(self)),
    ;

    /// Read two bytes, little-endian, from `addr` and its successor.
    fn read_u16(&self, addr: u16) -> (v: u16)
        requires
            self.inv(),
        ensures
            v == self.spec_read(addr) + 256 * self.spec_read(wrap16(addr + 1)),
    ;

    /// Write two bytes, little-endian, to `addr` and its successor.
    fn write_u16(&mut self, addr: u16, value: u16)
        requires
            old(self).inv(),
        ensures
            final(self).inv(),
            old(self).write2_rel(addr, value, *final(self)),
    ;
}

/// Synchronous cycle propagation: the CPU drives every peripheral forward
/// by exactly the T-cycles it has consumed, in the order it consumed them.
pub trait Tick: ReadWriteMemory {
    /// How advancing the peripherals by `cycles` relates the state before
    /// to the state after.
    spec fn tick_rel(self, cycles: TCycles, post: Self) -> bool;

    /// Advance every peripheral by `cycles` T-cycles.
    fn tick(&mut self, cycles: TCycles)
        requires
            old(self).inv(),
            cycles >= 0,
        ensures
            final(self).inv(),
            old(self).tick_rel(cycles, *final(self)),
    ;
}

/// The interrupt that wins arbitration for the given enable and pending
/// bytes: the lowest set bit of their conjunction, in the fixed priority
/// order VBlank, LcdStat, Timer, Serial, Joypad.
pub open spec fn spec_priority(ie: u8, iff: u8) -> Option<Interrupt> {
    if ie / 1 % 2 == 1 && iff / 1 % 2 == 1 {
        Some(Interrupt::VBlank)
    } else if ie / 2 % 2 == 1 && iff / 2 % 2 == 1 {
        Some(Interrupt::LcdStat)
    } else if ie / 4 % 2 == 1 && iff / 4 % 2 == 1 {
        Some(Interrupt::Timer)
    } else if ie / 8 % 2 == 1 && iff / 8 % 2 == 1 {
        Some(Interrupt::Serial)
    } else if ie / 16 % 2 == 1 && iff / 16 % 2 == 1 {
        Some(Interrupt::Joypad)
    } else {
        None
    }
}

/// Access to the IE (enable) and IF (pending) interrupt registers.
pub trait InterruptManager: ReadWriteMemory {
    /// The interrupt-enable byte (IE); only the low five bits carry meaning.
    spec fn ie_bits(&self) -> u8;

    /// The interrupt-pending byte (IF); only the low five bits carry meaning.
    spec fn if_bits(&self) -> u8;

    /// Raise the pending flag of `interrupt`.
    fn if_set(&mut self, interrupt: Interrupt)
        requires
            old(self).inv(),
        ensures
            final(self).inv(),
    ;

    /// Clear the pending flag of `interrupt`.
    fn if_reset(&mut self, interrupt: Interrupt)
        requires
            old(self).inv(),
        ensures
            final(self).inv(),
    ;

    /// The pending enabled interrupt with the highest priority, if any.
    fn priority_interrupt(&mut self) -> (r: Option<Interrupt>)
        requires
            old(self).inv(),
        ensures
            final(self).inv(),
            *final(self) == *old(self),
            r == spec_priority(old(self).ie_bits(), old(self).if_bits()),
    ;
}

} // verus!
