//! The sound unit's register file and wavetable storage.
//!
//! The sound unit itself is an external collaborator; the core models only
//! its memory-mapped face: the 48 bytes from 0xFF10 to 0xFF3F, stored and
//! read back verbatim.

use vstd::prelude::*;

use crate::TCycles;

verus! {

/// The first sound-unit register address.
pub const APU_REG_START: u16 = 0xFF10;

/// The number of sound-unit register bytes.
pub const APU_REG_COUNT: usize = 48;

/// The sound unit's register file and wavetable.
pub struct Apu {
    /// One byte per register, indexed from `APU_REG_START`.
    pub regs: Vec<u8>,
}

impl Apu {
    /// One byte for every register address.
    pub open spec fn wf(&self) -> bool {
        self.regs@.len() == APU_REG_COUNT
    }

    /// The byte a register address reads.
    pub open spec fn spec_reg_read(&self, addr: u16) -> u8 {
        self.regs@[addr - APU_REG_START]
    }

    /// A sound unit with every register zero.
    pub fn new() -> (r: Apu)
        ensures
            r.wf(),
            forall|i: int| 0 <= i < APU_REG_COUNT ==> r.regs@[i] == 0u8,
    {
        let mut regs: Vec<u8> = Vec::new();
        let mut i: usize = 0;
        while i < APU_REG_COUNT
            invariant
                i <= APU_REG_COUNT,
                regs@.len() == i,
                forall|j: int| 0 <= j < i ==> regs@[j] == 0u8,
            decreases APU_REG_COUNT - i,
        {
            regs.push(0);
            i = i + 1;
        }
        Apu { regs }
    }

    /// Read a register.
    pub fn reg_read(&self, addr: u16) -> (b: u8)
        requires
            self.wf(),
            APU_REG_START <= addr < APU_REG_START + APU_REG_COUNT,
        ensures
            b == self.spec_reg_read(addr),
    {
        self.regs[(addr - APU_REG_START) as usize]
    }

    /// Write a register.
    pub fn reg_write(&mut self, addr: u16, value: u8)
        requires
            old(self).wf(),
            APU_REG_START <= addr < APU_REG_START + APU_REG_COUNT,
        ensures
            final(self).wf(),
            final(self).regs@ == old(self).regs@.update(addr - APU_REG_START, value),
    {
        let idx = (addr - APU_REG_START) as usize;
        self.regs[idx] = value;
    }

    /// Advance the sound unit; the stub keeps no timing state.
    pub fn tick(&mut self, cycles: TCycles)
        ensures
            *final(self) == *old(self),
    {
    }
}

} // verus!
