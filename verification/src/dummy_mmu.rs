//! A flat test memory standing in for the memory management unit.
//!
//! Holds one 64 KiB buffer with no memory-mapped peripherals: reads and
//! writes go straight to the buffer, ticks do nothing, and it raises no
//! interrupts of its own. The CPU is exercised against it in tests without a
//! cartridge.

use vstd::prelude::*;

use crate::TCycles;
use crate::interrupts::Interrupt;
use crate::interrupts::InterruptRegisters;
use crate::traits::InterruptManager;
use crate::traits::ReadWriteMemory;
use crate::traits::Tick;
use crate::traits::wrap16;

verus! {

/// The size of the flat memory: the whole 16-bit address space.
pub const DUMMY_MEMORY_SIZE: usize = 65536;

/// A flat 64 KiB memory with an interrupt register pair and no other
/// peripherals.
pub struct DummyMmu {
    /// The backing memory, one byte per address.
    pub memory: Vec<u8>,
    /// The IE/IF register pair, kept apart from the flat memory.
    pub ints: InterruptRegisters,
}

impl DummyMmu {
    /// A memory whose first bytes are `rom` and whose rest is zero.
    pub fn new(rom: &[u8]) -> (r: DummyMmu)
        requires
            rom@.len() <= DUMMY_MEMORY_SIZE,
        ensures
            r.inv(),
            forall|a: u16|
                #![trigger r.spec_read(a)]
                r.spec_read(a) == (if a < rom@.len() {
                    rom@[a as int]
                } else {
                    0u8
                }),
            r.ints == (InterruptRegisters { reg_ie: 0u8, reg_if: 0u8 }),
    {
        let mut memory: Vec<u8> = Vec::new();
        let mut i: usize = 0;
        while i < rom.len()
            invariant
                i <= rom@.len(),
                memory@.len() == i,
                forall|j: int| 0 <= j < i ==> memory@[j] == rom@[j],
            decreases rom@.len() - i,
        {
            memory.push(rom[i]);
            i = i + 1;
        }
        let mut k: usize = rom.len();
        while k < DUMMY_MEMORY_SIZE
            invariant
                rom@.len() <= k <= DUMMY_MEMORY_SIZE,
                memory@.len() == k,
                forall|j: int| 0 <= j < rom@.len() ==> memory@[j] == rom@[j],
                forall|j: int| rom@.len() <= j < k ==> memory@[j] == 0u8,
            decreases DUMMY_MEMORY_SIZE - k,
        {
            memory.push(0);
            k = k + 1;
        }
        DummyMmu { memory, ints: InterruptRegisters::new() }
    }
}

impl ReadWriteMemory for DummyMmu {
    open spec fn inv(&self) -> bool {
        self.memory@.len() == DUMMY_MEMORY_SIZE && self.ints.wf()
    }

    open spec fn spec_read(&self, addr: u16) -> u8 {
        if addr < self.memory@.len() {
            self.memory@[addr as int]
        } else {
            0u8
        }
    }

    open spec fn write_rel(self, addr: u16, value: u8, post: DummyMmu) -> bool {
        post.memory@ == self.memory@.update(addr as int, value) && post.ints == self.ints
    }

    open spec fn write2_rel(self, addr: u16, value: u16, post: DummyMmu) -> bool {
        post.memory@ == self.memory@.update(addr as int, (value % 256) as u8).update(
            wrap16(addr + 1) as int,
            (value / 256) as u8,
        ) && post.ints == self.ints
    }

    fn read(&self, addr: u16) -> (b: u8) {
        self.memory[addr as usize]
    }

    fn write(&mut self, addr: u16, value: u8) {
        let a = addr as usize;
        self.memory[a] = value;
        proof {
            assert(self.memory@ =~= old(self).memory@.update(addr as int, value));
        }
    }

    fn read_u16(&self, addr: u16) -> (v: u16) {
        let lo = self.read(addr);
        let hi = self.read(wrap_add1(addr));
        lo as u16 + 256 * (hi as u16)
    }

    fn write_u16(&mut self, addr: u16, value: u16) {
        self.write(addr, (value % 256) as u8);
        self.write(wrap_add1(addr), (value / 256) as u8);
    }
}

/// The successor of an address, wrapping at the top of the address space.
pub fn wrap_add1(addr: u16) -> (r: u16)
    ensures
        r == wrap16(addr + 1),
{
    if addr == 0xFFFF {
        0
    } else {
        addr + 1
    }
}

impl Tick for DummyMmu {
    open spec fn tick_rel(self, cycles: TCycles, post: DummyMmu) -> bool {
        post == self
    }

    fn tick(&mut self, cycles: TCycles) {
    }
}

impl InterruptManager for DummyMmu {
    open spec fn ie_bits(&self) -> u8 {
        self.ints.reg_ie
    }

    open spec fn if_bits(&self) -> u8 {
        self.ints.reg_if
    }

    fn if_set(&mut self, interrupt: Interrupt) {
        self.ints.if_set(interrupt);
    }

    fn if_reset(&mut self, interrupt: Interrupt) {
        self.ints.if_reset(interrupt);
    }

    fn priority_interrupt(&mut self) -> (r: Option<Interrupt>) {
        self.ints.priority_interrupt()
    }
}

} // verus!
