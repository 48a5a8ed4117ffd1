//! The CPU: register file, fetch, cycle accounting and stack discipline.
//!
//! The CPU owns eight 8-bit registers, the 16-bit stack pointer and program
//! counter, and its memory collaborator. Every memory access during an
//! instruction costs four T-cycles per byte and immediately ticks the
//! peripherals, so they advance in lock-step with CPU activity;
//! `rw_cycles` accumulates those access costs for the current instruction.

use vstd::prelude::*;

use crate::TCycles;
use crate::flags::FlagsRegister;
use crate::instruction::ByteStream;
use crate::instruction::Instruction;
use crate::instruction::spec_instruction;
use crate::opcode::FlagCondition;
use crate::opcode::Register;
use crate::opcode::WideRegister;
use crate::opcode::spec_decode;
use crate::traits::ReadWriteMemory;
use crate::traits::Tick;
use crate::traits::wrap16;

verus! {

/// T-cycles consumed by reading or writing one byte of memory.
pub const DEFAULT_READ_WRITE_CYCLES: TCycles = 4;

/// A ceiling on `rw_cycles` far above anything an instruction can consume,
/// so that adding an access cost cannot overflow.
pub const RW_CYCLES_CEILING: TCycles = 0x4000_0000;

/// A memory write of one byte followed by a tick of `c` cycles: how the
/// memory before relates to the memory after.
pub open spec fn mem_write_ticked<T: ReadWriteMemory + Tick>(
    m0: T,
    addr: u16,
    value: u8,
    c: TCycles,
    m1: T,
) -> bool {
    exists|mid: T| m0.write_rel(addr, value, mid) && mid.tick_rel(c, m1)
}

/// A memory write of two bytes followed by a tick of `c` cycles: how the
/// memory before relates to the memory after.
pub open spec fn mem_write2_ticked<T: ReadWriteMemory + Tick>(
    m0: T,
    addr: u16,
    value: u16,
    c: TCycles,
    m1: T,
) -> bool {
    exists|mid: T| m0.write2_rel(addr, value, mid) && mid.tick_rel(c, m1)
}

/// The CPU, generic over its memory collaborator.
pub struct Cpu<T> {
    /// Register A, the accumulator.
    pub a: u8,
    /// Register B.
    pub b: u8,
    /// Register C.
    pub c: u8,
    /// Register D.
    pub d: u8,
    /// Register E.
    pub e: u8,
    /// The flags register.
    pub f: FlagsRegister,
    /// Register H.
    pub h: u8,
    /// Register L.
    pub l: u8,
    /// Stack pointer.
    pub sp: u16,
    /// Program counter.
    pub pc: u16,
    /// Memory management unit.
    pub mmu: T,
    /// T-cycles consumed so far by memory accesses of the current
    /// instruction, operand fetches included.
    pub rw_cycles: TCycles,
    /// Interrupt master enable.
    pub ime: bool,
    /// Set by EI; the master enable takes effect one instruction later.
    pub ei_delayed: bool,
    /// Set by HALT; cleared when an enabled interrupt becomes pending.
    pub halted: bool,
}

impl<T> Cpu<T> {
    /// A CPU with every register zero, interrupts masked, driving `mmu`.
    pub fn new(mmu: T) -> (r: Cpu<T>)
        ensures
            r.a == 0 && r.b == 0 && r.c == 0 && r.d == 0 && r.e == 0 && r.h == 0 && r.l == 0,
            r.f == (FlagsRegister { z: false, n: false, h: false, c: false }),
            r.sp == 0 && r.pc == 0,
            r.mmu == mmu,
            r.rw_cycles == 0,
            !r.ime && !r.ei_delayed && !r.halted,
    {
        Cpu {
            a: 0,
            b: 0,
            c: 0,
            d: 0,
            e: 0,
            f: FlagsRegister::empty(),
            h: 0,
            l: 0,
            sp: 0,
            pc: 0,
            mmu,
            rw_cycles: 0,
            ime: false,
            ei_delayed: false,
            halted: false,
        }
    }

    /// The value of a wide register: two byte halves side by side, or the
    /// stack pointer itself. AF pairs the accumulator with the byte form of
    /// the flags.
    pub open spec fn spec_wide(self, reg: WideRegister) -> u16 {
        match reg {
            WideRegister::BC => (256 * self.b + self.c) as u16,
            WideRegister::DE => (256 * self.d + self.e) as u16,
            WideRegister::HL => (256 * self.h + self.l) as u16,
            WideRegister::SP => self.sp,
            WideRegister::AF => (256 * self.a + self.f.spec_bits()) as u16,
        }
    }

    /// The CPU after a wide register is loaded with `value`. Loading AF
    /// rebuilds the flags from the low byte, discarding its low four bits.
    pub open spec fn spec_set_wide(self, reg: WideRegister, value: u16) -> Cpu<T> {
        match reg {
            WideRegister::BC => Cpu { b: (value / 256) as u8, c: (value % 256) as u8, ..self },
            WideRegister::DE => Cpu { d: (value / 256) as u8, e: (value % 256) as u8, ..self },
            WideRegister::HL => Cpu { h: (value / 256) as u8, l: (value % 256) as u8, ..self },
            WideRegister::SP => Cpu { sp: value, ..self },
            WideRegister::AF => Cpu {
                a: (value / 256) as u8,
                f: FlagsRegister::spec_from_bits((value % 256) as u8),
                ..self
            },
        }
    }

    /// Whether a flag condition holds of the current flags.
    pub open spec fn spec_condition(self, cond: FlagCondition) -> bool {
        match cond {
            FlagCondition::NZ => !self.f.z,
            FlagCondition::Z => self.f.z,
            FlagCondition::NC => !self.f.c,
            FlagCondition::C => self.f.c,
        }
    }

    /// The same CPU with all eight data registers, the flags and both
    /// pointers unchanged; memory, cycle count and interrupt latches free.
    pub open spec fn regs_eq(self, other: Cpu<T>) -> bool {
        self.a == other.a && self.b == other.b && self.c == other.c && self.d == other.d
            && self.e == other.e && self.f == other.f && self.h == other.h && self.l == other.l
            && self.sp == other.sp && self.pc == other.pc
    }

    /// The same CPU with the interrupt latches unchanged.
    pub open spec fn latches_eq(self, other: Cpu<T>) -> bool {
        self.ime == other.ime && self.ei_delayed == other.ei_delayed && self.halted
            == other.halted
    }

    /// Read a wide register.
    pub fn wide_reg(&self, reg: WideRegister) -> (v: u16)
        ensures
            v == self.spec_wide(reg),
    {
        match reg {
            WideRegister::BC => 256 * (self.b as u16) + (self.c as u16),
            WideRegister::DE => 256 * (self.d as u16) + (self.e as u16),
            WideRegister::HL => 256 * (self.h as u16) + (self.l as u16),
            WideRegister::SP => self.sp,
            WideRegister::AF => 256 * (self.a as u16) + (self.f.bits() as u16),
        }
    }

    /// Load a wide register with `value`.
    pub fn set_wide_reg(&mut self, reg: WideRegister, value: u16)
        ensures
            *final(self) == old(self).spec_set_wide(reg, value),
    {
        let hi = (value / 256) as u8;
        let lo = (value % 256) as u8;
        match reg {
            WideRegister::BC => {
                self.b = hi;
                self.c = lo;
            },
            WideRegister::DE => {
                self.d = hi;
                self.e = lo;
            },
            WideRegister::HL => {
                self.h = hi;
                self.l = lo;
            },
            WideRegister::SP => {
                self.sp = value;
            },
            WideRegister::AF => {
                self.a = hi;
                self.f = FlagsRegister::from_bits_truncate(lo);
            },
        }
    }

    /// Whether a flag condition holds.
    pub fn condition(&self, cond: FlagCondition) -> (r: bool)
        ensures
            r == self.spec_condition(cond),
    {
        match cond {
            FlagCondition::NZ => !self.f.z,
            FlagCondition::Z => self.f.z,
            FlagCondition::NC => !self.f.c,
            FlagCondition::C => self.f.c,
        }
    }
}

/// The program counter advanced by `n`, wrapping at the top of the address
/// space.
pub fn wrap_add(pc: u16, n: u16) -> (r: u16)
    ensures
        r == wrap16(pc + n),
{
    let s: u32 = pc as u32 + n as u32;
    (s % 0x10000) as u16
}

/// The address `n` below `pc`, wrapping at the bottom of the address space.
pub fn wrap_sub(pc: u16, n: u16) -> (r: u16)
    ensures
        r == wrap16(pc - n),
{
    let s: u32 = pc as u32 + 0x10000 - n as u32;
    let r = (s % 0x10000) as u16;
    proof {
        vstd::arithmetic::div_mod::lemma_mod_add_multiples_vanish(pc - n, 0x10000);
    }
    r
}

impl<T: ReadWriteMemory> Cpu<T> {
    /// The value an 8-bit register operand denotes; (HL) denotes the byte
    /// in memory at the address held in HL.
    pub open spec fn spec_reg_value(self, reg: Register) -> u8 {
        match reg {
            Register::A => self.a,
            Register::B => self.b,
            Register::C => self.c,
            Register::D => self.d,
            Register::E => self.e,
            Register::H => self.h,
            Register::L => self.l,
            Register::DerefHL => self.mmu.spec_read(self.spec_wide(WideRegister::HL)),
        }
    }
}

impl<T: ReadWriteMemory + Tick> Cpu<T> {
    /// Read a byte of memory, charge the access cost and propagate it to
    /// the peripherals.
    pub fn read(&mut self, addr: u16) -> (v: u8)
        requires
            old(self).mmu.inv(),
            0 <= old(self).rw_cycles <= RW_CYCLES_CEILING,
        ensures
            final(self).mmu.inv(),
            v == old(self).mmu.spec_read(addr),
            final(self).rw_cycles == old(self).rw_cycles + DEFAULT_READ_WRITE_CYCLES,
            old(self).mmu.tick_rel(DEFAULT_READ_WRITE_CYCLES, final(self).mmu),
            old(self).regs_eq(*final(self)),
            old(self).latches_eq(*final(self)),
    {
        let value = self.mmu.read(addr);
        self.rw_cycles = self.rw_cycles + DEFAULT_READ_WRITE_CYCLES;
        self.mmu.tick(DEFAULT_READ_WRITE_CYCLES);
        value
    }

    /// Write a byte of memory, charge the access cost and propagate it to
    /// the peripherals.
    pub fn write(&mut self, addr: u16, value: u8)
        requires
            old(self).mmu.inv(),
            0 <= old(self).rw_cycles <= RW_CYCLES_CEILING,
        ensures
            final(self).mmu.inv(),
            final(self).rw_cycles == old(self).rw_cycles + DEFAULT_READ_WRITE_CYCLES,
            mem_write_ticked(old(self).mmu, addr, value, 4, final(self).mmu),
            old(self).regs_eq(*final(self)),
            old(self).latches_eq(*final(self)),
    {
        self.mmu.write(addr, value);
        self.rw_cycles = self.rw_cycles + DEFAULT_READ_WRITE_CYCLES;
        self.mmu.tick(DEFAULT_READ_WRITE_CYCLES);
    }

    /// Read two bytes of memory, little-endian, charging the cost of both.
    pub fn read_u16(&mut self, addr: u16) -> (v: u16)
        requires
            old(self).mmu.inv(),
            0 <= old(self).rw_cycles <= RW_CYCLES_CEILING,
        ensures
            final(self).mmu.inv(),
            v == old(self).mmu.spec_read(addr) + 256 * old(self).mmu.spec_read(wrap16(addr + 1)),
            final(self).rw_cycles == old(self).rw_cycles + 2 * DEFAULT_READ_WRITE_CYCLES,
            old(self).mmu.tick_rel(8, final(self).mmu),
            old(self).regs_eq(*final(self)),
            old(self).latches_eq(*final(self)),
    {
        let value = self.mmu.read_u16(addr);
        self.rw_cycles = self.rw_cycles + 2 * DEFAULT_READ_WRITE_CYCLES;
        self.mmu.tick(2 * DEFAULT_READ_WRITE_CYCLES);
        value
    }

    /// Write two bytes of memory, little-endian, charging the cost of both.
    pub fn write_u16(&mut self, addr: u16, value: u16)
        requires
            old(self).mmu.inv(),
            0 <= old(self).rw_cycles <= RW_CYCLES_CEILING,
        ensures
            final(self).mmu.inv(),
            final(self).rw_cycles == old(self).rw_cycles + 2 * DEFAULT_READ_WRITE_CYCLES,
            mem_write2_ticked(old(self).mmu, addr, value, 8, final(self).mmu),
            old(self).regs_eq(*final(self)),
            old(self).latches_eq(*final(self)),
    {
        self.mmu.write_u16(addr, value);
        self.rw_cycles = self.rw_cycles + 2 * DEFAULT_READ_WRITE_CYCLES;
        self.mmu.tick(2 * DEFAULT_READ_WRITE_CYCLES);
    }

    /// Read an 8-bit register operand; reading (HL) reads memory and
    /// charges the access cost.
    pub fn reg(&mut self, reg: Register) -> (v: u8)
        requires
            old(self).mmu.inv(),
            0 <= old(self).rw_cycles <= RW_CYCLES_CEILING,
        ensures
            final(self).mmu.inv(),
            v == old(self).spec_reg_value(reg),
            old(self).regs_eq(*final(self)),
            old(self).latches_eq(*final(self)),
            reg == Register::DerefHL ==> final(self).rw_cycles == old(self).rw_cycles
                + DEFAULT_READ_WRITE_CYCLES && old(self).mmu.tick_rel(4, final(self).mmu),
            reg != Register::DerefHL ==> *final(self) == *old(self),
    {
        match reg {
            Register::A => self.a,
            Register::B => self.b,
            Register::C => self.c,
            Register::D => self.d,
            Register::E => self.e,
            Register::H => self.h,
            Register::L => self.l,
            Register::DerefHL => {
                let addr = self.wide_reg(WideRegister::HL);
                self.read(addr)
            },
        }
    }

    /// Write an 8-bit register operand; writing (HL) writes memory and
    /// charges the access cost.
    pub fn set_reg(&mut self, reg: Register, value: u8)
        requires
            old(self).mmu.inv(),
            0 <= old(self).rw_cycles <= RW_CYCLES_CEILING,
        ensures
            final(self).mmu.inv(),
            final(self).sp == old(self).sp && final(self).pc == old(self).pc && final(self).f
                == old(self).f,
            old(self).latches_eq(*final(self)),
            reg == Register::DerefHL ==> *final(self) == (Cpu {
                mmu: final(self).mmu,
                rw_cycles: (old(self).rw_cycles + DEFAULT_READ_WRITE_CYCLES) as i64,
                ..*old(self)
            }) && mem_write_ticked(
                old(self).mmu,
                old(self).spec_wide(WideRegister::HL),
                value,
                4,
                final(self).mmu,
            ),
            reg != Register::DerefHL ==> *final(self) == (Cpu {
                a: if reg == Register::A {
                    value
                } else {
                    old(self).a
                },
                b: if reg == Register::B {
                    value
                } else {
                    old(self).b
                },
                c: if reg == Register::C {
                    value
                } else {
                    old(self).c
                },
                d: if reg == Register::D {
                    value
                } else {
                    old(self).d
                },
                e: if reg == Register::E {
                    value
                } else {
                    old(self).e
                },
                h: if reg == Register::H {
                    value
                } else {
                    old(self).h
                },
                l: if reg == Register::L {
                    value
                } else {
                    old(self).l
                },
                ..*old(self)
            }),
    {
        match reg {
            Register::A => self.a = value,
            Register::B => self.b = value,
            Register::C => self.c = value,
            Register::D => self.d = value,
            Register::E => self.e = value,
            Register::H => self.h = value,
            Register::L => self.l = value,
            Register::DerefHL => {
                let addr = self.wide_reg(WideRegister::HL);
                self.write(addr, value);
            },
        }
    }

    /// Pop a 16-bit value off the stack and advance the stack pointer.
    pub fn pop(&mut self) -> (v: u16)
        requires
            old(self).mmu.inv(),
            0 <= old(self).rw_cycles <= RW_CYCLES_CEILING,
        ensures
            final(self).mmu.inv(),
            v == old(self).mmu.spec_read(old(self).sp) + 256 * old(self).mmu.spec_read(
                wrap16(old(self).sp + 1),
            ),
            final(self).sp == wrap16(old(self).sp + 2),
            final(self).a == old(self).a && final(self).b == old(self).b && final(self).c == old(
                self,
            ).c && final(self).d == old(self).d && final(self).e == old(self).e && final(self).f
                == old(self).f && final(self).h == old(self).h && final(self).l == old(self).l
                && final(self).pc == old(self).pc,
            old(self).latches_eq(*final(self)),
            final(self).rw_cycles == old(self).rw_cycles + 2 * DEFAULT_READ_WRITE_CYCLES,
            old(self).mmu.tick_rel(8, final(self).mmu),
    {
        let value = self.read_u16(self.sp);
        self.sp = wrap_add(self.sp, 2);
        value
    }

    /// Push a 16-bit value onto the stack, moving the stack pointer down.
    pub fn push(&mut self, value: u16)
        requires
            old(self).mmu.inv(),
            0 <= old(self).rw_cycles <= RW_CYCLES_CEILING,
        ensures
            final(self).mmu.inv(),
            final(self).sp == wrap16(old(self).sp - 2),
            final(self).a == old(self).a && final(self).b == old(self).b && final(self).c == old(
                self,
            ).c && final(self).d == old(self).d && final(self).e == old(self).e && final(self).f
                == old(self).f && final(self).h == old(self).h && final(self).l == old(self).l
                && final(self).pc == old(self).pc,
            old(self).latches_eq(*final(self)),
            final(self).rw_cycles == old(self).rw_cycles + 2 * DEFAULT_READ_WRITE_CYCLES,
            mem_write2_ticked(old(self).mmu, final(self).sp, value, 8, final(self).mmu),
    {
        self.sp = wrap_sub(self.sp, 2);
        self.write_u16(self.sp, value);
    }

    /// Pop a 16-bit value off the stack and set the program counter to it.
    pub fn ret(&mut self)
        requires
            old(self).mmu.inv(),
            0 <= old(self).rw_cycles <= RW_CYCLES_CEILING,
        ensures
            final(self).mmu.inv(),
            final(self).pc == old(self).mmu.spec_read(old(self).sp) + 256 * old(
                self,
            ).mmu.spec_read(wrap16(old(self).sp + 1)),
            final(self).sp == wrap16(old(self).sp + 2),
            final(self).a == old(self).a && final(self).b == old(self).b && final(self).c == old(
                self,
            ).c && final(self).d == old(self).d && final(self).e == old(self).e && final(self).f
                == old(self).f && final(self).h == old(self).h && final(self).l == old(self).l,
            old(self).latches_eq(*final(self)),
            final(self).rw_cycles == old(self).rw_cycles + 2 * DEFAULT_READ_WRITE_CYCLES,
            old(self).mmu.tick_rel(8, final(self).mmu),
    {
        let value = self.pop();
        self.pc = value;
    }

    /// Push the program counter and jump to `addr`.
    pub fn call(&mut self, addr: u16)
        requires
            old(self).mmu.inv(),
            0 <= old(self).rw_cycles <= RW_CYCLES_CEILING,
        ensures
            final(self).mmu.inv(),
            final(self).pc == addr,
            final(self).sp == wrap16(old(self).sp - 2),
            final(self).a == old(self).a && final(self).b == old(self).b && final(self).c == old(
                self,
            ).c && final(self).d == old(self).d && final(self).e == old(self).e && final(self).f
                == old(self).f && final(self).h == old(self).h && final(self).l == old(self).l,
            old(self).latches_eq(*final(self)),
            final(self).rw_cycles == old(self).rw_cycles + 2 * DEFAULT_READ_WRITE_CYCLES,
            mem_write2_ticked(old(self).mmu, final(self).sp, old(self).pc, 8, final(self).mmu),
    {
        let pc = self.pc;
        self.push(pc);
        self.pc = addr;
    }

    /// Pop the stack into a wide register; popping into AF zeroes the low
    /// four flag bits.
    pub fn pop_wide_reg(&mut self, reg: WideRegister)
        requires
            old(self).mmu.inv(),
            0 <= old(self).rw_cycles <= RW_CYCLES_CEILING,
        ensures
            final(self).mmu.inv(),
            ({
                let v = (old(self).mmu.spec_read(old(self).sp) + 256 * old(self).mmu.spec_read(
                    wrap16(old(self).sp + 1),
                )) as u16;
                let popped = Cpu { sp: wrap16(old(self).sp + 2), ..*old(self) };
                popped.spec_set_wide(reg, v).regs_eq(*final(self))
            }),
            old(self).latches_eq(*final(self)),
            final(self).rw_cycles == old(self).rw_cycles + 2 * DEFAULT_READ_WRITE_CYCLES,
            old(self).mmu.tick_rel(8, final(self).mmu),
    {
        let value = self.pop();
        self.set_wide_reg(reg, value);
    }

    /// Push a wide register onto the stack.
    pub fn push_wide_reg(&mut self, reg: WideRegister)
        requires
            old(self).mmu.inv(),
            0 <= old(self).rw_cycles <= RW_CYCLES_CEILING,
        ensures
            final(self).mmu.inv(),
            final(self).sp == wrap16(old(self).sp - 2),
            final(self).a == old(self).a && final(self).b == old(self).b && final(self).c == old(
                self,
            ).c && final(self).d == old(self).d && final(self).e == old(self).e && final(self).f
                == old(self).f && final(self).h == old(self).h && final(self).l == old(self).l
                && final(self).pc == old(self).pc,
            old(self).latches_eq(*final(self)),
            final(self).rw_cycles == old(self).rw_cycles + 2 * DEFAULT_READ_WRITE_CYCLES,
            mem_write2_ticked(
                old(self).mmu,
                final(self).sp,
                old(self).spec_wide(reg),
                8,
                final(self).mmu,
            ),
    {
        let value = self.wide_reg(reg);
        self.push(value);
    }
}

/// A byte stream reading through the memory collaborator from a moving
/// program counter, without side effects on the emulator.
pub struct MmuByteStream<'a, T: ReadWriteMemory> {
    /// The address of the next byte.
    pub pc: u16,
    /// The memory read from.
    pub mmu: &'a T,
}

impl<'a, T: ReadWriteMemory> ByteStream for MmuByteStream<'a, T> {
    open spec fn inv(&self) -> bool {
        self.mmu.inv()
    }

    open spec fn byte_at(&self, i: int) -> u8 {
        if i >= 0 {
            self.mmu.spec_read(wrap16(self.pc + i))
        } else {
            0u8
        }
    }

    fn fetch(&mut self) -> (b: u8) {
        let b = self.mmu.read(self.pc);
        let old_pc: Ghost<u16> = Ghost(self.pc);
        self.pc = if self.pc == 0xFFFF {
            0
        } else {
            self.pc + 1
        };
        proof {
            assert forall|i: int| 0 <= i implies #[trigger] self.byte_at(i) == old(self).byte_at(
                i + 1,
            ) by {
                lemma_wrap16_shift(old_pc@ as int, i);
            }
        }
        b
    }
}

/// Reducing an address into the 16-bit space commutes with stepping it
/// forward: advancing a wrapped successor by `i` lands where advancing the
/// raw address by `i + 1` lands.
proof fn lemma_wrap16_shift(pc: int, i: int)
    requires
        i >= 0,
    ensures
        wrap16(wrap16(pc + 1) + i) == wrap16(pc + 1 + i),
{
    let m = 0x10000;
    let a = pc + 1;
    vstd::arithmetic::div_mod::lemma_fundamental_div_mod(a, m);
    vstd::arithmetic::div_mod::lemma_mod_multiples_vanish(-(a / m), a + i, m);
}

impl<T: ReadWriteMemory + Tick> Cpu<T> {
    /// Decode the instruction at the program counter.
    ///
    /// Reading for a decode has no side effects: no cycles pass and nothing
    /// changes. Returns `Err` carrying the fetched byte when it corresponds
    /// to no opcode.
    pub fn fetch(&self) -> (r: Result<Instruction, u8>)
        requires
            self.mmu.inv(),
        ensures
            r == (match spec_decode(
                self.mmu.spec_read(self.pc),
                self.mmu.spec_read(wrap16(self.pc + 1)),
                self.mmu.spec_read(wrap16(self.pc + 2)),
            ) {
                Ok(op) => Ok::<Instruction, u8>(spec_instruction(op)),
                Err(b) => Err(b),
            }),
    {
        let mut stream = MmuByteStream { pc: self.pc, mmu: &self.mmu };
        let r = Instruction::try_from(&mut stream);
        proof {
            assert(wrap16(self.pc + 0) == self.pc);
        }
        r
    }
}

} // verus!
