//! Arithmetic, logic, shift and rotate primitives with their flag updates.
//!
//! Every operation is specified exactly: the result byte, the carry out of
//! the ninth bit, the half carry out of the fifth bit, and the zero flag.
//! The subtraction flag is owned by the instruction table's masks, so these
//! operations leave it alone.

use vstd::prelude::*;

use crate::cpu::Cpu;
use crate::cpu::RW_CYCLES_CEILING;
use crate::cpu::mem_write_ticked;
use crate::flags::FlagsRegister;
use crate::opcode::Register;
use crate::opcode::WideRegister;
use crate::traits::ReadWriteMemory;
use crate::traits::Tick;
use crate::traits::wrap16;

verus! {

/// One where the condition holds, zero otherwise.
pub open spec fn b2i(b: bool) -> int {
    if b {
        1
    } else {
        0
    }
}

/// The byte sum, wrapped.
pub open spec fn spec_add_result(a: u8, n: u8) -> u8 {
    ((a + n) % 256) as u8
}

/// Carry out of the ninth bit of the byte sum.
pub open spec fn spec_add_carry(a: u8, n: u8) -> bool {
    a + n > 255
}

/// Carry out of the fifth bit of the low-nibble sum.
pub open spec fn spec_add_half(a: u8, n: u8) -> bool {
    a % 16 + n % 16 >= 16
}

/// The byte sum with carry-in, wrapped.
pub open spec fn spec_adc_result(a: u8, n: u8, c: bool) -> u8 {
    ((a + n + b2i(c)) % 256) as u8
}

/// Carry out of the ninth bit of the byte sum with carry-in.
pub open spec fn spec_adc_carry(a: u8, n: u8, c: bool) -> bool {
    a + n + b2i(c) > 255
}

/// Carry out of the fifth bit of the low-nibble sum with carry-in.
pub open spec fn spec_adc_half(a: u8, n: u8, c: bool) -> bool {
    a % 16 + n % 16 + b2i(c) >= 16
}

/// The byte difference, wrapped.
pub open spec fn spec_sub_result(a: u8, n: u8) -> u8 {
    ((a - n) % 256) as u8
}

/// Borrow out of the ninth bit of the byte difference.
pub open spec fn spec_sub_carry(a: u8, n: u8) -> bool {
    n > a
}

/// Borrow out of the fifth bit of the low-nibble difference.
pub open spec fn spec_sub_half(a: u8, n: u8) -> bool {
    n % 16 > a % 16
}

/// The byte difference with borrow-in, wrapped.
pub open spec fn spec_sbc_result(a: u8, n: u8, c: bool) -> u8 {
    ((a - n - b2i(c)) % 256) as u8
}

/// Borrow out of the ninth bit of the byte difference with borrow-in.
pub open spec fn spec_sbc_carry(a: u8, n: u8, c: bool) -> bool {
    n + b2i(c) > a
}

/// Borrow out of the fifth bit of the low-nibble difference with borrow-in.
pub open spec fn spec_sbc_half(a: u8, n: u8, c: bool) -> bool {
    n % 16 + b2i(c) > a % 16
}

/// The 16-bit sum, wrapped.
pub open spec fn spec_add16_result(x: u16, y: u16) -> u16 {
    ((x + y) % 0x10000) as u16
}

/// Carry out of bit 16 of the wide sum.
pub open spec fn spec_add16_carry(x: u16, y: u16) -> bool {
    x + y > 0xFFFF
}

/// Carry out of bit 12 of the wide sum.
pub open spec fn spec_add16_half(x: u16, y: u16) -> bool {
    x % 4096 + y % 4096 >= 4096
}

/// The byte incremented, wrapped.
pub open spec fn spec_inc_result(v: u8) -> u8 {
    ((v + 1) % 256) as u8
}

/// The byte decremented, wrapped.
pub open spec fn spec_dec_result(v: u8) -> u8 {
    ((v - 1) % 256) as u8
}

/// Rotated left: bit 7 moves to bit 0 and to the carry.
pub open spec fn spec_rlc(v: u8) -> u8 {
    ((v % 128) * 2 + v / 128) as u8
}

/// Rotated right: bit 0 moves to bit 7 and to the carry.
pub open spec fn spec_rrc(v: u8) -> u8 {
    (v / 2 + (v % 2) * 128) as u8
}

/// Rotated left through the carry: the carry moves into bit 0.
pub open spec fn spec_rl(v: u8, c: bool) -> u8 {
    ((v % 128) * 2 + b2i(c)) as u8
}

/// Rotated right through the carry: the carry moves into bit 7.
pub open spec fn spec_rr(v: u8, c: bool) -> u8 {
    (v / 2 + b2i(c) * 128) as u8
}

/// Shifted left arithmetically: bit 0 becomes zero.
pub open spec fn spec_sla(v: u8) -> u8 {
    ((v % 128) * 2) as u8
}

/// Shifted right arithmetically: the sign bit is preserved.
pub open spec fn spec_sra(v: u8) -> u8 {
    (v / 2 + (v / 128) * 128) as u8
}

/// Shifted right logically: bit 7 becomes zero.
pub open spec fn spec_srl(v: u8) -> u8 {
    (v / 2) as u8
}

/// The nibbles exchanged.
pub open spec fn spec_swap(v: u8) -> u8 {
    ((v % 16) * 16 + v / 16) as u8
}

/// Every bit inverted.
pub open spec fn spec_cpl(v: u8) -> u8 {
    (255 - v) as u8
}

/// The accumulator decimal-adjusted after an addition or subtraction, and
/// the carry flag after the adjustment; the carry can only be raised, never
/// cleared.
pub open spec fn spec_daa(a: u8, f: FlagsRegister) -> (u8, bool) {
    if !f.n {
        let wide = if f.c || a > 0x99 {
            ((a + 0x60) % 256) as u8
        } else {
            a
        };
        let c = f.c || a > 0x99;
        let adjusted = if f.h || wide % 16 > 0x09 {
            ((wide + 0x06) % 256) as u8
        } else {
            wide
        };
        (adjusted, c)
    } else {
        let wide = if f.c {
            ((a - 0x60) % 256) as u8
        } else {
            a
        };
        let adjusted = if f.h {
            ((wide - 0x06) % 256) as u8
        } else {
            wide
        };
        (adjusted, f.c)
    }
}

/// Exchanging the nibbles twice is the identity.
pub proof fn lemma_swap_twice(v: u8)
    ensures
        spec_swap(spec_swap(v)) == v,
{
    let a = v % 16;
    let b = v / 16;
    let s = spec_swap(v);
    assert(s == a * 16 + b);
    vstd::arithmetic::div_mod::lemma_fundamental_div_mod_converse(a * 16 + b, 16, a as int, b as int);
    assert(s % 16 == b && s / 16 == a);
    vstd::arithmetic::div_mod::lemma_fundamental_div_mod(v as int, 16);
}

/// Inverting every bit twice is the identity.
pub proof fn lemma_cpl_twice(v: u8)
    ensures
        spec_cpl(spec_cpl(v)) == v,
{
}

/// The flags after a whole CCF instruction: the executor toggles the carry,
/// then the instruction's masks clear the subtraction and half-carry flags.
pub open spec fn spec_ccf_flags(f: FlagsRegister) -> FlagsRegister {
    let toggled = FlagsRegister { c: !f.c, ..f };
    let table = crate::instruction::spec_instruction(crate::opcode::Opcode::Ccf);
    toggled.spec_insert(table.set_flags).spec_remove(table.reset_flags)
}

/// Two CCF instructions in a row leave the carry as it was and leave the
/// subtraction and half-carry flags cleared; the zero flag is untouched
/// throughout.
pub proof fn lemma_ccf_twice(f: FlagsRegister)
    ensures
        spec_ccf_flags(spec_ccf_flags(f)).c == f.c,
        !spec_ccf_flags(spec_ccf_flags(f)).n,
        !spec_ccf_flags(spec_ccf_flags(f)).h,
        spec_ccf_flags(spec_ccf_flags(f)).z == f.z,
{
}

/// How a read-modify-write of one 8-bit register operand relates the CPU
/// before to the CPU after: the operand holds `nv`, the flags hold `fpost`,
/// and everything else is unchanged. An operand in memory costs two ticked
/// accesses.
/// The memory path of a read-modify-write on (HL): the read's tick, the
/// write of the new value, and the write's tick, in that order.
pub open spec fn unary_mem_path<T: ReadWriteMemory + Tick>(
    premmu: T,
    hl: u16,
    nv: u8,
    postmmu: T,
) -> bool {
    exists|m1: T, m2: T|
        #![trigger premmu.tick_rel(4, m1), m1.write_rel(hl, nv, m2)]
        premmu.tick_rel(4, m1) && m1.write_rel(hl, nv, m2) && m2.tick_rel(4, postmmu)
}

pub open spec fn unary_applied<T: ReadWriteMemory + Tick>(
    pre: Cpu<T>,
    reg: Register,
    nv: u8,
    fpost: FlagsRegister,
    post: Cpu<T>,
) -> bool {
    post.f == fpost && post.sp == pre.sp && post.pc == pre.pc && pre.latches_eq(post) && if reg
        == Register::DerefHL {
        post.a == pre.a && post.b == pre.b && post.c == pre.c && post.d == pre.d && post.e
            == pre.e && post.h == pre.h && post.l == pre.l && post.rw_cycles == pre.rw_cycles + 8
            && unary_mem_path(pre.mmu, pre.spec_wide(WideRegister::HL), nv, post.mmu)
    } else {
        post.rw_cycles == pre.rw_cycles && post.mmu == pre.mmu && post.a == (if reg == Register::A {
            nv
        } else {
            pre.a
        }) && post.b == (if reg == Register::B {
            nv
        } else {
            pre.b
        }) && post.c == (if reg == Register::C {
            nv
        } else {
            pre.c
        }) && post.d == (if reg == Register::D {
            nv
        } else {
            pre.d
        }) && post.e == (if reg == Register::E {
            nv
        } else {
            pre.e
        }) && post.h == (if reg == Register::H {
            nv
        } else {
            pre.h
        }) && post.l == (if reg == Register::L {
            nv
        } else {
            pre.l
        })
    }
}

impl<T: ReadWriteMemory + Tick> Cpu<T> {
    /// Add `n` to the accumulator; zero, half-carry and carry follow the
    /// result.
    pub fn add(&mut self, n: u8)
        requires
            old(self).mmu.inv(),
        ensures
            *final(self) == (Cpu {
                a: spec_add_result(old(self).a, n),
                f: FlagsRegister {
                    z: spec_add_result(old(self).a, n) == 0,
                    n: old(self).f.n,
                    h: spec_add_half(old(self).a, n),
                    c: spec_add_carry(old(self).a, n),
                },
                ..*old(self)
            }),
    {
        let a = self.a;
        let wide: u16 = a as u16 + n as u16;
        let value = (wide % 256) as u8;
        self.a = value;
        self.f.h = a % 16 + n % 16 >= 16;
        self.f.c = wide > 255;
        self.f.z = value == 0;
    }

    /// Add `n` and the carry flag to the accumulator.
    pub fn adc(&mut self, n: u8)
        requires
            old(self).mmu.inv(),
        ensures
            *final(self) == (Cpu {
                a: spec_adc_result(old(self).a, n, old(self).f.c),
                f: FlagsRegister {
                    z: spec_adc_result(old(self).a, n, old(self).f.c) == 0,
                    n: old(self).f.n,
                    h: spec_adc_half(old(self).a, n, old(self).f.c),
                    c: spec_adc_carry(old(self).a, n, old(self).f.c),
                },
                ..*old(self)
            }),
    {
        let a = self.a;
        let carry_in: u16 = if self.f.c {
            1
        } else {
            0
        };
        let wide: u16 = a as u16 + n as u16 + carry_in;
        let value = (wide % 256) as u8;
        self.a = value;
        self.f.h = a as u16 % 16 + n as u16 % 16 + carry_in >= 16;
        self.f.c = wide > 255;
        self.f.z = value == 0;
    }

    /// Subtract `n` from the accumulator.
    pub fn sub(&mut self, n: u8)
        requires
            old(self).mmu.inv(),
        ensures
            *final(self) == (Cpu {
                a: spec_sub_result(old(self).a, n),
                f: FlagsRegister {
                    z: spec_sub_result(old(self).a, n) == 0,
                    n: old(self).f.n,
                    h: spec_sub_half(old(self).a, n),
                    c: spec_sub_carry(old(self).a, n),
                },
                ..*old(self)
            }),
    {
        let a = self.a;
        let wide: u16 = a as u16 + 256 - n as u16;
        let value = (wide % 256) as u8;
        self.a = value;
        self.f.h = n % 16 > a % 16;
        self.f.c = n > a;
        self.f.z = value == 0;
        proof {
            vstd::arithmetic::div_mod::lemma_mod_add_multiples_vanish(
                old(self).a - n,
                256,
            );
        }
    }

    /// Subtract `n` and the carry flag from the accumulator.
    pub fn sbc(&mut self, n: u8)
        requires
            old(self).mmu.inv(),
        ensures
            *final(self) == (Cpu {
                a: spec_sbc_result(old(self).a, n, old(self).f.c),
                f: FlagsRegister {
                    z: spec_sbc_result(old(self).a, n, old(self).f.c) == 0,
                    n: old(self).f.n,
                    h: spec_sbc_half(old(self).a, n, old(self).f.c),
                    c: spec_sbc_carry(old(self).a, n, old(self).f.c),
                },
                ..*old(self)
            }),
    {
        let a = self.a;
        let carry_in: u16 = if self.f.c {
            1
        } else {
            0
        };
        let wide: u16 = a as u16 + 512 - n as u16 - carry_in;
        let value = (wide % 256) as u8;
        self.a = value;
        self.f.h = n as u16 % 16 + carry_in > a as u16 % 16;
        self.f.c = n as u16 + carry_in > a as u16;
        self.f.z = value == 0;
        proof {
            vstd::arithmetic::div_mod::lemma_mod_add_multiples_vanish(
                old(self).a - n - b2i(old(self).f.c) + 256,
                256,
            );
            vstd::arithmetic::div_mod::lemma_mod_add_multiples_vanish(
                old(self).a - n - b2i(old(self).f.c),
                256,
            );
        }
    }

    /// Bitwise AND of the accumulator with `n`.
    pub fn and(&mut self, n: u8)
        requires
            old(self).mmu.inv(),
        ensures
            *final(self) == (Cpu {
                a: old(self).a & n,
                f: FlagsRegister { z: (old(self).a & n) == 0, ..old(self).f },
                ..*old(self)
            }),
    {
        let value = self.a & n;
        self.a = value;
        self.f.z = value == 0;
    }

    /// Bitwise XOR of the accumulator with `n`.
    pub fn xor(&mut self, n: u8)
        requires
            old(self).mmu.inv(),
        ensures
            *final(self) == (Cpu {
                a: old(self).a ^ n,
                f: FlagsRegister { z: (old(self).a ^ n) == 0, ..old(self).f },
                ..*old(self)
            }),
    {
        let value = self.a ^ n;
        self.a = value;
        self.f.z = value == 0;
    }

    /// Bitwise OR of the accumulator with `n`.
    pub fn or(&mut self, n: u8)
        requires
            old(self).mmu.inv(),
        ensures
            *final(self) == (Cpu {
                a: old(self).a | n,
                f: FlagsRegister { z: (old(self).a | n) == 0, ..old(self).f },
                ..*old(self)
            }),
    {
        let value = self.a | n;
        self.a = value;
        self.f.z = value == 0;
    }

    /// Compare the accumulator with `n`: subtraction flags without storing
    /// the difference.
    pub fn cp(&mut self, n: u8)
        requires
            old(self).mmu.inv(),
        ensures
            *final(self) == (Cpu {
                f: FlagsRegister {
                    z: spec_sub_result(old(self).a, n) == 0,
                    n: old(self).f.n,
                    h: spec_sub_half(old(self).a, n),
                    c: spec_sub_carry(old(self).a, n),
                },
                ..*old(self)
            }),
    {
        let a = self.a;
        let wide: u16 = a as u16 + 256 - n as u16;
        let value = (wide % 256) as u8;
        self.f.h = n % 16 > a % 16;
        self.f.c = n > a;
        self.f.z = value == 0;
        proof {
            vstd::arithmetic::div_mod::lemma_mod_add_multiples_vanish(
                old(self).a - n,
                256,
            );
        }
    }

    /// Add one wide register into another; carry and half-carry follow the
    /// wide sum, the zero flag is untouched.
    pub fn add_wide(&mut self, lhs: WideRegister, rhs: WideRegister)
        requires
            old(self).mmu.inv(),
        ensures
            *final(self) == (Cpu {
                f: FlagsRegister {
                    z: old(self).spec_set_wide(
                        lhs,
                        spec_add16_result(old(self).spec_wide(lhs), old(self).spec_wide(rhs)),
                    ).f.z,
                    n: old(self).spec_set_wide(
                        lhs,
                        spec_add16_result(old(self).spec_wide(lhs), old(self).spec_wide(rhs)),
                    ).f.n,
                    h: spec_add16_half(old(self).spec_wide(lhs), old(self).spec_wide(rhs)),
                    c: spec_add16_carry(old(self).spec_wide(lhs), old(self).spec_wide(rhs)),
                },
                ..old(self).spec_set_wide(
                    lhs,
                    spec_add16_result(old(self).spec_wide(lhs), old(self).spec_wide(rhs)),
                )
            }),
    {
        let x = self.wide_reg(lhs);
        let y = self.wide_reg(rhs);
        let wide: u32 = x as u32 + y as u32;
        let value = (wide % 0x10000) as u16;
        let hc = x % 4096 + y % 4096 >= 4096;
        let carry = wide > 0xFFFF;
        self.set_wide_reg(lhs, value);
        self.f.h = hc;
        self.f.c = carry;
    }

    /// Increment an 8-bit register operand; the carry flag is untouched.
    pub fn inc(&mut self, reg: Register)
        requires
            old(self).mmu.inv(),
            0 <= old(self).rw_cycles,
            old(self).rw_cycles + 8 <= RW_CYCLES_CEILING,
        ensures
            final(self).mmu.inv(),
            ({
                let v0 = old(self).spec_reg_value(reg);
                unary_applied(
                    *old(self),
                    reg,
                    spec_inc_result(v0),
                    FlagsRegister {
                        z: spec_inc_result(v0) == 0,
                        n: old(self).f.n,
                        h: v0 % 16 == 15,
                        c: old(self).f.c,
                    },
                    *final(self),
                )
            }),
    {
        let v = self.reg(reg);
        let ghost mid = *self;
        let value = if v == 255 {
            0
        } else {
            v + 1
        };
        let hc = v % 16 == 15;
        self.set_reg(reg, value);
        proof {
            if reg == Register::DerefHL {
                let hl = old(self).spec_wide(WideRegister::HL);
                assert(old(self).mmu.tick_rel(4, mid.mmu));
                assert(mem_write_ticked(mid.mmu, hl, value, 4, self.mmu));
                let m2 = choose|m2: T| mid.mmu.write_rel(hl, value, m2) && m2.tick_rel(
                    4,
                    self.mmu,
                );
                assert(mid.mmu.write_rel(hl, value, m2) && m2.tick_rel(4, self.mmu));
                assert(value == spec_inc_result(old(self).spec_reg_value(reg)));
                assert(mid.mmu.write_rel(hl, spec_inc_result(old(self).spec_reg_value(reg)), m2));
                assert(unary_mem_path(old(self).mmu, hl, spec_inc_result(old(self).spec_reg_value(reg)), self.mmu));
            }
        }
        self.f.z = value == 0;
        self.f.h = hc;
        proof {
            assert(({
                let v0 = old(self).spec_reg_value(reg);
                unary_applied(
                    *old(self),
                    reg,
                    spec_inc_result(v0),
                    FlagsRegister {
                        z: spec_inc_result(v0) == 0,
                        n: old(self).f.n,
                        h: v0 % 16 == 15,
                        c: old(self).f.c,
                    },
                    *self,
                )
            }));
        }
    }

    /// Decrement an 8-bit register operand; the carry flag is untouched.
    pub fn dec(&mut self, reg: Register)
        requires
            old(self).mmu.inv(),
            0 <= old(self).rw_cycles,
            old(self).rw_cycles + 8 <= RW_CYCLES_CEILING,
        ensures
            final(self).mmu.inv(),
            ({
                let v0 = old(self).spec_reg_value(reg);
                unary_applied(
                    *old(self),
                    reg,
                    spec_dec_result(v0),
                    FlagsRegister {
                        z: spec_dec_result(v0) == 0,
                        n: old(self).f.n,
                        h: v0 % 16 == 0,
                        c: old(self).f.c,
                    },
                    *final(self),
                )
            }),
    {
        let v = self.reg(reg);
        let ghost mid = *self;
        let value = if v == 0 {
            255
        } else {
            v - 1
        };
        let hc = v % 16 == 0;
        self.set_reg(reg, value);
        proof {
            if reg == Register::DerefHL {
                let hl = old(self).spec_wide(WideRegister::HL);
                assert(old(self).mmu.tick_rel(4, mid.mmu));
                assert(mem_write_ticked(mid.mmu, hl, value, 4, self.mmu));
                let m2 = choose|m2: T| mid.mmu.write_rel(hl, value, m2) && m2.tick_rel(
                    4,
                    self.mmu,
                );
                assert(mid.mmu.write_rel(hl, value, m2) && m2.tick_rel(4, self.mmu));
                assert(value == spec_dec_result(old(self).spec_reg_value(reg)));
                assert(mid.mmu.write_rel(hl, spec_dec_result(old(self).spec_reg_value(reg)), m2));
                assert(unary_mem_path(old(self).mmu, hl, spec_dec_result(old(self).spec_reg_value(reg)), self.mmu));
            }
        }
        self.f.z = value == 0;
        self.f.h = hc;
        proof {
            vstd::arithmetic::div_mod::lemma_mod_add_multiples_vanish(
                old(self).spec_reg_value(reg) - 1,
                256,
            );
        }
        proof {
            assert(({
                let v0 = old(self).spec_reg_value(reg);
                unary_applied(
                    *old(self),
                    reg,
                    spec_dec_result(v0),
                    FlagsRegister {
                        z: spec_dec_result(v0) == 0,
                        n: old(self).f.n,
                        h: v0 % 16 == 0,
                        c: old(self).f.c,
                    },
                    *self,
                )
            }));
        }
    }

    /// Increment a wide register; no flags change.
    pub fn inc_wide(&mut self, reg: WideRegister)
        ensures
            *final(self) == old(self).spec_set_wide(
                reg,
                wrap16(old(self).spec_wide(reg) + 1),
            ),
    {
        let value = self.wide_reg(reg);
        let next = if value == 0xFFFF {
            0
        } else {
            value + 1
        };
        self.set_wide_reg(reg, next);
    }

    /// Decrement a wide register; no flags change.
    pub fn dec_wide(&mut self, reg: WideRegister)
        ensures
            *final(self) == old(self).spec_set_wide(
                reg,
                wrap16(old(self).spec_wide(reg) - 1),
            ),
    {
        let value = self.wide_reg(reg);
        let next = if value == 0 {
            0xFFFF
        } else {
            value - 1
        };
        self.set_wide_reg(reg, next);
        proof {
            if old(self).spec_wide(reg) == 0 {
                vstd::arithmetic::div_mod::lemma_mod_add_multiples_vanish(-1, 0x10000);
            }
        }
    }

    /// Rotate an 8-bit register operand left; the zero flag follows the
    /// result only when `z_flag` is set.
    pub fn rlc(&mut self, reg: Register, z_flag: bool)
        requires
            old(self).mmu.inv(),
            0 <= old(self).rw_cycles,
            old(self).rw_cycles + 8 <= RW_CYCLES_CEILING,
        ensures
            final(self).mmu.inv(),
            ({
                let v0 = old(self).spec_reg_value(reg);
                unary_applied(
                    *old(self),
                    reg,
                    spec_rlc(v0),
                    FlagsRegister {
                        z: if z_flag {
                            spec_rlc(v0) == 0
                        } else {
                            old(self).f.z
                        },
                        n: old(self).f.n,
                        h: old(self).f.h,
                        c: v0 >= 128,
                    },
                    *final(self),
                )
            }),
    {
        let v = self.reg(reg);
        let ghost mid = *self;
        let carry = v >= 128;
        let value = (v % 128) * 2 + if carry {
            1
        } else {
            0
        };
        self.set_reg(reg, value);
        proof {
            if reg == Register::DerefHL {
                let hl = old(self).spec_wide(WideRegister::HL);
                assert(old(self).mmu.tick_rel(4, mid.mmu));
                assert(mem_write_ticked(mid.mmu, hl, value, 4, self.mmu));
                let m2 = choose|m2: T| mid.mmu.write_rel(hl, value, m2) && m2.tick_rel(
                    4,
                    self.mmu,
                );
                assert(mid.mmu.write_rel(hl, value, m2) && m2.tick_rel(4, self.mmu));
                assert(value == spec_rlc(old(self).spec_reg_value(reg)));
                assert(mid.mmu.write_rel(hl, spec_rlc(old(self).spec_reg_value(reg)), m2));
                assert(unary_mem_path(old(self).mmu, hl, spec_rlc(old(self).spec_reg_value(reg)), self.mmu));
            }
        }
        if z_flag {
            self.f.z = value == 0;
        }
        self.f.c = carry;
        proof {
            assert(({
                let v0 = old(self).spec_reg_value(reg);
                unary_applied(
                    *old(self),
                    reg,
                    spec_rlc(v0),
                    FlagsRegister {
                        z: if z_flag {
                            spec_rlc(v0) == 0
                        } else {
                            old(self).f.z
                        },
                        n: old(self).f.n,
                        h: old(self).f.h,
                        c: v0 >= 128,
                    },
                    *self,
                )
            }));
        }
    }

    /// Rotate an 8-bit register operand right; the zero flag follows the
    /// result only when `z_flag` is set.
    pub fn rrc(&mut self, reg: Register, z_flag: bool)
        requires
            old(self).mmu.inv(),
            0 <= old(self).rw_cycles,
            old(self).rw_cycles + 8 <= RW_CYCLES_CEILING,
        ensures
            final(self).mmu.inv(),
            ({
                let v0 = old(self).spec_reg_value(reg);
                unary_applied(
                    *old(self),
                    reg,
                    spec_rrc(v0),
                    FlagsRegister {
                        z: if z_flag {
                            spec_rrc(v0) == 0
                        } else {
                            old(self).f.z
                        },
                        n: old(self).f.n,
                        h: old(self).f.h,
                        c: v0 % 2 == 1,
                    },
                    *final(self),
                )
            }),
    {
        let v = self.reg(reg);
        let ghost mid = *self;
        let carry = v % 2 == 1;
        let value = v / 2 + if carry {
            128
        } else {
            0
        };
        self.set_reg(reg, value);
        proof {
            if reg == Register::DerefHL {
                let hl = old(self).spec_wide(WideRegister::HL);
                assert(old(self).mmu.tick_rel(4, mid.mmu));
                assert(mem_write_ticked(mid.mmu, hl, value, 4, self.mmu));
                let m2 = choose|m2: T| mid.mmu.write_rel(hl, value, m2) && m2.tick_rel(
                    4,
                    self.mmu,
                );
                assert(mid.mmu.write_rel(hl, value, m2) && m2.tick_rel(4, self.mmu));
                assert(value == spec_rrc(old(self).spec_reg_value(reg)));
                assert(mid.mmu.write_rel(hl, spec_rrc(old(self).spec_reg_value(reg)), m2));
                assert(unary_mem_path(old(self).mmu, hl, spec_rrc(old(self).spec_reg_value(reg)), self.mmu));
            }
        }
        if z_flag {
            self.f.z = value == 0;
        }
        self.f.c = carry;
        proof {
            assert(({
                let v0 = old(self).spec_reg_value(reg);
                unary_applied(
                    *old(self),
                    reg,
                    spec_rrc(v0),
                    FlagsRegister {
                        z: if z_flag {
                            spec_rrc(v0) == 0
                        } else {
                            old(self).f.z
                        },
                        n: old(self).f.n,
                        h: old(self).f.h,
                        c: v0 % 2 == 1,
                    },
                    *self,
                )
            }));
        }
    }

    /// Rotate an 8-bit register operand left through the carry.
    pub fn rl(&mut self, reg: Register, z_flag: bool)
        requires
            old(self).mmu.inv(),
            0 <= old(self).rw_cycles,
            old(self).rw_cycles + 8 <= RW_CYCLES_CEILING,
        ensures
            final(self).mmu.inv(),
            ({
                let v0 = old(self).spec_reg_value(reg);
                unary_applied(
                    *old(self),
                    reg,
                    spec_rl(v0, old(self).f.c),
                    FlagsRegister {
                        z: if z_flag {
                            spec_rl(v0, old(self).f.c) == 0
                        } else {
                            old(self).f.z
                        },
                        n: old(self).f.n,
                        h: old(self).f.h,
                        c: v0 >= 128,
                    },
                    *final(self),
                )
            }),
    {
        let v = self.reg(reg);
        let ghost mid = *self;
        let old_carry = self.f.c;
        let carry = v >= 128;
        let value = (v % 128) * 2 + if old_carry {
            1
        } else {
            0
        };
        self.set_reg(reg, value);
        proof {
            if reg == Register::DerefHL {
                let hl = old(self).spec_wide(WideRegister::HL);
                assert(old(self).mmu.tick_rel(4, mid.mmu));
                assert(mem_write_ticked(mid.mmu, hl, value, 4, self.mmu));
                let m2 = choose|m2: T| mid.mmu.write_rel(hl, value, m2) && m2.tick_rel(
                    4,
                    self.mmu,
                );
                assert(mid.mmu.write_rel(hl, value, m2) && m2.tick_rel(4, self.mmu));
                assert(value == spec_rl(old(self).spec_reg_value(reg), old(self).f.c));
                assert(mid.mmu.write_rel(hl, spec_rl(old(self).spec_reg_value(reg), old(self).f.c), m2));
                assert(unary_mem_path(old(self).mmu, hl, spec_rl(old(self).spec_reg_value(reg), old(self).f.c), self.mmu));
            }
        }
        if z_flag {
            self.f.z = value == 0;
        }
        self.f.c = carry;
        proof {
            assert(({
                let v0 = old(self).spec_reg_value(reg);
                unary_applied(
                    *old(self),
                    reg,
                    spec_rl(v0, old(self).f.c),
                    FlagsRegister {
                        z: if z_flag {
                            spec_rl(v0, old(self).f.c) == 0
                        } else {
                            old(self).f.z
                        },
                        n: old(self).f.n,
                        h: old(self).f.h,
                        c: v0 >= 128,
                    },
                    *self,
                )
            }));
        }
    }

    /// Rotate an 8-bit register operand right through the carry.
    pub fn rr(&mut self, reg: Register, z_flag: bool)
        requires
            old(self).mmu.inv(),
            0 <= old(self).rw_cycles,
            old(self).rw_cycles + 8 <= RW_CYCLES_CEILING,
        ensures
            final(self).mmu.inv(),
            ({
                let v0 = old(self).spec_reg_value(reg);
                unary_applied(
                    *old(self),
                    reg,
                    spec_rr(v0, old(self).f.c),
                    FlagsRegister {
                        z: if z_flag {
                            spec_rr(v0, old(self).f.c) == 0
                        } else {
                            old(self).f.z
                        },
                        n: old(self).f.n,
                        h: old(self).f.h,
                        c: v0 % 2 == 1,
                    },
                    *final(self),
                )
            }),
    {
        let v = self.reg(reg);
        let ghost mid = *self;
        let old_carry = self.f.c;
        let carry = v % 2 == 1;
        let value = v / 2 + if old_carry {
            128
        } else {
            0
        };
        self.set_reg(reg, value);
        proof {
            if reg == Register::DerefHL {
                let hl = old(self).spec_wide(WideRegister::HL);
                assert(old(self).mmu.tick_rel(4, mid.mmu));
                assert(mem_write_ticked(mid.mmu, hl, value, 4, self.mmu));
                let m2 = choose|m2: T| mid.mmu.write_rel(hl, value, m2) && m2.tick_rel(
                    4,
                    self.mmu,
                );
                assert(mid.mmu.write_rel(hl, value, m2) && m2.tick_rel(4, self.mmu));
                assert(value == spec_rr(old(self).spec_reg_value(reg), old(self).f.c));
                assert(mid.mmu.write_rel(hl, spec_rr(old(self).spec_reg_value(reg), old(self).f.c), m2));
                assert(unary_mem_path(old(self).mmu, hl, spec_rr(old(self).spec_reg_value(reg), old(self).f.c), self.mmu));
            }
        }
        if z_flag {
            self.f.z = value == 0;
        }
        self.f.c = carry;
        proof {
            assert(({
                let v0 = old(self).spec_reg_value(reg);
                unary_applied(
                    *old(self),
                    reg,
                    spec_rr(v0, old(self).f.c),
                    FlagsRegister {
                        z: if z_flag {
                            spec_rr(v0, old(self).f.c) == 0
                        } else {
                            old(self).f.z
                        },
                        n: old(self).f.n,
                        h: old(self).f.h,
                        c: v0 % 2 == 1,
                    },
                    *self,
                )
            }));
        }
    }

    /// Shift an 8-bit register operand left arithmetically.
    pub fn sla(&mut self, reg: Register)
        requires
            old(self).mmu.inv(),
            0 <= old(self).rw_cycles,
            old(self).rw_cycles + 8 <= RW_CYCLES_CEILING,
        ensures
            final(self).mmu.inv(),
            ({
                let v0 = old(self).spec_reg_value(reg);
                unary_applied(
                    *old(self),
                    reg,
                    spec_sla(v0),
                    FlagsRegister {
                        z: spec_sla(v0) == 0,
                        n: old(self).f.n,
                        h: old(self).f.h,
                        c: v0 >= 128,
                    },
                    *final(self),
                )
            }),
    {
        let v = self.reg(reg);
        let ghost mid = *self;
        let carry = v >= 128;
        let value = (v % 128) * 2;
        self.set_reg(reg, value);
        proof {
            if reg == Register::DerefHL {
                let hl = old(self).spec_wide(WideRegister::HL);
                assert(old(self).mmu.tick_rel(4, mid.mmu));
                assert(mem_write_ticked(mid.mmu, hl, value, 4, self.mmu));
                let m2 = choose|m2: T| mid.mmu.write_rel(hl, value, m2) && m2.tick_rel(
                    4,
                    self.mmu,
                );
                assert(mid.mmu.write_rel(hl, value, m2) && m2.tick_rel(4, self.mmu));
                assert(value == spec_sla(old(self).spec_reg_value(reg)));
                assert(mid.mmu.write_rel(hl, spec_sla(old(self).spec_reg_value(reg)), m2));
                assert(unary_mem_path(old(self).mmu, hl, spec_sla(old(self).spec_reg_value(reg)), self.mmu));
            }
        }
        self.f.z = value == 0;
        self.f.c = carry;
        proof {
            assert(({
                let v0 = old(self).spec_reg_value(reg);
                unary_applied(
                    *old(self),
                    reg,
                    spec_sla(v0),
                    FlagsRegister {
                        z: spec_sla(v0) == 0,
                        n: old(self).f.n,
                        h: old(self).f.h,
                        c: v0 >= 128,
                    },
                    *self,
                )
            }));
        }
    }

    /// Shift an 8-bit register operand right arithmetically, preserving the
    /// sign bit.
    pub fn sra(&mut self, reg: Register)
        requires
            old(self).mmu.inv(),
            0 <= old(self).rw_cycles,
            old(self).rw_cycles + 8 <= RW_CYCLES_CEILING,
        ensures
            final(self).mmu.inv(),
            ({
                let v0 = old(self).spec_reg_value(reg);
                unary_applied(
                    *old(self),
                    reg,
                    spec_sra(v0),
                    FlagsRegister {
                        z: spec_sra(v0) == 0,
                        n: old(self).f.n,
                        h: old(self).f.h,
                        c: v0 % 2 == 1,
                    },
                    *final(self),
                )
            }),
    {
        let v = self.reg(reg);
        let ghost mid = *self;
        let carry = v % 2 == 1;
        let value = v / 2 + (v / 128) * 128;
        self.set_reg(reg, value);
        proof {
            if reg == Register::DerefHL {
                let hl = old(self).spec_wide(WideRegister::HL);
                assert(old(self).mmu.tick_rel(4, mid.mmu));
                assert(mem_write_ticked(mid.mmu, hl, value, 4, self.mmu));
                let m2 = choose|m2: T| mid.mmu.write_rel(hl, value, m2) && m2.tick_rel(
                    4,
                    self.mmu,
                );
                assert(mid.mmu.write_rel(hl, value, m2) && m2.tick_rel(4, self.mmu));
                assert(value == spec_sra(old(self).spec_reg_value(reg)));
                assert(mid.mmu.write_rel(hl, spec_sra(old(self).spec_reg_value(reg)), m2));
                assert(unary_mem_path(old(self).mmu, hl, spec_sra(old(self).spec_reg_value(reg)), self.mmu));
            }
        }
        self.f.z = value == 0;
        self.f.c = carry;
        proof {
            assert(({
                let v0 = old(self).spec_reg_value(reg);
                unary_applied(
                    *old(self),
                    reg,
                    spec_sra(v0),
                    FlagsRegister {
                        z: spec_sra(v0) == 0,
                        n: old(self).f.n,
                        h: old(self).f.h,
                        c: v0 % 2 == 1,
                    },
                    *self,
                )
            }));
        }
    }

    /// Exchange the nibbles of an 8-bit register operand.
    pub fn swap(&mut self, reg: Register)
        requires
            old(self).mmu.inv(),
            0 <= old(self).rw_cycles,
            old(self).rw_cycles + 8 <= RW_CYCLES_CEILING,
        ensures
            final(self).mmu.inv(),
            ({
                let v0 = old(self).spec_reg_value(reg);
                unary_applied(
                    *old(self),
                    reg,
                    spec_swap(v0),
                    FlagsRegister { z: spec_swap(v0) == 0, ..old(self).f },
                    *final(self),
                )
            }),
    {
        let v = self.reg(reg);
        let ghost mid = *self;
        let value = (v % 16) * 16 + v / 16;
        self.set_reg(reg, value);
        proof {
            if reg == Register::DerefHL {
                let hl = old(self).spec_wide(WideRegister::HL);
                assert(old(self).mmu.tick_rel(4, mid.mmu));
                assert(mem_write_ticked(mid.mmu, hl, value, 4, self.mmu));
                let m2 = choose|m2: T| mid.mmu.write_rel(hl, value, m2) && m2.tick_rel(
                    4,
                    self.mmu,
                );
                assert(mid.mmu.write_rel(hl, value, m2) && m2.tick_rel(4, self.mmu));
                assert(value == spec_swap(old(self).spec_reg_value(reg)));
                assert(mid.mmu.write_rel(hl, spec_swap(old(self).spec_reg_value(reg)), m2));
                assert(unary_mem_path(old(self).mmu, hl, spec_swap(old(self).spec_reg_value(reg)), self.mmu));
            }
        }
        self.f.z = value == 0;
        proof {
            assert(({
                let v0 = old(self).spec_reg_value(reg);
                unary_applied(
                    *old(self),
                    reg,
                    spec_swap(v0),
                    FlagsRegister { z: spec_swap(v0) == 0, ..old(self).f },
                    *self,
                )
            }));
        }
    }

    /// Shift an 8-bit register operand right logically.
    pub fn srl(&mut self, reg: Register)
        requires
            old(self).mmu.inv(),
            0 <= old(self).rw_cycles,
            old(self).rw_cycles + 8 <= RW_CYCLES_CEILING,
        ensures
            final(self).mmu.inv(),
            ({
                let v0 = old(self).spec_reg_value(reg);
                unary_applied(
                    *old(self),
                    reg,
                    spec_srl(v0),
                    FlagsRegister {
                        z: spec_srl(v0) == 0,
                        n: old(self).f.n,
                        h: old(self).f.h,
                        c: v0 % 2 == 1,
                    },
                    *final(self),
                )
            }),
    {
        let v = self.reg(reg);
        let ghost mid = *self;
        let carry = v % 2 == 1;
        let value = v / 2;
        self.set_reg(reg, value);
        proof {
            if reg == Register::DerefHL {
                let hl = old(self).spec_wide(WideRegister::HL);
                assert(old(self).mmu.tick_rel(4, mid.mmu));
                assert(mem_write_ticked(mid.mmu, hl, value, 4, self.mmu));
                let m2 = choose|m2: T| mid.mmu.write_rel(hl, value, m2) && m2.tick_rel(
                    4,
                    self.mmu,
                );
                assert(mid.mmu.write_rel(hl, value, m2) && m2.tick_rel(4, self.mmu));
                assert(value == spec_srl(old(self).spec_reg_value(reg)));
                assert(mid.mmu.write_rel(hl, spec_srl(old(self).spec_reg_value(reg)), m2));
                assert(unary_mem_path(old(self).mmu, hl, spec_srl(old(self).spec_reg_value(reg)), self.mmu));
            }
        }
        self.f.z = value == 0;
        self.f.c = carry;
        proof {
            assert(({
                let v0 = old(self).spec_reg_value(reg);
                unary_applied(
                    *old(self),
                    reg,
                    spec_srl(v0),
                    FlagsRegister {
                        z: spec_srl(v0) == 0,
                        n: old(self).f.n,
                        h: old(self).f.h,
                        c: v0 % 2 == 1,
                    },
                    *self,
                )
            }));
        }
    }

    /// Add a signed displacement to the stack pointer, returning the sum;
    /// half-carry and carry come from the low byte of the unsigned sum.
    pub fn add_sp_offset(&mut self, offset: i8) -> (r: u16)
        ensures
            r == wrap16(old(self).sp + offset),
            *final(self) == (Cpu {
                f: FlagsRegister {
                    z: old(self).f.z,
                    n: old(self).f.n,
                    h: old(self).sp % 16 + (offset as u8) % 16 >= 16,
                    c: old(self).sp % 256 + offset as u8 > 255,
                },
                ..*old(self)
            }),
    {
        let unsigned_offset = offset as u8;
        let hc = (self.sp % 16) as u8 + unsigned_offset % 16 >= 16;
        let carry = self.sp % 256 + unsigned_offset as u16 > 255;
        self.f.h = hc;
        self.f.c = carry;
        let t: i32 = self.sp as i32 + offset as i32;
        let r: u16 = if t < 0 {
            (t + 0x10000) as u16
        } else {
            (t % 0x10000) as u16
        };
        proof {
            if old(self).sp + offset < 0 {
                vstd::arithmetic::div_mod::lemma_mod_add_multiples_vanish(
                    old(self).sp + offset,
                    0x10000,
                );
            }
        }
        r
    }

    /// Decimal-adjust the accumulator after an addition or subtraction.
    pub fn daa(&mut self)
        requires
            old(self).mmu.inv(),
        ensures
            *final(self) == (Cpu {
                a: spec_daa(old(self).a, old(self).f).0,
                f: FlagsRegister {
                    z: spec_daa(old(self).a, old(self).f).0 == 0,
                    n: old(self).f.n,
                    h: old(self).f.h,
                    c: spec_daa(old(self).a, old(self).f).1,
                },
                ..*old(self)
            }),
    {
        let mut value = self.a;
        if !self.f.n {
            if self.f.c || value > 0x99 {
                value = ((value as u16 + 0x60) % 256) as u8;
                self.f.c = true;
            }
            if self.f.h || value % 16 > 0x09 {
                value = ((value as u16 + 0x06) % 256) as u8;
            }
        } else {
            if self.f.c {
                value = ((value as u16 + 256 - 0x60) % 256) as u8;
                proof {
                    vstd::arithmetic::div_mod::lemma_mod_add_multiples_vanish(
                        old(self).a - 0x60,
                        256,
                    );
                }
            }
            if self.f.h {
                let before: Ghost<u8> = Ghost(value);
                value = ((value as u16 + 256 - 0x06) % 256) as u8;
                proof {
                    vstd::arithmetic::div_mod::lemma_mod_add_multiples_vanish(
                        before@ - 0x06,
                        256,
                    );
                }
            }
        }
        self.a = value;
        self.f.z = value == 0;
    }
}

} // verus!
