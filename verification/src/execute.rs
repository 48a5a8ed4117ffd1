//! The instruction executor and the CPU step loop.
//!
//! `step` services interrupts, fetches and decodes at the program counter,
//! advances it, runs the operation, applies the instruction's flag masks
//! (set first, then reset, so reset wins on overlap) and propagates every
//! remaining T-cycle to the peripherals. The cycles an instruction's memory
//! accesses consumed never exceed the cycles it returns, and everything is
//! counted in positive multiples of four.

use vstd::prelude::*;

use crate::TCycles;
use crate::alu::spec_add16_carry;
use crate::alu::spec_add16_half;
use crate::alu::spec_add16_result;
use crate::alu::spec_add_carry;
use crate::alu::spec_add_half;
use crate::alu::spec_add_result;
use crate::alu::spec_adc_carry;
use crate::alu::spec_adc_half;
use crate::alu::spec_adc_result;
use crate::alu::spec_cpl;
use crate::alu::spec_daa;
use crate::alu::spec_dec_result;
use crate::alu::spec_inc_result;
use crate::alu::spec_rl;
use crate::alu::spec_rlc;
use crate::alu::spec_rr;
use crate::alu::spec_rrc;
use crate::alu::spec_sbc_carry;
use crate::alu::spec_sbc_half;
use crate::alu::spec_sbc_result;
use crate::alu::spec_sla;
use crate::alu::spec_sra;
use crate::alu::spec_srl;
use crate::alu::spec_sub_carry;
use crate::alu::spec_sub_half;
use crate::alu::spec_sub_result;
use crate::alu::spec_swap;
use crate::alu::unary_applied;
use crate::cpu::Cpu;
use crate::cpu::mem_write_ticked;
use crate::cpu::mem_write2_ticked;
use crate::cpu::wrap_add;
use crate::flags::FlagsRegister;
use crate::traits::spec_priority;
use crate::instruction::Instruction;
use crate::instruction::lemma_instruction_table_sound;
use crate::instruction::spec_instruction;
use crate::opcode::spec_decode;
use crate::opcode::Opcode;
use crate::opcode::Register;
use crate::opcode::WideRegister;
use crate::traits::InterruptManager;
use crate::traits::ReadWriteMemory;
use crate::traits::Tick;
use crate::traits::wrap16;

verus! {

/// The single-bit mask selecting bit `b % 8` of a byte.
pub open spec fn spec_bit_mask(b: u8) -> u8 {
    let i = b % 8;
    if i == 0 {
        1
    } else if i == 1 {
        2
    } else if i == 2 {
        4
    } else if i == 3 {
        8
    } else if i == 4 {
        16
    } else if i == 5 {
        32
    } else if i == 6 {
        64
    } else {
        128
    }
}

/// The single-bit mask selecting bit `b % 8` of a byte.
fn bit_mask(b: u8) -> (p: u8)
    ensures
        p == spec_bit_mask(b),
        p >= 1,
{
    match b % 8 {
        0 => 1,
        1 => 2,
        2 => 4,
        3 => 8,
        4 => 16,
        5 => 32,
        6 => 64,
        _ => 128,
    }
}

/// The program counter moved by a signed displacement, wrapping.
pub fn wrap_add_signed(pc: u16, d: i8) -> (r: u16)
    ensures
        r == wrap16(pc + d),
{
    let t: i32 = pc as i32 + d as i32;
    let r: u16 = if t < 0 {
        (t + 0x10000) as u16
    } else {
        (t % 0x10000) as u16
    };
    proof {
        if pc + d < 0 {
            vstd::arithmetic::div_mod::lemma_mod_add_multiples_vanish(pc + d, 0x10000);
        }
    }
    r
}

/// The little-endian 16-bit value in memory at `addr` and its successor.
pub open spec fn read16_at<T: ReadWriteMemory>(m: T, addr: u16) -> u16 {
    (m.spec_read(addr) + 256 * m.spec_read(wrap16(addr + 1))) as u16
}

/// The T-cycles an operand in memory costs on top of a register operand.
pub open spec fn src_cost(reg: Register) -> int {
    if reg == Register::DerefHL {
        4
    } else {
        0
    }
}

/// How reading an 8-bit operand relates the memory before to the memory
/// after: a memory operand ticks the peripherals by its access cost, a
/// register operand touches nothing.
pub open spec fn src_mmu<T: ReadWriteMemory + Tick>(m0: T, reg: Register, m1: T) -> bool {
    if reg == Register::DerefHL {
        m0.tick_rel(4, m1)
    } else {
        m1 == m0
    }
}

/// How writing an 8-bit register operand relates the CPU before to the CPU
/// after: memory operands go through one ticked write, register operands
/// change only their field.
pub open spec fn reg_write_rel<T: ReadWriteMemory + Tick>(
    pre: Cpu<T>,
    reg: Register,
    nv: u8,
    post: Cpu<T>,
) -> bool {
    if reg == Register::DerefHL {
        post == (Cpu {
            rw_cycles: (pre.rw_cycles + 4) as i64,
            mmu: post.mmu,
            ..pre
        }) && mem_write_ticked(pre.mmu, pre.spec_wide(WideRegister::HL), nv, 4, post.mmu)
    } else {
        post == (Cpu {
            a: if reg == Register::A {
                nv
            } else {
                pre.a
            },
            b: if reg == Register::B {
                nv
            } else {
                pre.b
            },
            c: if reg == Register::C {
                nv
            } else {
                pre.c
            },
            d: if reg == Register::D {
                nv
            } else {
                pre.d
            },
            e: if reg == Register::E {
                nv
            } else {
                pre.e
            },
            h: if reg == Register::H {
                nv
            } else {
                pre.h
            },
            l: if reg == Register::L {
                nv
            } else {
                pre.l
            },
            ..pre
        })
    }
}

/// An operation on the accumulator and flags whose operand may sit in
/// memory: A and F take the given values, a memory operand ticks the
/// peripherals and is billed, and everything else is unchanged.
pub open spec fn alu_a_rel<T: ReadWriteMemory + Tick>(
    pre: Cpu<T>,
    reg: Register,
    a2: u8,
    f2: FlagsRegister,
    post: Cpu<T>,
) -> bool {
    post == (Cpu {
        a: a2,
        f: f2,
        rw_cycles: (pre.rw_cycles + src_cost(reg)) as i64,
        mmu: post.mmu,
        ..pre
    }) && src_mmu(pre.mmu, reg, post.mmu)
}

/// The byte with bit `b % 8` forced off.
pub open spec fn spec_res_result(v: u8, b: u8) -> u8 {
    if v / spec_bit_mask(b) % 2 == 1 {
        (v - spec_bit_mask(b)) as u8
    } else {
        v
    }
}

/// The byte with bit `b % 8` forced on.
pub open spec fn spec_set_result(v: u8, b: u8) -> u8 {
    if v / spec_bit_mask(b) % 2 == 0 {
        (v + spec_bit_mask(b)) as u8
    } else {
        v
    }
}

/// What running one decoded operation does: for every opcode, how the
/// registers, flags, interrupt latches, access cycles and memory after
/// relate to the state before, and which of the instruction's two cycle
/// costs is returned. The flag masks of the instruction are applied
/// afterwards by `execute`, so the flags here are the operation's own.
#[verifier::opaque]
pub open spec fn spec_opcode_effect<T: ReadWriteMemory + Tick>(
    pre: Cpu<T>,
    instr: Instruction,
    r: TCycles,
    post: Cpu<T>,
) -> bool {
    match instr.opcode {
        Opcode::Nop => r == instr.cycles && post == pre,
        Opcode::Stop => r == instr.cycles && post == pre,
        Opcode::LdDerefImmSp(addr) => r == instr.cycles && post == (Cpu {
            rw_cycles: (pre.rw_cycles + 8) as i64,
            mmu: post.mmu,
            ..pre
        }) && mem_write2_ticked(pre.mmu, addr, pre.sp, 8, post.mmu),
        Opcode::Jr(off) => r == instr.cycles && post == (Cpu { pc: wrap16(pre.pc + off), ..pre }),
        Opcode::JrCond(cond, off) => if pre.spec_condition(cond) {
            r == instr.branch_cycles && post == (Cpu { pc: wrap16(pre.pc + off), ..pre })
        } else {
            r == instr.cycles && post == pre
        },
        Opcode::LdWideRegImm(reg, v) => r == instr.cycles && post == pre.spec_set_wide(reg, v),
        Opcode::AddHLWideReg(reg) => {
            let x = pre.spec_wide(WideRegister::HL);
            let y = pre.spec_wide(reg);
            let loaded = pre.spec_set_wide(WideRegister::HL, spec_add16_result(x, y));
            r == instr.cycles && post == (Cpu {
                f: FlagsRegister {
                    z: loaded.f.z,
                    n: loaded.f.n,
                    h: spec_add16_half(x, y),
                    c: spec_add16_carry(x, y),
                },
                ..loaded
            })
        },
        Opcode::LdDerefWideRegA(reg) => r == instr.cycles && post == (Cpu {
            rw_cycles: (pre.rw_cycles + 4) as i64,
            mmu: post.mmu,
            ..pre
        }) && mem_write_ticked(pre.mmu, pre.spec_wide(reg), pre.a, 4, post.mmu),
        Opcode::LdADerefWideReg(reg) => r == instr.cycles && post == (Cpu {
            a: pre.mmu.spec_read(pre.spec_wide(reg)),
            rw_cycles: (pre.rw_cycles + 4) as i64,
            mmu: post.mmu,
            ..pre
        }) && pre.mmu.tick_rel(4, post.mmu),
        Opcode::LdHLIncA => {
            let hl = pre.spec_wide(WideRegister::HL);
            r == instr.cycles && post == (Cpu {
                rw_cycles: (pre.rw_cycles + 4) as i64,
                mmu: post.mmu,
                ..pre
            }).spec_set_wide(WideRegister::HL, wrap16(hl + 1)) && mem_write_ticked(
                pre.mmu,
                hl,
                pre.a,
                4,
                post.mmu,
            )
        },
        Opcode::LdHLDecA => {
            let hl = pre.spec_wide(WideRegister::HL);
            r == instr.cycles && post == (Cpu {
                rw_cycles: (pre.rw_cycles + 4) as i64,
                mmu: post.mmu,
                ..pre
            }).spec_set_wide(WideRegister::HL, wrap16(hl - 1)) && mem_write_ticked(
                pre.mmu,
                hl,
                pre.a,
                4,
                post.mmu,
            )
        },
        Opcode::LdAHLInc => {
            let hl = pre.spec_wide(WideRegister::HL);
            r == instr.cycles && post == (Cpu {
                a: pre.mmu.spec_read(hl),
                rw_cycles: (pre.rw_cycles + 4) as i64,
                mmu: post.mmu,
                ..pre
            }).spec_set_wide(WideRegister::HL, wrap16(hl + 1)) && pre.mmu.tick_rel(4, post.mmu)
        },
        Opcode::LdAHLDec => {
            let hl = pre.spec_wide(WideRegister::HL);
            r == instr.cycles && post == (Cpu {
                a: pre.mmu.spec_read(hl),
                rw_cycles: (pre.rw_cycles + 4) as i64,
                mmu: post.mmu,
                ..pre
            }).spec_set_wide(WideRegister::HL, wrap16(hl - 1)) && pre.mmu.tick_rel(4, post.mmu)
        },
        Opcode::IncWideReg(reg) => r == instr.cycles && post == pre.spec_set_wide(
            reg,
            wrap16(pre.spec_wide(reg) + 1),
        ),
        Opcode::DecWideReg(reg) => r == instr.cycles && post == pre.spec_set_wide(
            reg,
            wrap16(pre.spec_wide(reg) - 1),
        ),
        Opcode::IncReg(reg) => {
            let v0 = pre.spec_reg_value(reg);
            r == instr.cycles && unary_applied(
                pre,
                reg,
                spec_inc_result(v0),
                FlagsRegister {
                    z: spec_inc_result(v0) == 0,
                    n: pre.f.n,
                    h: v0 % 16 == 15,
                    c: pre.f.c,
                },
                post,
            )
        },
        Opcode::DecReg(reg) => {
            let v0 = pre.spec_reg_value(reg);
            r == instr.cycles && unary_applied(
                pre,
                reg,
                spec_dec_result(v0),
                FlagsRegister {
                    z: spec_dec_result(v0) == 0,
                    n: pre.f.n,
                    h: v0 % 16 == 0,
                    c: pre.f.c,
                },
                post,
            )
        },
        Opcode::LdRegImm(reg, n) => r == instr.cycles && reg_write_rel(pre, reg, n, post),
        Opcode::Rlca => r == instr.cycles && post == (Cpu {
            a: spec_rlc(pre.a),
            f: FlagsRegister { c: pre.a >= 128, ..pre.f },
            ..pre
        }),
        Opcode::Rrca => r == instr.cycles && post == (Cpu {
            a: spec_rrc(pre.a),
            f: FlagsRegister { c: pre.a % 2 == 1, ..pre.f },
            ..pre
        }),
        Opcode::Rla => r == instr.cycles && post == (Cpu {
            a: spec_rl(pre.a, pre.f.c),
            f: FlagsRegister { c: pre.a >= 128, ..pre.f },
            ..pre
        }),
        Opcode::Rra => r == instr.cycles && post == (Cpu {
            a: spec_rr(pre.a, pre.f.c),
            f: FlagsRegister { c: pre.a % 2 == 1, ..pre.f },
            ..pre
        }),
        Opcode::Daa => r == instr.cycles && post == (Cpu {
            a: spec_daa(pre.a, pre.f).0,
            f: FlagsRegister {
                z: spec_daa(pre.a, pre.f).0 == 0,
                n: pre.f.n,
                h: pre.f.h,
                c: spec_daa(pre.a, pre.f).1,
            },
            ..pre
        }),
        Opcode::Cpl => r == instr.cycles && post == (Cpu { a: spec_cpl(pre.a), ..pre }),
        Opcode::Scf => r == instr.cycles && post == pre,
        Opcode::Ccf => r == instr.cycles && post == (Cpu {
            f: FlagsRegister { c: !pre.f.c, ..pre.f },
            ..pre
        }),
        Opcode::Ld(r1, r2) => {
            let v = pre.spec_reg_value(r2);
            r == instr.cycles && exists|m1: T|
                #![trigger src_mmu(pre.mmu, r2, m1)]
                src_mmu(pre.mmu, r2, m1) && reg_write_rel(
                    Cpu { rw_cycles: (pre.rw_cycles + src_cost(r2)) as i64, mmu: m1, ..pre },
                    r1,
                    v,
                    post,
                )
        },
        Opcode::Halt => r == instr.cycles && post == (Cpu { halted: true, ..pre }),
        Opcode::Add(reg) => {
            let v = pre.spec_reg_value(reg);
            r == instr.cycles && alu_a_rel(
                pre,
                reg,
                spec_add_result(pre.a, v),
                FlagsRegister {
                    z: spec_add_result(pre.a, v) == 0,
                    n: pre.f.n,
                    h: spec_add_half(pre.a, v),
                    c: spec_add_carry(pre.a, v),
                },
                post,
            )
        },
        Opcode::Adc(reg) => {
            let v = pre.spec_reg_value(reg);
            r == instr.cycles && alu_a_rel(
                pre,
                reg,
                spec_adc_result(pre.a, v, pre.f.c),
                FlagsRegister {
                    z: spec_adc_result(pre.a, v, pre.f.c) == 0,
                    n: pre.f.n,
                    h: spec_adc_half(pre.a, v, pre.f.c),
                    c: spec_adc_carry(pre.a, v, pre.f.c),
                },
                post,
            )
        },
        Opcode::Sub(reg) => {
            let v = pre.spec_reg_value(reg);
            r == instr.cycles && alu_a_rel(
                pre,
                reg,
                spec_sub_result(pre.a, v),
                FlagsRegister {
                    z: spec_sub_result(pre.a, v) == 0,
                    n: pre.f.n,
                    h: spec_sub_half(pre.a, v),
                    c: spec_sub_carry(pre.a, v),
                },
                post,
            )
        },
        Opcode::Sbc(reg) => {
            let v = pre.spec_reg_value(reg);
            r == instr.cycles && alu_a_rel(
                pre,
                reg,
                spec_sbc_result(pre.a, v, pre.f.c),
                FlagsRegister {
                    z: spec_sbc_result(pre.a, v, pre.f.c) == 0,
                    n: pre.f.n,
                    h: spec_sbc_half(pre.a, v, pre.f.c),
                    c: spec_sbc_carry(pre.a, v, pre.f.c),
                },
                post,
            )
        },
        Opcode::And(reg) => {
            let v = pre.spec_reg_value(reg);
            r == instr.cycles && alu_a_rel(
                pre,
                reg,
                pre.a & v,
                FlagsRegister { z: (pre.a & v) == 0, ..pre.f },
                post,
            )
        },
        Opcode::Xor(reg) => {
            let v = pre.spec_reg_value(reg);
            r == instr.cycles && alu_a_rel(
                pre,
                reg,
                pre.a ^ v,
                FlagsRegister { z: (pre.a ^ v) == 0, ..pre.f },
                post,
            )
        },
        Opcode::Or(reg) => {
            let v = pre.spec_reg_value(reg);
            r == instr.cycles && alu_a_rel(
                pre,
                reg,
                pre.a | v,
                FlagsRegister { z: (pre.a | v) == 0, ..pre.f },
                post,
            )
        },
        Opcode::Cp(reg) => {
            let v = pre.spec_reg_value(reg);
            r == instr.cycles && alu_a_rel(
                pre,
                reg,
                pre.a,
                FlagsRegister {
                    z: spec_sub_result(pre.a, v) == 0,
                    n: pre.f.n,
                    h: spec_sub_half(pre.a, v),
                    c: spec_sub_carry(pre.a, v),
                },
                post,
            )
        },
        Opcode::RetCond(cond) => if pre.spec_condition(cond) {
            r == instr.branch_cycles && post == (Cpu {
                pc: read16_at(pre.mmu, pre.sp),
                sp: wrap16(pre.sp + 2),
                rw_cycles: (pre.rw_cycles + 8) as i64,
                mmu: post.mmu,
                ..pre
            }) && pre.mmu.tick_rel(8, post.mmu)
        } else {
            r == instr.cycles && post == pre
        },
        Opcode::LdOffsetImmA(n) => r == instr.cycles && post == (Cpu {
            rw_cycles: (pre.rw_cycles + 4) as i64,
            mmu: post.mmu,
            ..pre
        }) && mem_write_ticked(pre.mmu, (0xFF00 + n) as u16, pre.a, 4, post.mmu),
        Opcode::AddSpDisp(off) => r == instr.cycles && post == (Cpu {
            sp: wrap16(pre.sp + off),
            f: FlagsRegister {
                z: pre.f.z,
                n: pre.f.n,
                h: pre.sp % 16 + (off as u8) % 16 >= 16,
                c: pre.sp % 256 + (off as u8) > 255,
            },
            ..pre
        }),
        Opcode::LdAOffsetImm(n) => r == instr.cycles && post == (Cpu {
            a: pre.mmu.spec_read((0xFF00 + n) as u16),
            rw_cycles: (pre.rw_cycles + 4) as i64,
            mmu: post.mmu,
            ..pre
        }) && pre.mmu.tick_rel(4, post.mmu),
        Opcode::LdHLSPDisp(off) => r == instr.cycles && post == (Cpu {
            f: FlagsRegister {
                z: pre.f.z,
                n: pre.f.n,
                h: pre.sp % 16 + (off as u8) % 16 >= 16,
                c: pre.sp % 256 + (off as u8) > 255,
            },
            ..pre
        }).spec_set_wide(WideRegister::HL, wrap16(pre.sp + off)),
        Opcode::PopWideReg(reg) => {
            let v = read16_at(pre.mmu, pre.sp);
            r == instr.cycles && post == (Cpu {
                sp: wrap16(pre.sp + 2),
                rw_cycles: (pre.rw_cycles + 8) as i64,
                mmu: post.mmu,
                ..pre
            }).spec_set_wide(reg, v) && pre.mmu.tick_rel(8, post.mmu)
        },
        Opcode::Ret => r == instr.cycles && post == (Cpu {
            pc: read16_at(pre.mmu, pre.sp),
            sp: wrap16(pre.sp + 2),
            rw_cycles: (pre.rw_cycles + 8) as i64,
            mmu: post.mmu,
            ..pre
        }) && pre.mmu.tick_rel(8, post.mmu),
        Opcode::Reti => r == instr.cycles && post == (Cpu {
            pc: read16_at(pre.mmu, pre.sp),
            sp: wrap16(pre.sp + 2),
            rw_cycles: (pre.rw_cycles + 8) as i64,
            ime: true,
            mmu: post.mmu,
            ..pre
        }) && pre.mmu.tick_rel(8, post.mmu),
        Opcode::JpHL => r == instr.cycles && post == (Cpu {
            pc: pre.spec_wide(WideRegister::HL),
            ..pre
        }),
        Opcode::LdSPHL => r == instr.cycles && post == (Cpu {
            sp: pre.spec_wide(WideRegister::HL),
            ..pre
        }),
        Opcode::JPCondImm(cond, addr) => if pre.spec_condition(cond) {
            r == instr.branch_cycles && post == (Cpu { pc: addr, ..pre })
        } else {
            r == instr.cycles && post == pre
        },
        Opcode::LdOffsetCA => r == instr.cycles && post == (Cpu {
            rw_cycles: (pre.rw_cycles + 4) as i64,
            mmu: post.mmu,
            ..pre
        }) && mem_write_ticked(pre.mmu, (0xFF00 + pre.c) as u16, pre.a, 4, post.mmu),
        Opcode::LdDerefImmA(addr) => r == instr.cycles && post == (Cpu {
            rw_cycles: (pre.rw_cycles + 4) as i64,
            mmu: post.mmu,
            ..pre
        }) && mem_write_ticked(pre.mmu, addr, pre.a, 4, post.mmu),
        Opcode::LdAOffsetC => r == instr.cycles && post == (Cpu {
            a: pre.mmu.spec_read((0xFF00 + pre.c) as u16),
            rw_cycles: (pre.rw_cycles + 4) as i64,
            mmu: post.mmu,
            ..pre
        }) && pre.mmu.tick_rel(4, post.mmu),
        Opcode::LdADerefImm(addr) => r == instr.cycles && post == (Cpu {
            a: pre.mmu.spec_read(addr),
            rw_cycles: (pre.rw_cycles + 4) as i64,
            mmu: post.mmu,
            ..pre
        }) && pre.mmu.tick_rel(4, post.mmu),
        Opcode::JP(addr) => r == instr.cycles && post == (Cpu { pc: addr, ..pre }),
        Opcode::DI => r == instr.cycles && post == (Cpu {
            ime: false,
            ei_delayed: false,
            ..pre
        }),
        Opcode::EI => r == instr.cycles && post == (Cpu { ei_delayed: true, ..pre }),
        Opcode::CallCondImm(cond, addr) => if pre.spec_condition(cond) {
            r == instr.branch_cycles && post == (Cpu {
                pc: addr,
                sp: wrap16(pre.sp - 2),
                rw_cycles: (pre.rw_cycles + 8) as i64,
                mmu: post.mmu,
                ..pre
            }) && mem_write2_ticked(pre.mmu, wrap16(pre.sp - 2), pre.pc, 8, post.mmu)
        } else {
            r == instr.cycles && post == pre
        },
        Opcode::PushWideReg(reg) => r == instr.cycles && post == (Cpu {
            sp: wrap16(pre.sp - 2),
            rw_cycles: (pre.rw_cycles + 8) as i64,
            mmu: post.mmu,
            ..pre
        }) && mem_write2_ticked(pre.mmu, wrap16(pre.sp - 2), pre.spec_wide(reg), 8, post.mmu),
        Opcode::CallImm(addr) => r == instr.cycles && post == (Cpu {
            pc: addr,
            sp: wrap16(pre.sp - 2),
            rw_cycles: (pre.rw_cycles + 8) as i64,
            mmu: post.mmu,
            ..pre
        }) && mem_write2_ticked(pre.mmu, wrap16(pre.sp - 2), pre.pc, 8, post.mmu),
        Opcode::AddImm(n) => r == instr.cycles && post == (Cpu {
            a: spec_add_result(pre.a, n),
            f: FlagsRegister {
                z: spec_add_result(pre.a, n) == 0,
                n: pre.f.n,
                h: spec_add_half(pre.a, n),
                c: spec_add_carry(pre.a, n),
            },
            ..pre
        }),
        Opcode::AdcImm(n) => r == instr.cycles && post == (Cpu {
            a: spec_adc_result(pre.a, n, pre.f.c),
            f: FlagsRegister {
                z: spec_adc_result(pre.a, n, pre.f.c) == 0,
                n: pre.f.n,
                h: spec_adc_half(pre.a, n, pre.f.c),
                c: spec_adc_carry(pre.a, n, pre.f.c),
            },
            ..pre
        }),
        Opcode::SubImm(n) => r == instr.cycles && post == (Cpu {
            a: spec_sub_result(pre.a, n),
            f: FlagsRegister {
                z: spec_sub_result(pre.a, n) == 0,
                n: pre.f.n,
                h: spec_sub_half(pre.a, n),
                c: spec_sub_carry(pre.a, n),
            },
            ..pre
        }),
        Opcode::SbcImm(n) => r == instr.cycles && post == (Cpu {
            a: spec_sbc_result(pre.a, n, pre.f.c),
            f: FlagsRegister {
                z: spec_sbc_result(pre.a, n, pre.f.c) == 0,
                n: pre.f.n,
                h: spec_sbc_half(pre.a, n, pre.f.c),
                c: spec_sbc_carry(pre.a, n, pre.f.c),
            },
            ..pre
        }),
        Opcode::AndImm(n) => r == instr.cycles && post == (Cpu {
            a: pre.a & n,
            f: FlagsRegister { z: (pre.a & n) == 0, ..pre.f },
            ..pre
        }),
        Opcode::XorImm(n) => r == instr.cycles && post == (Cpu {
            a: pre.a ^ n,
            f: FlagsRegister { z: (pre.a ^ n) == 0, ..pre.f },
            ..pre
        }),
        Opcode::OrImm(n) => r == instr.cycles && post == (Cpu {
            a: pre.a | n,
            f: FlagsRegister { z: (pre.a | n) == 0, ..pre.f },
            ..pre
        }),
        Opcode::CpImm(n) => r == instr.cycles && post == (Cpu {
            f: FlagsRegister {
                z: spec_sub_result(pre.a, n) == 0,
                n: pre.f.n,
                h: spec_sub_half(pre.a, n),
                c: spec_sub_carry(pre.a, n),
            },
            ..pre
        }),
        Opcode::Rst(t) => r == instr.cycles && post == (Cpu {
            pc: t as u16,
            sp: wrap16(pre.sp - 2),
            rw_cycles: (pre.rw_cycles + 8) as i64,
            mmu: post.mmu,
            ..pre
        }) && mem_write2_ticked(pre.mmu, wrap16(pre.sp - 2), pre.pc, 8, post.mmu),
        Opcode::Rlc(reg) => {
            let v0 = pre.spec_reg_value(reg);
            r == instr.cycles && unary_applied(
                pre,
                reg,
                spec_rlc(v0),
                FlagsRegister { z: spec_rlc(v0) == 0, n: pre.f.n, h: pre.f.h, c: v0 >= 128 },
                post,
            )
        },
        Opcode::Rrc(reg) => {
            let v0 = pre.spec_reg_value(reg);
            r == instr.cycles && unary_applied(
                pre,
                reg,
                spec_rrc(v0),
                FlagsRegister { z: spec_rrc(v0) == 0, n: pre.f.n, h: pre.f.h, c: v0 % 2 == 1 },
                post,
            )
        },
        Opcode::Rl(reg) => {
            let v0 = pre.spec_reg_value(reg);
            r == instr.cycles && unary_applied(
                pre,
                reg,
                spec_rl(v0, pre.f.c),
                FlagsRegister {
                    z: spec_rl(v0, pre.f.c) == 0,
                    n: pre.f.n,
                    h: pre.f.h,
                    c: v0 >= 128,
                },
                post,
            )
        },
        Opcode::Rr(reg) => {
            let v0 = pre.spec_reg_value(reg);
            r == instr.cycles && unary_applied(
                pre,
                reg,
                spec_rr(v0, pre.f.c),
                FlagsRegister {
                    z: spec_rr(v0, pre.f.c) == 0,
                    n: pre.f.n,
                    h: pre.f.h,
                    c: v0 % 2 == 1,
                },
                post,
            )
        },
        Opcode::Sla(reg) => {
            let v0 = pre.spec_reg_value(reg);
            r == instr.cycles && unary_applied(
                pre,
                reg,
                spec_sla(v0),
                FlagsRegister { z: spec_sla(v0) == 0, n: pre.f.n, h: pre.f.h, c: v0 >= 128 },
                post,
            )
        },
        Opcode::Sra(reg) => {
            let v0 = pre.spec_reg_value(reg);
            r == instr.cycles && unary_applied(
                pre,
                reg,
                spec_sra(v0),
                FlagsRegister { z: spec_sra(v0) == 0, n: pre.f.n, h: pre.f.h, c: v0 % 2 == 1 },
                post,
            )
        },
        Opcode::Swap(reg) => {
            let v0 = pre.spec_reg_value(reg);
            r == instr.cycles && unary_applied(
                pre,
                reg,
                spec_swap(v0),
                FlagsRegister { z: spec_swap(v0) == 0, ..pre.f },
                post,
            )
        },
        Opcode::Srl(reg) => {
            let v0 = pre.spec_reg_value(reg);
            r == instr.cycles && unary_applied(
                pre,
                reg,
                spec_srl(v0),
                FlagsRegister { z: spec_srl(v0) == 0, n: pre.f.n, h: pre.f.h, c: v0 % 2 == 1 },
                post,
            )
        },
        Opcode::Bit(b, reg) => {
            let v0 = pre.spec_reg_value(reg);
            r == instr.cycles && post == (Cpu {
                f: FlagsRegister { z: v0 / spec_bit_mask(b) % 2 == 0, ..pre.f },
                rw_cycles: (pre.rw_cycles + src_cost(reg)) as i64,
                mmu: post.mmu,
                ..pre
            }) && src_mmu(pre.mmu, reg, post.mmu)
        },
        Opcode::Res(b, reg) => {
            let v0 = pre.spec_reg_value(reg);
            r == instr.cycles && unary_applied(pre, reg, spec_res_result(v0, b), pre.f, post)
        },
        Opcode::SetBit(b, reg) => {
            let v0 = pre.spec_reg_value(reg);
            r == instr.cycles && unary_applied(pre, reg, spec_set_result(v0, b), pre.f, post)
        },
    }
}

/// One complete instruction execution, spelled out with its intermediate
/// states: the peripherals tick for the operand fetch, the operation runs
/// from the advanced program counter, the instruction's set mask is applied
/// to the flags before its reset mask (so reset wins on overlap), and the
/// cycles not yet paid by memory accesses are ticked last.
pub open spec fn execute_path<T: ReadWriteMemory + Tick>(
    pre: Cpu<T>,
    instr: Instruction,
    r: TCycles,
    m1: T,
    mid: Cpu<T>,
    post: Cpu<T>,
) -> bool {
    &&& pre.mmu.tick_rel(instr.read_cycles, m1)
    &&& spec_opcode_effect(
        Cpu { pc: wrap16(pre.pc + instr.length), rw_cycles: instr.read_cycles, mmu: m1, ..pre },
        instr,
        r,
        mid,
    )
    &&& post == (Cpu {
        f: mid.f.spec_insert(instr.set_flags).spec_remove(instr.reset_flags),
        mmu: post.mmu,
        ..mid
    })
    &&& mid.mmu.tick_rel((r - mid.rw_cycles) as i64, post.mmu)
}

/// How executing one decoded instruction relates the CPU before to the CPU
/// after, for some intermediate memory and mid-instruction state.
pub open spec fn spec_execute_rel<T: ReadWriteMemory + Tick>(
    pre: Cpu<T>,
    instr: Instruction,
    r: TCycles,
    post: Cpu<T>,
) -> bool {
    exists|m1: T, mid: Cpu<T>| #[trigger] execute_path(pre, instr, r, m1, mid, post)
}

/// The memory path of an interrupt dispatch: from the memory after the
/// pending flag was cleared, the program counter is pushed and the
/// remaining cycles tick.
pub open spec fn dispatch_path<T: ReadWriteMemory + Tick>(
    pre: Cpu<T>,
    m1: T,
    m2: T,
    post: Cpu<T>,
) -> bool {
    mem_write2_ticked(m1, post.sp, pre.pc, 8, m2) && m2.tick_rel(12, post.mmu)
}

/// The instruction that follows EI retires before the master enable turns
/// on: the latch set before this instruction, if still set after it,
/// becomes the master enable.
pub open spec fn step_exec_path<T: ReadWriteMemory + Tick>(
    pre2: Cpu<T>,
    op: Opcode,
    r: TCycles,
    mid: Cpu<T>,
    post: Cpu<T>,
) -> bool {
    &&& spec_execute_rel(pre2, spec_instruction(op), r, mid)
    &&& post == (Cpu {
        ime: if pre2.ei_delayed && mid.ei_delayed {
            true
        } else {
            mid.ime
        },
        ei_delayed: if pre2.ei_delayed && mid.ei_delayed {
            false
        } else {
            mid.ei_delayed
        },
        ..mid
    })
}

/// The two halves of `step_exec_path`, put back together.
proof fn lemma_step_exec_path<T: ReadWriteMemory + Tick>(
    pre2: Cpu<T>,
    op: Opcode,
    r: TCycles,
    mid: Cpu<T>,
    post: Cpu<T>,
)
    requires
        spec_execute_rel(pre2, spec_instruction(op), r, mid),
        post == (Cpu {
            ime: if pre2.ei_delayed && mid.ei_delayed {
                true
            } else {
                mid.ime
            },
            ei_delayed: if pre2.ei_delayed && mid.ei_delayed {
                false
            } else {
                mid.ei_delayed
            },
            ..mid
        }),
    ensures
        step_exec_path(pre2, op, r, mid, post),
{
}

/// Some mid-instruction state completes the fetch-and-execute case.
pub open spec fn spec_step_exec<T: ReadWriteMemory + Tick>(
    pre2: Cpu<T>,
    op: Opcode,
    r: TCycles,
    post: Cpu<T>,
) -> bool {
    exists|mid: Cpu<T>| #[trigger] step_exec_path(pre2, op, r, mid, post)
}

/// The fetch-and-execute case of `spec_step_rel`, put back together.
proof fn lemma_step_rel_exec_case<T: ReadWriteMemory + Tick + InterruptManager>(
    pre: Cpu<T>,
    op: Opcode,
    r: TCycles,
    mid: Cpu<T>,
    post: Cpu<T>,
)
    requires
        !(spec_priority(pre.mmu.ie_bits(), pre.mmu.if_bits()) is Some && pre.ime),
        !(pre.halted && !(spec_priority(pre.mmu.ie_bits(), pre.mmu.if_bits()) is Some)),
        spec_decode(
            pre.mmu.spec_read(pre.pc),
            pre.mmu.spec_read(wrap16(pre.pc + 1)),
            pre.mmu.spec_read(wrap16(pre.pc + 2)),
        ) == Ok::<Opcode, u8>(op),
        step_exec_path(
            Cpu {
                halted: pre.halted && !(spec_priority(
                    pre.mmu.ie_bits(),
                    pre.mmu.if_bits(),
                ) is Some),
                ..pre
            },
            op,
            r,
            mid,
            post,
        ),
    ensures
        spec_step_rel(pre, r, post),
{
    let pre2 = Cpu {
        halted: pre.halted && !(spec_priority(pre.mmu.ie_bits(), pre.mmu.if_bits()) is Some),
        ..pre
    };
    assert(step_exec_path(pre2, op, r, mid, post));
    assert(spec_step_exec(pre2, op, r, post));
}

/// What one step does, for every starting state. A pending enabled
/// interrupt with the master enable on is dispatched: its flag cleared,
/// the program counter pushed and set to the handler, 20 T-cycles. A
/// pending interrupt wakes a halted CPU; a halted CPU with nothing pending
/// idles one machine cycle. Otherwise the bytes at the program counter are
/// decoded: an unrecognized byte is skipped for one machine cycle, and a
/// recognized instruction executes as `spec_execute_rel` says, after which
/// a ripe EI latch turns the master enable on.
pub open spec fn spec_step_rel<T: ReadWriteMemory + Tick + InterruptManager>(
    pre: Cpu<T>,
    r: TCycles,
    post: Cpu<T>,
) -> bool {
    let pending = spec_priority(pre.mmu.ie_bits(), pre.mmu.if_bits());
    if pending is Some && pre.ime {
        &&& r == 20
        &&& !post.ime
        &&& !post.halted
        &&& post.ei_delayed == pre.ei_delayed
        &&& post.pc == pending->Some_0.spec_handler_address()
        &&& post.sp == wrap16(pre.sp - 2)
        &&& post.a == pre.a && post.b == pre.b && post.c == pre.c && post.d == pre.d && post.e
            == pre.e && post.f == pre.f && post.h == pre.h && post.l == pre.l
        &&& post.rw_cycles == 8
        &&& exists|m1: T, m2: T| #[trigger] dispatch_path(pre, m1, m2, post)
    } else {
        let pre2 = Cpu { halted: pre.halted && !(pending is Some), ..pre };
        let b0 = pre.mmu.spec_read(pre.pc);
        let b1 = pre.mmu.spec_read(wrap16(pre.pc + 1));
        let b2 = pre.mmu.spec_read(wrap16(pre.pc + 2));
        if pre2.halted {
            r == 4 && post == (Cpu { rw_cycles: 0, mmu: post.mmu, ..pre2 }) && pre.mmu.tick_rel(
                4,
                post.mmu,
            )
        } else {
            match spec_decode(b0, b1, b2) {
                Err(_) => r == 4 && post == (Cpu {
                    pc: wrap16(pre.pc + 1),
                    rw_cycles: 0,
                    mmu: post.mmu,
                    ..pre2
                }) && pre.mmu.tick_rel(4, post.mmu),
                Ok(op) => spec_step_exec(pre2, op, r, post),
            }
        }
    }
}

impl<T: ReadWriteMemory + Tick + InterruptManager> Cpu<T> {
    /// Run one decoded operation against the register file and memory.
    ///
    /// Returns the T-cycles the instruction costs: its plain cost, or its
    /// branch cost when a conditional branch is taken. The memory-access
    /// cycles accumulated never exceed that cost, and both are multiples of
    /// four.
    fn run_opcode(&mut self, instr: Instruction) -> (r: TCycles)
        requires
            instr == spec_instruction(instr.opcode),
            old(self).rw_cycles == instr.read_cycles,
            old(self).mmu.inv(),
        ensures
            final(self).mmu.inv(),
            r == instr.cycles || r == instr.branch_cycles,
            final(self).rw_cycles <= r,
            final(self).rw_cycles % 4 == 0,
            final(self).rw_cycles >= 0,
            spec_opcode_effect(*old(self), instr, r, *final(self)),
    {
        match instr.opcode {
            Opcode::Nop
                | Opcode::LdDerefImmSp(..)
                | Opcode::Stop
                | Opcode::Jr(..)
                | Opcode::JrCond(..)
                | Opcode::LdWideRegImm(..)
                | Opcode::AddHLWideReg(..)
                | Opcode::LdDerefWideRegA(..)
                | Opcode::LdADerefWideReg(..)
                | Opcode::LdHLIncA
                | Opcode::LdHLDecA
                | Opcode::LdAHLInc
                | Opcode::LdAHLDec
                | Opcode::IncWideReg(..)
                | Opcode::DecWideReg(..)
                | Opcode::IncReg(..)
                | Opcode::DecReg(..)
                | Opcode::LdRegImm(..)
                | Opcode::Rlca
                | Opcode::Rrca
                | Opcode::Rla
                | Opcode::Rra
                | Opcode::Daa
                | Opcode::Cpl
                | Opcode::Scf
                | Opcode::Ccf => self.run_opcode_g1(instr),
            Opcode::Ld(..)
                | Opcode::Halt
                | Opcode::Add(..)
                | Opcode::Adc(..)
                | Opcode::Sub(..)
                | Opcode::Sbc(..)
                | Opcode::And(..)
                | Opcode::Xor(..)
                | Opcode::Or(..)
                | Opcode::Cp(..)
                | Opcode::RetCond(..)
                | Opcode::LdOffsetImmA(..)
                | Opcode::AddSpDisp(..) => self.run_opcode_g2(instr),
            Opcode::LdAOffsetImm(..)
                | Opcode::LdHLSPDisp(..)
                | Opcode::PopWideReg(..)
                | Opcode::Ret
                | Opcode::Reti
                | Opcode::JpHL
                | Opcode::LdSPHL
                | Opcode::JPCondImm(..)
                | Opcode::LdOffsetCA
                | Opcode::LdDerefImmA(..)
                | Opcode::LdAOffsetC
                | Opcode::LdADerefImm(..)
                | Opcode::JP(..) => self.run_opcode_g2b(instr),
            Opcode::DI
                | Opcode::EI
                | Opcode::CallCondImm(..)
                | Opcode::PushWideReg(..)
                | Opcode::CallImm(..)
                | Opcode::AddImm(..)
                | Opcode::AdcImm(..)
                | Opcode::SubImm(..)
                | Opcode::SbcImm(..)
                | Opcode::AndImm(..)
                | Opcode::XorImm(..)
                | Opcode::OrImm(..)
                | Opcode::CpImm(..)
                | Opcode::Rst(..)
                | Opcode::Rlc(..)
                | Opcode::Rrc(..)
                | Opcode::Rl(..)
                | Opcode::Rr(..)
                | Opcode::Sla(..)
                | Opcode::Sra(..)
                | Opcode::Swap(..)
                | Opcode::Srl(..)
                | Opcode::Bit(..)
                | Opcode::Res(..)
                | Opcode::SetBit(..) => self.run_opcode_g3(instr),
        }
    }

    /// A section of the operation table.
    #[verifier::rlimit(100)]
    #[verifier::spinoff_prover]
    fn run_opcode_g1(&mut self, instr: Instruction) -> (r: TCycles)
        requires
            instr == spec_instruction(instr.opcode),
            instr.opcode is Nop
                || instr.opcode is LdDerefImmSp
                || instr.opcode is Stop
                || instr.opcode is Jr
                || instr.opcode is JrCond
                || instr.opcode is LdWideRegImm
                || instr.opcode is AddHLWideReg
                || instr.opcode is LdDerefWideRegA
                || instr.opcode is LdADerefWideReg
                || instr.opcode is LdHLIncA
                || instr.opcode is LdHLDecA
                || instr.opcode is LdAHLInc
                || instr.opcode is LdAHLDec
                || instr.opcode is IncWideReg
                || instr.opcode is DecWideReg
                || instr.opcode is IncReg
                || instr.opcode is DecReg
                || instr.opcode is LdRegImm
                || instr.opcode is Rlca
                || instr.opcode is Rrca
                || instr.opcode is Rla
                || instr.opcode is Rra
                || instr.opcode is Daa
                || instr.opcode is Cpl
                || instr.opcode is Scf
                || instr.opcode is Ccf,
            old(self).rw_cycles == instr.read_cycles,
            old(self).mmu.inv(),
        ensures
            final(self).mmu.inv(),
            r == instr.cycles || r == instr.branch_cycles,
            final(self).rw_cycles <= r,
            final(self).rw_cycles % 4 == 0,
            final(self).rw_cycles >= 0,
            spec_opcode_effect(*old(self), instr, r, *final(self)),
    {
        proof {
            lemma_instruction_table_sound(instr.opcode);
        }
        match instr.opcode {
            Opcode::Nop => {
                proof {
                    reveal(spec_opcode_effect);
                    assert(spec_opcode_effect(*old(self), instr, instr.cycles, *self));
                }
                proof {
                    reveal(spec_opcode_effect);
                    assert(spec_opcode_effect(*old(self), instr, instr.cycles, *self));
                }
                instr.cycles
            },
            Opcode::LdDerefImmSp(addr) => {
                let sp = self.sp;
                self.write_u16(addr, sp);
                proof {
                    reveal(spec_opcode_effect);
                    assert(spec_opcode_effect(*old(self), instr, instr.cycles, *self));
                }
                instr.cycles
            },
            Opcode::Stop => {
                proof {
                    reveal(spec_opcode_effect);
                    assert(spec_opcode_effect(*old(self), instr, instr.cycles, *self));
                }
                proof {
                    reveal(spec_opcode_effect);
                    assert(spec_opcode_effect(*old(self), instr, instr.cycles, *self));
                }
                instr.cycles
            },
            Opcode::Jr(offset) => {
                self.pc = wrap_add_signed(self.pc, offset);
                proof {
                    reveal(spec_opcode_effect);
                    assert(spec_opcode_effect(*old(self), instr, instr.cycles, *self));
                }
                instr.cycles
            },
            Opcode::JrCond(cond, offset) => {
                if self.condition(cond) {
                    self.pc = wrap_add_signed(self.pc, offset);
                    proof {
                        reveal(spec_opcode_effect);
                        assert(spec_opcode_effect(
                            *old(self),
                            instr,
                            instr.branch_cycles,
                            *self,
                        ));
                    }
                    instr.branch_cycles
                } else {
                    proof {
                        reveal(spec_opcode_effect);
                        assert(spec_opcode_effect(*old(self), instr, instr.cycles, *self));
                    }
                    instr.cycles
                }
            },
            Opcode::LdWideRegImm(reg, value) => {
                self.set_wide_reg(reg, value);
                proof {
                    reveal(spec_opcode_effect);
                    assert(spec_opcode_effect(*old(self), instr, instr.cycles, *self));
                }
                instr.cycles
            },
            Opcode::AddHLWideReg(reg) => {
                self.add_wide(WideRegister::HL, reg);
                proof {
                    reveal(spec_opcode_effect);
                    assert(spec_opcode_effect(*old(self), instr, instr.cycles, *self));
                }
                instr.cycles
            },
            Opcode::LdDerefWideRegA(reg) => {
                let addr = self.wide_reg(reg);
                let a = self.a;
                self.write(addr, a);
                proof {
                    reveal(spec_opcode_effect);
                    assert(spec_opcode_effect(*old(self), instr, instr.cycles, *self));
                }
                instr.cycles
            },
            Opcode::LdADerefWideReg(reg) => {
                let addr = self.wide_reg(reg);
                let value = self.read(addr);
                self.a = value;
                proof {
                    reveal(spec_opcode_effect);
                    assert(spec_opcode_effect(*old(self), instr, instr.cycles, *self));
                }
                instr.cycles
            },
            Opcode::LdHLIncA => {
                let a = self.a;
                self.set_reg(Register::DerefHL, a);
                self.inc_wide(WideRegister::HL);
                proof {
                    reveal(spec_opcode_effect);
                    assert(spec_opcode_effect(*old(self), instr, instr.cycles, *self));
                }
                instr.cycles
            },
            Opcode::LdHLDecA => {
                let a = self.a;
                self.set_reg(Register::DerefHL, a);
                self.dec_wide(WideRegister::HL);
                proof {
                    reveal(spec_opcode_effect);
                    assert(spec_opcode_effect(*old(self), instr, instr.cycles, *self));
                }
                instr.cycles
            },
            Opcode::LdAHLInc => {
                let value = self.reg(Register::DerefHL);
                self.a = value;
                self.inc_wide(WideRegister::HL);
                proof {
                    reveal(spec_opcode_effect);
                    assert(spec_opcode_effect(*old(self), instr, instr.cycles, *self));
                }
                instr.cycles
            },
            Opcode::LdAHLDec => {
                let value = self.reg(Register::DerefHL);
                self.a = value;
                self.dec_wide(WideRegister::HL);
                proof {
                    reveal(spec_opcode_effect);
                    assert(spec_opcode_effect(*old(self), instr, instr.cycles, *self));
                }
                instr.cycles
            },
            Opcode::IncWideReg(reg) => {
                self.inc_wide(reg);
                proof {
                    reveal(spec_opcode_effect);
                    assert(spec_opcode_effect(*old(self), instr, instr.cycles, *self));
                }
                instr.cycles
            },
            Opcode::DecWideReg(reg) => {
                self.dec_wide(reg);
                proof {
                    reveal(spec_opcode_effect);
                    assert(spec_opcode_effect(*old(self), instr, instr.cycles, *self));
                }
                instr.cycles
            },
            Opcode::IncReg(reg) => {
                self.inc(reg);
                proof {
                    reveal(spec_opcode_effect);
                    assert(spec_opcode_effect(*old(self), instr, instr.cycles, *self));
                }
                instr.cycles
            },
            Opcode::DecReg(reg) => {
                self.dec(reg);
                proof {
                    reveal(spec_opcode_effect);
                    assert(spec_opcode_effect(*old(self), instr, instr.cycles, *self));
                }
                instr.cycles
            },
            Opcode::LdRegImm(reg, n) => {
                self.set_reg(reg, n);
                proof {
                    reveal(spec_opcode_effect);
                    assert(spec_opcode_effect(*old(self), instr, instr.cycles, *self));
                }
                instr.cycles
            },
            Opcode::Rlca => {
                self.rlc(Register::A, false);
                proof {
                    reveal(spec_opcode_effect);
                    assert(spec_opcode_effect(*old(self), instr, instr.cycles, *self));
                }
                instr.cycles
            },
            Opcode::Rrca => {
                self.rrc(Register::A, false);
                proof {
                    reveal(spec_opcode_effect);
                    assert(spec_opcode_effect(*old(self), instr, instr.cycles, *self));
                }
                instr.cycles
            },
            Opcode::Rla => {
                self.rl(Register::A, false);
                proof {
                    reveal(spec_opcode_effect);
                    assert(spec_opcode_effect(*old(self), instr, instr.cycles, *self));
                }
                instr.cycles
            },
            Opcode::Rra => {
                self.rr(Register::A, false);
                proof {
                    reveal(spec_opcode_effect);
                    assert(spec_opcode_effect(*old(self), instr, instr.cycles, *self));
                }
                instr.cycles
            },
            Opcode::Daa => {
                self.daa();
                proof {
                    reveal(spec_opcode_effect);
                    assert(spec_opcode_effect(*old(self), instr, instr.cycles, *self));
                }
                instr.cycles
            },
            Opcode::Cpl => {
                self.a = 255 - self.a;
                proof {
                    reveal(spec_opcode_effect);
                    assert(spec_opcode_effect(*old(self), instr, instr.cycles, *self));
                }
                instr.cycles
            },
            Opcode::Scf => {
                proof {
                    reveal(spec_opcode_effect);
                    assert(spec_opcode_effect(*old(self), instr, instr.cycles, *self));
                }
                proof {
                    reveal(spec_opcode_effect);
                    assert(spec_opcode_effect(*old(self), instr, instr.cycles, *self));
                }
                instr.cycles
            },
            Opcode::Ccf => {
                self.f.c = !self.f.c;
                proof {
                    reveal(spec_opcode_effect);
                    assert(spec_opcode_effect(*old(self), instr, instr.cycles, *self));
                }
                instr.cycles
            },
            _ => instr.cycles,
        }
    }

    /// A section of the operation table.
    #[verifier::rlimit(100)]
    #[verifier::spinoff_prover]
    fn run_opcode_g2(&mut self, instr: Instruction) -> (r: TCycles)
        requires
            instr == spec_instruction(instr.opcode),
            instr.opcode is Ld
                || instr.opcode is Halt
                || instr.opcode is Add
                || instr.opcode is Adc
                || instr.opcode is Sub
                || instr.opcode is Sbc
                || instr.opcode is And
                || instr.opcode is Xor
                || instr.opcode is Or
                || instr.opcode is Cp
                || instr.opcode is RetCond
                || instr.opcode is LdOffsetImmA
                || instr.opcode is AddSpDisp,
            old(self).rw_cycles == instr.read_cycles,
            old(self).mmu.inv(),
        ensures
            final(self).mmu.inv(),
            r == instr.cycles || r == instr.branch_cycles,
            final(self).rw_cycles <= r,
            final(self).rw_cycles % 4 == 0,
            final(self).rw_cycles >= 0,
            spec_opcode_effect(*old(self), instr, r, *final(self)),
    {
        proof {
            lemma_instruction_table_sound(instr.opcode);
        }
        match instr.opcode {
            Opcode::Ld(r1, r2) => {
                let value = self.reg(r2);
                let ghost mid = *self;
                self.set_reg(r1, value);
                proof {
                    reveal(spec_opcode_effect);
                    assert(src_mmu(old(self).mmu, r2, mid.mmu));
                    assert(mid == (Cpu {
                        rw_cycles: (old(self).rw_cycles + src_cost(r2)) as i64,
                        mmu: mid.mmu,
                        ..*old(self)
                    }));
                    assert(reg_write_rel(mid, r1, value, *self));
                    assert(spec_opcode_effect(*old(self), instr, instr.cycles, *self));
                }
                instr.cycles
            },
            Opcode::Halt => {
                self.halted = true;
                proof {
                    reveal(spec_opcode_effect);
                    assert(spec_opcode_effect(*old(self), instr, instr.cycles, *self));
                }
                instr.cycles
            },
            Opcode::Add(reg) => {
                let value = self.reg(reg);
                self.add(value);
                proof {
                    reveal(spec_opcode_effect);
                    assert(spec_opcode_effect(*old(self), instr, instr.cycles, *self));
                }
                instr.cycles
            },
            Opcode::Adc(reg) => {
                let value = self.reg(reg);
                self.adc(value);
                proof {
                    reveal(spec_opcode_effect);
                    assert(spec_opcode_effect(*old(self), instr, instr.cycles, *self));
                }
                instr.cycles
            },
            Opcode::Sub(reg) => {
                let value = self.reg(reg);
                self.sub(value);
                proof {
                    reveal(spec_opcode_effect);
                    assert(spec_opcode_effect(*old(self), instr, instr.cycles, *self));
                }
                instr.cycles
            },
            Opcode::Sbc(reg) => {
                let value = self.reg(reg);
                self.sbc(value);
                proof {
                    reveal(spec_opcode_effect);
                    assert(spec_opcode_effect(*old(self), instr, instr.cycles, *self));
                }
                instr.cycles
            },
            Opcode::And(reg) => {
                let value = self.reg(reg);
                self.and(value);
                proof {
                    reveal(spec_opcode_effect);
                    assert(spec_opcode_effect(*old(self), instr, instr.cycles, *self));
                }
                instr.cycles
            },
            Opcode::Xor(reg) => {
                let value = self.reg(reg);
                self.xor(value);
                proof {
                    reveal(spec_opcode_effect);
                    assert(spec_opcode_effect(*old(self), instr, instr.cycles, *self));
                }
                instr.cycles
            },
            Opcode::Or(reg) => {
                let value = self.reg(reg);
                self.or(value);
                proof {
                    reveal(spec_opcode_effect);
                    assert(spec_opcode_effect(*old(self), instr, instr.cycles, *self));
                }
                instr.cycles
            },
            Opcode::Cp(reg) => {
                let value = self.reg(reg);
                self.cp(value);
                proof {
                    reveal(spec_opcode_effect);
                    assert(spec_opcode_effect(*old(self), instr, instr.cycles, *self));
                }
                instr.cycles
            },
            Opcode::RetCond(cond) => {
                if self.condition(cond) {
                    self.ret();
                    proof {
                        reveal(spec_opcode_effect);
                        assert(spec_opcode_effect(
                            *old(self),
                            instr,
                            instr.branch_cycles,
                            *self,
                        ));
                    }
                    instr.branch_cycles
                } else {
                    proof {
                        reveal(spec_opcode_effect);
                        assert(spec_opcode_effect(*old(self), instr, instr.cycles, *self));
                    }
                    instr.cycles
                }
            },
            Opcode::LdOffsetImmA(offset) => {
                let a = self.a;
                self.write(0xFF00 + offset as u16, a);
                proof {
                    reveal(spec_opcode_effect);
                    assert(spec_opcode_effect(*old(self), instr, instr.cycles, *self));
                }
                instr.cycles
            },
            Opcode::AddSpDisp(offset) => {
                let value = self.add_sp_offset(offset);
                self.sp = value;
                proof {
                    reveal(spec_opcode_effect);
                    assert(spec_opcode_effect(*old(self), instr, instr.cycles, *self));
                }
                instr.cycles
            },
            _ => instr.cycles,
        }
    }

    /// A section of the operation table.
    #[verifier::rlimit(100)]
    #[verifier::spinoff_prover]
    fn run_opcode_g2b(&mut self, instr: Instruction) -> (r: TCycles)
        requires
            instr == spec_instruction(instr.opcode),
            instr.opcode is LdAOffsetImm
                || instr.opcode is LdHLSPDisp
                || instr.opcode is PopWideReg
                || instr.opcode is Ret
                || instr.opcode is Reti
                || instr.opcode is JpHL
                || instr.opcode is LdSPHL
                || instr.opcode is JPCondImm
                || instr.opcode is LdOffsetCA
                || instr.opcode is LdDerefImmA
                || instr.opcode is LdAOffsetC
                || instr.opcode is LdADerefImm
                || instr.opcode is JP,
            old(self).rw_cycles == instr.read_cycles,
            old(self).mmu.inv(),
        ensures
            final(self).mmu.inv(),
            r == instr.cycles || r == instr.branch_cycles,
            final(self).rw_cycles <= r,
            final(self).rw_cycles % 4 == 0,
            final(self).rw_cycles >= 0,
            spec_opcode_effect(*old(self), instr, r, *final(self)),
    {
        proof {
            lemma_instruction_table_sound(instr.opcode);
        }
        match instr.opcode {
            Opcode::LdAOffsetImm(offset) => {
                let value = self.read(0xFF00 + offset as u16);
                self.a = value;
                proof {
                    reveal(spec_opcode_effect);
                    assert(spec_opcode_effect(*old(self), instr, instr.cycles, *self));
                }
                instr.cycles
            },
            Opcode::LdHLSPDisp(offset) => {
                let value = self.add_sp_offset(offset);
                self.set_wide_reg(WideRegister::HL, value);
                proof {
                    reveal(spec_opcode_effect);
                    assert(spec_opcode_effect(*old(self), instr, instr.cycles, *self));
                }
                instr.cycles
            },
            Opcode::PopWideReg(reg) => {
                self.pop_wide_reg(reg);
                proof {
                    reveal(spec_opcode_effect);
                    assert(spec_opcode_effect(*old(self), instr, instr.cycles, *self));
                }
                instr.cycles
            },
            Opcode::Ret => {
                self.ret();
                proof {
                    reveal(spec_opcode_effect);
                    assert(spec_opcode_effect(*old(self), instr, instr.cycles, *self));
                }
                instr.cycles
            },
            Opcode::Reti => {
                self.ret();
                self.ime = true;
                proof {
                    reveal(spec_opcode_effect);
                    assert(spec_opcode_effect(*old(self), instr, instr.cycles, *self));
                }
                instr.cycles
            },
            Opcode::JpHL => {
                let addr = self.wide_reg(WideRegister::HL);
                self.pc = addr;
                proof {
                    reveal(spec_opcode_effect);
                    assert(spec_opcode_effect(*old(self), instr, instr.cycles, *self));
                }
                instr.cycles
            },
            Opcode::LdSPHL => {
                let addr = self.wide_reg(WideRegister::HL);
                self.sp = addr;
                proof {
                    reveal(spec_opcode_effect);
                    assert(spec_opcode_effect(*old(self), instr, instr.cycles, *self));
                }
                instr.cycles
            },
            Opcode::JPCondImm(cond, addr) => {
                if self.condition(cond) {
                    self.pc = addr;
                    proof {
                        reveal(spec_opcode_effect);
                        assert(spec_opcode_effect(
                            *old(self),
                            instr,
                            instr.branch_cycles,
                            *self,
                        ));
                    }
                    instr.branch_cycles
                } else {
                    proof {
                        reveal(spec_opcode_effect);
                        assert(spec_opcode_effect(*old(self), instr, instr.cycles, *self));
                    }
                    instr.cycles
                }
            },
            Opcode::LdOffsetCA => {
                let a = self.a;
                let c = self.c;
                self.write(0xFF00 + c as u16, a);
                proof {
                    reveal(spec_opcode_effect);
                    assert(spec_opcode_effect(*old(self), instr, instr.cycles, *self));
                }
                instr.cycles
            },
            Opcode::LdDerefImmA(addr) => {
                let a = self.a;
                self.write(addr, a);
                proof {
                    reveal(spec_opcode_effect);
                    assert(spec_opcode_effect(*old(self), instr, instr.cycles, *self));
                }
                instr.cycles
            },
            Opcode::LdAOffsetC => {
                let c = self.c;
                let value = self.read(0xFF00 + c as u16);
                self.a = value;
                proof {
                    reveal(spec_opcode_effect);
                    assert(spec_opcode_effect(*old(self), instr, instr.cycles, *self));
                }
                instr.cycles
            },
            Opcode::LdADerefImm(addr) => {
                let value = self.read(addr);
                self.a = value;
                proof {
                    reveal(spec_opcode_effect);
                    assert(spec_opcode_effect(*old(self), instr, instr.cycles, *self));
                }
                instr.cycles
            },
            Opcode::JP(addr) => {
                self.pc = addr;
                proof {
                    reveal(spec_opcode_effect);
                    assert(spec_opcode_effect(*old(self), instr, instr.cycles, *self));
                }
                instr.cycles
            },
            _ => instr.cycles,
        }
    }


    /// A section of the operation table.
    #[verifier::rlimit(100)]
    #[verifier::spinoff_prover]
    fn run_opcode_g3(&mut self, instr: Instruction) -> (r: TCycles)
        requires
            instr == spec_instruction(instr.opcode),
            instr.opcode is DI
                || instr.opcode is EI
                || instr.opcode is CallCondImm
                || instr.opcode is PushWideReg
                || instr.opcode is CallImm
                || instr.opcode is AddImm
                || instr.opcode is AdcImm
                || instr.opcode is SubImm
                || instr.opcode is SbcImm
                || instr.opcode is AndImm
                || instr.opcode is XorImm
                || instr.opcode is OrImm
                || instr.opcode is CpImm
                || instr.opcode is Rst
                || instr.opcode is Rlc
                || instr.opcode is Rrc
                || instr.opcode is Rl
                || instr.opcode is Rr
                || instr.opcode is Sla
                || instr.opcode is Sra
                || instr.opcode is Swap
                || instr.opcode is Srl
                || instr.opcode is Bit
                || instr.opcode is Res
                || instr.opcode is SetBit,
            old(self).rw_cycles == instr.read_cycles,
            old(self).mmu.inv(),
        ensures
            final(self).mmu.inv(),
            r == instr.cycles || r == instr.branch_cycles,
            final(self).rw_cycles <= r,
            final(self).rw_cycles % 4 == 0,
            final(self).rw_cycles >= 0,
            spec_opcode_effect(*old(self), instr, r, *final(self)),
    {
        proof {
            lemma_instruction_table_sound(instr.opcode);
        }
        match instr.opcode {
            Opcode::DI => {
                self.ime = false;
                self.ei_delayed = false;
                proof {
                    reveal(spec_opcode_effect);
                    assert(spec_opcode_effect(*old(self), instr, instr.cycles, *self));
                }
                instr.cycles
            },
            Opcode::EI => {
                self.ei_delayed = true;
                proof {
                    reveal(spec_opcode_effect);
                    assert(spec_opcode_effect(*old(self), instr, instr.cycles, *self));
                }
                instr.cycles
            },
            Opcode::CallCondImm(cond, addr) => {
                if self.condition(cond) {
                    self.call(addr);
                    proof {
                        reveal(spec_opcode_effect);
                        assert(spec_opcode_effect(
                            *old(self),
                            instr,
                            instr.branch_cycles,
                            *self,
                        ));
                    }
                    instr.branch_cycles
                } else {
                    proof {
                        reveal(spec_opcode_effect);
                        assert(spec_opcode_effect(*old(self), instr, instr.cycles, *self));
                    }
                    instr.cycles
                }
            },
            Opcode::PushWideReg(reg) => {
                self.push_wide_reg(reg);
                proof {
                    reveal(spec_opcode_effect);
                    assert(spec_opcode_effect(*old(self), instr, instr.cycles, *self));
                }
                instr.cycles
            },
            Opcode::CallImm(addr) => {
                self.call(addr);
                proof {
                    reveal(spec_opcode_effect);
                    assert(spec_opcode_effect(*old(self), instr, instr.cycles, *self));
                }
                instr.cycles
            },
            Opcode::AddImm(n) => {
                self.add(n);
                proof {
                    reveal(spec_opcode_effect);
                    assert(spec_opcode_effect(*old(self), instr, instr.cycles, *self));
                }
                instr.cycles
            },
            Opcode::AdcImm(n) => {
                self.adc(n);
                proof {
                    reveal(spec_opcode_effect);
                    assert(spec_opcode_effect(*old(self), instr, instr.cycles, *self));
                }
                instr.cycles
            },
            Opcode::SubImm(n) => {
                self.sub(n);
                proof {
                    reveal(spec_opcode_effect);
                    assert(spec_opcode_effect(*old(self), instr, instr.cycles, *self));
                }
                instr.cycles
            },
            Opcode::SbcImm(n) => {
                self.sbc(n);
                proof {
                    reveal(spec_opcode_effect);
                    assert(spec_opcode_effect(*old(self), instr, instr.cycles, *self));
                }
                instr.cycles
            },
            Opcode::AndImm(n) => {
                self.and(n);
                proof {
                    reveal(spec_opcode_effect);
                    assert(spec_opcode_effect(*old(self), instr, instr.cycles, *self));
                }
                instr.cycles
            },
            Opcode::XorImm(n) => {
                self.xor(n);
                proof {
                    reveal(spec_opcode_effect);
                    assert(spec_opcode_effect(*old(self), instr, instr.cycles, *self));
                }
                instr.cycles
            },
            Opcode::OrImm(n) => {
                self.or(n);
                proof {
                    reveal(spec_opcode_effect);
                    assert(spec_opcode_effect(*old(self), instr, instr.cycles, *self));
                }
                instr.cycles
            },
            Opcode::CpImm(n) => {
                self.cp(n);
                proof {
                    reveal(spec_opcode_effect);
                    assert(spec_opcode_effect(*old(self), instr, instr.cycles, *self));
                }
                instr.cycles
            },
            Opcode::Rst(t) => {
                self.call(t as u16);
                proof {
                    reveal(spec_opcode_effect);
                    assert(spec_opcode_effect(*old(self), instr, instr.cycles, *self));
                }
                instr.cycles
            },
            Opcode::Rlc(reg) => {
                self.rlc(reg, true);
                proof {
                    reveal(spec_opcode_effect);
                    assert(spec_opcode_effect(*old(self), instr, instr.cycles, *self));
                }
                instr.cycles
            },
            Opcode::Rrc(reg) => {
                self.rrc(reg, true);
                proof {
                    reveal(spec_opcode_effect);
                    assert(spec_opcode_effect(*old(self), instr, instr.cycles, *self));
                }
                instr.cycles
            },
            Opcode::Rl(reg) => {
                self.rl(reg, true);
                proof {
                    reveal(spec_opcode_effect);
                    assert(spec_opcode_effect(*old(self), instr, instr.cycles, *self));
                }
                instr.cycles
            },
            Opcode::Rr(reg) => {
                self.rr(reg, true);
                proof {
                    reveal(spec_opcode_effect);
                    assert(spec_opcode_effect(*old(self), instr, instr.cycles, *self));
                }
                instr.cycles
            },
            Opcode::Sla(reg) => {
                self.sla(reg);
                proof {
                    reveal(spec_opcode_effect);
                    assert(spec_opcode_effect(*old(self), instr, instr.cycles, *self));
                }
                instr.cycles
            },
            Opcode::Sra(reg) => {
                self.sra(reg);
                proof {
                    reveal(spec_opcode_effect);
                    assert(spec_opcode_effect(*old(self), instr, instr.cycles, *self));
                }
                instr.cycles
            },
            Opcode::Swap(reg) => {
                self.swap(reg);
                proof {
                    reveal(spec_opcode_effect);
                    assert(spec_opcode_effect(*old(self), instr, instr.cycles, *self));
                }
                instr.cycles
            },
            Opcode::Srl(reg) => {
                self.srl(reg);
                proof {
                    reveal(spec_opcode_effect);
                    assert(spec_opcode_effect(*old(self), instr, instr.cycles, *self));
                }
                instr.cycles
            },
            Opcode::Bit(b, reg) => {
                let value = self.reg(reg);
                let mask = bit_mask(b);
                self.f.z = value / mask % 2 == 0;
                proof {
                    reveal(spec_opcode_effect);
                    assert(spec_opcode_effect(*old(self), instr, instr.cycles, *self));
                }
                instr.cycles
            },
            Opcode::Res(b, reg) => {
                let value = self.reg(reg);
                let mask = bit_mask(b);
                let nv = if value / mask % 2 == 1 {
                    proof {
                        assert(value >= mask) by (bit_vector)
                            requires
                                mask == spec_bit_mask(b),
                                value / mask % 2 == 1,
                        ;
                    }
                    value - mask
                } else {
                    value
                };
                self.set_reg(reg, nv);
                proof {
                    reveal(spec_opcode_effect);
                    assert(spec_opcode_effect(*old(self), instr, instr.cycles, *self));
                }
                instr.cycles
            },
            Opcode::SetBit(b, reg) => {
                let value = self.reg(reg);
                let mask = bit_mask(b);
                let nv = if value / mask % 2 == 0 {
                    proof {
                        assert(value + mask < 256) by (bit_vector)
                            requires
                                mask == spec_bit_mask(b),
                                value / mask % 2 == 0,
                        ;
                    }
                    value + mask
                } else {
                    value
                };
                self.set_reg(reg, nv);
                proof {
                    reveal(spec_opcode_effect);
                    assert(spec_opcode_effect(*old(self), instr, instr.cycles, *self));
                }
                instr.cycles
            },
            _ => instr.cycles,
        }
    }

    /// Execute one decoded instruction: advance the program counter by its
    /// length, pay the operand-fetch cycles, run the operation, apply the
    /// flag masks and propagate the remaining cycles.
    pub fn execute(&mut self, instr: Instruction) -> (r: TCycles)
        requires
            instr == spec_instruction(instr.opcode),
            old(self).mmu.inv(),
        ensures
            final(self).mmu.inv(),
            r == instr.cycles || r == instr.branch_cycles,
            4 <= r,
            r % 4 == 0,
            0 <= final(self).rw_cycles <= r,
            final(self).rw_cycles % 4 == 0,
            final(self).f.spec_bits() % 16 == 0,
            spec_execute_rel(*old(self), instr, r, *final(self)),
    {
        proof {
            lemma_instruction_table_sound(instr.opcode);
        }
        self.pc = wrap_add(self.pc, instr.length);
        self.mmu.tick(instr.read_cycles);
        let ghost m1 = self.mmu;
        self.rw_cycles = instr.read_cycles;
        let ghost prepared = *self;
        let total_cycles = self.run_opcode(instr);
        let ghost mid = *self;
        self.f.insert(instr.set_flags);
        self.f.remove(instr.reset_flags);
        self.mmu.tick(total_cycles - self.rw_cycles);
        proof {
            crate::flags::lemma_flags_low_bits_zero(self.f);
            assert(prepared == (Cpu {
                pc: wrap16(old(self).pc + instr.length),
                rw_cycles: instr.read_cycles,
                mmu: m1,
                ..*old(self)
            }));
            assert(execute_path(*old(self), instr, total_cycles, m1, mid, *self));
        }
        total_cycles
    }

    /// Execute one step: service a pending enabled interrupt, or fetch,
    /// decode and execute the instruction at the program counter.
    ///
    /// Returns the T-cycles consumed: always a positive multiple of four,
    /// and at least the memory-access cycles recorded in `rw_cycles`, which
    /// is a non-negative multiple of four. An unrecognized opcode byte
    /// advances the program counter past itself and costs one machine cycle.
    /// After every step the low four bits of the flags register's byte form
    /// are zero.
    #[verifier::rlimit(100)]
    #[verifier::spinoff_prover]
    pub fn step(&mut self) -> (r: TCycles)
        requires
            old(self).mmu.inv(),
        ensures
            final(self).mmu.inv(),
            4 <= r,
            r % 4 == 0,
            0 <= final(self).rw_cycles <= r,
            final(self).rw_cycles % 4 == 0,
            final(self).f.spec_bits() % 16 == 0,
            spec_step_rel(*old(self), r, *final(self)),
    {
        let pending = self.mmu.priority_interrupt();
        match pending {
            Some(interrupt) => {
                if self.ime {
                    // Dispatch: push the program counter and jump to the
                    // handler; 20 T-cycles in all, 8 of them memory writes.
                    self.ime = false;
                    self.halted = false;
                    self.mmu.if_reset(interrupt);
                    let ghost m1 = self.mmu;
                    self.rw_cycles = 0;
                    let pc = self.pc;
                    self.push(pc);
                    let ghost m2 = self.mmu;
                    self.pc = interrupt.handler_address();
                    self.mmu.tick(12);
                    proof {
                        crate::flags::lemma_flags_low_bits_zero(self.f);
                        assert(dispatch_path(*old(self), m1, m2, *self));
                        assert(spec_step_rel(*old(self), 20, *self));
                    }
                    return 20;
                }
                // A pending enabled interrupt wakes a halted CPU even with
                // the master enable off.
                self.halted = false;
            },
            None => {
                if self.halted {
                    // Halted with nothing pending: idle one machine cycle.
                    self.rw_cycles = 0;
                    self.mmu.tick(4);
                    proof {
                        crate::flags::lemma_flags_low_bits_zero(self.f);
                        assert(spec_step_rel(*old(self), 4, *self));
                    }
                    return 4;
                }
            },
        }
        let ghost pre2 = *self;
        let pending_ei = self.ei_delayed;
        match self.fetch() {
            Err(_) => {
                // Undefined opcode: skip the byte and charge one machine
                // cycle.
                self.pc = wrap_add(self.pc, 1);
                self.rw_cycles = 0;
                self.mmu.tick(4);
                proof {
                    crate::flags::lemma_flags_low_bits_zero(self.f);
                    assert(spec_step_rel(*old(self), 4, *self));
                }
                4
            },
            Ok(instr) => {
                proof {
                    let decoded = spec_decode(
                        pre2.mmu.spec_read(pre2.pc),
                        pre2.mmu.spec_read(crate::traits::wrap16(pre2.pc + 1)),
                        pre2.mmu.spec_read(crate::traits::wrap16(pre2.pc + 2)),
                    );
                    crate::instruction::lemma_instruction_table_sound(decoded->Ok_0);
                    crate::instruction::lemma_instruction_table_sound(instr.opcode);
                    assert(instr == spec_instruction(instr.opcode));
                }
                let total = self.execute(instr);
                let ghost mid = *self;
                // EI takes effect after the instruction that follows it.
                if pending_ei && self.ei_delayed {
                    self.ime = true;
                    self.ei_delayed = false;
                }
                proof {
                    assert(spec_execute_rel(pre2, spec_instruction(instr.opcode), total, mid));
                    lemma_step_exec_path(pre2, instr.opcode, total, mid, *self);
                    assert(pre2 == (Cpu {
                        halted: old(self).halted && !(spec_priority(
                            old(self).mmu.ie_bits(),
                            old(self).mmu.if_bits(),
                        ) is Some),
                        ..*old(self)
                    }));
                    let p = spec_priority(old(self).mmu.ie_bits(), old(self).mmu.if_bits());
                    assert(step_exec_path(
                        Cpu { halted: old(self).halted && !(p is Some), ..*old(self) },
                        instr.opcode,
                        total,
                        mid,
                        *self,
                    ));
                    lemma_step_rel_exec_case(*old(self), instr.opcode, total, mid, *self);
                    assert(spec_step_rel(*old(self), total, *self));
                }
                total
            },
        }
    }
}

} // verus!
