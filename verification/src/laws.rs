//! Laws that relate several operations of the core.

use vstd::prelude::*;

use crate::TCycles;
use crate::alu::lemma_ccf_twice;
use crate::alu::lemma_cpl_twice;
use crate::alu::spec_ccf_flags;
use crate::alu::spec_cpl;
use crate::cpu::Cpu;
use crate::dummy_mmu::DummyMmu;
use crate::execute::execute_path;
use crate::execute::spec_execute_rel;
use crate::execute::spec_opcode_effect;
use crate::instruction::spec_instruction;
use crate::opcode::Opcode;
use crate::opcode::WideRegister;
use crate::traits::ReadWriteMemory;
use crate::traits::Tick;
use crate::traits::wrap16;

verus! {

/// A CPL instruction complements the accumulator, and two in a row restore
/// it, as the executor's contract says.
pub proof fn lemma_cpl_instruction_involution<T: ReadWriteMemory + Tick>(
    c0: Cpu<T>,
    c1: Cpu<T>,
    c2: Cpu<T>,
    r1: TCycles,
    r2: TCycles,
)
    requires
        spec_opcode_effect(c0, spec_instruction(Opcode::Cpl), r1, c1),
        spec_opcode_effect(c1, spec_instruction(Opcode::Cpl), r2, c2),
    ensures
        c1.a == spec_cpl(c0.a),
        c2.a == c0.a,
{
    reveal(spec_opcode_effect);
    lemma_cpl_twice(c0.a);
}

/// A whole CCF instruction, masks included, toggles the carry and clears
/// the subtraction and half-carry flags; two in a row leave the carry as
/// it was, with the zero flag untouched throughout.
pub proof fn lemma_ccf_instruction_involution<T: ReadWriteMemory + Tick>(
    c0: Cpu<T>,
    c1: Cpu<T>,
    c2: Cpu<T>,
    r1: TCycles,
    r2: TCycles,
)
    requires
        spec_execute_rel(c0, spec_instruction(Opcode::Ccf), r1, c1),
        spec_execute_rel(c1, spec_instruction(Opcode::Ccf), r2, c2),
    ensures
        c1.f == spec_ccf_flags(c0.f),
        c2.f == spec_ccf_flags(spec_ccf_flags(c0.f)),
        c2.f.c == c0.f.c,
        !c2.f.n,
        !c2.f.h,
        c2.f.z == c0.f.z,
{
    reveal(spec_opcode_effect);
    let (m1a, mida): (T, Cpu<T>) = choose|m1: T, mid: Cpu<T>|
        #[trigger] execute_path(c0, spec_instruction(Opcode::Ccf), r1, m1, mid, c1);
    let (m1b, midb): (T, Cpu<T>) = choose|m1: T, mid: Cpu<T>|
        #[trigger] execute_path(c1, spec_instruction(Opcode::Ccf), r2, m1, mid, c2);
    lemma_ccf_twice(c0.f);
}

/// Loading a wide register and reading it back yields the value loaded,
/// except for AF, whose low four bits are discarded by the flags register.
pub proof fn lemma_wide_reg_round_trip<T>(cpu: Cpu<T>, reg: WideRegister, v: u16)
    ensures
        reg != WideRegister::AF ==> cpu.spec_set_wide(reg, v).spec_wide(reg) == v,
        reg == WideRegister::AF ==> cpu.spec_set_wide(reg, v).spec_wide(reg) == v / 16 * 16,
{
    vstd::arithmetic::div_mod::lemma_fundamental_div_mod(v as int, 256);
    if reg == WideRegister::AF {
        crate::flags::lemma_flags_from_bits_masks((v % 256) as u8);
        assert(256 * (v / 256) + (v % 256) / 16 * 16 == v / 16 * 16) by (bit_vector);
    }
}

/// Pushing a wide register and popping it back round-trips: the register
/// and the stack pointer return to their old values; for AF the low four
/// bits of the popped value are zeroed. `c1` is any state push may leave
/// the CPU in and `c2` any state the following pop may leave it in, as
/// the two operations' contracts describe them over a flat test memory.
pub proof fn lemma_push_pop_round_trip(
    c0: Cpu<DummyMmu>,
    c1: Cpu<DummyMmu>,
    c2: Cpu<DummyMmu>,
    reg: WideRegister,
)
    requires
        c0.mmu.inv(),
        // What push_wide_reg guarantees from state c0:
        c1.sp == wrap16(c0.sp - 2),
        c1.pc == c0.pc && c1.a == c0.a && c1.b == c0.b && c1.c == c0.c && c1.d == c0.d && c1.e
            == c0.e && c1.f == c0.f && c1.h == c0.h && c1.l == c0.l,
        crate::cpu::mem_write2_ticked(c0.mmu, c1.sp, c0.spec_wide(reg), 8, c1.mmu),
        // What pop_wide_reg guarantees from state c1:
        ({
            let v = (c1.mmu.spec_read(c1.sp) + 256 * c1.mmu.spec_read(wrap16(c1.sp + 1))) as u16;
            let popped = Cpu { sp: wrap16(c1.sp + 2), ..c1 };
            popped.spec_set_wide(reg, v).regs_eq(c2)
        }),
    ensures
        c2.sp == c0.sp,
        reg != WideRegister::AF && reg != WideRegister::SP ==> c2.spec_wide(reg) == c0.spec_wide(
            reg,
        ),
        reg == WideRegister::AF ==> c2.spec_wide(reg) == c0.spec_wide(reg) / 16 * 16,
{
    let addr = c1.sp;
    let v0 = c0.spec_wide(reg);
    // Unfold the flat memory's write-then-tick path: the tick is identity,
    // so the two bytes of the pushed value sit at the new stack pointer.
    let mid = choose|mid: DummyMmu|
        c0.mmu.write2_rel(addr, v0, mid) && mid.tick_rel(8, c1.mmu);
    assert(c1.mmu.memory@ == c0.mmu.memory@.update(addr as int, (v0 % 256) as u8).update(
        wrap16(addr + 1) as int,
        (v0 / 256) as u8,
    ));
    assert(wrap16(addr + 1) != addr) by {
        vstd::arithmetic::div_mod::lemma_mod_add_multiples_vanish(addr - 0xFFFF, 0x10000);
    }
    assert(c1.mmu.spec_read(addr) == (v0 % 256) as u8);
    assert(c1.mmu.spec_read(wrap16(addr + 1)) == (v0 / 256) as u8);
    let v = (c1.mmu.spec_read(addr) + 256 * c1.mmu.spec_read(wrap16(addr + 1))) as u16;
    vstd::arithmetic::div_mod::lemma_fundamental_div_mod(v0 as int, 256);
    assert(v == v0);
    // The stack pointer returns to where it started.
    assert(wrap16(c1.sp + 2) == c0.sp) by {
        vstd::arithmetic::div_mod::lemma_mod_add_multiples_vanish(c0.sp - 2, 0x10000);
        vstd::arithmetic::div_mod::lemma_mod_multiples_vanish(
            -1,
            wrap16(c0.sp - 2) + 2,
            0x10000,
        );
        vstd::arithmetic::div_mod::lemma_small_mod(c0.sp as nat, 0x10000nat);
    }
    let popped = Cpu { sp: wrap16(c1.sp + 2), ..c1 };
    lemma_wide_reg_round_trip(popped, reg, v);
}

} // verus!
