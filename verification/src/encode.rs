//! The inverse of the decoder: each opcode's unique byte encoding.
//!
//! Every recognized opcode has exactly one encoding, and re-decoding it
//! yields the opcode back; `lemma_encode_decode` states and proves that
//! round trip, and `lemma_decode_total` pins down exactly which bytes do
//! not decode.

use vstd::prelude::*;

use crate::opcode::FlagCondition;
use crate::opcode::Opcode;
use crate::opcode::Register;
use crate::opcode::WideRegister;
use crate::opcode::spec_decode;
use crate::opcode::spec_reg;

verus! {

/// The 3-bit field denoting an 8-bit register operand.
pub open spec fn reg_index(r: Register) -> u8 {
    match r {
        Register::B => 0,
        Register::C => 1,
        Register::D => 2,
        Register::E => 3,
        Register::H => 4,
        Register::L => 5,
        Register::DerefHL => 6,
        Register::A => 7,
    }
}

/// The 2-bit field denoting a wide register in the `rp` table; AF has no
/// code in that table.
pub open spec fn rp_index(w: WideRegister) -> u8 {
    match w {
        WideRegister::BC => 0,
        WideRegister::DE => 1,
        WideRegister::HL => 2,
        WideRegister::SP => 3,
        WideRegister::AF => 3,
    }
}

/// The 2-bit field denoting a wide register in the `rp2` table; SP has no
/// code in that table.
pub open spec fn rp2_index(w: WideRegister) -> u8 {
    match w {
        WideRegister::BC => 0,
        WideRegister::DE => 1,
        WideRegister::HL => 2,
        WideRegister::SP => 3,
        WideRegister::AF => 3,
    }
}

/// The 2-bit field denoting a flag condition.
pub open spec fn cond_index(c: FlagCondition) -> u8 {
    match c {
        FlagCondition::NZ => 0,
        FlagCondition::Z => 1,
        FlagCondition::NC => 2,
        FlagCondition::C => 3,
    }
}

impl Opcode {
    /// Whether the opcode's operands lie in the ranges the encoding can
    /// carry: the operand combinations the decoder itself produces.
    pub open spec fn spec_encodable(self) -> bool {
        match self {
            Opcode::Ld(r1, r2) => !(r1 == Register::DerefHL && r2 == Register::DerefHL),
            Opcode::LdDerefWideRegA(w) => w == WideRegister::BC || w == WideRegister::DE,
            Opcode::LdADerefWideReg(w) => w == WideRegister::BC || w == WideRegister::DE,
            Opcode::LdWideRegImm(w, _) => w != WideRegister::AF,
            Opcode::AddHLWideReg(w) => w != WideRegister::AF,
            Opcode::IncWideReg(w) => w != WideRegister::AF,
            Opcode::DecWideReg(w) => w != WideRegister::AF,
            Opcode::PopWideReg(w) => w != WideRegister::SP,
            Opcode::PushWideReg(w) => w != WideRegister::SP,
            Opcode::Rst(t) => t % 8 == 0 && t < 64,
            Opcode::Bit(b, _) => b < 8,
            Opcode::Res(b, _) => b < 8,
            Opcode::SetBit(b, _) => b < 8,
            _ => true,
        }
    }

    /// The first byte of the opcode's encoding; `0xCB` for the prefix table.
    pub open spec fn spec_encode_b0(self) -> u8 {
        match self {
            Opcode::Nop => 0x00u8,
            Opcode::LdDerefImmSp(_) => 0x08u8,
            Opcode::Stop => 0x10u8,
            Opcode::Jr(_) => 0x18u8,
            Opcode::JrCond(c, d) => (0x20 + 8 * cond_index(c)) as u8,
            Opcode::LdWideRegImm(w, _) => (0x01 + 16 * rp_index(w)) as u8,
            Opcode::AddHLWideReg(w) => (0x09 + 16 * rp_index(w)) as u8,
            Opcode::LdDerefWideRegA(w) => (0x02 + 16 * rp_index(w)) as u8,
            Opcode::LdADerefWideReg(w) => (0x0A + 16 * rp_index(w)) as u8,
            Opcode::LdHLIncA => 0x22u8,
            Opcode::LdHLDecA => 0x32u8,
            Opcode::LdAHLInc => 0x2Au8,
            Opcode::LdAHLDec => 0x3Au8,
            Opcode::IncWideReg(w) => (0x03 + 16 * rp_index(w)) as u8,
            Opcode::DecWideReg(w) => (0x0B + 16 * rp_index(w)) as u8,
            Opcode::IncReg(r) => (0x04 + 8 * reg_index(r)) as u8,
            Opcode::DecReg(r) => (0x05 + 8 * reg_index(r)) as u8,
            Opcode::LdRegImm(r, n) => (0x06 + 8 * reg_index(r)) as u8,
            Opcode::Rlca => 0x07u8,
            Opcode::Rrca => 0x0Fu8,
            Opcode::Rla => 0x17u8,
            Opcode::Rra => 0x1Fu8,
            Opcode::Daa => 0x27u8,
            Opcode::Cpl => 0x2Fu8,
            Opcode::Scf => 0x37u8,
            Opcode::Ccf => 0x3Fu8,
            Opcode::Ld(r1, r2) => (0x40 + 8 * reg_index(r1) + reg_index(r2)) as u8,
            Opcode::Halt => 0x76u8,
            Opcode::Add(r) => (0x80 + reg_index(r)) as u8,
            Opcode::Adc(r) => (0x88 + reg_index(r)) as u8,
            Opcode::Sub(r) => (0x90 + reg_index(r)) as u8,
            Opcode::Sbc(r) => (0x98 + reg_index(r)) as u8,
            Opcode::And(r) => (0xA0 + reg_index(r)) as u8,
            Opcode::Xor(r) => (0xA8 + reg_index(r)) as u8,
            Opcode::Or(r) => (0xB0 + reg_index(r)) as u8,
            Opcode::Cp(r) => (0xB8 + reg_index(r)) as u8,
            Opcode::RetCond(c) => (0xC0 + 8 * cond_index(c)) as u8,
            Opcode::LdOffsetImmA(_) => 0xE0u8,
            Opcode::AddSpDisp(_) => 0xE8u8,
            Opcode::LdAOffsetImm(_) => 0xF0u8,
            Opcode::LdHLSPDisp(_) => 0xF8u8,
            Opcode::PopWideReg(w) => (0xC1 + 16 * rp2_index(w)) as u8,
            Opcode::Ret => 0xC9u8,
            Opcode::Reti => 0xD9u8,
            Opcode::JpHL => 0xE9u8,
            Opcode::LdSPHL => 0xF9u8,
            Opcode::JPCondImm(c, _) => (0xC2 + 8 * cond_index(c)) as u8,
            Opcode::LdOffsetCA => 0xE2u8,
            Opcode::LdDerefImmA(_) => 0xEAu8,
            Opcode::LdAOffsetC => 0xF2u8,
            Opcode::LdADerefImm(_) => 0xFAu8,
            Opcode::JP(_) => 0xC3u8,
            Opcode::DI => 0xF3u8,
            Opcode::EI => 0xFBu8,
            Opcode::CallCondImm(c, _) => (0xC4 + 8 * cond_index(c)) as u8,
            Opcode::PushWideReg(w) => (0xC5 + 16 * rp2_index(w)) as u8,
            Opcode::CallImm(_) => 0xCDu8,
            Opcode::AddImm(_) => 0xC6u8,
            Opcode::AdcImm(_) => 0xCEu8,
            Opcode::SubImm(_) => 0xD6u8,
            Opcode::SbcImm(_) => 0xDEu8,
            Opcode::AndImm(_) => 0xE6u8,
            Opcode::XorImm(_) => 0xEEu8,
            Opcode::OrImm(_) => 0xF6u8,
            Opcode::CpImm(_) => 0xFEu8,
            Opcode::Rst(t) => if t <= 56 {
                (0xC7 + t) as u8
            } else {
                0xC7u8
            },
            Opcode::Rlc(_) => 0xCBu8,
            Opcode::Rrc(_) => 0xCBu8,
            Opcode::Rl(_) => 0xCBu8,
            Opcode::Rr(_) => 0xCBu8,
            Opcode::Sla(_) => 0xCBu8,
            Opcode::Sra(_) => 0xCBu8,
            Opcode::Swap(_) => 0xCBu8,
            Opcode::Srl(_) => 0xCBu8,
            Opcode::Bit(_, _) => 0xCBu8,
            Opcode::Res(_, _) => 0xCBu8,
            Opcode::SetBit(_, _) => 0xCBu8,
        }
    }

    /// The second byte of the encoding: the prefix-table byte or the first
    /// operand byte; zero where the encoding is one byte long.
    pub open spec fn spec_encode_b1(self) -> u8 {
        match self {
            Opcode::LdDerefImmSp(nn) => (nn % 256) as u8,
            Opcode::Jr(d) => d as u8,
            Opcode::JrCond(_, d) => d as u8,
            Opcode::LdWideRegImm(_, nn) => (nn % 256) as u8,
            Opcode::LdRegImm(_, n) => n,
            Opcode::LdOffsetImmA(n) => n,
            Opcode::AddSpDisp(d) => d as u8,
            Opcode::LdAOffsetImm(n) => n,
            Opcode::LdHLSPDisp(d) => d as u8,
            Opcode::JPCondImm(_, nn) => (nn % 256) as u8,
            Opcode::LdDerefImmA(nn) => (nn % 256) as u8,
            Opcode::LdADerefImm(nn) => (nn % 256) as u8,
            Opcode::JP(nn) => (nn % 256) as u8,
            Opcode::CallCondImm(_, nn) => (nn % 256) as u8,
            Opcode::CallImm(nn) => (nn % 256) as u8,
            Opcode::AddImm(n) => n,
            Opcode::AdcImm(n) => n,
            Opcode::SubImm(n) => n,
            Opcode::SbcImm(n) => n,
            Opcode::AndImm(n) => n,
            Opcode::XorImm(n) => n,
            Opcode::OrImm(n) => n,
            Opcode::CpImm(n) => n,
            Opcode::Rlc(r) => (reg_index(r)) as u8,
            Opcode::Rrc(r) => (0x08 + reg_index(r)) as u8,
            Opcode::Rl(r) => (0x10 + reg_index(r)) as u8,
            Opcode::Rr(r) => (0x18 + reg_index(r)) as u8,
            Opcode::Sla(r) => (0x20 + reg_index(r)) as u8,
            Opcode::Sra(r) => (0x28 + reg_index(r)) as u8,
            Opcode::Swap(r) => (0x30 + reg_index(r)) as u8,
            Opcode::Srl(r) => (0x38 + reg_index(r)) as u8,
            Opcode::Bit(b, r) => (0x40 + 8 * (b % 8) + reg_index(r)) as u8,
            Opcode::Res(b, r) => (0x80 + 8 * (b % 8) + reg_index(r)) as u8,
            Opcode::SetBit(b, r) => (0xC0 + 8 * (b % 8) + reg_index(r)) as u8,
            _ => 0u8,
        }
    }

    /// The third byte of the encoding: the high operand byte; zero where the
    /// encoding is shorter.
    pub open spec fn spec_encode_b2(self) -> u8 {
        match self {
            Opcode::LdDerefImmSp(nn) => (nn / 256) as u8,
            Opcode::LdWideRegImm(_, nn) => (nn / 256) as u8,
            Opcode::JPCondImm(_, nn) => (nn / 256) as u8,
            Opcode::LdDerefImmA(nn) => (nn / 256) as u8,
            Opcode::LdADerefImm(nn) => (nn / 256) as u8,
            Opcode::JP(nn) => (nn / 256) as u8,
            Opcode::CallCondImm(_, nn) => (nn / 256) as u8,
            Opcode::CallImm(nn) => (nn / 256) as u8,
            _ => 0u8,
        }
    }

    /// The length of the opcode's encoding in bytes.
    pub open spec fn spec_encode_len(self) -> int {
        match self {
            Opcode::Nop => 1,
            Opcode::LdDerefImmSp(..) => 3,
            Opcode::Stop => 1,
            Opcode::Jr(..) => 2,
            Opcode::JrCond(..) => 2,
            Opcode::LdWideRegImm(..) => 3,
            Opcode::AddHLWideReg(..) => 1,
            Opcode::LdDerefWideRegA(..) => 1,
            Opcode::LdADerefWideReg(..) => 1,
            Opcode::LdHLIncA => 1,
            Opcode::LdHLDecA => 1,
            Opcode::LdAHLInc => 1,
            Opcode::LdAHLDec => 1,
            Opcode::IncWideReg(..) => 1,
            Opcode::DecWideReg(..) => 1,
            Opcode::IncReg(..) => 1,
            Opcode::DecReg(..) => 1,
            Opcode::LdRegImm(..) => 2,
            Opcode::Rlca => 1,
            Opcode::Rrca => 1,
            Opcode::Rla => 1,
            Opcode::Rra => 1,
            Opcode::Daa => 1,
            Opcode::Cpl => 1,
            Opcode::Scf => 1,
            Opcode::Ccf => 1,
            Opcode::Ld(..) => 1,
            Opcode::Halt => 1,
            Opcode::Add(..) => 1,
            Opcode::Adc(..) => 1,
            Opcode::Sub(..) => 1,
            Opcode::Sbc(..) => 1,
            Opcode::And(..) => 1,
            Opcode::Xor(..) => 1,
            Opcode::Or(..) => 1,
            Opcode::Cp(..) => 1,
            Opcode::RetCond(..) => 1,
            Opcode::LdOffsetImmA(..) => 2,
            Opcode::AddSpDisp(..) => 2,
            Opcode::LdAOffsetImm(..) => 2,
            Opcode::LdHLSPDisp(..) => 2,
            Opcode::PopWideReg(..) => 1,
            Opcode::Ret => 1,
            Opcode::Reti => 1,
            Opcode::JpHL => 1,
            Opcode::LdSPHL => 1,
            Opcode::JPCondImm(..) => 3,
            Opcode::LdOffsetCA => 1,
            Opcode::LdDerefImmA(..) => 3,
            Opcode::LdAOffsetC => 1,
            Opcode::LdADerefImm(..) => 3,
            Opcode::JP(..) => 3,
            Opcode::DI => 1,
            Opcode::EI => 1,
            Opcode::CallCondImm(..) => 3,
            Opcode::PushWideReg(..) => 1,
            Opcode::CallImm(..) => 3,
            Opcode::AddImm(..) => 2,
            Opcode::AdcImm(..) => 2,
            Opcode::SubImm(..) => 2,
            Opcode::SbcImm(..) => 2,
            Opcode::AndImm(..) => 2,
            Opcode::XorImm(..) => 2,
            Opcode::OrImm(..) => 2,
            Opcode::CpImm(..) => 2,
            Opcode::Rst(..) => 1,
            Opcode::Rlc(..) => 2,
            Opcode::Rrc(..) => 2,
            Opcode::Rl(..) => 2,
            Opcode::Rr(..) => 2,
            Opcode::Sla(..) => 2,
            Opcode::Sra(..) => 2,
            Opcode::Swap(..) => 2,
            Opcode::Srl(..) => 2,
            Opcode::Bit(..) => 2,
            Opcode::Res(..) => 2,
            Opcode::SetBit(..) => 2,
        }
    }

    /// The unique byte encoding of the opcode.
    pub open spec fn spec_encode(self) -> Seq<u8> {
        if self.spec_encode_len() == 1 {
            seq![self.spec_encode_b0()]
        } else if self.spec_encode_len() == 2 {
            seq![self.spec_encode_b0(), self.spec_encode_b1()]
        } else {
            seq![self.spec_encode_b0(), self.spec_encode_b1(), self.spec_encode_b2()]
        }
    }

    /// The first byte of the encoding, in executable code.
    fn encode_b0(&self) -> (b: u8)
        ensures
            b == self.spec_encode_b0(),
    {
        match *self {
            Opcode::Nop | Opcode::LdDerefImmSp(..) | Opcode::Stop | Opcode::Jr(..) | Opcode::JrCond(..) | Opcode::LdWideRegImm(..) | Opcode::AddHLWideReg(..) | Opcode::LdDerefWideRegA(..) | Opcode::LdADerefWideReg(..) | Opcode::LdHLIncA | Opcode::LdHLDecA | Opcode::LdAHLInc | Opcode::LdAHLDec | Opcode::IncWideReg(..) | Opcode::DecWideReg(..) | Opcode::IncReg(..) | Opcode::DecReg(..) | Opcode::LdRegImm(..) | Opcode::Rlca | Opcode::Rrca | Opcode::Rla | Opcode::Rra | Opcode::Daa | Opcode::Cpl | Opcode::Scf | Opcode::Ccf => self.encode_b0_g1(),
            Opcode::Ld(..) | Opcode::Halt | Opcode::Add(..) | Opcode::Adc(..) | Opcode::Sub(..) | Opcode::Sbc(..) | Opcode::And(..) | Opcode::Xor(..) | Opcode::Or(..) | Opcode::Cp(..) | Opcode::RetCond(..) | Opcode::LdOffsetImmA(..) | Opcode::AddSpDisp(..) | Opcode::LdAOffsetImm(..) | Opcode::LdHLSPDisp(..) | Opcode::PopWideReg(..) | Opcode::Ret | Opcode::Reti | Opcode::JpHL | Opcode::LdSPHL | Opcode::JPCondImm(..) | Opcode::LdOffsetCA | Opcode::LdDerefImmA(..) | Opcode::LdAOffsetC | Opcode::LdADerefImm(..) | Opcode::JP(..) => self.encode_b0_g2(),
            Opcode::DI | Opcode::EI | Opcode::CallCondImm(..) | Opcode::PushWideReg(..) | Opcode::CallImm(..) | Opcode::AddImm(..) | Opcode::AdcImm(..) | Opcode::SubImm(..) | Opcode::SbcImm(..) | Opcode::AndImm(..) | Opcode::XorImm(..) | Opcode::OrImm(..) | Opcode::CpImm(..) | Opcode::Rst(..) | Opcode::Rlc(..) | Opcode::Rrc(..) | Opcode::Rl(..) | Opcode::Rr(..) | Opcode::Sla(..) | Opcode::Sra(..) | Opcode::Swap(..) | Opcode::Srl(..) | Opcode::Bit(..) | Opcode::Res(..) | Opcode::SetBit(..) => self.encode_b0_g3(),
        }
    }

    /// A section of the first-byte table.
    #[verifier::rlimit(100)]
    #[verifier::spinoff_prover]
    fn encode_b0_g1(&self) -> (b: u8)
        requires
            self is Nop || self is LdDerefImmSp || self is Stop || self is Jr || self is JrCond || self is LdWideRegImm || self is AddHLWideReg || self is LdDerefWideRegA || self is LdADerefWideReg || self is LdHLIncA || self is LdHLDecA || self is LdAHLInc || self is LdAHLDec || self is IncWideReg || self is DecWideReg || self is IncReg || self is DecReg || self is LdRegImm || self is Rlca || self is Rrca || self is Rla || self is Rra || self is Daa || self is Cpl || self is Scf || self is Ccf,
        ensures
            b == self.spec_encode_b0(),
    {
        match *self {
            Opcode::Nop => 0x00,
            Opcode::LdDerefImmSp(_) => 0x08,
            Opcode::Stop => 0x10,
            Opcode::Jr(_) => 0x18,
            Opcode::JrCond(c, d) => 0x20 + 8 * cond_index_x(c),
            Opcode::LdWideRegImm(w, _) => 0x01 + 16 * rp_index_x(w),
            Opcode::AddHLWideReg(w) => 0x09 + 16 * rp_index_x(w),
            Opcode::LdDerefWideRegA(w) => 0x02 + 16 * rp_index_x(w),
            Opcode::LdADerefWideReg(w) => 0x0A + 16 * rp_index_x(w),
            Opcode::LdHLIncA => 0x22,
            Opcode::LdHLDecA => 0x32,
            Opcode::LdAHLInc => 0x2A,
            Opcode::LdAHLDec => 0x3A,
            Opcode::IncWideReg(w) => 0x03 + 16 * rp_index_x(w),
            Opcode::DecWideReg(w) => 0x0B + 16 * rp_index_x(w),
            Opcode::IncReg(r) => 0x04 + 8 * reg_index_x(r),
            Opcode::DecReg(r) => 0x05 + 8 * reg_index_x(r),
            Opcode::LdRegImm(r, n) => 0x06 + 8 * reg_index_x(r),
            Opcode::Rlca => 0x07,
            Opcode::Rrca => 0x0F,
            Opcode::Rla => 0x17,
            Opcode::Rra => 0x1F,
            Opcode::Daa => 0x27,
            Opcode::Cpl => 0x2F,
            Opcode::Scf => 0x37,
            Opcode::Ccf => 0x3F,
            _ => 0,
        }
    }

    /// A section of the first-byte table.
    #[verifier::rlimit(100)]
    #[verifier::spinoff_prover]
    fn encode_b0_g2(&self) -> (b: u8)
        requires
            self is Ld || self is Halt || self is Add || self is Adc || self is Sub || self is Sbc || self is And || self is Xor || self is Or || self is Cp || self is RetCond || self is LdOffsetImmA || self is AddSpDisp || self is LdAOffsetImm || self is LdHLSPDisp || self is PopWideReg || self is Ret || self is Reti || self is JpHL || self is LdSPHL || self is JPCondImm || self is LdOffsetCA || self is LdDerefImmA || self is LdAOffsetC || self is LdADerefImm || self is JP,
        ensures
            b == self.spec_encode_b0(),
    {
        match *self {
            Opcode::Ld(r1, r2) => 0x40 + 8 * reg_index_x(r1) + reg_index_x(r2),
            Opcode::Halt => 0x76,
            Opcode::Add(r) => 0x80 + reg_index_x(r),
            Opcode::Adc(r) => 0x88 + reg_index_x(r),
            Opcode::Sub(r) => 0x90 + reg_index_x(r),
            Opcode::Sbc(r) => 0x98 + reg_index_x(r),
            Opcode::And(r) => 0xA0 + reg_index_x(r),
            Opcode::Xor(r) => 0xA8 + reg_index_x(r),
            Opcode::Or(r) => 0xB0 + reg_index_x(r),
            Opcode::Cp(r) => 0xB8 + reg_index_x(r),
            Opcode::RetCond(c) => 0xC0 + 8 * cond_index_x(c),
            Opcode::LdOffsetImmA(_) => 0xE0,
            Opcode::AddSpDisp(_) => 0xE8,
            Opcode::LdAOffsetImm(_) => 0xF0,
            Opcode::LdHLSPDisp(_) => 0xF8,
            Opcode::PopWideReg(w) => 0xC1 + 16 * rp2_index_x(w),
            Opcode::Ret => 0xC9,
            Opcode::Reti => 0xD9,
            Opcode::JpHL => 0xE9,
            Opcode::LdSPHL => 0xF9,
            Opcode::JPCondImm(c, _) => 0xC2 + 8 * cond_index_x(c),
            Opcode::LdOffsetCA => 0xE2,
            Opcode::LdDerefImmA(_) => 0xEA,
            Opcode::LdAOffsetC => 0xF2,
            Opcode::LdADerefImm(_) => 0xFA,
            Opcode::JP(_) => 0xC3,
            _ => 0,
        }
    }

    /// A section of the first-byte table.
    #[verifier::rlimit(100)]
    #[verifier::spinoff_prover]
    fn encode_b0_g3(&self) -> (b: u8)
        requires
            self is DI || self is EI || self is CallCondImm || self is PushWideReg || self is CallImm || self is AddImm || self is AdcImm || self is SubImm || self is SbcImm || self is AndImm || self is XorImm || self is OrImm || self is CpImm || self is Rst || self is Rlc || self is Rrc || self is Rl || self is Rr || self is Sla || self is Sra || self is Swap || self is Srl || self is Bit || self is Res || self is SetBit,
        ensures
            b == self.spec_encode_b0(),
    {
        match *self {
            Opcode::DI => 0xF3,
            Opcode::EI => 0xFB,
            Opcode::CallCondImm(c, _) => 0xC4 + 8 * cond_index_x(c),
            Opcode::PushWideReg(w) => 0xC5 + 16 * rp2_index_x(w),
            Opcode::CallImm(_) => 0xCD,
            Opcode::AddImm(_) => 0xC6,
            Opcode::AdcImm(_) => 0xCE,
            Opcode::SubImm(_) => 0xD6,
            Opcode::SbcImm(_) => 0xDE,
            Opcode::AndImm(_) => 0xE6,
            Opcode::XorImm(_) => 0xEE,
            Opcode::OrImm(_) => 0xF6,
            Opcode::CpImm(_) => 0xFE,
            Opcode::Rst(t) => if t <= 56 {
                    0xC7 + t
                } else {
                    0xC7
                },
            Opcode::Rlc(_) => 0xCB,
            Opcode::Rrc(_) => 0xCB,
            Opcode::Rl(_) => 0xCB,
            Opcode::Rr(_) => 0xCB,
            Opcode::Sla(_) => 0xCB,
            Opcode::Sra(_) => 0xCB,
            Opcode::Swap(_) => 0xCB,
            Opcode::Srl(_) => 0xCB,
            Opcode::Bit(_, _) => 0xCB,
            Opcode::Res(_, _) => 0xCB,
            Opcode::SetBit(_, _) => 0xCB,
            _ => 0,
        }
    }

    /// The second byte of the encoding, in executable code.
    #[verifier::rlimit(100)]
    #[verifier::spinoff_prover]
    fn encode_b1(&self) -> (b: u8)
        ensures
            b == self.spec_encode_b1(),
    {
        match *self {
            Opcode::LdDerefImmSp(nn) => (nn % 256) as u8,
            Opcode::Jr(d) => d as u8,
            Opcode::JrCond(_, d) => d as u8,
            Opcode::LdWideRegImm(_, nn) => (nn % 256) as u8,
            Opcode::LdRegImm(_, n) => n,
            Opcode::LdOffsetImmA(n) => n,
            Opcode::AddSpDisp(d) => d as u8,
            Opcode::LdAOffsetImm(n) => n,
            Opcode::LdHLSPDisp(d) => d as u8,
            Opcode::JPCondImm(_, nn) => (nn % 256) as u8,
            Opcode::LdDerefImmA(nn) => (nn % 256) as u8,
            Opcode::LdADerefImm(nn) => (nn % 256) as u8,
            Opcode::JP(nn) => (nn % 256) as u8,
            Opcode::CallCondImm(_, nn) => (nn % 256) as u8,
            Opcode::CallImm(nn) => (nn % 256) as u8,
            Opcode::AddImm(n) => n,
            Opcode::AdcImm(n) => n,
            Opcode::SubImm(n) => n,
            Opcode::SbcImm(n) => n,
            Opcode::AndImm(n) => n,
            Opcode::XorImm(n) => n,
            Opcode::OrImm(n) => n,
            Opcode::CpImm(n) => n,
            Opcode::Rlc(r) => reg_index_x(r),
            Opcode::Rrc(r) => 0x08 + reg_index_x(r),
            Opcode::Rl(r) => 0x10 + reg_index_x(r),
            Opcode::Rr(r) => 0x18 + reg_index_x(r),
            Opcode::Sla(r) => 0x20 + reg_index_x(r),
            Opcode::Sra(r) => 0x28 + reg_index_x(r),
            Opcode::Swap(r) => 0x30 + reg_index_x(r),
            Opcode::Srl(r) => 0x38 + reg_index_x(r),
            Opcode::Bit(b, r) => 0x40 + 8 * (b % 8) + reg_index_x(r),
            Opcode::Res(b, r) => 0x80 + 8 * (b % 8) + reg_index_x(r),
            Opcode::SetBit(b, r) => 0xC0 + 8 * (b % 8) + reg_index_x(r),
            _ => 0,
        }
    }

    /// The third byte of the encoding, in executable code.
    #[verifier::rlimit(100)]
    #[verifier::spinoff_prover]
    fn encode_b2(&self) -> (b: u8)
        ensures
            b == self.spec_encode_b2(),
    {
        match *self {
            Opcode::LdDerefImmSp(nn) => (nn / 256) as u8,
            Opcode::LdWideRegImm(_, nn) => (nn / 256) as u8,
            Opcode::JPCondImm(_, nn) => (nn / 256) as u8,
            Opcode::LdDerefImmA(nn) => (nn / 256) as u8,
            Opcode::LdADerefImm(nn) => (nn / 256) as u8,
            Opcode::JP(nn) => (nn / 256) as u8,
            Opcode::CallCondImm(_, nn) => (nn / 256) as u8,
            Opcode::CallImm(nn) => (nn / 256) as u8,
            _ => 0,
        }
    }

    /// The length of the encoding, in executable code.
    #[verifier::rlimit(100)]
    #[verifier::spinoff_prover]
    fn encode_len(&self) -> (n: usize)
        ensures
            n == self.spec_encode_len(),
    {
        match *self {
            Opcode::Nop => 1,
            Opcode::LdDerefImmSp(..) => 3,
            Opcode::Stop => 1,
            Opcode::Jr(..) => 2,
            Opcode::JrCond(..) => 2,
            Opcode::LdWideRegImm(..) => 3,
            Opcode::AddHLWideReg(..) => 1,
            Opcode::LdDerefWideRegA(..) => 1,
            Opcode::LdADerefWideReg(..) => 1,
            Opcode::LdHLIncA => 1,
            Opcode::LdHLDecA => 1,
            Opcode::LdAHLInc => 1,
            Opcode::LdAHLDec => 1,
            Opcode::IncWideReg(..) => 1,
            Opcode::DecWideReg(..) => 1,
            Opcode::IncReg(..) => 1,
            Opcode::DecReg(..) => 1,
            Opcode::LdRegImm(..) => 2,
            Opcode::Rlca => 1,
            Opcode::Rrca => 1,
            Opcode::Rla => 1,
            Opcode::Rra => 1,
            Opcode::Daa => 1,
            Opcode::Cpl => 1,
            Opcode::Scf => 1,
            Opcode::Ccf => 1,
            Opcode::Ld(..) => 1,
            Opcode::Halt => 1,
            Opcode::Add(..) => 1,
            Opcode::Adc(..) => 1,
            Opcode::Sub(..) => 1,
            Opcode::Sbc(..) => 1,
            Opcode::And(..) => 1,
            Opcode::Xor(..) => 1,
            Opcode::Or(..) => 1,
            Opcode::Cp(..) => 1,
            Opcode::RetCond(..) => 1,
            Opcode::LdOffsetImmA(..) => 2,
            Opcode::AddSpDisp(..) => 2,
            Opcode::LdAOffsetImm(..) => 2,
            Opcode::LdHLSPDisp(..) => 2,
            Opcode::PopWideReg(..) => 1,
            Opcode::Ret => 1,
            Opcode::Reti => 1,
            Opcode::JpHL => 1,
            Opcode::LdSPHL => 1,
            Opcode::JPCondImm(..) => 3,
            Opcode::LdOffsetCA => 1,
            Opcode::LdDerefImmA(..) => 3,
            Opcode::LdAOffsetC => 1,
            Opcode::LdADerefImm(..) => 3,
            Opcode::JP(..) => 3,
            Opcode::DI => 1,
            Opcode::EI => 1,
            Opcode::CallCondImm(..) => 3,
            Opcode::PushWideReg(..) => 1,
            Opcode::CallImm(..) => 3,
            Opcode::AddImm(..) => 2,
            Opcode::AdcImm(..) => 2,
            Opcode::SubImm(..) => 2,
            Opcode::SbcImm(..) => 2,
            Opcode::AndImm(..) => 2,
            Opcode::XorImm(..) => 2,
            Opcode::OrImm(..) => 2,
            Opcode::CpImm(..) => 2,
            Opcode::Rst(..) => 1,
            Opcode::Rlc(..) => 2,
            Opcode::Rrc(..) => 2,
            Opcode::Rl(..) => 2,
            Opcode::Rr(..) => 2,
            Opcode::Sla(..) => 2,
            Opcode::Sra(..) => 2,
            Opcode::Swap(..) => 2,
            Opcode::Srl(..) => 2,
            Opcode::Bit(..) => 2,
            Opcode::Res(..) => 2,
            Opcode::SetBit(..) => 2,
        }
    }

    /// The unique byte encoding of the opcode.
    pub fn encode(&self) -> (r: Vec<u8>)
        ensures
            r@ == self.spec_encode(),
    {
        let mut out: Vec<u8> = Vec::new();
        out.push(self.encode_b0());
        let n = self.encode_len();
        if n >= 2 {
            out.push(self.encode_b1());
        }
        if n >= 3 {
            out.push(self.encode_b2());
        }
        proof {
            assert(out@ =~= self.spec_encode());
        }
        out
    }
}

/// The 3-bit register field, in executable code.
fn reg_index_x(r: Register) -> (v: u8)
    ensures
        v == reg_index(r),
        v < 8,
{
    match r {
        Register::B => 0,
        Register::C => 1,
        Register::D => 2,
        Register::E => 3,
        Register::H => 4,
        Register::L => 5,
        Register::DerefHL => 6,
        Register::A => 7,
    }
}

/// The 2-bit `rp` field, in executable code.
fn rp_index_x(w: WideRegister) -> (v: u8)
    ensures
        v == rp_index(w),
        v < 4,
{
    match w {
        WideRegister::BC => 0,
        WideRegister::DE => 1,
        WideRegister::HL => 2,
        WideRegister::SP => 3,
        WideRegister::AF => 3,
    }
}

/// The 2-bit `rp2` field, in executable code.
fn rp2_index_x(w: WideRegister) -> (v: u8)
    ensures
        v == rp2_index(w),
        v < 4,
{
    match w {
        WideRegister::BC => 0,
        WideRegister::DE => 1,
        WideRegister::HL => 2,
        WideRegister::SP => 3,
        WideRegister::AF => 3,
    }
}

/// The 2-bit condition field, in executable code.
fn cond_index_x(c: FlagCondition) -> (v: u8)
    ensures
        v == cond_index(c),
        v < 4,
{
    match c {
        FlagCondition::NZ => 0,
        FlagCondition::Z => 1,
        FlagCondition::NC => 2,
        FlagCondition::C => 3,
    }
}

/// The 3-bit field of a register denotes that register again.
pub proof fn lemma_reg_index_round_trip(r: Register)
    ensures
        reg_index(r) < 8,
        spec_reg(reg_index(r) as int) == r,
{
}

/// Truncating a signed displacement to a byte and reading it back as signed
/// loses nothing.
proof fn lemma_i8_round_trip(d: i8)
    ensures
        (d as u8) as i8 == d,
{
    assert((d as u8) as i8 == d) by (bit_vector);
}

/// Encoding a recognized opcode and re-decoding it yields the same opcode.
///
/// `c1` and `c2` stand for whatever bytes happen to follow the encoding in
/// the stream: a decode never reads past the instruction it recognizes, so
/// they do not matter.
#[verifier::rlimit(100)]
#[verifier::spinoff_prover]
pub proof fn lemma_encode_decode(op: Opcode, c1: u8, c2: u8)
    requires
        op.spec_encodable(),
    ensures
        spec_decode(
            op.spec_encode_b0(),
            if op.spec_encode_len() > 1 {
                op.spec_encode_b1()
            } else {
                c1
            },
            if op.spec_encode_len() > 2 {
                op.spec_encode_b2()
            } else {
                c2
            },
        ) == Ok::<Opcode, u8>(op),
{
    let bb1 = if op.spec_encode_len() > 1 {
        op.spec_encode_b1()
    } else {
        c1
    };
    let bb2 = if op.spec_encode_len() > 2 {
        op.spec_encode_b2()
    } else {
        c2
    };
    match op {
        Opcode::Nop => {
            assert(spec_decode(op.spec_encode_b0(), bb1, bb2) == Ok::<Opcode, u8>(op));
        },
        Opcode::LdDerefImmSp(_) => {
            assert(spec_decode(op.spec_encode_b0(), bb1, bb2) == Ok::<Opcode, u8>(op));
        },
        Opcode::Stop => {
            assert(spec_decode(op.spec_encode_b0(), bb1, bb2) == Ok::<Opcode, u8>(op));
        },
        Opcode::Jr(d) => {
            lemma_i8_round_trip(d);
            assert(spec_decode(op.spec_encode_b0(), bb1, bb2) == Ok::<Opcode, u8>(op));
        },
        Opcode::JrCond(_, d) => {
            lemma_i8_round_trip(d);
            assert(spec_decode(op.spec_encode_b0(), bb1, bb2) == Ok::<Opcode, u8>(op));
        },
        Opcode::LdWideRegImm(_, _) => {
            assert(spec_decode(op.spec_encode_b0(), bb1, bb2) == Ok::<Opcode, u8>(op));
        },
        Opcode::AddHLWideReg(_) => {
            assert(spec_decode(op.spec_encode_b0(), bb1, bb2) == Ok::<Opcode, u8>(op));
        },
        Opcode::LdDerefWideRegA(_) => {
            assert(spec_decode(op.spec_encode_b0(), bb1, bb2) == Ok::<Opcode, u8>(op));
        },
        Opcode::LdADerefWideReg(_) => {
            assert(spec_decode(op.spec_encode_b0(), bb1, bb2) == Ok::<Opcode, u8>(op));
        },
        Opcode::LdHLIncA => {
            assert(spec_decode(op.spec_encode_b0(), bb1, bb2) == Ok::<Opcode, u8>(op));
        },
        Opcode::LdHLDecA => {
            assert(spec_decode(op.spec_encode_b0(), bb1, bb2) == Ok::<Opcode, u8>(op));
        },
        Opcode::LdAHLInc => {
            assert(spec_decode(op.spec_encode_b0(), bb1, bb2) == Ok::<Opcode, u8>(op));
        },
        Opcode::LdAHLDec => {
            assert(spec_decode(op.spec_encode_b0(), bb1, bb2) == Ok::<Opcode, u8>(op));
        },
        Opcode::IncWideReg(_) => {
            assert(spec_decode(op.spec_encode_b0(), bb1, bb2) == Ok::<Opcode, u8>(op));
        },
        Opcode::DecWideReg(_) => {
            assert(spec_decode(op.spec_encode_b0(), bb1, bb2) == Ok::<Opcode, u8>(op));
        },
        Opcode::IncReg(_) => {
            assert(spec_decode(op.spec_encode_b0(), bb1, bb2) == Ok::<Opcode, u8>(op));
        },
        Opcode::DecReg(_) => {
            assert(spec_decode(op.spec_encode_b0(), bb1, bb2) == Ok::<Opcode, u8>(op));
        },
        Opcode::LdRegImm(_, _) => {
            assert(spec_decode(op.spec_encode_b0(), bb1, bb2) == Ok::<Opcode, u8>(op));
        },
        Opcode::Rlca => {
            assert(spec_decode(op.spec_encode_b0(), bb1, bb2) == Ok::<Opcode, u8>(op));
        },
        Opcode::Rrca => {
            assert(spec_decode(op.spec_encode_b0(), bb1, bb2) == Ok::<Opcode, u8>(op));
        },
        Opcode::Rla => {
            assert(spec_decode(op.spec_encode_b0(), bb1, bb2) == Ok::<Opcode, u8>(op));
        },
        Opcode::Rra => {
            assert(spec_decode(op.spec_encode_b0(), bb1, bb2) == Ok::<Opcode, u8>(op));
        },
        Opcode::Daa => {
            assert(spec_decode(op.spec_encode_b0(), bb1, bb2) == Ok::<Opcode, u8>(op));
        },
        Opcode::Cpl => {
            assert(spec_decode(op.spec_encode_b0(), bb1, bb2) == Ok::<Opcode, u8>(op));
        },
        Opcode::Scf => {
            assert(spec_decode(op.spec_encode_b0(), bb1, bb2) == Ok::<Opcode, u8>(op));
        },
        Opcode::Ccf => {
            assert(spec_decode(op.spec_encode_b0(), bb1, bb2) == Ok::<Opcode, u8>(op));
        },
        Opcode::Ld(_, _) => {
            assert(spec_decode(op.spec_encode_b0(), bb1, bb2) == Ok::<Opcode, u8>(op));
        },
        Opcode::Halt => {
            assert(spec_decode(op.spec_encode_b0(), bb1, bb2) == Ok::<Opcode, u8>(op));
        },
        Opcode::Add(_) => {
            assert(spec_decode(op.spec_encode_b0(), bb1, bb2) == Ok::<Opcode, u8>(op));
        },
        Opcode::Adc(_) => {
            assert(spec_decode(op.spec_encode_b0(), bb1, bb2) == Ok::<Opcode, u8>(op));
        },
        Opcode::Sub(_) => {
            assert(spec_decode(op.spec_encode_b0(), bb1, bb2) == Ok::<Opcode, u8>(op));
        },
        Opcode::Sbc(_) => {
            assert(spec_decode(op.spec_encode_b0(), bb1, bb2) == Ok::<Opcode, u8>(op));
        },
        Opcode::And(_) => {
            assert(spec_decode(op.spec_encode_b0(), bb1, bb2) == Ok::<Opcode, u8>(op));
        },
        Opcode::Xor(_) => {
            assert(spec_decode(op.spec_encode_b0(), bb1, bb2) == Ok::<Opcode, u8>(op));
        },
        Opcode::Or(_) => {
            assert(spec_decode(op.spec_encode_b0(), bb1, bb2) == Ok::<Opcode, u8>(op));
        },
        Opcode::Cp(_) => {
            assert(spec_decode(op.spec_encode_b0(), bb1, bb2) == Ok::<Opcode, u8>(op));
        },
        Opcode::RetCond(_) => {
            assert(spec_decode(op.spec_encode_b0(), bb1, bb2) == Ok::<Opcode, u8>(op));
        },
        Opcode::LdOffsetImmA(_) => {
            assert(spec_decode(op.spec_encode_b0(), bb1, bb2) == Ok::<Opcode, u8>(op));
        },
        Opcode::AddSpDisp(d) => {
            lemma_i8_round_trip(d);
            assert(spec_decode(op.spec_encode_b0(), bb1, bb2) == Ok::<Opcode, u8>(op));
        },
        Opcode::LdAOffsetImm(_) => {
            assert(spec_decode(op.spec_encode_b0(), bb1, bb2) == Ok::<Opcode, u8>(op));
        },
        Opcode::LdHLSPDisp(d) => {
            lemma_i8_round_trip(d);
            assert(spec_decode(op.spec_encode_b0(), bb1, bb2) == Ok::<Opcode, u8>(op));
        },
        Opcode::PopWideReg(_) => {
            assert(spec_decode(op.spec_encode_b0(), bb1, bb2) == Ok::<Opcode, u8>(op));
        },
        Opcode::Ret => {
            assert(spec_decode(op.spec_encode_b0(), bb1, bb2) == Ok::<Opcode, u8>(op));
        },
        Opcode::Reti => {
            assert(spec_decode(op.spec_encode_b0(), bb1, bb2) == Ok::<Opcode, u8>(op));
        },
        Opcode::JpHL => {
            assert(spec_decode(op.spec_encode_b0(), bb1, bb2) == Ok::<Opcode, u8>(op));
        },
        Opcode::LdSPHL => {
            assert(spec_decode(op.spec_encode_b0(), bb1, bb2) == Ok::<Opcode, u8>(op));
        },
        Opcode::JPCondImm(_, _) => {
            assert(spec_decode(op.spec_encode_b0(), bb1, bb2) == Ok::<Opcode, u8>(op));
        },
        Opcode::LdOffsetCA => {
            assert(spec_decode(op.spec_encode_b0(), bb1, bb2) == Ok::<Opcode, u8>(op));
        },
        Opcode::LdDerefImmA(_) => {
            assert(spec_decode(op.spec_encode_b0(), bb1, bb2) == Ok::<Opcode, u8>(op));
        },
        Opcode::LdAOffsetC => {
            assert(spec_decode(op.spec_encode_b0(), bb1, bb2) == Ok::<Opcode, u8>(op));
        },
        Opcode::LdADerefImm(_) => {
            assert(spec_decode(op.spec_encode_b0(), bb1, bb2) == Ok::<Opcode, u8>(op));
        },
        Opcode::JP(_) => {
            assert(spec_decode(op.spec_encode_b0(), bb1, bb2) == Ok::<Opcode, u8>(op));
        },
        Opcode::DI => {
            assert(spec_decode(op.spec_encode_b0(), bb1, bb2) == Ok::<Opcode, u8>(op));
        },
        Opcode::EI => {
            assert(spec_decode(op.spec_encode_b0(), bb1, bb2) == Ok::<Opcode, u8>(op));
        },
        Opcode::CallCondImm(_, _) => {
            assert(spec_decode(op.spec_encode_b0(), bb1, bb2) == Ok::<Opcode, u8>(op));
        },
        Opcode::PushWideReg(_) => {
            assert(spec_decode(op.spec_encode_b0(), bb1, bb2) == Ok::<Opcode, u8>(op));
        },
        Opcode::CallImm(_) => {
            assert(spec_decode(op.spec_encode_b0(), bb1, bb2) == Ok::<Opcode, u8>(op));
        },
        Opcode::AddImm(_) => {
            assert(spec_decode(op.spec_encode_b0(), bb1, bb2) == Ok::<Opcode, u8>(op));
        },
        Opcode::AdcImm(_) => {
            assert(spec_decode(op.spec_encode_b0(), bb1, bb2) == Ok::<Opcode, u8>(op));
        },
        Opcode::SubImm(_) => {
            assert(spec_decode(op.spec_encode_b0(), bb1, bb2) == Ok::<Opcode, u8>(op));
        },
        Opcode::SbcImm(_) => {
            assert(spec_decode(op.spec_encode_b0(), bb1, bb2) == Ok::<Opcode, u8>(op));
        },
        Opcode::AndImm(_) => {
            assert(spec_decode(op.spec_encode_b0(), bb1, bb2) == Ok::<Opcode, u8>(op));
        },
        Opcode::XorImm(_) => {
            assert(spec_decode(op.spec_encode_b0(), bb1, bb2) == Ok::<Opcode, u8>(op));
        },
        Opcode::OrImm(_) => {
            assert(spec_decode(op.spec_encode_b0(), bb1, bb2) == Ok::<Opcode, u8>(op));
        },
        Opcode::CpImm(_) => {
            assert(spec_decode(op.spec_encode_b0(), bb1, bb2) == Ok::<Opcode, u8>(op));
        },
        Opcode::Rst(_) => {
            assert(spec_decode(op.spec_encode_b0(), bb1, bb2) == Ok::<Opcode, u8>(op));
        },
        Opcode::Rlc(_) => {
            assert(spec_decode(op.spec_encode_b0(), bb1, bb2) == Ok::<Opcode, u8>(op));
        },
        Opcode::Rrc(_) => {
            assert(spec_decode(op.spec_encode_b0(), bb1, bb2) == Ok::<Opcode, u8>(op));
        },
        Opcode::Rl(_) => {
            assert(spec_decode(op.spec_encode_b0(), bb1, bb2) == Ok::<Opcode, u8>(op));
        },
        Opcode::Rr(_) => {
            assert(spec_decode(op.spec_encode_b0(), bb1, bb2) == Ok::<Opcode, u8>(op));
        },
        Opcode::Sla(_) => {
            assert(spec_decode(op.spec_encode_b0(), bb1, bb2) == Ok::<Opcode, u8>(op));
        },
        Opcode::Sra(_) => {
            assert(spec_decode(op.spec_encode_b0(), bb1, bb2) == Ok::<Opcode, u8>(op));
        },
        Opcode::Swap(_) => {
            assert(spec_decode(op.spec_encode_b0(), bb1, bb2) == Ok::<Opcode, u8>(op));
        },
        Opcode::Srl(_) => {
            assert(spec_decode(op.spec_encode_b0(), bb1, bb2) == Ok::<Opcode, u8>(op));
        },
        Opcode::Bit(_, _) => {
            assert(spec_decode(op.spec_encode_b0(), bb1, bb2) == Ok::<Opcode, u8>(op));
        },
        Opcode::Res(_, _) => {
            assert(spec_decode(op.spec_encode_b0(), bb1, bb2) == Ok::<Opcode, u8>(op));
        },
        Opcode::SetBit(_, _) => {
            assert(spec_decode(op.spec_encode_b0(), bb1, bb2) == Ok::<Opcode, u8>(op));
        },
    }
}

/// The encoded byte sequence re-decodes to the opcode it encodes: the same
/// round trip, stated over the sequence form of the encoding.
pub proof fn lemma_encode_decode_seq(op: Opcode, c1: u8, c2: u8)
    requires
        op.spec_encodable(),
    ensures
        ({
            let e = op.spec_encode();
            spec_decode(
                e[0],
                if e.len() > 1 {
                    e[1]
                } else {
                    c1
                },
                if e.len() > 2 {
                    e[2]
                } else {
                    c2
                },
            ) == Ok::<Opcode, u8>(op)
        }),
{
    lemma_encode_decode(op, c1, c2);
}

/// The bytes on which a decode reports an unrecognized opcode.
pub open spec fn spec_undefined_byte(b0: u8) -> bool {
    b0 == 0xD3 || b0 == 0xDB || b0 == 0xDD || b0 == 0xE3 || b0 == 0xE4 || b0 == 0xEB || b0 == 0xEC
        || b0 == 0xED || b0 == 0xF4 || b0 == 0xFC || b0 == 0xFD
}

/// The decode table is total: every byte value either decodes to an opcode
/// or is one of the eleven undefined bytes, which are reported back
/// unchanged; no byte does anything else.
pub proof fn lemma_decode_total(b0: u8, b1: u8, b2: u8)
    ensures
        spec_decode(b0, b1, b2) is Err <==> spec_undefined_byte(b0),
        spec_undefined_byte(b0) ==> spec_decode(b0, b1, b2) == Err::<Opcode, u8>(b0),
{
}

} // verus!
