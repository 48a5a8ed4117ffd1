//! Operation codes and the instruction decoder.
//!
//! A decode consumes one byte, then optionally the `0xCB` prefix byte, then
//! zero, one or two operand bytes. The opcode byte is decomposed into the
//! fields `x` (bits 7-6), `y` (bits 5-3), `z` (bits 2-0), `p` (bits 5-4) and
//! `q` (bit 3), and the decoder switches on those fields exactly as in the
//! canonical opcode table. Every byte value either decodes to an opcode or is
//! reported back as unrecognized; decoding never fails in any other way.

use vstd::prelude::*;

use crate::instruction::ByteStream;
use crate::instruction::fetch_i8;
use crate::instruction::fetch_u16;

verus! {

/// An 8-bit register operand. `DerefHL` is the virtual register denoting
/// memory at the address held in HL.
#[derive(Debug, Clone, Copy, PartialEq, Eq, Structural)]
pub enum Register {
    A,
    B,
    C,
    D,
    E,
    H,
    L,
    DerefHL,
}

/// A 16-bit register operand.
#[derive(Debug, Clone, Copy, PartialEq, Eq, Structural)]
pub enum WideRegister {
    BC,
    DE,
    HL,
    SP,
    AF,
}

/// A condition on the flags register, used by conditional jumps, calls and
/// returns.
#[derive(Debug, Clone, Copy, PartialEq, Eq, Structural)]
pub enum FlagCondition {
    NZ,
    Z,
    NC,
    C,
}

/// The register denoted by a 3-bit operand field, in the fixed ordering
/// B, C, D, E, H, L, (HL), A.
pub open spec fn spec_reg(v: int) -> Register {
    if v == 0 {
        Register::B
    } else if v == 1 {
        Register::C
    } else if v == 2 {
        Register::D
    } else if v == 3 {
        Register::E
    } else if v == 4 {
        Register::H
    } else if v == 5 {
        Register::L
    } else if v == 6 {
        Register::DerefHL
    } else {
        Register::A
    }
}

/// The wide register denoted by a 2-bit field in the `rp` table
/// (BC, DE, HL, SP).
pub open spec fn spec_rp(v: int) -> WideRegister {
    if v == 0 {
        WideRegister::BC
    } else if v == 1 {
        WideRegister::DE
    } else if v == 2 {
        WideRegister::HL
    } else {
        WideRegister::SP
    }
}

/// The wide register denoted by a 2-bit field in the `rp2` table
/// (BC, DE, HL, AF).
pub open spec fn spec_rp2(v: int) -> WideRegister {
    if v == 0 {
        WideRegister::BC
    } else if v == 1 {
        WideRegister::DE
    } else if v == 2 {
        WideRegister::HL
    } else {
        WideRegister::AF
    }
}

/// The flag condition denoted by a 2-bit field (NZ, Z, NC, C).
pub open spec fn spec_cond(v: int) -> FlagCondition {
    if v == 0 {
        FlagCondition::NZ
    } else if v == 1 {
        FlagCondition::Z
    } else if v == 2 {
        FlagCondition::NC
    } else {
        FlagCondition::C
    }
}

impl Register {
    /// The register denoted by a 3-bit operand field.
    pub fn from_index(v: u8) -> (r: Register)
        requires
            v < 8,
        ensures
            r == spec_reg(v as int),
    {
        match v {
            0 => Register::B,
            1 => Register::C,
            2 => Register::D,
            3 => Register::E,
            4 => Register::H,
            5 => Register::L,
            6 => Register::DerefHL,
            _ => Register::A,
        }
    }
}

impl WideRegister {
    /// The wide register denoted by a 2-bit field in the `rp` table.
    pub fn from_rp(v: u8) -> (r: WideRegister)
        requires
            v < 4,
        ensures
            r == spec_rp(v as int),
    {
        match v {
            0 => WideRegister::BC,
            1 => WideRegister::DE,
            2 => WideRegister::HL,
            _ => WideRegister::SP,
        }
    }

    /// The wide register denoted by a 2-bit field in the `rp2` table.
    pub fn from_rp2(v: u8) -> (r: WideRegister)
        requires
            v < 4,
        ensures
            r == spec_rp2(v as int),
    {
        match v {
            0 => WideRegister::BC,
            1 => WideRegister::DE,
            2 => WideRegister::HL,
            _ => WideRegister::AF,
        }
    }
}

impl FlagCondition {
    /// The flag condition denoted by a 2-bit field.
    pub fn from_index(v: u8) -> (r: FlagCondition)
        requires
            v < 4,
        ensures
            r == spec_cond(v as int),
    {
        match v {
            0 => FlagCondition::NZ,
            1 => FlagCondition::Z,
            2 => FlagCondition::NC,
            _ => FlagCondition::C,
        }
    }
}

/// Every operation of the instruction set, with its operands.
#[derive(Debug, Clone, Copy, PartialEq, Eq, Structural)]
pub enum Opcode {
    Nop,
    LdDerefImmSp(u16),
    Stop,
    Jr(i8),
    JrCond(FlagCondition, i8),
    LdWideRegImm(WideRegister, u16),
    AddHLWideReg(WideRegister),
    LdDerefWideRegA(WideRegister),
    LdADerefWideReg(WideRegister),
    LdHLIncA,
    LdHLDecA,
    LdAHLInc,
    LdAHLDec,
    IncWideReg(WideRegister),
    DecWideReg(WideRegister),
    IncReg(Register),
    DecReg(Register),
    LdRegImm(Register, u8),
    Rlca,
    Rrca,
    Rla,
    Rra,
    Daa,
    Cpl,
    Scf,
    Ccf,
    Ld(Register, Register),
    Halt,
    Add(Register),
    Adc(Register),
    Sub(Register),
    Sbc(Register),
    And(Register),
    Xor(Register),
    Or(Register),
    Cp(Register),
    RetCond(FlagCondition),
    LdOffsetImmA(u8),
    AddSpDisp(i8),
    LdAOffsetImm(u8),
    LdHLSPDisp(i8),
    PopWideReg(WideRegister),
    Ret,
    Reti,
    JpHL,
    LdSPHL,
    JPCondImm(FlagCondition, u16),
    LdOffsetCA,
    LdDerefImmA(u16),
    LdAOffsetC,
    LdADerefImm(u16),
    JP(u16),
    DI,
    EI,
    CallCondImm(FlagCondition, u16),
    PushWideReg(WideRegister),
    CallImm(u16),
    AddImm(u8),
    AdcImm(u8),
    SubImm(u8),
    SbcImm(u8),
    AndImm(u8),
    XorImm(u8),
    OrImm(u8),
    CpImm(u8),
    Rst(u8),
    Rlc(Register),
    Rrc(Register),
    Rl(Register),
    Rr(Register),
    Sla(Register),
    Sra(Register),
    Swap(Register),
    Srl(Register),
    Bit(u8, Register),
    Res(u8, Register),
    SetBit(u8, Register),
}

/// The opcode selected by a byte of the `0xCB` prefix table. The prefix
/// table has no gaps: every byte decodes.
pub open spec fn spec_decode_prefix(b: u8) -> Opcode {
    let x = b / 64;
    let y = (b / 8) % 8;
    let z = b % 8;
    if x == 0 {
        if y == 0 {
            Opcode::Rlc(spec_reg(z as int))
        } else if y == 1 {
            Opcode::Rrc(spec_reg(z as int))
        } else if y == 2 {
            Opcode::Rl(spec_reg(z as int))
        } else if y == 3 {
            Opcode::Rr(spec_reg(z as int))
        } else if y == 4 {
            Opcode::Sla(spec_reg(z as int))
        } else if y == 5 {
            Opcode::Sra(spec_reg(z as int))
        } else if y == 6 {
            Opcode::Swap(spec_reg(z as int))
        } else {
            Opcode::Srl(spec_reg(z as int))
        }
    } else if x == 1 {
        Opcode::Bit((y as u8), spec_reg(z as int))
    } else if x == 2 {
        Opcode::Res((y as u8), spec_reg(z as int))
    } else {
        Opcode::SetBit((y as u8), spec_reg(z as int))
    }
}

/// What a decode starting at byte `b0` yields, where `b1` and `b2` are the
/// bytes that follow. Bytes beyond the instruction's length are ignored.
/// `Err` carries the unrecognized byte itself.
pub open spec fn spec_decode(b0: u8, b1: u8, b2: u8) -> Result<Opcode, u8> {
    let x = b0 / 64;
    let y = (b0 / 8) % 8;
    let z = b0 % 8;
    let p = (b0 / 16) % 4;
    let q = (b0 / 8) % 2;
    let imm16 = (b1 + 256 * b2) as u16;
    if b0 == 0xCB {
        Ok(spec_decode_prefix(b1))
    } else if x == 0 {
        if z == 0 {
            if y == 0 {
                Ok(Opcode::Nop)
            } else if y == 1 {
                Ok(Opcode::LdDerefImmSp(imm16))
            } else if y == 2 {
                Ok(Opcode::Stop)
            } else if y == 3 {
                Ok(Opcode::Jr(b1 as i8))
            } else {
                Ok(Opcode::JrCond(spec_cond(y - 4), b1 as i8))
            }
        } else if z == 1 {
            if q == 0 {
                Ok(Opcode::LdWideRegImm(spec_rp(p as int), imm16))
            } else {
                Ok(Opcode::AddHLWideReg(spec_rp(p as int)))
            }
        } else if z == 2 {
            if q == 0 {
                if p == 0 {
                    Ok(Opcode::LdDerefWideRegA(WideRegister::BC))
                } else if p == 1 {
                    Ok(Opcode::LdDerefWideRegA(WideRegister::DE))
                } else if p == 2 {
                    Ok(Opcode::LdHLIncA)
                } else {
                    Ok(Opcode::LdHLDecA)
                }
            } else {
                if p == 0 {
                    Ok(Opcode::LdADerefWideReg(WideRegister::BC))
                } else if p == 1 {
                    Ok(Opcode::LdADerefWideReg(WideRegister::DE))
                } else if p == 2 {
                    Ok(Opcode::LdAHLInc)
                } else {
                    Ok(Opcode::LdAHLDec)
                }
            }
        } else if z == 3 {
            if q == 0 {
                Ok(Opcode::IncWideReg(spec_rp(p as int)))
            } else {
                Ok(Opcode::DecWideReg(spec_rp(p as int)))
            }
        } else if z == 4 {
            Ok(Opcode::IncReg(spec_reg(y as int)))
        } else if z == 5 {
            Ok(Opcode::DecReg(spec_reg(y as int)))
        } else if z == 6 {
            Ok(Opcode::LdRegImm(spec_reg(y as int), b1))
        } else {
            if y == 0 {
                Ok(Opcode::Rlca)
            } else if y == 1 {
                Ok(Opcode::Rrca)
            } else if y == 2 {
                Ok(Opcode::Rla)
            } else if y == 3 {
                Ok(Opcode::Rra)
            } else if y == 4 {
                Ok(Opcode::Daa)
            } else if y == 5 {
                Ok(Opcode::Cpl)
            } else if y == 6 {
                Ok(Opcode::Scf)
            } else {
                Ok(Opcode::Ccf)
            }
        }
    } else if x == 1 {
        if z == 6 && y == 6 {
            Ok(Opcode::Halt)
        } else {
            Ok(Opcode::Ld(spec_reg(y as int), spec_reg(z as int)))
        }
    } else if x == 2 {
        if y == 0 {
            Ok(Opcode::Add(spec_reg(z as int)))
        } else if y == 1 {
            Ok(Opcode::Adc(spec_reg(z as int)))
        } else if y == 2 {
            Ok(Opcode::Sub(spec_reg(z as int)))
        } else if y == 3 {
            Ok(Opcode::Sbc(spec_reg(z as int)))
        } else if y == 4 {
            Ok(Opcode::And(spec_reg(z as int)))
        } else if y == 5 {
            Ok(Opcode::Xor(spec_reg(z as int)))
        } else if y == 6 {
            Ok(Opcode::Or(spec_reg(z as int)))
        } else {
            Ok(Opcode::Cp(spec_reg(z as int)))
        }
    } else {
        if z == 0 {
            if y < 4 {
                Ok(Opcode::RetCond(spec_cond(y as int)))
            } else if y == 4 {
                Ok(Opcode::LdOffsetImmA(b1))
            } else if y == 5 {
                Ok(Opcode::AddSpDisp(b1 as i8))
            } else if y == 6 {
                Ok(Opcode::LdAOffsetImm(b1))
            } else {
                Ok(Opcode::LdHLSPDisp(b1 as i8))
            }
        } else if z == 1 {
            if q == 0 {
                Ok(Opcode::PopWideReg(spec_rp2(p as int)))
            } else if p == 0 {
                Ok(Opcode::Ret)
            } else if p == 1 {
                Ok(Opcode::Reti)
            } else if p == 2 {
                Ok(Opcode::JpHL)
            } else {
                Ok(Opcode::LdSPHL)
            }
        } else if z == 2 {
            if y < 4 {
                Ok(Opcode::JPCondImm(spec_cond(y as int), imm16))
            } else if y == 4 {
                Ok(Opcode::LdOffsetCA)
            } else if y == 5 {
                Ok(Opcode::LdDerefImmA(imm16))
            } else if y == 6 {
                Ok(Opcode::LdAOffsetC)
            } else {
                Ok(Opcode::LdADerefImm(imm16))
            }
        } else if z == 3 {
            if y == 0 {
                Ok(Opcode::JP(imm16))
            } else if y == 6 {
                Ok(Opcode::DI)
            } else if y == 7 {
                Ok(Opcode::EI)
            } else {
                Err(b0)
            }
        } else if z == 4 {
            if y < 4 {
                Ok(Opcode::CallCondImm(spec_cond(y as int), imm16))
            } else {
                Err(b0)
            }
        } else if z == 5 {
            if q == 0 {
                Ok(Opcode::PushWideReg(spec_rp2(p as int)))
            } else if p == 0 {
                Ok(Opcode::CallImm(imm16))
            } else {
                Err(b0)
            }
        } else if z == 6 {
            if y == 0 {
                Ok(Opcode::AddImm(b1))
            } else if y == 1 {
                Ok(Opcode::AdcImm(b1))
            } else if y == 2 {
                Ok(Opcode::SubImm(b1))
            } else if y == 3 {
                Ok(Opcode::SbcImm(b1))
            } else if y == 4 {
                Ok(Opcode::AndImm(b1))
            } else if y == 5 {
                Ok(Opcode::XorImm(b1))
            } else if y == 6 {
                Ok(Opcode::OrImm(b1))
            } else {
                Ok(Opcode::CpImm(b1))
            }
        } else {
            Ok(Opcode::Rst((y * 8) as u8))
        }
    }
}

/// How many bytes a decode starting at byte `b0` consumes from the stream.
pub open spec fn spec_consumed(b0: u8) -> int {
    let x = b0 / 64;
    let y = (b0 / 8) % 8;
    let z = b0 % 8;
    let q = (b0 / 8) % 2;
    let p = (b0 / 16) % 4;
    if b0 == 0xCB {
        2
    } else if x == 0 {
        if z == 0 {
            if y == 0 || y == 2 {
                1
            } else if y == 1 {
                3
            } else {
                2
            }
        } else if z == 1 {
            if q == 0 {
                3
            } else {
                1
            }
        } else if z == 6 {
            2
        } else {
            1
        }
    } else if x == 1 || x == 2 {
        1
    } else {
        if z == 0 {
            if y < 4 {
                1
            } else {
                2
            }
        } else if z == 2 {
            if y < 4 || y == 5 || y == 7 {
                3
            } else {
                1
            }
        } else if z == 3 {
            if y == 0 {
                3
            } else {
                1
            }
        } else if z == 4 {
            if y < 4 {
                3
            } else {
                1
            }
        } else if z == 5 {
            if q == 0 {
                1
            } else if p == 0 {
                3
            } else {
                1
            }
        } else if z == 6 {
            2
        } else {
            1
        }
    }
}

impl Opcode {
    /// Decode the next opcode from the given byte stream.
    ///
    /// Consumes the opcode byte, the prefix byte where the opcode byte is
    /// `0xCB`, and the operand bytes of the recognized opcode. Returns `Err`
    /// carrying the fetched byte when that byte corresponds to no opcode;
    /// exactly one byte has been consumed in that case.
    pub fn try_from<T: ByteStream>(stream: &mut T) -> (r: Result<Opcode, u8>)
        requires
            old(stream).inv(),
        ensures
            final(stream).inv(),
            r == spec_decode(
                old(stream).byte_at(0),
                old(stream).byte_at(1),
                old(stream).byte_at(2),
            ),
            forall|i: int| 0 <= i ==> #[trigger] final(stream).byte_at(i) == old(stream).byte_at(
                i + spec_consumed(old(stream).byte_at(0)),
            ),
    {
        let b0 = stream.fetch();
        if b0 == 0xCB {
            return Ok(Self::prefix_try_from(stream));
        }
        let x = b0 / 64;
        let y = b0 / 8 % 8;
        let z = b0 % 8;
        let p = b0 / 16 % 4;
        let q = b0 / 8 % 2;
        match (x, z) {
            (0, 0) => match y {
                0 => Ok(Opcode::Nop),
                1 => Ok(Opcode::LdDerefImmSp(fetch_u16(stream))),
                2 => Ok(Opcode::Stop),
                3 => Ok(Opcode::Jr(fetch_i8(stream))),
                _ => Ok(Opcode::JrCond(FlagCondition::from_index(y - 4), fetch_i8(stream))),
            },
            (0, 1) => match q {
                0 => Ok(Opcode::LdWideRegImm(WideRegister::from_rp(p), fetch_u16(stream))),
                _ => Ok(Opcode::AddHLWideReg(WideRegister::from_rp(p))),
            },
            (0, 2) => match (q, p) {
                (0, 0) => Ok(Opcode::LdDerefWideRegA(WideRegister::BC)),
                (0, 1) => Ok(Opcode::LdDerefWideRegA(WideRegister::DE)),
                (0, 2) => Ok(Opcode::LdHLIncA),
                (0, _) => Ok(Opcode::LdHLDecA),
                (_, 0) => Ok(Opcode::LdADerefWideReg(WideRegister::BC)),
                (_, 1) => Ok(Opcode::LdADerefWideReg(WideRegister::DE)),
                (_, 2) => Ok(Opcode::LdAHLInc),
                (_, _) => Ok(Opcode::LdAHLDec),
            },
            (0, 3) => match q {
                0 => Ok(Opcode::IncWideReg(WideRegister::from_rp(p))),
                _ => Ok(Opcode::DecWideReg(WideRegister::from_rp(p))),
            },
            (0, 4) => Ok(Opcode::IncReg(Register::from_index(y))),
            (0, 5) => Ok(Opcode::DecReg(Register::from_index(y))),
            (0, 6) => Ok(Opcode::LdRegImm(Register::from_index(y), stream.fetch())),
            (0, _) => match y {
                0 => Ok(Opcode::Rlca),
                1 => Ok(Opcode::Rrca),
                2 => Ok(Opcode::Rla),
                3 => Ok(Opcode::Rra),
                4 => Ok(Opcode::Daa),
                5 => Ok(Opcode::Cpl),
                6 => Ok(Opcode::Scf),
                _ => Ok(Opcode::Ccf),
            },
            (1, _) => {
                if z == 6 && y == 6 {
                    Ok(Opcode::Halt)
                } else {
                    Ok(Opcode::Ld(Register::from_index(y), Register::from_index(z)))
                }
            },
            (2, _) => match y {
                0 => Ok(Opcode::Add(Register::from_index(z))),
                1 => Ok(Opcode::Adc(Register::from_index(z))),
                2 => Ok(Opcode::Sub(Register::from_index(z))),
                3 => Ok(Opcode::Sbc(Register::from_index(z))),
                4 => Ok(Opcode::And(Register::from_index(z))),
                5 => Ok(Opcode::Xor(Register::from_index(z))),
                6 => Ok(Opcode::Or(Register::from_index(z))),
                _ => Ok(Opcode::Cp(Register::from_index(z))),
            },
            (_, 0) => match y {
                0 | 1 | 2 | 3 => Ok(Opcode::RetCond(FlagCondition::from_index(y))),
                4 => Ok(Opcode::LdOffsetImmA(stream.fetch())),
                5 => Ok(Opcode::AddSpDisp(fetch_i8(stream))),
                6 => Ok(Opcode::LdAOffsetImm(stream.fetch())),
                _ => Ok(Opcode::LdHLSPDisp(fetch_i8(stream))),
            },
            (_, 1) => match (q, p) {
                (0, _) => Ok(Opcode::PopWideReg(WideRegister::from_rp2(p))),
                (_, 0) => Ok(Opcode::Ret),
                (_, 1) => Ok(Opcode::Reti),
                (_, 2) => Ok(Opcode::JpHL),
                (_, _) => Ok(Opcode::LdSPHL),
            },
            (_, 2) => match y {
                0 | 1 | 2 | 3 => Ok(
                    Opcode::JPCondImm(FlagCondition::from_index(y), fetch_u16(stream)),
                ),
                4 => Ok(Opcode::LdOffsetCA),
                5 => Ok(Opcode::LdDerefImmA(fetch_u16(stream))),
                6 => Ok(Opcode::LdAOffsetC),
                _ => Ok(Opcode::LdADerefImm(fetch_u16(stream))),
            },
            (_, 3) => match y {
                0 => Ok(Opcode::JP(fetch_u16(stream))),
                6 => Ok(Opcode::DI),
                7 => Ok(Opcode::EI),
                _ => Err(b0),
            },
            (_, 4) => match y {
                0 | 1 | 2 | 3 => Ok(
                    Opcode::CallCondImm(FlagCondition::from_index(y), fetch_u16(stream)),
                ),
                _ => Err(b0),
            },
            (_, 5) => match (q, p) {
                (0, _) => Ok(Opcode::PushWideReg(WideRegister::from_rp2(p))),
                (_, 0) => Ok(Opcode::CallImm(fetch_u16(stream))),
                (_, _) => Err(b0),
            },
            (_, 6) => match y {
                0 => Ok(Opcode::AddImm(stream.fetch())),
                1 => Ok(Opcode::AdcImm(stream.fetch())),
                2 => Ok(Opcode::SubImm(stream.fetch())),
                3 => Ok(Opcode::SbcImm(stream.fetch())),
                4 => Ok(Opcode::AndImm(stream.fetch())),
                5 => Ok(Opcode::XorImm(stream.fetch())),
                6 => Ok(Opcode::OrImm(stream.fetch())),
                _ => Ok(Opcode::CpImm(stream.fetch())),
            },
            (_, _) => Ok(Opcode::Rst(y * 8)),
        }
    }

    /// Decode a byte of the `0xCB` prefix table; the prefix byte itself has
    /// already been consumed. The prefix table is gapless, so this cannot
    /// fail.
    fn prefix_try_from<T: ByteStream>(stream: &mut T) -> (r: Opcode)
        requires
            old(stream).inv(),
        ensures
            final(stream).inv(),
            r == spec_decode_prefix(old(stream).byte_at(0)),
            forall|i: int| 0 <= i ==> #[trigger] final(stream).byte_at(i) == old(stream).byte_at(
                i + 1,
            ),
    {
        let b = stream.fetch();
        let x = b / 64;
        let y = b / 8 % 8;
        let z = b % 8;
        match x {
            0 => match y {
                0 => Opcode::Rlc(Register::from_index(z)),
                1 => Opcode::Rrc(Register::from_index(z)),
                2 => Opcode::Rl(Register::from_index(z)),
                3 => Opcode::Rr(Register::from_index(z)),
                4 => Opcode::Sla(Register::from_index(z)),
                5 => Opcode::Sra(Register::from_index(z)),
                6 => Opcode::Swap(Register::from_index(z)),
                _ => Opcode::Srl(Register::from_index(z)),
            },
            1 => Opcode::Bit(y, Register::from_index(z)),
            2 => Opcode::Res(y, Register::from_index(z)),
            _ => Opcode::SetBit(y, Register::from_index(z)),
        }
    }
}

} // verus!
