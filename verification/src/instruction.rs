//! Byte sources and decoded instructions.
//!
//! The decoder consumes bytes one at a time from a [`ByteStream`]; an
//! [`Instruction`] pairs the decoded opcode with its canonical metadata:
//! length, cycle costs and the flag masks the executor applies after the
//! operation.

use vstd::prelude::*;

use crate::TCycles;
use crate::flags::FlagsRegister;
use crate::opcode::Opcode;
use crate::opcode::Register;
use crate::opcode::spec_decode;
use crate::opcode::spec_consumed;

verus! {

/// A source of bytes for the instruction decoder.
///
/// `byte_at(i)` is the `i`-th byte the stream will yield, counted from the
/// current position; a fetch yields `byte_at(0)` and shifts the rest down.
/// A fetch never fails: a source that runs out of data yields zeros.
pub trait ByteStream: Sized {
    /// Well-formedness of the stream and whatever it borrows.
    spec fn inv(&self) -> bool;

    /// The `i`-th byte ahead of the current position (zero for `i < 0`).
    spec fn byte_at(&self, i: int) -> u8;

    /// Fetch the next byte.
    fn fetch(&mut self) -> (b: u8)
        requires
            old(self).inv(),
        ensures
            final(self).inv(),
            b == old(self).byte_at(0),
            forall|i: int| 0 <= i ==> #[trigger] final(self).byte_at(i) == old(self).byte_at(
                i + 1,
            ),
    ;
}

/// Fetch the next byte as a signed displacement.
pub fn fetch_i8<T: ByteStream>(stream: &mut T) -> (b: i8)
    requires
        old(stream).inv(),
    ensures
        final(stream).inv(),
        b == old(stream).byte_at(0) as i8,
        forall|i: int| 0 <= i ==> #[trigger] final(stream).byte_at(i) == old(stream).byte_at(
            i + 1,
        ),
{
    stream.fetch() as i8
}

/// Fetch the next two bytes as a 16-bit little-endian value.
pub fn fetch_u16<T: ByteStream>(stream: &mut T) -> (v: u16)
    requires
        old(stream).inv(),
    ensures
        final(stream).inv(),
        v == old(stream).byte_at(0) + 256 * old(stream).byte_at(1),
        forall|i: int| 0 <= i ==> #[trigger] final(stream).byte_at(i) == old(stream).byte_at(
            i + 2,
        ),
{
    let lo = stream.fetch();
    let hi = stream.fetch();
    lo as u16 + 256 * (hi as u16)
}

/// A byte stream over an in-memory buffer; bytes past the end read as zero.
pub struct SliceByteStream {
    /// The underlying bytes.
    data: Vec<u8>,
    /// Index of the next byte to yield.
    pos: usize,
}

impl SliceByteStream {
    /// Wrap a buffer, starting at its first byte.
    pub fn new(data: Vec<u8>) -> (r: SliceByteStream)
        ensures
            r.inv(),
            forall|i: int| 0 <= i ==> #[trigger] r.byte_at(i) == (if i < data@.len() {
                data@[i]
            } else {
                0u8
            }),
            r.spec_pos() == 0,
            r.spec_len() == data@.len(),
    {
        SliceByteStream { data, pos: 0 }
    }

    /// The current position.
    pub closed spec fn spec_pos(&self) -> int {
        self.pos as int
    }

    /// The length of the underlying buffer.
    pub closed spec fn spec_len(&self) -> int {
        self.data@.len() as int
    }

    /// The current position.
    pub fn pos(&self) -> (r: usize)
        ensures
            r == self.spec_pos(),
    {
        self.pos
    }

    /// The length of the underlying buffer.
    pub fn len(&self) -> (r: usize)
        ensures
            r == self.spec_len(),
    {
        self.data.len()
    }
}

impl ByteStream for SliceByteStream {
    open spec fn inv(&self) -> bool {
        true
    }

    closed spec fn byte_at(&self, i: int) -> u8 {
        if 0 <= i && self.pos + i < self.data@.len() {
            self.data@[self.pos + i]
        } else {
            0u8
        }
    }

    fn fetch(&mut self) -> (b: u8) {
        if self.pos < self.data.len() {
            let b = self.data[self.pos];
            self.pos = self.pos + 1;
            b
        } else {
            0
        }
    }
}

/// A decoded opcode together with its canonical metadata.
#[derive(Debug, Clone, Copy, PartialEq, Eq, Structural)]
pub struct Instruction {
    /// The operation and its operands.
    pub opcode: Opcode,
    /// Length of the instruction in bytes (1 to 3).
    pub length: u16,
    /// T-cycles already paid by fetching the operand bytes.
    pub read_cycles: TCycles,
    /// T-cycles the instruction costs when no branch is taken.
    pub cycles: TCycles,
    /// T-cycles the instruction costs when its branch is taken; equal to
    /// `cycles` for unconditional instructions.
    pub branch_cycles: TCycles,
    /// Flags the executor forces on after the operation.
    pub set_flags: FlagsRegister,
    /// Flags the executor forces off after the operation; reset wins over
    /// set on overlapping bits.
    pub reset_flags: FlagsRegister,
}

/// A flag mask with the given zero, subtraction, half-carry and carry bits.
pub open spec fn fl(z: bool, n: bool, h: bool, c: bool) -> FlagsRegister {
    FlagsRegister { z, n, h, c }
}

/// An instruction record with every field spelled out.
pub open spec fn mk(
    opcode: Opcode,
    length: u16,
    read_cycles: TCycles,
    cycles: TCycles,
    branch_cycles: TCycles,
    set_flags: FlagsRegister,
    reset_flags: FlagsRegister,
) -> Instruction {
    Instruction { opcode, length, read_cycles, cycles, branch_cycles, set_flags, reset_flags }
}

/// The canonical timing and flag-mask table: the metadata of each opcode.
///
/// The defaults are length 1, no operand-read cycles, 4 T-cycles, branch
/// cost equal to the plain cost, and empty flag masks. Conditional branches
/// cost more T-cycles when taken; instructions touching (HL) cost 4 more
/// T-cycles than their register-only twin; prefix instructions have
/// length 2.
pub open spec fn spec_instruction(op: Opcode) -> Instruction {
    let f0 = fl(false, false, false, false);
    match op {
        Opcode::Nop => mk(op, 1, 0, 4, 4, f0, f0),
        Opcode::LdDerefImmSp(_) => mk(op, 3, 8, 20, 20, f0, f0),
        Opcode::Stop => mk(op, 2, 0, 4, 4, f0, f0),
        Opcode::Jr(_) => mk(op, 2, 4, 12, 12, f0, f0),
        Opcode::JrCond(_, _) => mk(op, 2, 4, 8, 12, f0, f0),
        Opcode::LdWideRegImm(_, _) => mk(op, 3, 8, 12, 12, f0, f0),
        Opcode::AddHLWideReg(_) => mk(op, 1, 0, 8, 8, f0, fl(false, true, false, false)),
        Opcode::LdDerefWideRegA(_) => mk(op, 1, 0, 8, 8, f0, f0),
        Opcode::LdADerefWideReg(_) => mk(op, 1, 0, 8, 8, f0, f0),
        Opcode::LdHLIncA => mk(op, 1, 0, 8, 8, f0, f0),
        Opcode::LdHLDecA => mk(op, 1, 0, 8, 8, f0, f0),
        Opcode::LdAHLInc => mk(op, 1, 0, 8, 8, f0, f0),
        Opcode::LdAHLDec => mk(op, 1, 0, 8, 8, f0, f0),
        Opcode::IncWideReg(_) => mk(op, 1, 0, 8, 8, f0, f0),
        Opcode::DecWideReg(_) => mk(op, 1, 0, 8, 8, f0, f0),
        Opcode::IncReg(Register::DerefHL) => mk(op, 1, 0, 12, 12, f0, fl(false, true, false, false)),
        Opcode::IncReg(_) => mk(op, 1, 0, 4, 4, f0, fl(false, true, false, false)),
        Opcode::DecReg(Register::DerefHL) => mk(op, 1, 0, 12, 12, fl(false, true, false, false), f0),
        Opcode::DecReg(_) => mk(op, 1, 0, 4, 4, fl(false, true, false, false), f0),
        Opcode::LdRegImm(Register::DerefHL, _) => mk(op, 2, 4, 12, 12, f0, f0),
        Opcode::LdRegImm(_, _) => mk(op, 2, 4, 8, 8, f0, f0),
        Opcode::Rlca => mk(op, 1, 0, 4, 4, f0, fl(true, true, true, false)),
        Opcode::Rrca => mk(op, 1, 0, 4, 4, f0, fl(true, true, true, false)),
        Opcode::Rla => mk(op, 1, 0, 4, 4, f0, fl(true, true, true, false)),
        Opcode::Rra => mk(op, 1, 0, 4, 4, f0, fl(true, true, true, false)),
        Opcode::Daa => mk(op, 1, 0, 4, 4, f0, fl(false, false, true, false)),
        Opcode::Cpl => mk(op, 1, 0, 4, 4, fl(false, true, true, false), f0),
        Opcode::Scf => mk(op, 1, 0, 4, 4, fl(false, false, false, true), fl(false, true, true, false)),
        Opcode::Ccf => mk(op, 1, 0, 4, 4, f0, fl(false, true, true, false)),
        Opcode::Ld(Register::DerefHL, _) => mk(op, 1, 0, 8, 8, f0, f0),
        Opcode::Ld(_, Register::DerefHL) => mk(op, 1, 0, 8, 8, f0, f0),
        Opcode::Ld(_, _) => mk(op, 1, 0, 4, 4, f0, f0),
        Opcode::Halt => mk(op, 1, 0, 4, 4, f0, f0),
        Opcode::Add(Register::DerefHL) => mk(op, 1, 0, 8, 8, f0, fl(false, true, false, false)),
        Opcode::Add(_) => mk(op, 1, 0, 4, 4, f0, fl(false, true, false, false)),
        Opcode::Adc(Register::DerefHL) => mk(op, 1, 0, 8, 8, f0, fl(false, true, false, false)),
        Opcode::Adc(_) => mk(op, 1, 0, 4, 4, f0, fl(false, true, false, false)),
        Opcode::Sub(Register::DerefHL) => mk(op, 1, 0, 8, 8, fl(false, true, false, false), f0),
        Opcode::Sub(_) => mk(op, 1, 0, 4, 4, fl(false, true, false, false), f0),
        Opcode::Sbc(Register::DerefHL) => mk(op, 1, 0, 8, 8, fl(false, true, false, false), f0),
        Opcode::Sbc(_) => mk(op, 1, 0, 4, 4, fl(false, true, false, false), f0),
        Opcode::And(Register::DerefHL) => mk(
            op,
            1,
            0,
            8,
            8,
            fl(false, false, true, false),
            fl(false, true, false, true),
        ),
        Opcode::And(_) => mk(op, 1, 0, 4, 4, fl(false, false, true, false), fl(false, true, false, true)),
        Opcode::Xor(Register::DerefHL) => mk(op, 1, 0, 8, 8, f0, fl(false, true, true, true)),
        Opcode::Xor(_) => mk(op, 1, 0, 4, 4, f0, fl(false, true, true, true)),
        Opcode::Or(Register::DerefHL) => mk(op, 1, 0, 8, 8, f0, fl(false, true, true, true)),
        Opcode::Or(_) => mk(op, 1, 0, 4, 4, f0, fl(false, true, true, true)),
        Opcode::Cp(Register::DerefHL) => mk(op, 1, 0, 8, 8, fl(false, true, false, false), f0),
        Opcode::Cp(_) => mk(op, 1, 0, 4, 4, fl(false, true, false, false), f0),
        Opcode::RetCond(_) => mk(op, 1, 0, 8, 20, f0, f0),
        Opcode::LdOffsetImmA(_) => mk(op, 2, 4, 12, 12, f0, f0),
        Opcode::AddSpDisp(_) => mk(op, 2, 4, 16, 16, f0, fl(true, true, false, false)),
        Opcode::LdAOffsetImm(_) => mk(op, 2, 4, 12, 12, f0, f0),
        Opcode::LdHLSPDisp(_) => mk(op, 2, 4, 12, 12, f0, fl(true, true, false, false)),
        Opcode::PopWideReg(_) => mk(op, 1, 0, 12, 12, f0, f0),
        Opcode::Ret => mk(op, 1, 0, 16, 16, f0, f0),
        Opcode::Reti => mk(op, 1, 0, 16, 16, f0, f0),
        Opcode::JpHL => mk(op, 1, 0, 4, 4, f0, f0),
        Opcode::LdSPHL => mk(op, 1, 0, 8, 8, f0, f0),
        Opcode::JPCondImm(_, _) => mk(op, 3, 8, 12, 16, f0, f0),
        Opcode::LdOffsetCA => mk(op, 1, 0, 8, 8, f0, f0),
        Opcode::LdDerefImmA(_) => mk(op, 3, 8, 16, 16, f0, f0),
        Opcode::LdAOffsetC => mk(op, 1, 0, 8, 8, f0, f0),
        Opcode::LdADerefImm(_) => mk(op, 3, 8, 16, 16, f0, f0),
        Opcode::JP(_) => mk(op, 3, 8, 16, 16, f0, f0),
        Opcode::DI => mk(op, 1, 0, 4, 4, f0, f0),
        Opcode::EI => mk(op, 1, 0, 4, 4, f0, f0),
        Opcode::CallCondImm(_, _) => mk(op, 3, 8, 12, 24, f0, f0),
        Opcode::PushWideReg(_) => mk(op, 1, 0, 16, 16, f0, f0),
        Opcode::CallImm(_) => mk(op, 3, 8, 24, 24, f0, f0),
        Opcode::AddImm(_) => mk(op, 2, 4, 8, 8, f0, fl(false, true, false, false)),
        Opcode::AdcImm(_) => mk(op, 2, 4, 8, 8, f0, fl(false, true, false, false)),
        Opcode::SubImm(_) => mk(op, 2, 4, 8, 8, fl(false, true, false, false), f0),
        Opcode::SbcImm(_) => mk(op, 2, 4, 8, 8, fl(false, true, false, false), f0),
        Opcode::CpImm(_) => mk(op, 2, 4, 8, 8, fl(false, true, false, false), f0),
        Opcode::AndImm(_) => mk(
            op,
            2,
            4,
            8,
            8,
            fl(false, false, true, false),
            fl(false, true, false, true),
        ),
        Opcode::XorImm(_) => mk(op, 2, 4, 8, 8, f0, fl(false, true, true, true)),
        Opcode::OrImm(_) => mk(op, 2, 4, 8, 8, f0, fl(false, true, true, true)),
        Opcode::Rst(_) => mk(op, 1, 0, 16, 16, f0, f0),
        Opcode::Rlc(Register::DerefHL) => mk(op, 2, 0, 16, 16, f0, fl(false, true, true, false)),
        Opcode::Rlc(_) => mk(op, 2, 0, 8, 8, f0, fl(false, true, true, false)),
        Opcode::Rrc(Register::DerefHL) => mk(op, 2, 0, 16, 16, f0, fl(false, true, true, false)),
        Opcode::Rrc(_) => mk(op, 2, 0, 8, 8, f0, fl(false, true, true, false)),
        Opcode::Rl(Register::DerefHL) => mk(op, 2, 0, 16, 16, f0, fl(false, true, true, false)),
        Opcode::Rl(_) => mk(op, 2, 0, 8, 8, f0, fl(false, true, true, false)),
        Opcode::Rr(Register::DerefHL) => mk(op, 2, 0, 16, 16, f0, fl(false, true, true, false)),
        Opcode::Rr(_) => mk(op, 2, 0, 8, 8, f0, fl(false, true, true, false)),
        Opcode::Sla(Register::DerefHL) => mk(op, 2, 0, 16, 16, f0, fl(false, true, true, false)),
        Opcode::Sla(_) => mk(op, 2, 0, 8, 8, f0, fl(false, true, true, false)),
        Opcode::Sra(Register::DerefHL) => mk(op, 2, 0, 16, 16, f0, fl(false, true, true, false)),
        Opcode::Sra(_) => mk(op, 2, 0, 8, 8, f0, fl(false, true, true, false)),
        Opcode::Srl(Register::DerefHL) => mk(op, 2, 0, 16, 16, f0, fl(false, true, true, false)),
        Opcode::Srl(_) => mk(op, 2, 0, 8, 8, f0, fl(false, true, true, false)),
        Opcode::Swap(Register::DerefHL) => mk(op, 2, 0, 16, 16, f0, fl(false, true, true, true)),
        Opcode::Swap(_) => mk(op, 2, 0, 8, 8, f0, fl(false, true, true, true)),
        Opcode::Bit(_, Register::DerefHL) => mk(
            op,
            2,
            0,
            12,
            12,
            fl(false, false, true, false),
            fl(false, true, false, false),
        ),
        Opcode::Bit(_, _) => mk(
            op,
            2,
            0,
            8,
            8,
            fl(false, false, true, false),
            fl(false, true, false, false),
        ),
        Opcode::Res(_, Register::DerefHL) => mk(op, 2, 0, 16, 16, f0, f0),
        Opcode::Res(_, _) => mk(op, 2, 0, 8, 8, f0, f0),
        Opcode::SetBit(_, Register::DerefHL) => mk(op, 2, 0, 16, 16, f0, f0),
        Opcode::SetBit(_, _) => mk(op, 2, 0, 8, 8, f0, f0),
    }
}

/// An instruction record built in executable code.
fn mkx(
    opcode: Opcode,
    length: u16,
    read_cycles: TCycles,
    cycles: TCycles,
    branch_cycles: TCycles,
    set_flags: FlagsRegister,
    reset_flags: FlagsRegister,
) -> (r: Instruction)
    ensures
        r == mk(opcode, length, read_cycles, cycles, branch_cycles, set_flags, reset_flags),
{
    Instruction { opcode, length, read_cycles, cycles, branch_cycles, set_flags, reset_flags }
}

/// A flag mask built in executable code.
fn flx(z: bool, n: bool, h: bool, c: bool) -> (r: FlagsRegister)
    ensures
        r == fl(z, n, h, c),
{
    FlagsRegister { z, n, h, c }
}

impl Instruction {
    /// Look up the canonical metadata of an opcode.
    pub fn for_opcode(op: Opcode) -> (i: Instruction)
        ensures
            i == spec_instruction(op),
    {
        let f0 = flx(false, false, false, false);
        let rn = flx(false, true, false, false);
        let rnh = flx(false, true, true, false);
        let rznh = flx(true, true, true, false);
        let rzn = flx(true, true, false, false);
        let rnhc = flx(false, true, true, true);
        let rnc = flx(false, true, false, true);
        let sh = flx(false, false, true, false);
        let sc = flx(false, false, false, true);
        match op {
            Opcode::Nop => mkx(op, 1, 0, 4, 4, f0, f0),
            Opcode::LdDerefImmSp(_) => mkx(op, 3, 8, 20, 20, f0, f0),
            Opcode::Stop => mkx(op, 2, 0, 4, 4, f0, f0),
            Opcode::Jr(_) => mkx(op, 2, 4, 12, 12, f0, f0),
            Opcode::JrCond(_, _) => mkx(op, 2, 4, 8, 12, f0, f0),
            Opcode::LdWideRegImm(_, _) => mkx(op, 3, 8, 12, 12, f0, f0),
            Opcode::AddHLWideReg(_) => mkx(op, 1, 0, 8, 8, f0, rn),
            Opcode::LdDerefWideRegA(_) => mkx(op, 1, 0, 8, 8, f0, f0),
            Opcode::LdADerefWideReg(_) => mkx(op, 1, 0, 8, 8, f0, f0),
            Opcode::LdHLIncA => mkx(op, 1, 0, 8, 8, f0, f0),
            Opcode::LdHLDecA => mkx(op, 1, 0, 8, 8, f0, f0),
            Opcode::LdAHLInc => mkx(op, 1, 0, 8, 8, f0, f0),
            Opcode::LdAHLDec => mkx(op, 1, 0, 8, 8, f0, f0),
            Opcode::IncWideReg(_) => mkx(op, 1, 0, 8, 8, f0, f0),
            Opcode::DecWideReg(_) => mkx(op, 1, 0, 8, 8, f0, f0),
            Opcode::IncReg(Register::DerefHL) => mkx(op, 1, 0, 12, 12, f0, rn),
            Opcode::IncReg(_) => mkx(op, 1, 0, 4, 4, f0, rn),
            Opcode::DecReg(Register::DerefHL) => mkx(op, 1, 0, 12, 12, rn, f0),
            Opcode::DecReg(_) => mkx(op, 1, 0, 4, 4, rn, f0),
            Opcode::LdRegImm(Register::DerefHL, _) => mkx(op, 2, 4, 12, 12, f0, f0),
            Opcode::LdRegImm(_, _) => mkx(op, 2, 4, 8, 8, f0, f0),
            Opcode::Rlca => mkx(op, 1, 0, 4, 4, f0, rznh),
            Opcode::Rrca => mkx(op, 1, 0, 4, 4, f0, rznh),
            Opcode::Rla => mkx(op, 1, 0, 4, 4, f0, rznh),
            Opcode::Rra => mkx(op, 1, 0, 4, 4, f0, rznh),
            Opcode::Daa => mkx(op, 1, 0, 4, 4, f0, sh),
            Opcode::Cpl => mkx(op, 1, 0, 4, 4, rnh, f0),
            Opcode::Scf => mkx(op, 1, 0, 4, 4, sc, rnh),
            Opcode::Ccf => mkx(op, 1, 0, 4, 4, f0, rnh),
            Opcode::Ld(Register::DerefHL, _) => mkx(op, 1, 0, 8, 8, f0, f0),
            Opcode::Ld(_, Register::DerefHL) => mkx(op, 1, 0, 8, 8, f0, f0),
            Opcode::Ld(_, _) => mkx(op, 1, 0, 4, 4, f0, f0),
            Opcode::Halt => mkx(op, 1, 0, 4, 4, f0, f0),
            Opcode::Add(Register::DerefHL) => mkx(op, 1, 0, 8, 8, f0, rn),
            Opcode::Add(_) => mkx(op, 1, 0, 4, 4, f0, rn),
            Opcode::Adc(Register::DerefHL) => mkx(op, 1, 0, 8, 8, f0, rn),
            Opcode::Adc(_) => mkx(op, 1, 0, 4, 4, f0, rn),
            Opcode::Sub(Register::DerefHL) => mkx(op, 1, 0, 8, 8, rn, f0),
            Opcode::Sub(_) => mkx(op, 1, 0, 4, 4, rn, f0),
            Opcode::Sbc(Register::DerefHL) => mkx(op, 1, 0, 8, 8, rn, f0),
            Opcode::Sbc(_) => mkx(op, 1, 0, 4, 4, rn, f0),
            Opcode::And(Register::DerefHL) => mkx(op, 1, 0, 8, 8, sh, rnc),
            Opcode::And(_) => mkx(op, 1, 0, 4, 4, sh, rnc),
            Opcode::Xor(Register::DerefHL) => mkx(op, 1, 0, 8, 8, f0, rnhc),
            Opcode::Xor(_) => mkx(op, 1, 0, 4, 4, f0, rnhc),
            Opcode::Or(Register::DerefHL) => mkx(op, 1, 0, 8, 8, f0, rnhc),
            Opcode::Or(_) => mkx(op, 1, 0, 4, 4, f0, rnhc),
            Opcode::Cp(Register::DerefHL) => mkx(op, 1, 0, 8, 8, rn, f0),
            Opcode::Cp(_) => mkx(op, 1, 0, 4, 4, rn, f0),
            Opcode::RetCond(_) => mkx(op, 1, 0, 8, 20, f0, f0),
            Opcode::LdOffsetImmA(_) => mkx(op, 2, 4, 12, 12, f0, f0),
            Opcode::AddSpDisp(_) => mkx(op, 2, 4, 16, 16, f0, rzn),
            Opcode::LdAOffsetImm(_) => mkx(op, 2, 4, 12, 12, f0, f0),
            Opcode::LdHLSPDisp(_) => mkx(op, 2, 4, 12, 12, f0, rzn),
            Opcode::PopWideReg(_) => mkx(op, 1, 0, 12, 12, f0, f0),
            Opcode::Ret => mkx(op, 1, 0, 16, 16, f0, f0),
            Opcode::Reti => mkx(op, 1, 0, 16, 16, f0, f0),
            Opcode::JpHL => mkx(op, 1, 0, 4, 4, f0, f0),
            Opcode::LdSPHL => mkx(op, 1, 0, 8, 8, f0, f0),
            Opcode::JPCondImm(_, _) => mkx(op, 3, 8, 12, 16, f0, f0),
            Opcode::LdOffsetCA => mkx(op, 1, 0, 8, 8, f0, f0),
            Opcode::LdDerefImmA(_) => mkx(op, 3, 8, 16, 16, f0, f0),
            Opcode::LdAOffsetC => mkx(op, 1, 0, 8, 8, f0, f0),
            Opcode::LdADerefImm(_) => mkx(op, 3, 8, 16, 16, f0, f0),
            Opcode::JP(_) => mkx(op, 3, 8, 16, 16, f0, f0),
            Opcode::DI => mkx(op, 1, 0, 4, 4, f0, f0),
            Opcode::EI => mkx(op, 1, 0, 4, 4, f0, f0),
            Opcode::CallCondImm(_, _) => mkx(op, 3, 8, 12, 24, f0, f0),
            Opcode::PushWideReg(_) => mkx(op, 1, 0, 16, 16, f0, f0),
            Opcode::CallImm(_) => mkx(op, 3, 8, 24, 24, f0, f0),
            Opcode::AddImm(_) => mkx(op, 2, 4, 8, 8, f0, rn),
            Opcode::AdcImm(_) => mkx(op, 2, 4, 8, 8, f0, rn),
            Opcode::SubImm(_) => mkx(op, 2, 4, 8, 8, rn, f0),
            Opcode::SbcImm(_) => mkx(op, 2, 4, 8, 8, rn, f0),
            Opcode::CpImm(_) => mkx(op, 2, 4, 8, 8, rn, f0),
            Opcode::AndImm(_) => mkx(op, 2, 4, 8, 8, sh, rnc),
            Opcode::XorImm(_) => mkx(op, 2, 4, 8, 8, f0, rnhc),
            Opcode::OrImm(_) => mkx(op, 2, 4, 8, 8, f0, rnhc),
            Opcode::Rst(_) => mkx(op, 1, 0, 16, 16, f0, f0),
            Opcode::Rlc(Register::DerefHL) => mkx(op, 2, 0, 16, 16, f0, rnh),
            Opcode::Rlc(_) => mkx(op, 2, 0, 8, 8, f0, rnh),
            Opcode::Rrc(Register::DerefHL) => mkx(op, 2, 0, 16, 16, f0, rnh),
            Opcode::Rrc(_) => mkx(op, 2, 0, 8, 8, f0, rnh),
            Opcode::Rl(Register::DerefHL) => mkx(op, 2, 0, 16, 16, f0, rnh),
            Opcode::Rl(_) => mkx(op, 2, 0, 8, 8, f0, rnh),
            Opcode::Rr(Register::DerefHL) => mkx(op, 2, 0, 16, 16, f0, rnh),
            Opcode::Rr(_) => mkx(op, 2, 0, 8, 8, f0, rnh),
            Opcode::Sla(Register::DerefHL) => mkx(op, 2, 0, 16, 16, f0, rnh),
            Opcode::Sla(_) => mkx(op, 2, 0, 8, 8, f0, rnh),
            Opcode::Sra(Register::DerefHL) => mkx(op, 2, 0, 16, 16, f0, rnh),
            Opcode::Sra(_) => mkx(op, 2, 0, 8, 8, f0, rnh),
            Opcode::Srl(Register::DerefHL) => mkx(op, 2, 0, 16, 16, f0, rnh),
            Opcode::Srl(_) => mkx(op, 2, 0, 8, 8, f0, rnh),
            Opcode::Swap(Register::DerefHL) => mkx(op, 2, 0, 16, 16, f0, rnhc),
            Opcode::Swap(_) => mkx(op, 2, 0, 8, 8, f0, rnhc),
            Opcode::Bit(_, Register::DerefHL) => mkx(op, 2, 0, 12, 12, sh, rn),
            Opcode::Bit(_, _) => mkx(op, 2, 0, 8, 8, sh, rn),
            Opcode::Res(_, Register::DerefHL) => mkx(op, 2, 0, 16, 16, f0, f0),
            Opcode::Res(_, _) => mkx(op, 2, 0, 8, 8, f0, f0),
            Opcode::SetBit(_, Register::DerefHL) => mkx(op, 2, 0, 16, 16, f0, f0),
            Opcode::SetBit(_, _) => mkx(op, 2, 0, 8, 8, f0, f0),
        }
    }

    /// Decode the next instruction from the given byte stream.
    ///
    /// Yields the decoded opcode together with its canonical metadata, or
    /// `Err` carrying the fetched byte when that byte corresponds to no
    /// opcode.
    pub fn try_from<T: ByteStream>(stream: &mut T) -> (r: Result<Instruction, u8>)
        requires
            old(stream).inv(),
        ensures
            final(stream).inv(),
            r == (match spec_decode(
                old(stream).byte_at(0),
                old(stream).byte_at(1),
                old(stream).byte_at(2),
            ) {
                Ok(op) => Ok::<Instruction, u8>(spec_instruction(op)),
                Err(b) => Err(b),
            }),
            forall|i: int| 0 <= i ==> #[trigger] final(stream).byte_at(i) == old(stream).byte_at(
                i + spec_consumed(old(stream).byte_at(0)),
            ),
    {
        match Opcode::try_from(stream) {
            Ok(op) => Ok(Instruction::for_opcode(op)),
            Err(b) => Err(b),
        }
    }
}

/// The structural soundness of every table entry: positive cycle counts in
/// multiples of four, branch cost at least the plain cost, and operand-read
/// cycles no more than the plain cost.
pub proof fn lemma_instruction_table_sound(op: Opcode)
    ensures
        spec_instruction(op).opcode == op,
        1 <= spec_instruction(op).length <= 3,
        4 <= spec_instruction(op).cycles,
        spec_instruction(op).cycles % 4 == 0,
        spec_instruction(op).cycles <= spec_instruction(op).branch_cycles,
        spec_instruction(op).branch_cycles % 4 == 0,
        0 <= spec_instruction(op).read_cycles <= spec_instruction(op).cycles,
        spec_instruction(op).read_cycles % 4 == 0,
{
}

} // verus!
