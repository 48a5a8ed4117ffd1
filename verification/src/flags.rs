//! The CPU flags register.
//!
//! F is the lower byte of the AF register pair. Only its upper nibble carries
//! information: bit 7 is the zero flag, bit 6 the subtraction flag, bit 5 the
//! half-carry flag and bit 4 the carry flag. Holding the four flags as
//! booleans makes "the low four bits of F are always zero" true by
//! construction; the byte form exists only as a view.

use vstd::prelude::*;

verus! {

/// Flags register (lower 8 bits of the AF register).
#[derive(Debug, Clone, Copy, PartialEq, Eq, Structural)]
pub struct FlagsRegister {
    /// Zero flag (bit 7 of F).
    pub z: bool,
    /// Subtraction flag (bit 6 of F).
    pub n: bool,
    /// Half-carry flag (bit 5 of F).
    pub h: bool,
    /// Carry flag (bit 4 of F).
    pub c: bool,
}

impl FlagsRegister {
    /// The byte the register presents: each flag in its fixed position,
    /// low nibble zero.
    pub open spec fn spec_bits(self) -> u8 {
        ((if self.z { 0x80u8 } else { 0u8 }) + (if self.n { 0x40u8 } else { 0u8 }) + (if self.h {
            0x20u8
        } else {
            0u8
        }) + (if self.c { 0x10u8 } else { 0u8 })) as u8
    }

    /// The register a byte denotes; the low four bits are discarded.
    pub open spec fn spec_from_bits(bits: u8) -> FlagsRegister {
        FlagsRegister {
            z: bits / 0x80 % 2 == 1,
            n: bits / 0x40 % 2 == 1,
            h: bits / 0x20 % 2 == 1,
            c: bits / 0x10 % 2 == 1,
        }
    }

    /// All four flags clear.
    pub fn empty() -> (r: FlagsRegister)
        ensures
            r == (FlagsRegister { z: false, n: false, h: false, c: false }),
    {
        FlagsRegister { z: false, n: false, h: false, c: false }
    }

    /// The byte form of the register.
    pub fn bits(&self) -> (r: u8)
        ensures
            r == self.spec_bits(),
    {
        (if self.z { 0x80u8 } else { 0u8 }) + (if self.n { 0x40u8 } else { 0u8 }) + (if self.h {
            0x20u8
        } else {
            0u8
        }) + (if self.c { 0x10u8 } else { 0u8 })
    }

    /// Rebuild the register from a byte, discarding the low four bits.
    pub fn from_bits_truncate(bits: u8) -> (r: FlagsRegister)
        ensures
            r == FlagsRegister::spec_from_bits(bits),
    {
        FlagsRegister {
            z: bits / 0x80 % 2 == 1,
            n: bits / 0x40 % 2 == 1,
            h: bits / 0x20 % 2 == 1,
            c: bits / 0x10 % 2 == 1,
        }
    }

    /// The register with every flag of `other` forced on.
    pub open spec fn spec_insert(self, other: FlagsRegister) -> FlagsRegister {
        FlagsRegister {
            z: self.z || other.z,
            n: self.n || other.n,
            h: self.h || other.h,
            c: self.c || other.c,
        }
    }

    /// The register with every flag of `other` forced off.
    pub open spec fn spec_remove(self, other: FlagsRegister) -> FlagsRegister {
        FlagsRegister {
            z: self.z && !other.z,
            n: self.n && !other.n,
            h: self.h && !other.h,
            c: self.c && !other.c,
        }
    }

    /// Force on every flag that is set in `other`.
    pub fn insert(&mut self, other: FlagsRegister)
        ensures
            *final(self) == old(self).spec_insert(other),
    {
        self.z = self.z || other.z;
        self.n = self.n || other.n;
        self.h = self.h || other.h;
        self.c = self.c || other.c;
    }

    /// Force off every flag that is set in `other`.
    pub fn remove(&mut self, other: FlagsRegister)
        ensures
            *final(self) == old(self).spec_remove(other),
    {
        self.z = self.z && !other.z;
        self.n = self.n && !other.n;
        self.h = self.h && !other.h;
        self.c = self.c && !other.c;
    }
}

/// The low four bits of the byte form of F are always zero: the four flags
/// occupy the fixed positions 7, 6, 5 and 4, and nothing else is stored.
pub proof fn lemma_flags_low_bits_zero(f: FlagsRegister)
    ensures
        f.spec_bits() % 16 == 0,
        f.spec_bits() & 0x0F == 0,
{
    let v = f.spec_bits();
    assert(v % 16 == 0);
    assert(v & 0x0F == 0) by (bit_vector)
        requires
            v % 16 == 0,
    ;
}

/// Turning the register into its byte and back loses nothing: the byte view
/// and the flag view carry the same information.
pub proof fn lemma_flags_bits_round_trip(f: FlagsRegister)
    ensures
        FlagsRegister::spec_from_bits(f.spec_bits()) == f,
{
}

/// Rebuilding the register from any byte keeps exactly the high nibble:
/// the byte form of the result is the byte with its low four bits zeroed.
pub proof fn lemma_flags_from_bits_masks(bits: u8)
    ensures
        FlagsRegister::spec_from_bits(bits).spec_bits() == bits / 16 * 16,
        FlagsRegister::spec_from_bits(bits).spec_bits() == (bits & 0xF0),
{
    let f = FlagsRegister::spec_from_bits(bits);
    assert(f.spec_bits() == 128 * (bits / 128 % 2) + 64 * (bits / 64 % 2) + 32 * (bits / 32 % 2)
        + 16 * (bits / 16 % 2));
    assert(128 * (bits / 128 % 2) + 64 * (bits / 64 % 2) + 32 * (bits / 32 % 2) + 16 * (bits / 16
        % 2) == bits / 16 * 16) by (bit_vector);
    assert(bits / 16 * 16 == (bits & 0xF0)) by (bit_vector);
}

} // verus!
