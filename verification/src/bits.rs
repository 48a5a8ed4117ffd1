//! Bit-manipulation operations on unsigned bytes.

use vstd::prelude::*;

verus! {

/// Typed bit read/write/extract on unsigned bytes.
pub trait Bits: Sized {
    /// Read bit `index` (0 is the least significant bit).
    fn bit(&self, index: usize) -> (r: bool)
        requires
            index < 8,
        ensures
            r == (*self).bit_spec(index),
    ;

    /// Extract the bits from `start` up to and including `end`, shifted down
    /// to the least significant positions. An empty range yields zero.
    fn bits(&self, start: usize, end: usize) -> (r: Self)
        requires
            end < 8,
        ensures
            r == (*self).bits_spec(start, end),
    ;

    /// Set bit `index` to one.
    fn set_bit(&mut self, index: usize)
        requires
            index < 8,
        ensures
            *final(self) == old(self).or_bit_spec(index),
    ;

    /// Reset bit `index` to zero.
    fn reset_bit(&mut self, index: usize)
        requires
            index < 8,
        ensures
            *final(self) == old(self).clear_bit_spec(index),
    ;

    /// Whether bit `index` is set.
    spec fn bit_spec(self, index: usize) -> bool;

    /// The extracted inclusive bit range, as a value.
    spec fn bits_spec(self, start: usize, end: usize) -> Self;

    /// The value with bit `index` forced to one.
    spec fn or_bit_spec(self, index: usize) -> Self;

    /// The value with bit `index` forced to zero.
    spec fn clear_bit_spec(self, index: usize) -> Self;
}

impl Bits for u8 {
    fn bit(&self, index: usize) -> (r: bool) {
        (*self >> index) & 1 == 1
    }

    fn bits(&self, start: usize, end: usize) -> (r: u8) {
        if start > end {
            0
        } else {
            (*self << ((8 - 1) - end)) >> ((8 - 1) - end + start)
        }
    }

    fn set_bit(&mut self, index: usize) {
        *self = *self | (1u8 << index);
    }

    fn reset_bit(&mut self, index: usize) {
        *self = *self & !(1u8 << index);
    }

    open spec fn bit_spec(self, index: usize) -> bool {
        (self >> index) & 1 == 1
    }

    open spec fn bits_spec(self, start: usize, end: usize) -> u8 {
        if start > end {
            0
        } else {
            (self << ((8 - 1) - end)) >> ((8 - 1) - end + start)
        }
    }

    open spec fn or_bit_spec(self, index: usize) -> u8 {
        self | (1u8 << index)
    }

    open spec fn clear_bit_spec(self, index: usize) -> u8 {
        self & !(1u8 << index)
    }
}

} // verus!
