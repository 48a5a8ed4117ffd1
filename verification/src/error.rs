//! Load-time failures.
//!
//! Construction of a console is the only fallible path: a ROM or boot ROM
//! that cannot be accepted is reported to the caller. After a successful
//! load no runtime path returns an error; illegal accesses are absorbed.

use vstd::prelude::*;

use crate::header::CartridgeType;

verus! {

/// A defect of the cartridge ROM image.
#[derive(Debug, Clone, Copy, PartialEq, Eq, Structural)]
pub enum RomError {
    /// The image is shorter than the smallest cartridge.
    Undersized { expected: usize, found: usize },
    /// The cartridge-type byte of the header is not recognized.
    UnrecognizedCartridgeType(u8),
    /// The ROM-size byte of the header is not recognized.
    UnrecognizedRomSize(u8),
    /// The RAM-size byte of the header is not recognized.
    UnrecognizedRamSize(u8),
    /// The cartridge type is recognized but not implemented.
    UnsupportedCartridgeType(CartridgeType),
    /// The image is larger than the declared controller supports.
    Oversized { cartridge_type: CartridgeType, found: usize },
    /// The image's length disagrees with the bank count its header declares.
    Size { expected: usize, found: usize },
}

/// A defect of the boot ROM image.
#[derive(Debug, Clone, Copy, PartialEq, Eq, Structural)]
pub enum BootRomError {
    /// The image is not exactly the size of the boot overlay.
    Size { expected: usize, found: usize },
}

/// Any failure while bringing the console up.
#[derive(Debug, Clone, Copy, PartialEq, Eq, Structural)]
pub enum BootError {
    /// The cartridge ROM was rejected.
    RomError(RomError),
    /// The boot ROM was rejected.
    BootRomError(BootRomError),
}

} // verus!
