//! The cartridge header: title, controller type, bank counts and checksum.
//!
//! The header sits at fixed offsets of the ROM image: the title at
//! 0x134-0x143, the cartridge-type byte at 0x147, the ROM- and RAM-size
//! bytes at 0x148 and 0x149, and the checksum at 0x14D. The checksum is the
//! fold of `c - byte - 1` (wrapping) over the bytes from 0x134 up to but
//! not including 0x14D.

use vstd::prelude::*;

use crate::error::RomError;
use crate::text::push_char;

verus! {

/// The smallest acceptable ROM image: two 16 KiB banks.
pub const MIN_CARTRIDGE_SIZE: usize = 32768;

/// Every cartridge type a header can declare.
#[derive(Debug, Clone, Copy, PartialEq, Eq, Structural)]
pub enum CartridgeType {
    RomOnly,
    Mbc1,
    Mbc1Ram,
    Mbc1RamBattery,
    Mbc2,
    Mbc2Battery,
    RomRam,
    RomRamBattery,
    Mmm01,
    Mmm01Ram,
    Mmm01RamBattery,
    Mbc3TimerBattery,
    Mbc3TimerRamBattery,
    Mbc3,
    Mbc3Ram,
    Mbc3RamBattery,
    Mbc5,
    Mbc5Ram,
    Mbc5RamBattery,
    Mbc5Rumble,
    Mbc5RumbleRam,
    Mbc5RumbleRamBattery,
    Mbc6,
    Mbc7SensorRumbleRamBattery,
    PocketCamera,
    BandaiTama5,
    HuC3,
    HuC1RamBattery,
}

/// The cartridge type a header byte declares, or the byte itself where it
/// declares none.
pub open spec fn spec_cartridge_type(value: u8) -> Result<CartridgeType, RomError> {
    if value == 0x00 {
        Ok(CartridgeType::RomOnly)
    } else if value == 0x01 {
        Ok(CartridgeType::Mbc1)
    } else if value == 0x02 {
        Ok(CartridgeType::Mbc1Ram)
    } else if value == 0x03 {
        Ok(CartridgeType::Mbc1RamBattery)
    } else if value == 0x05 {
        Ok(CartridgeType::Mbc2)
    } else if value == 0x06 {
        Ok(CartridgeType::Mbc2Battery)
    } else if value == 0x08 {
        Ok(CartridgeType::RomRam)
    } else if value == 0x09 {
        Ok(CartridgeType::RomRamBattery)
    } else if value == 0x0B {
        Ok(CartridgeType::Mmm01)
    } else if value == 0x0C {
        Ok(CartridgeType::Mmm01Ram)
    } else if value == 0x0D {
        Ok(CartridgeType::Mmm01RamBattery)
    } else if value == 0x0F {
        Ok(CartridgeType::Mbc3TimerBattery)
    } else if value == 0x10 {
        Ok(CartridgeType::Mbc3TimerRamBattery)
    } else if value == 0x11 {
        Ok(CartridgeType::Mbc3)
    } else if value == 0x12 {
        Ok(CartridgeType::Mbc3Ram)
    } else if value == 0x13 {
        Ok(CartridgeType::Mbc3RamBattery)
    } else if value == 0x19 {
        Ok(CartridgeType::Mbc5)
    } else if value == 0x1A {
        Ok(CartridgeType::Mbc5Ram)
    } else if value == 0x1B {
        Ok(CartridgeType::Mbc5RamBattery)
    } else if value == 0x1C {
        Ok(CartridgeType::Mbc5Rumble)
    } else if value == 0x1D {
        Ok(CartridgeType::Mbc5RumbleRam)
    } else if value == 0x1E {
        Ok(CartridgeType::Mbc5RumbleRamBattery)
    } else if value == 0x20 {
        Ok(CartridgeType::Mbc6)
    } else if value == 0x22 {
        Ok(CartridgeType::Mbc7SensorRumbleRamBattery)
    } else if value == 0xFC {
        Ok(CartridgeType::PocketCamera)
    } else if value == 0xFD {
        Ok(CartridgeType::BandaiTama5)
    } else if value == 0xFE {
        Ok(CartridgeType::HuC3)
    } else if value == 0xFF {
        Ok(CartridgeType::HuC1RamBattery)
    } else {
        Err(RomError::UnrecognizedCartridgeType(value))
    }
}

impl CartridgeType {
    /// The cartridge type a header byte declares.
    pub fn try_from(value: u8) -> (r: Result<CartridgeType, RomError>)
        ensures
            r == spec_cartridge_type(value),
    {
        match value {
            0x00 => Ok(CartridgeType::RomOnly),
            0x01 => Ok(CartridgeType::Mbc1),
            0x02 => Ok(CartridgeType::Mbc1Ram),
            0x03 => Ok(CartridgeType::Mbc1RamBattery),
            0x05 => Ok(CartridgeType::Mbc2),
            0x06 => Ok(CartridgeType::Mbc2Battery),
            0x08 => Ok(CartridgeType::RomRam),
            0x09 => Ok(CartridgeType::RomRamBattery),
            0x0B => Ok(CartridgeType::Mmm01),
            0x0C => Ok(CartridgeType::Mmm01Ram),
            0x0D => Ok(CartridgeType::Mmm01RamBattery),
            0x0F => Ok(CartridgeType::Mbc3TimerBattery),
            0x10 => Ok(CartridgeType::Mbc3TimerRamBattery),
            0x11 => Ok(CartridgeType::Mbc3),
            0x12 => Ok(CartridgeType::Mbc3Ram),
            0x13 => Ok(CartridgeType::Mbc3RamBattery),
            0x19 => Ok(CartridgeType::Mbc5),
            0x1A => Ok(CartridgeType::Mbc5Ram),
            0x1B => Ok(CartridgeType::Mbc5RamBattery),
            0x1C => Ok(CartridgeType::Mbc5Rumble),
            0x1D => Ok(CartridgeType::Mbc5RumbleRam),
            0x1E => Ok(CartridgeType::Mbc5RumbleRamBattery),
            0x20 => Ok(CartridgeType::Mbc6),
            0x22 => Ok(CartridgeType::Mbc7SensorRumbleRamBattery),
            0xFC => Ok(CartridgeType::PocketCamera),
            0xFD => Ok(CartridgeType::BandaiTama5),
            0xFE => Ok(CartridgeType::HuC3),
            0xFF => Ok(CartridgeType::HuC1RamBattery),
            _ => Err(RomError::UnrecognizedCartridgeType(value)),
        }
    }
}

/// The number of 16 KiB ROM banks a ROM-size byte declares; zero where the
/// byte declares none.
pub open spec fn spec_rom_banks(code: u8) -> usize {
    if code == 0 {
        2usize
    } else if code == 1 {
        4usize
    } else if code == 2 {
        8usize
    } else if code == 3 {
        16usize
    } else if code == 4 {
        32usize
    } else if code == 5 {
        64usize
    } else if code == 6 {
        128usize
    } else if code == 7 {
        256usize
    } else if code == 8 {
        512usize
    } else {
        0usize
    }
}

/// Whether a RAM-size byte is recognized.
pub open spec fn spec_ram_size_known(code: u8) -> bool {
    code == 0 || code == 2 || code == 3 || code == 4 || code == 5
}

/// The number of 8 KiB RAM banks a RAM-size byte declares.
pub open spec fn spec_ram_banks(code: u8) -> usize {
    if code == 2 {
        1usize
    } else if code == 3 {
        4usize
    } else if code == 4 {
        16usize
    } else if code == 5 {
        8usize
    } else {
        0usize
    }
}

/// The cartridge title the header bytes spell from offset `i` on: ASCII
/// characters up to the title field's end, its first zero byte or its
/// first non-ASCII byte, whichever comes first.
pub open spec fn spec_title(rom: Seq<u8>, i: int) -> Seq<char>
    decreases 0x144 - i,
{
    if i < 0x134 || i >= 0x144 || rom[i] == 0 || rom[i] >= 128 {
        Seq::empty()
    } else {
        seq![rom[i] as char] + spec_title(rom, i + 1)
    }
}

/// The checksum over the header bytes before offset `end`: the fold of
/// `c - byte - 1`, wrapping, starting from zero at offset 0x134.
pub open spec fn spec_checksum(rom: Seq<u8>, end: int) -> u8
    decreases end,
{
    if end <= 0x134 {
        0u8
    } else {
        ((spec_checksum(rom, end - 1) - rom[end - 1] - 1) % 256) as u8
    }
}

/// The parsed cartridge header.
#[derive(Debug)]
pub struct Header {
    /// Cartridge title: the ASCII bytes at the title offsets up to the
    /// first zero or non-ASCII byte.
    pub title: String,
    /// The declared memory-bank controller.
    pub cartridge_type: CartridgeType,
    /// Number of 16 KiB ROM banks.
    pub rom_banks: usize,
    /// Number of 8 KiB external RAM banks.
    pub ram_banks: usize,
    /// The checksum stored in the header.
    pub checksum: u8,
    /// Whether the stored checksum equals the computed one.
    pub checksum_passed: bool,
}

impl Header {
    /// Parse the header of a ROM image.
    ///
    /// Fails exactly when the image is shorter than 32 KiB, the
    /// cartridge-type byte is unrecognized, the ROM-size byte is above
    /// 0x08, or the RAM-size byte is not one of the five known codes, in
    /// that order of checks.
    pub fn parse(rom: &[u8]) -> (r: Result<Header, RomError>)
        ensures
            rom@.len() < MIN_CARTRIDGE_SIZE ==> r == Err::<Header, RomError>(
                RomError::Undersized { expected: MIN_CARTRIDGE_SIZE, found: rom@.len() as usize },
            ),
            rom@.len() >= MIN_CARTRIDGE_SIZE && spec_cartridge_type(rom@[0x147]) is Err ==> r
                == Err::<Header, RomError>(spec_cartridge_type(rom@[0x147]).get_Err_0()),
            rom@.len() >= MIN_CARTRIDGE_SIZE && spec_cartridge_type(rom@[0x147]) is Ok && rom@[0x148] > 8 ==> r == Err::<Header, RomError>(RomError::UnrecognizedRomSize(rom@[0x148])),
            rom@.len() >= MIN_CARTRIDGE_SIZE && spec_cartridge_type(rom@[0x147]) is Ok && rom@[0x148] <= 8 && !spec_ram_size_known(rom@[0x149]) ==> r == Err::<Header, RomError>(
                RomError::UnrecognizedRamSize(rom@[0x149]),
            ),
            rom@.len() >= MIN_CARTRIDGE_SIZE && spec_cartridge_type(rom@[0x147]) is Ok && rom@[0x148] <= 8 && spec_ram_size_known(rom@[0x149]) ==> r is Ok && ({
                let h = r.get_Ok_0();
                h.cartridge_type == spec_cartridge_type(rom@[0x147]).get_Ok_0() && h.rom_banks
                    == spec_rom_banks(rom@[0x148]) && h.ram_banks == spec_ram_banks(rom@[0x149])
                    && h.checksum == rom@[0x14D] && h.checksum_passed == (rom@[0x14D]
                    == spec_checksum(rom@, 0x14D)) && h.title@ == spec_title(rom@, 0x134)
            }),
    {
        if rom.len() < MIN_CARTRIDGE_SIZE {
            return Err(RomError::Undersized { expected: MIN_CARTRIDGE_SIZE, found: rom.len() });
        }
        let mut title = String::new();
        let mut i: usize = 0x134;
        let mut stopped = false;
        while i <= 0x143 && !stopped
            invariant
                0x134 <= i <= 0x144,
                rom@.len() >= MIN_CARTRIDGE_SIZE,
                stopped ==> title@ == spec_title(rom@, 0x134),
                !stopped ==> title@ + spec_title(rom@, i as int) == spec_title(rom@, 0x134),
            decreases 0x144 - i, (if stopped {
                0int
            } else {
                1int
            }),
        {
            let byte = rom[i];
            if byte == 0 || byte >= 128 {
                stopped = true;
            } else {
                let ghost before = title@;
                push_char(&mut title, byte as char);
                proof {
                    assert(title@ =~= before + seq![rom@[i as int] as char]);
                }
                i = i + 1;
            }
        }
        proof {
            if !stopped {
                assert(spec_title(rom@, 0x144) =~= Seq::<char>::empty());
            }
            assert(title@ =~= spec_title(rom@, 0x134));
        }
        let cartridge_type = match CartridgeType::try_from(rom[0x147]) {
            Ok(t) => t,
            Err(e) => {
                return Err(e);
            },
        };
        let rom_size_code = rom[0x148];
        if rom_size_code > 8 {
            return Err(RomError::UnrecognizedRomSize(rom_size_code));
        }
        let rom_banks: usize = match rom_size_code {
            0 => 2,
            1 => 4,
            2 => 8,
            3 => 16,
            4 => 32,
            5 => 64,
            6 => 128,
            7 => 256,
            _ => 512,
        };
        let ram_size_code = rom[0x149];
        let ram_banks: usize = match ram_size_code {
            0x00 => 0,
            0x02 => 1,
            0x03 => 4,
            0x04 => 16,
            0x05 => 8,
            _ => {
                return Err(RomError::UnrecognizedRamSize(ram_size_code));
            },
        };
        let checksum = rom[0x14D];
        let mut computed: u8 = 0;
        let mut k: usize = 0x134;
        while k < 0x14D
            invariant
                0x134 <= k <= 0x14D,
                rom@.len() >= MIN_CARTRIDGE_SIZE,
                computed == spec_checksum(rom@, k as int),
            decreases 0x14D - k,
        {
            let byte = rom[k];
            let next = ((computed as u16 + 512 - byte as u16 - 1) % 256) as u8;
            proof {
                vstd::arithmetic::div_mod::lemma_mod_multiples_vanish(
                    2,
                    computed - byte - 1,
                    256,
                );
            }
            computed = next;
            k = k + 1;
        }
        Ok(
            Header {
                title,
                cartridge_type,
                rom_banks,
                ram_banks,
                checksum,
                checksum_passed: checksum == computed,
            },
        )
    }
}

} // verus!
