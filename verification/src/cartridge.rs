//! Game cartridges: the common bank plumbing, the plain ROM-only variant,
//! and the tagged set of memory-bank controllers.
//!
//! A cartridge exposes four operations to the memory management unit:
//! reads of the two ROM windows, register writes into the ROM address
//! range, and reads and writes of the external RAM window. The set of
//! controllers is closed, so the cartridge is a tagged variant with an
//! exhaustive match rather than open dispatch.

use vstd::prelude::*;

use crate::error::RomError;
use crate::header::CartridgeType;
use crate::header::Header;
use crate::header::spec_cartridge_type;
use crate::header::spec_ram_banks;
use crate::header::spec_ram_size_known;
use crate::header::spec_rom_banks;
use crate::mbc1::Mbc1;

verus! {

/// Bytes per ROM bank.
pub const ROM_BANK_SIZE: usize = 16384;

/// Bytes per external RAM bank.
pub const RAM_BANK_SIZE: usize = 8192;

/// The byte an absent or disabled external RAM yields.
pub const DISABLED_RAM_VALUE: u8 = 0xFF;

/// Fields common to every cartridge variant: the ROM image, the external
/// RAM, the active bank indices and the RAM-enable latch.
pub struct CartridgeBase {
    /// The full ROM image, immutable after loading.
    pub rom: Vec<u8>,
    /// Index of the 16 KiB ROM bank mapped at 0x0000-0x3FFF.
    pub rom_bank0: usize,
    /// Index of the 16 KiB ROM bank mapped at 0x4000-0x7FFF.
    pub rom_bank1: usize,
    /// External RAM, `ram_banks` times 8 KiB; empty when the cartridge has
    /// none.
    pub ram: Vec<u8>,
    /// Index of the 8 KiB external RAM bank mapped at 0xA000-0xBFFF.
    pub ram_bank: usize,
    /// Whether external RAM is enabled.
    pub ram_enabled: bool,
    /// The parsed header.
    pub header: Header,
}

impl CartridgeBase {
    /// The active bank indices lie below the header-declared counts, and
    /// the ROM and RAM buffers have exactly the declared sizes.
    pub open spec fn wf(&self) -> bool {
        &&& self.rom@.len() == self.header.rom_banks * ROM_BANK_SIZE
        &&& 2 <= self.header.rom_banks <= 512
        &&& self.rom_bank0 < self.header.rom_banks
        &&& self.rom_bank1 < self.header.rom_banks
        &&& self.ram@.len() == self.header.ram_banks * RAM_BANK_SIZE
        &&& self.header.ram_banks <= 16
        &&& (self.header.ram_banks == 0 ==> self.ram_bank == 0)
        &&& (self.header.ram_banks > 0 ==> self.ram_bank < self.header.ram_banks)
    }

    /// The byte the given ROM-window address reads: the low window comes
    /// from `rom_bank0`, the high window from `rom_bank1`.
    pub open spec fn spec_read_rom(&self, addr: u16) -> u8 {
        if addr < 0x4000 {
            self.rom@[self.rom_bank0 * ROM_BANK_SIZE + addr]
        } else {
            self.rom@[self.rom_bank1 * ROM_BANK_SIZE + (addr - 0x4000)]
        }
    }

    /// The byte the given RAM-window address reads; absent or disabled RAM
    /// reads a fixed value.
    pub open spec fn spec_read_ram(&self, addr: u16) -> u8 {
        if self.ram@.len() > 0 && self.ram_enabled {
            self.ram@[self.ram_bank * RAM_BANK_SIZE + addr]
        } else {
            DISABLED_RAM_VALUE
        }
    }

    /// The RAM contents after a write: updated where RAM is present and
    /// enabled, unchanged otherwise.
    pub open spec fn spec_ram_after_write(&self, addr: u16, value: u8) -> Seq<u8> {
        if self.ram@.len() > 0 && self.ram_enabled {
            self.ram@.update(self.ram_bank * RAM_BANK_SIZE + addr, value)
        } else {
            self.ram@
        }
    }

    /// A base with the given image and header, banks 0 and 1 active, and
    /// RAM allocated but disabled.
    pub fn new(rom: &[u8], header: Header) -> (r: CartridgeBase)
        requires
            rom@.len() == header.rom_banks * ROM_BANK_SIZE,
            2 <= header.rom_banks <= 512,
            header.ram_banks <= 16,
        ensures
            r.wf(),
            r.rom@ == rom@,
            r.rom_bank0 == 0,
            r.rom_bank1 == 1,
            r.ram_bank == 0,
            !r.ram_enabled,
            r.header == header,
            forall|i: int| 0 <= i < r.ram@.len() ==> r.ram@[i] == 0u8,
    {
        let mut rom_copy: Vec<u8> = Vec::new();
        let mut i: usize = 0;
        while i < rom.len()
            invariant
                i <= rom@.len(),
                rom_copy@.len() == i,
                forall|j: int| 0 <= j < i ==> rom_copy@[j] == rom@[j],
            decreases rom@.len() - i,
        {
            rom_copy.push(rom[i]);
            i = i + 1;
        }
        proof {
            assert(rom_copy@ =~= rom@);
        }
        let ram_len = header.ram_banks * RAM_BANK_SIZE;
        let mut ram: Vec<u8> = Vec::new();
        let mut k: usize = 0;
        while k < ram_len
            invariant
                k <= ram_len,
                ram@.len() == k,
                forall|j: int| 0 <= j < k ==> ram@[j] == 0u8,
            decreases ram_len - k,
        {
            ram.push(0);
            k = k + 1;
        }
        CartridgeBase { rom: rom_copy, rom_bank0: 0, rom_bank1: 1, ram, ram_bank: 0, ram_enabled: false, header }
    }

    /// Read a byte from the ROM windows.
    pub fn read_rom(&self, addr: u16) -> (b: u8)
        requires
            self.wf(),
            addr < 0x8000,
        ensures
            b == self.spec_read_rom(addr),
    {
        if addr < 0x4000 {
            proof {
                lemma_bank_offset_in_range(
                    self.rom_bank0 as int,
                    self.header.rom_banks as int,
                    addr as int,
                );
            }
            self.rom[self.rom_bank0 * ROM_BANK_SIZE + addr as usize]
        } else {
            proof {
                lemma_bank_offset_in_range(
                    self.rom_bank1 as int,
                    self.header.rom_banks as int,
                    addr - 0x4000,
                );
            }
            self.rom[self.rom_bank1 * ROM_BANK_SIZE + (addr as usize - 0x4000)]
        }
    }

    /// Read a byte from the external RAM window.
    pub fn read_ram(&self, addr: u16) -> (b: u8)
        requires
            self.wf(),
            addr < 0x2000,
        ensures
            b == self.spec_read_ram(addr),
    {
        if self.ram.len() > 0 && self.ram_enabled {
            proof {
                lemma_ram_offset_in_range(
                    self.ram_bank as int,
                    self.header.ram_banks as int,
                    addr as int,
                );
            }
            self.ram[self.ram_bank * RAM_BANK_SIZE + addr as usize]
        } else {
            DISABLED_RAM_VALUE
        }
    }

    /// Write a byte to the external RAM window; dropped where RAM is
    /// absent or disabled.
    pub fn write_ram(&mut self, addr: u16, value: u8)
        requires
            old(self).wf(),
            addr < 0x2000,
        ensures
            final(self).wf(),
            final(self).ram@ == old(self).spec_ram_after_write(addr, value),
            final(self).rom@ == old(self).rom@,
            final(self).rom_bank0 == old(self).rom_bank0,
            final(self).rom_bank1 == old(self).rom_bank1,
            final(self).ram_bank == old(self).ram_bank,
            final(self).ram_enabled == old(self).ram_enabled,
            final(self).header == old(self).header,
    {
        if self.ram.len() > 0 && self.ram_enabled {
            proof {
                lemma_ram_offset_in_range(
                    self.ram_bank as int,
                    self.header.ram_banks as int,
                    addr as int,
                );
            }
            let idx = self.ram_bank * RAM_BANK_SIZE + addr as usize;
            self.ram[idx] = value;
        }
    }
}

/// An in-range bank index and an in-range offset land inside the buffer.
proof fn lemma_bank_offset_in_range(bank: int, banks: int, offset: int)
    requires
        0 <= bank < banks,
        0 <= offset < ROM_BANK_SIZE,
    ensures
        0 <= bank * ROM_BANK_SIZE + offset < banks * ROM_BANK_SIZE,
{
    vstd::arithmetic::mul::lemma_mul_inequality(bank + 1, banks, ROM_BANK_SIZE as int);
    vstd::arithmetic::mul::lemma_mul_is_distributive_add_other_way(
        ROM_BANK_SIZE as int,
        bank,
        1,
    );
    vstd::arithmetic::mul::lemma_mul_nonnegative(bank, ROM_BANK_SIZE as int);
}

/// An in-range RAM bank index and offset land inside the RAM buffer.
proof fn lemma_ram_offset_in_range(bank: int, banks: int, offset: int)
    requires
        0 <= bank < banks,
        0 <= offset < RAM_BANK_SIZE,
    ensures
        0 <= bank * RAM_BANK_SIZE + offset < banks * RAM_BANK_SIZE,
{
    vstd::arithmetic::mul::lemma_mul_inequality(bank + 1, banks, RAM_BANK_SIZE as int);
    vstd::arithmetic::mul::lemma_mul_is_distributive_add_other_way(
        RAM_BANK_SIZE as int,
        bank,
        1,
    );
    vstd::arithmetic::mul::lemma_mul_nonnegative(bank, RAM_BANK_SIZE as int);
}

/// A plain 32 KiB cartridge with no bank controller.
pub struct RomOnly {
    /// The shared cartridge plumbing; both ROM banks are fixed.
    pub cartridge_base: CartridgeBase,
}

impl RomOnly {
    /// Both windows fixed to the only two banks, and RAM enabled exactly
    /// when the header declares any.
    pub open spec fn wf(&self) -> bool {
        &&& self.cartridge_base.wf()
        &&& self.cartridge_base.header.rom_banks == 2
        &&& self.cartridge_base.rom_bank0 == 0
        &&& self.cartridge_base.rom_bank1 == 1
        &&& self.cartridge_base.ram_bank == 0
    }

    /// A ROM-only cartridge; the image must be exactly two banks.
    pub fn new(rom: &[u8], header: Header) -> (r: Result<RomOnly, RomError>)
        requires
            rom@.len() == header.rom_banks * ROM_BANK_SIZE,
            2 <= header.rom_banks <= 512,
            header.ram_banks <= 16,
        ensures
            header.rom_banks != 2 ==> r == Err::<RomOnly, RomError>(
                RomError::Oversized {
                    cartridge_type: header.cartridge_type,
                    found: (header.rom_banks * ROM_BANK_SIZE) as usize,
                },
            ),
            header.rom_banks == 2 ==> r is Ok && ({
                let c = r.get_Ok_0();
                c.wf() && c.cartridge_base.rom@ == rom@ && c.cartridge_base.ram_enabled == (
                header.ram_banks != 0) && c.cartridge_base.header == header
            }),
    {
        if header.rom_banks != 2 {
            return Err(
                RomError::Oversized {
                    cartridge_type: header.cartridge_type,
                    found: header.rom_banks * ROM_BANK_SIZE,
                },
            );
        }
        let ram_banks = header.ram_banks;
        let mut cartridge_base = CartridgeBase::new(rom, header);
        if ram_banks != 0 {
            cartridge_base.ram_enabled = true;
        }
        Ok(RomOnly { cartridge_base })
    }
}

/// A game cartridge: one of the supported controller variants.
pub enum Cartridge {
    /// No controller: a flat 32 KiB ROM window.
    RomOnly(RomOnly),
    /// The first memory-bank controller: 5-bit ROM bank register, 2-bit
    /// RAM bank register, two banking modes.
    Mbc1(Mbc1),
}

/// The four operations a cartridge exposes to the memory management unit,
/// together with its parsed header.
pub trait CartridgeInterface: Sized {
    /// Well-formedness: buffers sized as declared, banks in range.
    spec fn wf(&self) -> bool;

    /// The byte the given ROM-window address reads.
    spec fn spec_read_rom(&self, addr: u16) -> u8;

    /// The byte the given RAM-window address reads.
    spec fn spec_read_ram(&self, addr: u16) -> u8;

    /// How a register write into the ROM range relates the cartridge
    /// before to the cartridge after.
    spec fn write_rom_rel(self, addr: u16, value: u8, post: Self) -> bool;

    /// How a write into the RAM window relates the cartridge before to the
    /// cartridge after.
    spec fn write_ram_rel(self, addr: u16, value: u8, post: Self) -> bool;

    /// Read a byte from the ROM windows.
    fn read_rom(&self, addr: u16) -> (b: u8)
        requires
            self.wf(),
            addr < 0x8000,
        ensures
            b == self.spec_read_rom(addr),
    ;

    /// Interpret a write into the ROM range as a controller register write.
    fn write_rom(&mut self, addr: u16, value: u8)
        requires
            old(self).wf(),
            addr < 0x8000,
        ensures
            final(self).wf(),
            old(self).write_rom_rel(addr, value, *final(self)),
    ;

    /// Read a byte from the external RAM window.
    fn read_ram(&self, addr: u16) -> (b: u8)
        requires
            self.wf(),
            addr < 0x2000,
        ensures
            b == self.spec_read_ram(addr),
    ;

    /// Write a byte to the external RAM window.
    fn write_ram(&mut self, addr: u16, value: u8)
        requires
            old(self).wf(),
            addr < 0x2000,
        ensures
            final(self).wf(),
            old(self).write_ram_rel(addr, value, *final(self)),
    ;

    /// The parsed cartridge header.
    fn header(&self) -> &Header;
}

impl Cartridge {
    /// The shared plumbing of whichever variant this is.
    pub open spec fn spec_base(&self) -> CartridgeBase {
        match self {
            Cartridge::RomOnly(c) => c.cartridge_base,
            Cartridge::Mbc1(c) => c.cartridge_base,
        }
    }
}

impl CartridgeInterface for Cartridge {
    open spec fn wf(&self) -> bool {
        match self {
            Cartridge::RomOnly(c) => c.wf(),
            Cartridge::Mbc1(c) => c.wf(),
        }
    }

    open spec fn spec_read_rom(&self, addr: u16) -> u8 {
        self.spec_base().spec_read_rom(addr)
    }

    open spec fn spec_read_ram(&self, addr: u16) -> u8 {
        self.spec_base().spec_read_ram(addr)
    }

    open spec fn write_rom_rel(self, addr: u16, value: u8, post: Cartridge) -> bool {
        match self {
            Cartridge::RomOnly(c) => post == self,
            Cartridge::Mbc1(c) => post is Mbc1 && c.spec_write_rom_rel(
                addr,
                value,
                post->Mbc1_0,
            ),
        }
    }

    open spec fn write_ram_rel(self, addr: u16, value: u8, post: Cartridge) -> bool {
        &&& post.spec_base().ram@ == self.spec_base().spec_ram_after_write(addr, value)
        &&& post.spec_base().rom@ == self.spec_base().rom@
        &&& post.spec_base().rom_bank0 == self.spec_base().rom_bank0
        &&& post.spec_base().rom_bank1 == self.spec_base().rom_bank1
        &&& post.spec_base().ram_bank == self.spec_base().ram_bank
        &&& post.spec_base().ram_enabled == self.spec_base().ram_enabled
        &&& post.spec_base().header == self.spec_base().header
        &&& (post is RomOnly <==> self is RomOnly)
    }

    fn read_rom(&self, addr: u16) -> (b: u8) {
        match self {
            Cartridge::RomOnly(c) => c.cartridge_base.read_rom(addr),
            Cartridge::Mbc1(c) => c.cartridge_base.read_rom(addr),
        }
    }

    fn write_rom(&mut self, addr: u16, value: u8) {
        match self {
            Cartridge::RomOnly(_) => {
                // A ROM-only cartridge has no registers; the write is
                // dropped.
            },
            Cartridge::Mbc1(c) => {
                c.write_rom(addr, value);
            },
        }
    }

    fn read_ram(&self, addr: u16) -> (b: u8) {
        match self {
            Cartridge::RomOnly(c) => c.cartridge_base.read_ram(addr),
            Cartridge::Mbc1(c) => c.cartridge_base.read_ram(addr),
        }
    }

    fn write_ram(&mut self, addr: u16, value: u8) {
        match self {
            Cartridge::RomOnly(c) => c.cartridge_base.write_ram(addr, value),
            Cartridge::Mbc1(c) => c.cartridge_base.write_ram(addr, value),
        }
    }

    fn header(&self) -> &Header {
        match self {
            Cartridge::RomOnly(c) => &c.cartridge_base.header,
            Cartridge::Mbc1(c) => &c.cartridge_base.header,
        }
    }
}

/// Whether a declared cartridge type is one this crate implements.
pub open spec fn spec_supported_type(t: CartridgeType) -> bool {
    t == CartridgeType::RomOnly || t == CartridgeType::Mbc1 || t == CartridgeType::Mbc1Ram || t
        == CartridgeType::Mbc1RamBattery
}

/// Whether a ROM image passes every load-time check: long enough, its
/// header bytes recognized, its length equal to the declared bank count,
/// its controller implemented, and its size within what that controller
/// supports.
pub open spec fn spec_rom_accepted(rom: Seq<u8>) -> bool {
    &&& rom.len() >= crate::header::MIN_CARTRIDGE_SIZE
    &&& spec_cartridge_type(rom[0x147]) is Ok
    &&& rom[0x148] <= 8
    &&& spec_ram_size_known(rom[0x149])
    &&& rom.len() == spec_rom_banks(rom[0x148]) * ROM_BANK_SIZE
    &&& spec_supported_type(spec_cartridge_type(rom[0x147])->Ok_0)
    &&& (spec_cartridge_type(rom[0x147])->Ok_0 == CartridgeType::RomOnly ==> spec_rom_banks(
        rom[0x148],
    ) == 2)
    &&& (spec_cartridge_type(rom[0x147])->Ok_0 != CartridgeType::RomOnly ==> spec_rom_banks(
        rom[0x148],
    ) <= 128)
}

/// The error a rejected ROM image is reported with: the first load-time
/// check it fails, in the order the checks run.
pub open spec fn spec_rom_error(rom: Seq<u8>) -> RomError {
    if rom.len() < crate::header::MIN_CARTRIDGE_SIZE {
        RomError::Undersized {
            expected: crate::header::MIN_CARTRIDGE_SIZE,
            found: rom.len() as usize,
        }
    } else if spec_cartridge_type(rom[0x147]) is Err {
        spec_cartridge_type(rom[0x147])->Err_0
    } else if rom[0x148] > 8 {
        RomError::UnrecognizedRomSize(rom[0x148])
    } else if !spec_ram_size_known(rom[0x149]) {
        RomError::UnrecognizedRamSize(rom[0x149])
    } else if rom.len() != spec_rom_banks(rom[0x148]) * ROM_BANK_SIZE {
        RomError::Size {
            expected: (spec_rom_banks(rom[0x148]) * ROM_BANK_SIZE) as usize,
            found: rom.len() as usize,
        }
    } else if !spec_supported_type(spec_cartridge_type(rom[0x147])->Ok_0) {
        RomError::UnsupportedCartridgeType(spec_cartridge_type(rom[0x147])->Ok_0)
    } else {
        RomError::Oversized {
            cartridge_type: spec_cartridge_type(rom[0x147])->Ok_0,
            found: (spec_rom_banks(rom[0x148]) * ROM_BANK_SIZE) as usize,
        }
    }
}

/// Load a cartridge from a ROM image.
///
/// Fails exactly when the header does (undersized image, unrecognized
/// type, ROM-size or RAM-size byte), when the image's length disagrees
/// with the declared bank count, when the declared type is recognized but
/// not implemented, or when the image is larger than its controller
/// supports. On success both ROM windows initially show the first 32 KiB
/// of the image.
pub fn new_cartridge(rom: &[u8]) -> (r: Result<Cartridge, RomError>)
    ensures
        r is Ok <==> spec_rom_accepted(rom@),
        !spec_rom_accepted(rom@) ==> r == Err::<Cartridge, RomError>(spec_rom_error(rom@)),
        r is Ok ==> ({
            let c = r.get_Ok_0();
            c.wf() && c.spec_base().rom@ == rom@ && spec_supported_type(
                c.spec_base().header.cartridge_type,
            ) && c.spec_base().rom_bank0 == 0 && c.spec_base().rom_bank1 == 1
        }),
        rom@.len() >= crate::header::MIN_CARTRIDGE_SIZE && spec_cartridge_type(rom@[0x147]) is Ok
            && rom@[0x148] <= 8 && spec_ram_size_known(rom@[0x149]) && rom@.len()
            == spec_rom_banks(rom@[0x148]) * ROM_BANK_SIZE && spec_cartridge_type(
            rom@[0x147],
        ).get_Ok_0() == CartridgeType::RomOnly && spec_rom_banks(rom@[0x148]) == 2 ==> r is Ok
            && r.get_Ok_0() is RomOnly,
        rom@.len() >= crate::header::MIN_CARTRIDGE_SIZE && spec_cartridge_type(rom@[0x147]) is Ok
            && rom@[0x148] <= 8 && spec_ram_size_known(rom@[0x149]) && rom@.len()
            == spec_rom_banks(rom@[0x148]) * ROM_BANK_SIZE && spec_supported_type(
            spec_cartridge_type(rom@[0x147]).get_Ok_0(),
        ) && spec_cartridge_type(rom@[0x147]).get_Ok_0() != CartridgeType::RomOnly
            && spec_rom_banks(rom@[0x148]) <= 128 ==> r is Ok && r.get_Ok_0() is Mbc1,
        rom@.len() >= crate::header::MIN_CARTRIDGE_SIZE && spec_cartridge_type(rom@[0x147]) is Ok
            && rom@[0x148] <= 8 && spec_ram_size_known(rom@[0x149]) && rom@.len()
            != spec_rom_banks(rom@[0x148]) * ROM_BANK_SIZE ==> r == Err::<Cartridge, RomError>(
            RomError::Size {
                expected: (spec_rom_banks(rom@[0x148]) * ROM_BANK_SIZE) as usize,
                found: rom@.len() as usize,
            },
        ),
        rom@.len() >= crate::header::MIN_CARTRIDGE_SIZE && spec_cartridge_type(rom@[0x147]) is Ok
            && rom@[0x148] <= 8 && spec_ram_size_known(rom@[0x149]) && rom@.len()
            == spec_rom_banks(rom@[0x148]) * ROM_BANK_SIZE && !spec_supported_type(
            spec_cartridge_type(rom@[0x147]).get_Ok_0(),
        ) ==> r == Err::<Cartridge, RomError>(
            RomError::UnsupportedCartridgeType(spec_cartridge_type(rom@[0x147]).get_Ok_0()),
        ),
        rom@.len() < crate::header::MIN_CARTRIDGE_SIZE ==> r is Err,
{
    let header = match Header::parse(rom) {
        Ok(h) => h,
        Err(e) => {
            return Err(e);
        },
    };
    if header.rom_banks * ROM_BANK_SIZE != rom.len() {
        return Err(
            RomError::Size { expected: header.rom_banks * ROM_BANK_SIZE, found: rom.len() },
        );
    }
    match header.cartridge_type {
        CartridgeType::RomOnly => match RomOnly::new(rom, header) {
            Ok(c) => Ok(Cartridge::RomOnly(c)),
            Err(e) => Err(e),
        },
        CartridgeType::Mbc1 | CartridgeType::Mbc1Ram | CartridgeType::Mbc1RamBattery => match Mbc1::new(
            rom,
            header,
        ) {
            Ok(c) => Ok(Cartridge::Mbc1(c)),
            Err(e) => Err(e),
        },
        _ => Err(RomError::UnsupportedCartridgeType(header.cartridge_type)),
    }
}

} // verus!
