//! The first memory-bank controller.
//!
//! Internal state: a 5-bit ROM bank register, a 2-bit RAM bank register
//! and a 1-bit banking mode. A mask derived from the ROM bank count
//! restricts the ROM bank register to the meaningful low bits. Writes into
//! the ROM address range steer the two ROM windows and the RAM window; the
//! composed bank indices are reduced into the header-declared counts, and
//! the high ROM window never lands on a bank whose low five bits are zero.

use vstd::prelude::*;

use crate::cartridge::CartridgeBase;
use crate::cartridge::ROM_BANK_SIZE;
use crate::error::RomError;
use crate::header::Header;

verus! {

/// The ROM bank counts this controller supports.
pub open spec fn spec_mbc1_bank_count(n: int) -> bool {
    n == 2 || n == 4 || n == 8 || n == 16 || n == 32 || n == 64 || n == 128
}

/// The mask restricting the ROM bank register to the bits the bank count
/// makes meaningful.
pub open spec fn spec_rom_mask(rom_banks: int) -> u8 {
    if rom_banks == 2 {
        1u8
    } else if rom_banks == 4 {
        3u8
    } else if rom_banks == 8 {
        7u8
    } else if rom_banks == 16 {
        15u8
    } else {
        31u8
    }
}

/// The RAM bank count after the controller's consistency adjustments: it
/// supports at most 4 banks, and not together with a large ROM.
pub open spec fn spec_mbc1_ram_banks(rom_banks: int, ram_banks: int) -> int {
    if ram_banks > 4 {
        if rom_banks >= 64 {
            1
        } else {
            4
        }
    } else if rom_banks >= 64 && ram_banks == 4 {
        1
    } else {
        ram_banks
    }
}

/// The low ROM window: bank 0 in simple mode; in advanced mode, bank 0 on
/// a large-RAM cartridge and the RAM bank register shifted into the high
/// bank bits otherwise, reduced into the bank count.
pub open spec fn spec_mbc1_bank0(
    advanced: bool,
    large_ram: bool,
    ram_reg: u8,
    rom_banks: int,
) -> int {
    if !advanced {
        0
    } else if large_ram {
        0
    } else {
        (ram_reg * 32) % rom_banks
    }
}

/// The high ROM window: the masked ROM bank register, bumped to 1 where
/// the masked value is zero, with the RAM bank register shifted in on a
/// large-ROM cartridge, reduced into the bank count.
pub open spec fn spec_mbc1_bank1(
    rom_reg: u8,
    mask: u8,
    large_rom: bool,
    ram_reg: u8,
    rom_banks: int,
) -> int {
    let m = rom_reg as int % (mask + 1);
    let b: int = if m == 0 {
        1
    } else {
        m
    };
    let b2: int = if large_rom {
        b + ram_reg * 32
    } else {
        b
    };
    b2 % rom_banks
}

/// The RAM window: bank 0 in simple mode and on large-ROM cartridges, the
/// RAM bank register otherwise.
pub open spec fn spec_mbc1_ram_bank(advanced: bool, large_rom: bool, ram_reg: u8) -> int {
    if !advanced {
        0
    } else if large_rom {
        0
    } else {
        ram_reg as int
    }
}

/// The first memory-bank controller.
pub struct Mbc1 {
    /// The shared cartridge plumbing.
    pub cartridge_base: CartridgeBase,
    /// 5-bit ROM bank register.
    pub rom_bank_reg: u8,
    /// Mask restricting the ROM bank register to the meaningful low bits.
    pub rom_bank_mask: u8,
    /// 2-bit RAM bank register, doubling as the upper ROM bank bits.
    pub ram_bank_reg: u8,
    /// Banking mode: simple when false, advanced when true.
    pub bank_mode_advanced: bool,
    /// The ROM has 64 banks or more.
    pub large_rom: bool,
    /// The cartridge has 4 RAM banks.
    pub large_ram: bool,
}

impl Mbc1 {
    /// The controller's registers are within their widths, the derived
    /// flags and mask agree with the header, the composed banks agree with
    /// the registers, and the high ROM window never has all-zero low bank
    /// bits.
    pub open spec fn wf(&self) -> bool {
        &&& self.cartridge_base.wf()
        &&& spec_mbc1_bank_count(self.cartridge_base.header.rom_banks as int)
        &&& self.rom_bank_reg < 32
        &&& self.ram_bank_reg < 4
        &&& self.rom_bank_mask == spec_rom_mask(self.cartridge_base.header.rom_banks as int)
        &&& self.large_rom == (self.cartridge_base.header.rom_banks >= 64)
        &&& self.large_ram == (self.cartridge_base.header.ram_banks == 4 && !self.large_rom)
        &&& (!(self.large_ram || self.large_rom) ==> self.ram_bank_reg == 0)
        &&& self.cartridge_base.header.ram_banks <= 4
        &&& self.cartridge_base.rom_bank0 == spec_mbc1_bank0(
            self.bank_mode_advanced,
            self.large_ram,
            self.ram_bank_reg,
            self.cartridge_base.header.rom_banks as int,
        )
        &&& self.cartridge_base.rom_bank1 == spec_mbc1_bank1(
            self.rom_bank_reg,
            self.rom_bank_mask,
            self.large_rom,
            self.ram_bank_reg,
            self.cartridge_base.header.rom_banks as int,
        )
        &&& self.cartridge_base.ram_bank == spec_mbc1_ram_bank(
            self.bank_mode_advanced,
            self.large_rom,
            self.ram_bank_reg,
        )
        &&& self.cartridge_base.rom_bank1 % 32 != 0
    }

    /// A controller over the given image; the image may not exceed 128
    /// banks.
    pub fn new(rom: &[u8], header: Header) -> (r: Result<Mbc1, RomError>)
        requires
            rom@.len() == header.rom_banks * ROM_BANK_SIZE,
            spec_mbc1_bank_count(header.rom_banks as int) || header.rom_banks == 256
                || header.rom_banks == 512,
            header.ram_banks == 0 || header.ram_banks == 1 || header.ram_banks == 4
                || header.ram_banks == 8 || header.ram_banks == 16,
        ensures
            header.rom_banks > 128 ==> r == Err::<Mbc1, RomError>(
                RomError::Oversized {
                    cartridge_type: header.cartridge_type,
                    found: (header.rom_banks * ROM_BANK_SIZE) as usize,
                },
            ),
            header.rom_banks <= 128 ==> r is Ok && ({
                let c = r.get_Ok_0();
                c.wf() && c.cartridge_base.rom@ == rom@ && c.cartridge_base.rom_bank0 == 0
                    && c.cartridge_base.rom_bank1 == 1 && c.cartridge_base.ram_bank == 0
                    && !c.cartridge_base.ram_enabled && c.rom_bank_reg == 0 && c.ram_bank_reg == 0
                    && !c.bank_mode_advanced
                    && c.cartridge_base.header.ram_banks == spec_mbc1_ram_banks(
                    header.rom_banks as int,
                    header.ram_banks as int,
                ) && c.cartridge_base.header.rom_banks == header.rom_banks
                    && c.cartridge_base.header.cartridge_type == header.cartridge_type
            }),
    {
        if header.rom_banks > 128 {
            return Err(
                RomError::Oversized {
                    cartridge_type: header.cartridge_type,
                    found: header.rom_banks * ROM_BANK_SIZE,
                },
            );
        }
        let mut header = header;
        let large_rom = header.rom_banks >= 64;
        let large_ram: bool = if header.ram_banks > 4 {
            if large_rom {
                header.ram_banks = 1;
                false
            } else {
                header.ram_banks = 4;
                true
            }
        } else if large_rom && header.ram_banks == 4 {
            header.ram_banks = 1;
            false
        } else {
            header.ram_banks == 4
        };
        let rom_bank_mask: u8 = match header.rom_banks {
            2 => 1,
            4 => 3,
            8 => 7,
            16 => 15,
            _ => 31,
        };
        let cartridge_base = CartridgeBase::new(rom, header);
        Ok(
            Mbc1 {
                cartridge_base,
                rom_bank_reg: 0,
                rom_bank_mask,
                ram_bank_reg: 0,
                bank_mode_advanced: false,
                large_rom,
                large_ram,
            },
        )
    }

    /// How a register write relates the controller before to the
    /// controller after: the addressed register takes the value's low
    /// bits, and all three windows are recomposed.
    pub open spec fn spec_write_rom_rel(self, addr: u16, value: u8, post: Mbc1) -> bool {
        let rom_reg = if 0x2000 <= addr < 0x4000 {
            (value % 32) as u8
        } else {
            self.rom_bank_reg
        };
        let ram_reg = if 0x4000 <= addr < 0x6000 {
            if self.large_ram || self.large_rom {
                (value % 4) as u8
            } else {
                0u8
            }
        } else {
            self.ram_bank_reg
        };
        let advanced = if 0x6000 <= addr < 0x8000 {
            if self.large_ram || self.large_rom {
                value % 2 == 1
            } else {
                self.bank_mode_advanced
            }
        } else {
            self.bank_mode_advanced
        };
        let enabled = if addr < 0x2000 {
            value % 16 == 0x0A && self.cartridge_base.header.ram_banks != 0
        } else {
            self.cartridge_base.ram_enabled
        };
        &&& post.rom_bank_reg == rom_reg
        &&& post.ram_bank_reg == ram_reg
        &&& post.bank_mode_advanced == advanced
        &&& post.cartridge_base.ram_enabled == enabled
        &&& post.rom_bank_mask == self.rom_bank_mask
        &&& post.large_rom == self.large_rom
        &&& post.large_ram == self.large_ram
        &&& post.cartridge_base.rom@ == self.cartridge_base.rom@
        &&& post.cartridge_base.ram@ == self.cartridge_base.ram@
        &&& post.cartridge_base.header == self.cartridge_base.header
        &&& post.cartridge_base.rom_bank0 == spec_mbc1_bank0(
            advanced,
            self.large_ram,
            ram_reg,
            self.cartridge_base.header.rom_banks as int,
        )
        &&& post.cartridge_base.rom_bank1 == spec_mbc1_bank1(
            rom_reg,
            self.rom_bank_mask,
            self.large_rom,
            ram_reg,
            self.cartridge_base.header.rom_banks as int,
        )
        &&& post.cartridge_base.ram_bank == spec_mbc1_ram_bank(
            advanced,
            self.large_rom,
            ram_reg,
        )
    }

    /// Decode a register write and recompose the three windows.
    pub fn write_rom(&mut self, addr: u16, value: u8)
        requires
            old(self).wf(),
            addr < 0x8000,
        ensures
            final(self).wf(),
            old(self).spec_write_rom_rel(addr, value, *final(self)),
    {
        if addr < 0x2000 {
            let enable = value % 16 == 0x0A;
            if enable && self.cartridge_base.header.ram_banks != 0 {
                self.cartridge_base.ram_enabled = true;
            } else {
                self.cartridge_base.ram_enabled = false;
            }
        } else if addr < 0x4000 {
            self.rom_bank_reg = value % 32;
        } else if addr < 0x6000 {
            self.ram_bank_reg = if self.large_ram || self.large_rom {
                value % 4
            } else {
                0
            };
        } else {
            if self.large_ram || self.large_rom {
                self.bank_mode_advanced = value % 2 == 1;
            }
        }
        self.update_banks();
    }

    /// Recompose the three windows from the current register values.
    fn update_banks(&mut self)
        requires
            old(self).cartridge_base.wf(),
            spec_mbc1_bank_count(old(self).cartridge_base.header.rom_banks as int),
            old(self).rom_bank_reg < 32,
            old(self).ram_bank_reg < 4,
            old(self).rom_bank_mask == spec_rom_mask(
                old(self).cartridge_base.header.rom_banks as int,
            ),
            old(self).large_rom == (old(self).cartridge_base.header.rom_banks >= 64),
            old(self).large_ram == (old(self).cartridge_base.header.ram_banks == 4 && !old(self).large_rom),
            (!(old(self).large_ram || old(self).large_rom) ==> old(self).ram_bank_reg == 0),
            old(self).cartridge_base.header.ram_banks <= 4,
        ensures
            final(self).wf(),
            *final(self) == (Mbc1 {
                cartridge_base: CartridgeBase {
                    rom_bank0: final(self).cartridge_base.rom_bank0,
                    rom_bank1: final(self).cartridge_base.rom_bank1,
                    ram_bank: final(self).cartridge_base.ram_bank,
                    ..old(self).cartridge_base
                },
                ..*old(self)
            }),
            final(self).cartridge_base.rom_bank0 == spec_mbc1_bank0(
                old(self).bank_mode_advanced,
                old(self).large_ram,
                old(self).ram_bank_reg,
                old(self).cartridge_base.header.rom_banks as int,
            ),
            final(self).cartridge_base.rom_bank1 == spec_mbc1_bank1(
                old(self).rom_bank_reg,
                old(self).rom_bank_mask,
                old(self).large_rom,
                old(self).ram_bank_reg,
                old(self).cartridge_base.header.rom_banks as int,
            ),
            final(self).cartridge_base.ram_bank == spec_mbc1_ram_bank(
                old(self).bank_mode_advanced,
                old(self).large_rom,
                old(self).ram_bank_reg,
            ),
    {
        self.update_rom_bank0();
        self.update_rom_bank1();
        self.update_ram_bank();
        proof {
            lemma_bank1_in_range(
                self.rom_bank_reg,
                self.rom_bank_mask,
                self.large_rom,
                self.ram_bank_reg,
                self.cartridge_base.header.rom_banks as int,
            );
        }
    }

    /// Recompose the low ROM window.
    fn update_rom_bank0(&mut self)
        requires
            old(self).cartridge_base.wf(),
            old(self).ram_bank_reg < 4,
        ensures
            *final(self) == (Mbc1 {
                cartridge_base: CartridgeBase {
                    rom_bank0: final(self).cartridge_base.rom_bank0,
                    ..old(self).cartridge_base
                },
                ..*old(self)
            }),
            final(self).cartridge_base.rom_bank0 == spec_mbc1_bank0(
                old(self).bank_mode_advanced,
                old(self).large_ram,
                old(self).ram_bank_reg,
                old(self).cartridge_base.header.rom_banks as int,
            ),
            final(self).cartridge_base.rom_bank0 < final(self).cartridge_base.header.rom_banks,
    {
        let banks = self.cartridge_base.header.rom_banks;
        self.cartridge_base.rom_bank0 = if !self.bank_mode_advanced {
            0
        } else if self.large_ram {
            0
        } else {
            (self.ram_bank_reg as usize * 32) % banks
        };
    }

    /// Recompose the high ROM window.
    fn update_rom_bank1(&mut self)
        requires
            old(self).cartridge_base.wf(),
            old(self).rom_bank_reg < 32,
            old(self).ram_bank_reg < 4,
            old(self).rom_bank_mask <= 31,
        ensures
            *final(self) == (Mbc1 {
                cartridge_base: CartridgeBase {
                    rom_bank1: final(self).cartridge_base.rom_bank1,
                    ..old(self).cartridge_base
                },
                ..*old(self)
            }),
            final(self).cartridge_base.rom_bank1 == spec_mbc1_bank1(
                old(self).rom_bank_reg,
                old(self).rom_bank_mask,
                old(self).large_rom,
                old(self).ram_bank_reg,
                old(self).cartridge_base.header.rom_banks as int,
            ),
            final(self).cartridge_base.rom_bank1 < final(self).cartridge_base.header.rom_banks,
    {
        let masked = self.rom_bank_reg % (self.rom_bank_mask + 1);
        let mut bank: usize = masked as usize;
        if masked == 0 {
            bank = 1;
        }
        if self.large_rom {
            bank = bank + self.ram_bank_reg as usize * 32;
        }
        let banks = self.cartridge_base.header.rom_banks;
        self.cartridge_base.rom_bank1 = bank % banks;
    }

    /// Recompose the RAM window.
    fn update_ram_bank(&mut self)
        requires
            old(self).cartridge_base.wf(),
            old(self).ram_bank_reg < 4,
            old(self).large_ram == (old(self).cartridge_base.header.ram_banks == 4 && !old(self).large_rom),
            (!(old(self).large_ram || old(self).large_rom) ==> old(self).ram_bank_reg == 0),
        ensures
            *final(self) == (Mbc1 {
                cartridge_base: CartridgeBase {
                    ram_bank: final(self).cartridge_base.ram_bank,
                    ..old(self).cartridge_base
                },
                ..*old(self)
            }),
            final(self).cartridge_base.ram_bank == spec_mbc1_ram_bank(
                old(self).bank_mode_advanced,
                old(self).large_rom,
                old(self).ram_bank_reg,
            ),
            final(self).cartridge_base.header.ram_banks == 0 ==> final(self).cartridge_base.ram_bank == 0,
            final(self).cartridge_base.header.ram_banks > 0 ==> final(self).cartridge_base.ram_bank < final(self).cartridge_base.header.ram_banks,
    {
        self.cartridge_base.ram_bank = if !self.bank_mode_advanced {
            0
        } else if self.large_rom {
            0
        } else {
            self.ram_bank_reg as usize
        };
    }
}

/// The composed high ROM window lies below the bank count and never has
/// all-zero low bank bits.
proof fn lemma_bank1_in_range(rom_reg: u8, mask: u8, large_rom: bool, ram_reg: u8, rom_banks: int)
    requires
        spec_mbc1_bank_count(rom_banks),
        rom_banks <= 128,
        mask == spec_rom_mask(rom_banks),
        large_rom == (rom_banks >= 64),
        rom_reg < 32,
        ram_reg < 4,
    ensures
        0 < spec_mbc1_bank1(rom_reg, mask, large_rom, ram_reg, rom_banks) || spec_mbc1_bank1(
            rom_reg,
            mask,
            large_rom,
            ram_reg,
            rom_banks,
        ) % 32 != 0,
        spec_mbc1_bank1(rom_reg, mask, large_rom, ram_reg, rom_banks) % 32 != 0,
        0 <= spec_mbc1_bank1(rom_reg, mask, large_rom, ram_reg, rom_banks) < rom_banks,
{
    let m = rom_reg as int % (mask + 1);
    let b: int = if m == 0 {
        1
    } else {
        m
    };
    let b2: int = if large_rom {
        b + ram_reg * 32
    } else {
        b
    };
    assert(1 <= b <= mask);
    if !large_rom {
        assert(mask < rom_banks);
        vstd::arithmetic::div_mod::lemma_small_mod(b as nat, rom_banks as nat);
        vstd::arithmetic::div_mod::lemma_small_mod(b as nat, 32nat);
    } else {
        assert(1 <= b <= 31);
        let r = ram_reg as int;
        assert(b2 == b + r * 32);
        if rom_banks == 128 {
            vstd::arithmetic::div_mod::lemma_small_mod(b2 as nat, 128nat);
            assert(b2 % 128 == b2);
            vstd::arithmetic::div_mod::lemma_mod_multiples_vanish(r, b, 32);
            assert(b2 % 32 == b % 32);
            vstd::arithmetic::div_mod::lemma_small_mod(b as nat, 32nat);
        } else {
            assert(rom_banks == 64);
            if r == 0 || r == 1 {
                vstd::arithmetic::div_mod::lemma_small_mod(b2 as nat, 64nat);
                assert(b2 % 64 == b2);
                vstd::arithmetic::div_mod::lemma_mod_multiples_vanish(r, b, 32);
                vstd::arithmetic::div_mod::lemma_small_mod(b as nat, 32nat);
            } else {
                assert(b2 == b + (r - 2) * 32 + 64);
                vstd::arithmetic::div_mod::lemma_mod_add_multiples_vanish(
                    b + (r - 2) * 32,
                    64,
                );
                vstd::arithmetic::div_mod::lemma_small_mod((b + (r - 2) * 32) as nat, 64nat);
                assert(b2 % 64 == b + (r - 2) * 32);
                vstd::arithmetic::div_mod::lemma_mod_multiples_vanish(r - 2, b, 32);
                vstd::arithmetic::div_mod::lemma_small_mod(b as nat, 32nat);
            }
        }
    }
}

} // verus!
