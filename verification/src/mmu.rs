//! The memory management unit: one total mapping over the 16-bit address
//! space.
//!
//! Every address either reaches a peripheral or is explicitly unmapped:
//! unmapped addresses read a fixed value and drop writes, so no access can
//! fail. While boot mode holds, reads below 0x100 come from the boot ROM
//! overlay instead of the cartridge; the first nonzero write to the bank
//! register at 0xFF50 clears boot mode permanently.

use vstd::prelude::*;

use crate::TCycles;
use crate::apu::APU_REG_START;
use crate::apu::Apu;
use crate::cartridge::Cartridge;
use crate::cartridge::CartridgeInterface;
use crate::cartridge::new_cartridge;
use crate::cartridge::spec_rom_accepted;
use crate::cartridge::spec_rom_error;
use crate::error::BootError;
use crate::error::BootRomError;
use crate::interrupts::Interrupt;
use crate::interrupts::InterruptRegisters;
use crate::io::IoHandler;
use crate::io::JoypadButton;
use crate::io::spec_io_read;
use crate::ppu::Ppu;
use crate::ppu::spec_ppu_reg_read;
use crate::ppu::spec_ppu_reg_written;
use crate::timers::Timers;
use crate::traits::InterruptManager;
use crate::traits::ReadWriteMemory;
use crate::traits::Tick;
use crate::traits::wrap16;

verus! {

/// Bytes of the boot ROM overlay.
pub const BOOT_ROM_SIZE: usize = 256;

/// Bytes of work RAM.
pub const WRAM_SIZE: usize = 8192;

/// Bytes of high RAM.
pub const HRAM_SIZE: usize = 127;

/// The byte an unmapped address reads.
pub const UNMAPPED_READ_VALUE: u8 = 0xFF;

/// The peripheral an address reaches, or its explicit absence.
#[derive(Debug, Clone, Copy, PartialEq, Eq, Structural)]
pub enum MappedAddress {
    /// 0x0000-0x7FFF: cartridge ROM, windowed by the bank controller.
    CartridgeRom,
    /// 0x8000-0x9FFF: video RAM.
    VRam,
    /// 0xA000-0xBFFF: cartridge RAM, windowed by the bank controller.
    ExternalRam,
    /// 0xC000-0xDFFF: work RAM.
    WRam,
    /// 0xE000-0xFDFF: the mirror of work RAM.
    MirrorRam,
    /// 0xFE00-0xFE9F: object attribute memory.
    Oam,
    /// 0xFEA0-0xFEFF: unusable; reads a fixed value, drops writes.
    Unusable,
    /// 0xFF00-0xFF02: joypad and serial registers.
    IoReg,
    /// 0xFF04-0xFF07: timer registers.
    TimerReg,
    /// 0xFF0F and 0xFFFF: the interrupt register pair.
    InterruptReg,
    /// 0xFF10-0xFF3F: sound registers and wavetable.
    ApuReg,
    /// 0xFF40-0xFF4B: pixel-unit registers.
    PpuReg,
    /// 0xFF50: the boot-ROM bank register, write only.
    BankReg,
    /// 0xFF80-0xFFFE: high RAM.
    HRam,
    /// Every hole between the named ranges.
    Unmapped,
}

/// The total address map: which peripheral each address reaches.
pub open spec fn spec_region(addr: u16) -> MappedAddress {
    if addr < 0x8000 {
        MappedAddress::CartridgeRom
    } else if addr < 0xA000 {
        MappedAddress::VRam
    } else if addr < 0xC000 {
        MappedAddress::ExternalRam
    } else if addr < 0xE000 {
        MappedAddress::WRam
    } else if addr < 0xFE00 {
        MappedAddress::MirrorRam
    } else if addr < 0xFEA0 {
        MappedAddress::Oam
    } else if addr < 0xFF00 {
        MappedAddress::Unusable
    } else if addr <= 0xFF02 {
        MappedAddress::IoReg
    } else if 0xFF04 <= addr && addr <= 0xFF07 {
        MappedAddress::TimerReg
    } else if addr == 0xFF0F || addr == 0xFFFF {
        MappedAddress::InterruptReg
    } else if 0xFF10 <= addr && addr <= 0xFF3F {
        MappedAddress::ApuReg
    } else if 0xFF40 <= addr && addr <= 0xFF4B {
        MappedAddress::PpuReg
    } else if addr == 0xFF50 {
        MappedAddress::BankReg
    } else if 0xFF80 <= addr && addr <= 0xFFFE {
        MappedAddress::HRam
    } else {
        MappedAddress::Unmapped
    }
}

/// The peripheral an address reaches.
pub fn region_of(addr: u16) -> (r: MappedAddress)
    ensures
        r == spec_region(addr),
{
    if addr < 0x8000 {
        MappedAddress::CartridgeRom
    } else if addr < 0xA000 {
        MappedAddress::VRam
    } else if addr < 0xC000 {
        MappedAddress::ExternalRam
    } else if addr < 0xE000 {
        MappedAddress::WRam
    } else if addr < 0xFE00 {
        MappedAddress::MirrorRam
    } else if addr < 0xFEA0 {
        MappedAddress::Oam
    } else if addr < 0xFF00 {
        MappedAddress::Unusable
    } else if addr <= 0xFF02 {
        MappedAddress::IoReg
    } else if 0xFF04 <= addr && addr <= 0xFF07 {
        MappedAddress::TimerReg
    } else if addr == 0xFF0F || addr == 0xFFFF {
        MappedAddress::InterruptReg
    } else if 0xFF10 <= addr && addr <= 0xFF3F {
        MappedAddress::ApuReg
    } else if 0xFF40 <= addr && addr <= 0xFF4B {
        MappedAddress::PpuReg
    } else if addr == 0xFF50 {
        MappedAddress::BankReg
    } else if 0xFF80 <= addr && addr <= 0xFFFE {
        MappedAddress::HRam
    } else {
        MappedAddress::Unmapped
    }
}

/// The mapping is total: every address of the 16-bit space falls in
/// exactly one row of the map, and the holes are exactly the named
/// unmapped addresses.
pub proof fn lemma_mapping_total(addr: u16)
    ensures
        addr <= 0x7FFF <==> spec_region(addr) == MappedAddress::CartridgeRom,
        0x8000 <= addr <= 0x9FFF <==> spec_region(addr) == MappedAddress::VRam,
        0xA000 <= addr <= 0xBFFF <==> spec_region(addr) == MappedAddress::ExternalRam,
        0xC000 <= addr <= 0xDFFF <==> spec_region(addr) == MappedAddress::WRam,
        0xE000 <= addr <= 0xFDFF <==> spec_region(addr) == MappedAddress::MirrorRam,
        0xFE00 <= addr <= 0xFE9F <==> spec_region(addr) == MappedAddress::Oam,
        0xFEA0 <= addr <= 0xFEFF <==> spec_region(addr) == MappedAddress::Unusable,
        0xFF00 <= addr <= 0xFF02 <==> spec_region(addr) == MappedAddress::IoReg,
        0xFF04 <= addr <= 0xFF07 <==> spec_region(addr) == MappedAddress::TimerReg,
        addr == 0xFF0F || addr == 0xFFFF <==> spec_region(addr) == MappedAddress::InterruptReg,
        0xFF10 <= addr <= 0xFF3F <==> spec_region(addr) == MappedAddress::ApuReg,
        0xFF40 <= addr <= 0xFF4B <==> spec_region(addr) == MappedAddress::PpuReg,
        addr == 0xFF50 <==> spec_region(addr) == MappedAddress::BankReg,
        0xFF80 <= addr <= 0xFFFE <==> spec_region(addr) == MappedAddress::HRam,
        spec_region(addr) == MappedAddress::Unmapped <==> (addr == 0xFF03 || (0xFF08 <= addr
            <= 0xFF0E) || (0xFF4C <= addr <= 0xFF4F) || (0xFF51 <= addr <= 0xFF7F)),
{
}

/// The memory management unit.
pub struct Mmu {
    /// The boot ROM overlay.
    pub boot_rom: Vec<u8>,
    /// While set, reads below 0x100 come from the boot ROM.
    pub boot_mode: bool,
    /// The game cartridge.
    pub cartridge: Cartridge,
    /// Work RAM.
    pub wram: Vec<u8>,
    /// High RAM.
    pub hram: Vec<u8>,
    /// Joypad and serial registers.
    pub io: IoHandler,
    /// The interrupt register pair.
    pub ints: InterruptRegisters,
    /// The timer block.
    pub timers: Timers,
    /// The pixel unit.
    pub ppu: Ppu,
    /// The sound unit's register file.
    pub apu: Apu,
}

impl Mmu {
    /// Load a console memory system: the cartridge from `rom` and the
    /// overlay from `boot_rom`, which must be exactly 256 bytes.
    pub fn new(rom: &[u8], boot_rom: &[u8]) -> (r: Result<Mmu, BootError>)
        ensures
            boot_rom@.len() != BOOT_ROM_SIZE ==> r == Err::<Mmu, BootError>(
                BootError::BootRomError(
                    BootRomError::Size {
                        expected: BOOT_ROM_SIZE,
                        found: boot_rom@.len() as usize,
                    },
                ),
            ),
            r is Ok <==> boot_rom@.len() == BOOT_ROM_SIZE && spec_rom_accepted(rom@),
            boot_rom@.len() == BOOT_ROM_SIZE && !spec_rom_accepted(rom@) ==> r == Err::<
                Mmu,
                BootError,
            >(BootError::RomError(spec_rom_error(rom@))),
            r is Ok ==> ({
                let m = r.get_Ok_0();
                m.inv() && m.boot_mode && m.boot_rom@ == boot_rom@
                    && m.cartridge.spec_base().rom@ == rom@ && m.cartridge.spec_base().rom_bank0
                    == 0 && m.cartridge.spec_base().rom_bank1 == 1 && m.io.joy == 0 && m.io.sb == 0
                    && m.io.sc == 0 && m.io.sent_bytes@ == Seq::<u8>::empty() && m.ints == (InterruptRegisters { reg_ie: 0u8, reg_if: 0u8 }) && m.timers
                    == (Timers { system_clock: 0u16, tima: 0u8, tma: 0u8, tac: 0u8 }) && (forall|
                    i: int,
                |
                    0 <= i < WRAM_SIZE ==> m.wram@[i] == 0u8) && (forall|i: int|
                    0 <= i < HRAM_SIZE ==> m.hram@[i] == 0u8)
            }),
    {
        if boot_rom.len() != BOOT_ROM_SIZE {
            return Err(
                BootError::BootRomError(
                    BootRomError::Size { expected: BOOT_ROM_SIZE, found: boot_rom.len() },
                ),
            );
        }
        let cartridge = match new_cartridge(rom) {
            Ok(c) => c,
            Err(e) => {
                return Err(BootError::RomError(e));
            },
        };
        let mut boot_copy: Vec<u8> = Vec::new();
        let mut i: usize = 0;
        while i < boot_rom.len()
            invariant
                i <= boot_rom@.len(),
                boot_copy@.len() == i,
                forall|j: int| 0 <= j < i ==> boot_copy@[j] == boot_rom@[j],
            decreases boot_rom@.len() - i,
        {
            boot_copy.push(boot_rom[i]);
            i = i + 1;
        }
        proof {
            assert(boot_copy@ =~= boot_rom@);
        }
        let mut wram: Vec<u8> = Vec::new();
        let mut w: usize = 0;
        while w < WRAM_SIZE
            invariant
                w <= WRAM_SIZE,
                wram@.len() == w,
                forall|j: int| 0 <= j < w ==> wram@[j] == 0u8,
            decreases WRAM_SIZE - w,
        {
            wram.push(0);
            w = w + 1;
        }
        let mut hram: Vec<u8> = Vec::new();
        let mut h: usize = 0;
        while h < HRAM_SIZE
            invariant
                h <= HRAM_SIZE,
                hram@.len() == h,
                forall|j: int| 0 <= j < h ==> hram@[j] == 0u8,
            decreases HRAM_SIZE - h,
        {
            hram.push(0);
            h = h + 1;
        }
        Ok(
            Mmu {
                boot_rom: boot_copy,
                boot_mode: true,
                cartridge,
                wram,
                hram,
                io: IoHandler::new(),
                ints: InterruptRegisters::new(),
                timers: Timers::new(),
                ppu: Ppu::new(),
                apu: Apu::new(),
            },
        )
    }

    /// Record a button press on the joypad.
    pub fn button_pressed(&mut self, button: JoypadButton)
        ensures
            *final(self) == (Mmu { io: final(self).io, ..*old(self) }),
            final(self).io == (IoHandler {
                joypad: old(self).io.joypad.spec_with(button, true),
                ..old(self).io
            }),
    {
        self.io.button_pressed(button);
    }

    /// Record a button release on the joypad.
    pub fn button_released(&mut self, button: JoypadButton)
        ensures
            *final(self) == (Mmu { io: final(self).io, ..*old(self) }),
            final(self).io == (IoHandler {
                joypad: old(self).io.joypad.spec_with(button, false),
                ..old(self).io
            }),
    {
        self.io.button_released(button);
    }
}

/// How a write relates the memory system before to the one after: the
/// addressed peripheral absorbs the value as its own rules say, and every
/// other part is unchanged. A nonzero write to the bank register clears
/// boot mode; writes to unmapped and unusable addresses are dropped.
pub open spec fn spec_mmu_write_rel(pre: Mmu, addr: u16, value: u8, post: Mmu) -> bool {
    let region = spec_region(addr);
    &&& post.boot_rom@ == pre.boot_rom@
    &&& post.boot_mode == (pre.boot_mode && !(addr == 0xFF50 && value != 0))
    &&& (if region == MappedAddress::CartridgeRom {
        pre.cartridge.write_rom_rel(addr, value, post.cartridge)
    } else if region == MappedAddress::ExternalRam {
        pre.cartridge.write_ram_rel((addr - 0xA000) as u16, value, post.cartridge)
    } else {
        post.cartridge == pre.cartridge
    })
    &&& post.wram@ == (if region == MappedAddress::WRam {
        pre.wram@.update(addr - 0xC000, value)
    } else if region == MappedAddress::MirrorRam {
        pre.wram@.update(addr - 0xE000, value)
    } else {
        pre.wram@
    })
    &&& post.hram@ == (if region == MappedAddress::HRam {
        pre.hram@.update(addr - 0xFF80, value)
    } else {
        pre.hram@
    })
    &&& post.io == (if region == MappedAddress::IoReg {
        if addr == 0xFF00 {
            IoHandler { joy: (value / 16 % 4 * 16) as u8, ..pre.io }
        } else if addr == 0xFF01 {
            IoHandler { sb: value, ..pre.io }
        } else {
            IoHandler { sc: (value % 2 + value / 128 * 128) as u8, ..pre.io }
        }
    } else {
        pre.io
    })
    &&& (post.timers, post.ints) == (if region == MappedAddress::TimerReg {
        let written = crate::timers::spec_timers_write(pre.timers, addr, value);
        (
            written.0,
            if written.1 {
                pre.ints.spec_if_set(Interrupt::Timer)
            } else {
                pre.ints
            },
        )
    } else if region == MappedAddress::InterruptReg {
        (pre.timers, pre.ints.spec_write(addr, value))
    } else {
        (pre.timers, pre.ints)
    })
    &&& post.ppu == (if region == MappedAddress::VRam {
        crate::ppu::Ppu { vram: post.ppu.vram, ..pre.ppu }
    } else if region == MappedAddress::Oam {
        crate::ppu::Ppu { oam: post.ppu.oam, ..pre.ppu }
    } else if region == MappedAddress::PpuReg {
        spec_ppu_reg_written(pre.ppu, addr, value)
    } else {
        pre.ppu
    })
    &&& post.ppu.vram@ == (if region == MappedAddress::VRam {
        pre.ppu.vram@.update(addr - 0x8000, value)
    } else {
        pre.ppu.vram@
    })
    &&& post.ppu.oam@ == (if region == MappedAddress::Oam {
        pre.ppu.oam@.update(addr - 0xFE00, value)
    } else {
        pre.ppu.oam@
    })
    &&& post.apu.regs@ == (if region == MappedAddress::ApuReg {
        pre.apu.regs@.update(addr - APU_REG_START, value)
    } else {
        pre.apu.regs@
    })
}

/// Boot mode latches: once cleared it can never be set again, it is
/// cleared exactly by a nonzero write to the bank register at 0xFF50, and
/// later writes there are no-ops.
pub proof fn lemma_boot_mode_latch(pre: Mmu, addr: u16, value: u8, post: Mmu)
    requires
        spec_mmu_write_rel(pre, addr, value, post),
    ensures
        post.boot_mode == (pre.boot_mode && !(addr == 0xFF50 && value != 0)),
        !pre.boot_mode ==> !post.boot_mode,
        pre.boot_mode && !(addr == 0xFF50 && value != 0) ==> post.boot_mode,
{
}

impl ReadWriteMemory for Mmu {
    open spec fn inv(&self) -> bool {
        &&& self.boot_rom@.len() == BOOT_ROM_SIZE
        &&& self.cartridge.wf()
        &&& self.wram@.len() == WRAM_SIZE
        &&& self.hram@.len() == HRAM_SIZE
        &&& self.io.wf()
        &&& self.ints.wf()
        &&& self.timers.wf()
        &&& self.ppu.wf()
        &&& self.apu.wf()
    }

    open spec fn spec_read(&self, addr: u16) -> u8 {
        let region = spec_region(addr);
        if region == MappedAddress::CartridgeRom {
            if self.boot_mode && addr < 0x100 {
                self.boot_rom@[addr as int]
            } else {
                self.cartridge.spec_read_rom(addr)
            }
        } else if region == MappedAddress::VRam {
            self.ppu.vram@[addr - 0x8000]
        } else if region == MappedAddress::ExternalRam {
            self.cartridge.spec_read_ram((addr - 0xA000) as u16)
        } else if region == MappedAddress::WRam {
            self.wram@[addr - 0xC000]
        } else if region == MappedAddress::MirrorRam {
            self.wram@[addr - 0xE000]
        } else if region == MappedAddress::Oam {
            self.ppu.oam@[addr - 0xFE00]
        } else if region == MappedAddress::IoReg {
            spec_io_read(self.io, addr)
        } else if region == MappedAddress::TimerReg {
            crate::timers::spec_timers_read(self.timers, addr)
        } else if region == MappedAddress::InterruptReg {
            self.ints.spec_read(addr)
        } else if region == MappedAddress::ApuReg {
            self.apu.spec_reg_read(addr)
        } else if region == MappedAddress::PpuReg {
            spec_ppu_reg_read(self.ppu, addr)
        } else if region == MappedAddress::HRam {
            self.hram@[addr - 0xFF80]
        } else {
            UNMAPPED_READ_VALUE
        }
    }

    open spec fn write_rel(self, addr: u16, value: u8, post: Mmu) -> bool {
        spec_mmu_write_rel(self, addr, value, post)
    }

    open spec fn write2_rel(self, addr: u16, value: u16, post: Mmu) -> bool {
        exists|mid: Mmu|
            #[trigger] spec_mmu_write_rel(self, addr, (value % 256) as u8, mid)
                && spec_mmu_write_rel(mid, wrap16(addr + 1), (value / 256) as u8, post)
    }

    fn read(&self, addr: u16) -> (b: u8) {
        match region_of(addr) {
            MappedAddress::CartridgeRom => {
                if self.boot_mode && addr < 0x100 {
                    self.boot_rom[addr as usize]
                } else {
                    self.cartridge.read_rom(addr)
                }
            },
            MappedAddress::VRam => self.ppu.vram_read(addr - 0x8000),
            MappedAddress::ExternalRam => self.cartridge.read_ram(addr - 0xA000),
            MappedAddress::WRam => self.wram[(addr - 0xC000) as usize],
            MappedAddress::MirrorRam => self.wram[(addr - 0xE000) as usize],
            MappedAddress::Oam => self.ppu.oam_read(addr - 0xFE00),
            MappedAddress::Unusable => UNMAPPED_READ_VALUE,
            MappedAddress::IoReg => self.io.read(addr),
            MappedAddress::TimerReg => self.timers.read(addr),
            MappedAddress::InterruptReg => self.ints.read(addr),
            MappedAddress::ApuReg => self.apu.reg_read(addr),
            MappedAddress::PpuReg => self.ppu.reg_read(addr),
            MappedAddress::BankReg => UNMAPPED_READ_VALUE,
            MappedAddress::HRam => self.hram[(addr - 0xFF80) as usize],
            MappedAddress::Unmapped => UNMAPPED_READ_VALUE,
        }
    }

    fn write(&mut self, addr: u16, value: u8) {
        match region_of(addr) {
            MappedAddress::CartridgeRom => {
                self.cartridge.write_rom(addr, value);
            },
            MappedAddress::VRam => {
                self.ppu.vram_write(addr - 0x8000, value);
            },
            MappedAddress::ExternalRam => {
                self.cartridge.write_ram(addr - 0xA000, value);
            },
            MappedAddress::WRam => {
                let idx = (addr - 0xC000) as usize;
                self.wram[idx] = value;
                proof {
                    assert(self.wram@ =~= old(self).wram@.update(addr - 0xC000, value));
                }
            },
            MappedAddress::MirrorRam => {
                let idx = (addr - 0xE000) as usize;
                self.wram[idx] = value;
                proof {
                    assert(self.wram@ =~= old(self).wram@.update(addr - 0xE000, value));
                }
            },
            MappedAddress::Oam => {
                self.ppu.oam_write(addr - 0xFE00, value);
            },
            MappedAddress::Unusable => {
            },
            MappedAddress::IoReg => {
                self.io.write(addr, value);
            },
            MappedAddress::TimerReg => {
                let timers = &mut self.timers;
                let ints = &mut self.ints;
                timers.write(addr, value, ints);
            },
            MappedAddress::InterruptReg => {
                self.ints.write(addr, value);
            },
            MappedAddress::ApuReg => {
                self.apu.reg_write(addr, value);
            },
            MappedAddress::PpuReg => {
                self.ppu.reg_write(addr, value);
            },
            MappedAddress::BankReg => {
                if value != 0 {
                    self.boot_mode = false;
                }
            },
            MappedAddress::HRam => {
                let idx = (addr - 0xFF80) as usize;
                self.hram[idx] = value;
                proof {
                    assert(self.hram@ =~= old(self).hram@.update(addr - 0xFF80, value));
                }
            },
            MappedAddress::Unmapped => {
            },
        }
    }

    fn read_u16(&self, addr: u16) -> (v: u16) {
        let lo = self.read(addr);
        let hi = self.read(crate::dummy_mmu::wrap_add1(addr));
        lo as u16 + 256 * (hi as u16)
    }

    fn write_u16(&mut self, addr: u16, value: u16) {
        self.write(addr, (value % 256) as u8);
        self.write(crate::dummy_mmu::wrap_add1(addr), (value / 256) as u8);
    }
}

impl Tick for Mmu {
    open spec fn tick_rel(self, cycles: TCycles, post: Mmu) -> bool {
        &&& (post.timers, post.ints) == crate::timers::spec_tick_n(
            self.timers,
            self.ints,
            cycles as int,
        )
        &&& (if self.io.sc == 0x81 && cycles >= 4 {
            post.io.sent_bytes@ == self.io.sent_bytes@.push(self.io.sb) && post.io.sb == 0
                && post.io.sc == 1 && post.io.joy == self.io.joy && post.io.joypad
                == self.io.joypad && post.io.remaining_cycles == self.io.remaining_cycles
        } else {
            post.io == self.io
        })
    &&& post.boot_rom@ == self.boot_rom@
    &&& post.boot_mode == self.boot_mode
    &&& post.cartridge == self.cartridge
    &&& post.wram@ == self.wram@
    &&& post.hram@ == self.hram@
    &&& post.ppu == self.ppu
    &&& post.apu == self.apu
    }

    fn tick(&mut self, cycles: TCycles) {
        self.io.tick(cycles);
        let timers = &mut self.timers;
        let ints = &mut self.ints;
        timers.tick(cycles, ints);
    }
}

impl InterruptManager for Mmu {
    open spec fn ie_bits(&self) -> u8 {
        self.ints.reg_ie
    }

    open spec fn if_bits(&self) -> u8 {
        self.ints.reg_if
    }

    fn if_set(&mut self, interrupt: Interrupt) {
        self.ints.if_set(interrupt);
    }

    fn if_reset(&mut self, interrupt: Interrupt) {
        self.ints.if_reset(interrupt);
    }

    fn priority_interrupt(&mut self) -> (r: Option<Interrupt>) {
        self.ints.priority_interrupt()
    }
}

} // verus!
