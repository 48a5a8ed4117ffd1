//! The console: a CPU wired to the real memory system.

use vstd::prelude::*;

use crate::TCycles;
use crate::cpu::Cpu;
use crate::error::BootError;
use crate::io::JoypadButton;
use crate::mmu::Mmu;
use crate::cartridge::spec_rom_accepted;
use crate::cartridge::spec_rom_error;
use crate::error::BootRomError;
use crate::execute::spec_step_rel;
use crate::flags::FlagsRegister;
use crate::state::PollState;
use crate::state::State;
use crate::traits::ReadWriteMemory;

verus! {

/// The emulated console.
pub struct GameBoy {
    /// The CPU driving the memory system.
    pub cpu: Cpu<Mmu>,
    /// The snapshot observers read.
    pub state: State,
}

impl GameBoy {
    /// The console is sound: its memory system is well formed.
    pub open spec fn inv(&self) -> bool {
        self.cpu.mmu.inv()
    }

    /// Bring a console up from a cartridge ROM image and a 256-byte boot
    /// ROM.
    ///
    /// Succeeds exactly when the boot ROM is 256 bytes and the cartridge
    /// image passes every load-time check; a rejected image is reported
    /// with the first check it fails. On success the boot overlay is
    /// mapped, the whole register file and the cycle counter are zero, and
    /// interrupts are masked.
    pub fn new(rom: &[u8], boot_rom: &[u8]) -> (r: Result<GameBoy, BootError>)
        ensures
            r is Ok <==> boot_rom@.len() == crate::mmu::BOOT_ROM_SIZE && spec_rom_accepted(rom@),
            boot_rom@.len() != crate::mmu::BOOT_ROM_SIZE ==> r == Err::<GameBoy, BootError>(
                BootError::BootRomError(
                    BootRomError::Size {
                        expected: crate::mmu::BOOT_ROM_SIZE,
                        found: boot_rom@.len() as usize,
                    },
                ),
            ),
            boot_rom@.len() == crate::mmu::BOOT_ROM_SIZE && !spec_rom_accepted(rom@) ==> r
                == Err::<GameBoy, BootError>(BootError::RomError(spec_rom_error(rom@))),
            r is Ok ==> ({
                let gb = r.get_Ok_0();
                gb.inv() && gb.cpu.mmu.boot_mode && gb.cpu.mmu.boot_rom@ == boot_rom@
                    && gb.cpu.mmu.cartridge.spec_base().rom@ == rom@ && gb.cpu.a == 0 && gb.cpu.b
                    == 0 && gb.cpu.c == 0 && gb.cpu.d == 0 && gb.cpu.e == 0 && gb.cpu.h == 0
                    && gb.cpu.l == 0 && gb.cpu.f == (FlagsRegister {
                    z: false,
                    n: false,
                    h: false,
                    c: false,
                }) && gb.cpu.sp == 0 && gb.cpu.pc == 0 && gb.cpu.rw_cycles == 0 && !gb.cpu.ime
                    && !gb.cpu.ei_delayed && !gb.cpu.halted
            }),
    {
        let mmu = match Mmu::new(rom, boot_rom) {
            Ok(m) => m,
            Err(e) => {
                return Err(e);
            },
        };
        Ok(GameBoy { cpu: Cpu::new(mmu), state: State::new() })
    }

    /// Execute one instruction, or one interrupt dispatch, and return the
    /// T-cycles it consumed: a positive multiple of four, at least the
    /// memory-access cycles it recorded. What the step does to the
    /// registers, flags, latches and memory is exactly what
    /// `spec_step_rel` says of the decoded bytes at the program counter.
    pub fn step(&mut self) -> (r: TCycles)
        requires
            old(self).inv(),
        ensures
            final(self).inv(),
            4 <= r,
            r % 4 == 0,
            0 <= final(self).cpu.rw_cycles <= r,
            final(self).cpu.rw_cycles % 4 == 0,
            final(self).cpu.f.spec_bits() % 16 == 0,
            spec_step_rel(old(self).cpu, r, final(self).cpu),
    {
        self.cpu.step()
    }

    /// The current program counter.
    pub fn pc(&self) -> (r: u16)
        ensures
            r == self.cpu.pc,
    {
        self.cpu.pc
    }

    /// Refresh and borrow the observer snapshot. A pure read of the core:
    /// polling advances no cycles, and the returned snapshot mirrors the
    /// registers, flags, bank state, RAM copies and serial log exactly as
    /// the poller's contract says.
    pub fn state(&mut self) -> (r: &State)
        requires
            old(self).inv(),
        ensures
            final(self).inv(),
            final(self).cpu == old(self).cpu,
            *r == final(self).state,
            old(self).cpu.poll_rel(old(self).state, final(self).state),
    {
        let cpu = &self.cpu;
        let state = &mut self.state;
        cpu.poll_state(state);
        &self.state
    }

    /// How many instructions the observer snapshot's disassembly window
    /// holds.
    pub fn set_instruction_buffer_size(&mut self, buffer_size: usize)
        ensures
            final(self).cpu == old(self).cpu,
            final(self).state.instruction_buffer_size == buffer_size,
    {
        self.state.instruction_buffer_size = buffer_size;
    }

    /// Record a button press on the joypad.
    pub fn button_pressed(&mut self, button: JoypadButton)
        requires
            old(self).inv(),
        ensures
            final(self).inv(),
    {
        self.cpu.mmu.button_pressed(button);
    }

    /// Record a button release on the joypad.
    pub fn button_released(&mut self, button: JoypadButton)
        requires
            old(self).inv(),
        ensures
            final(self).inv(),
    {
        self.cpu.mmu.button_released(button);
    }
}

} // verus!
