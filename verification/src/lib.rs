//! Core of an emulator for the original monochrome 8-bit handheld game
//! console: the CPU with its densely encoded instruction set, the memory
//! management unit that dispatches a 16-bit address space to peripherals,
//! and the cartridge memory-bank controllers.
//!
//! The graphics renderer, sound unit, windowing and input subsystems are
//! external collaborators; only their register files and memory windows are
//! modelled here.

use vstd::prelude::*;

pub mod bits;
pub mod flags;
pub mod instruction;
pub mod opcode;
pub mod encode;
pub mod traits;
pub mod interrupts;
pub mod dummy_mmu;
pub mod cpu;
pub mod alu;
pub mod execute;
pub mod error;
pub mod text;
pub mod header;
pub mod cartridge;
pub mod mbc1;
pub mod timers;
pub mod io;
pub mod apu;
pub mod ppu;
pub mod mmu;
pub mod state;
pub mod gb;
pub mod laws;

verus! {

/// All timing in this crate is counted in T-cycles, ticks of the console's
/// 4.194304 MHz clock.
pub type TCycles = i64;

} // verus!
