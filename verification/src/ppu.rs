//! The pixel unit's memory face and a plain background renderer.
//!
//! The real renderer is an external collaborator; the core models its
//! register file, video RAM and object attribute memory, and renders the
//! scrolled background so a host can present a screen. Polling the screen
//! is a pure read: it advances nothing.

use vstd::prelude::*;

use crate::TCycles;
use crate::interrupts::InterruptRegisters;

verus! {

/// Screen width in pixels.
pub const DISPLAY_WIDTH: usize = 160;

/// Screen height in pixels.
pub const DISPLAY_HEIGHT: usize = 144;

/// Bytes of video RAM.
pub const VRAM_SIZE: usize = 8192;

/// Bytes of object attribute memory.
pub const OAM_SIZE: usize = 160;

/// One of the four shades the screen can show.
#[derive(Debug, Clone, Copy, PartialEq, Eq, Structural)]
pub enum Color {
    White,
    LightGray,
    DarkGray,
    Black,
}

/// The shade a 2-bit color number denotes.
pub open spec fn spec_color(v: int) -> Color {
    if v == 0 {
        Color::White
    } else if v == 1 {
        Color::LightGray
    } else if v == 2 {
        Color::DarkGray
    } else {
        Color::Black
    }
}

/// The shade the background palette assigns to a 2-bit color index.
pub open spec fn spec_palette_color(bgp: u8, idx: int) -> Color {
    if idx == 0 {
        spec_color(bgp as int % 4)
    } else if idx == 1 {
        spec_color(bgp as int / 4 % 4)
    } else if idx == 2 {
        spec_color(bgp as int / 16 % 4)
    } else {
        spec_color(bgp as int / 64 % 4)
    }
}

/// The weight of pixel column `xo` inside a tile row byte: leftmost pixel
/// first.
pub open spec fn spec_px_weight(xo: int) -> int {
    if xo == 0 {
        128
    } else if xo == 1 {
        64
    } else if xo == 2 {
        32
    } else if xo == 3 {
        16
    } else if xo == 4 {
        8
    } else if xo == 5 {
        4
    } else if xo == 6 {
        2
    } else {
        1
    }
}

/// The pixel unit: registers, video RAM and object attribute memory.
pub struct Ppu {
    /// LCD control (0xFF40).
    pub lcdc: u8,
    /// LCD status (0xFF41).
    pub stat: u8,
    /// Background scroll Y (0xFF42).
    pub scy: u8,
    /// Background scroll X (0xFF43).
    pub scx: u8,
    /// Current scanline (0xFF44, read-only).
    pub ly: u8,
    /// Scanline compare (0xFF45).
    pub lyc: u8,
    /// Sprite DMA source page (0xFF46).
    pub dma: u8,
    /// Background palette (0xFF47).
    pub bgp: u8,
    /// First object palette (0xFF48).
    pub obp0: u8,
    /// Second object palette (0xFF49).
    pub obp1: u8,
    /// Window Y (0xFF4A).
    pub wy: u8,
    /// Window X (0xFF4B).
    pub wx: u8,
    /// Video RAM.
    pub vram: Vec<u8>,
    /// Object attribute memory.
    pub oam: Vec<u8>,
}

/// The shade of one pixel of a background tile.
pub open spec fn spec_bg_tile_pixel(ppu: Ppu, tile_index: u8, xo: int, yo: int) -> Color {
    let tile_addr: int = if ppu.lcdc / 16 % 2 == 1 {
        tile_index * 16
    } else {
        0x800 + tile_index * 16
    };
    let lsb = ppu.vram@[tile_addr + yo * 2] as int / spec_px_weight(xo) % 2;
    let msb = ppu.vram@[tile_addr + yo * 2 + 1] as int / spec_px_weight(xo) % 2;
    spec_palette_color(ppu.bgp, 2 * msb + lsb)
}

/// The shade of the background at scrolled coordinates; a disabled LCD
/// shows black.
pub open spec fn spec_bg_pixel(ppu: Ppu, x: u8, y: u8) -> Color {
    if ppu.lcdc / 128 % 2 == 1 {
        let base: int = if ppu.lcdc / 8 % 2 == 1 {
            0x1C00
        } else {
            0x1800
        };
        let map_addr = base + (y / 8) * 32 + x / 8;
        spec_bg_tile_pixel(ppu, ppu.vram@[map_addr], x as int % 8, y as int % 8)
    } else {
        Color::Black
    }
}

/// The byte a pixel-unit register reads; any unmatched address reads WX
/// (the dispatcher never passes one).
pub open spec fn spec_ppu_reg_read(ppu: Ppu, addr: u16) -> u8 {
    if addr == 0xFF40 {
        ppu.lcdc
    } else if addr == 0xFF41 {
        ppu.stat
    } else if addr == 0xFF42 {
        ppu.scy
    } else if addr == 0xFF43 {
        ppu.scx
    } else if addr == 0xFF44 {
        ppu.ly
    } else if addr == 0xFF45 {
        ppu.lyc
    } else if addr == 0xFF46 {
        ppu.dma
    } else if addr == 0xFF47 {
        ppu.bgp
    } else if addr == 0xFF48 {
        ppu.obp0
    } else if addr == 0xFF49 {
        ppu.obp1
    } else if addr == 0xFF4A {
        ppu.wy
    } else {
        ppu.wx
    }
}

/// The pixel unit after a register write; LY is read-only, so writes to
/// it are dropped.
pub open spec fn spec_ppu_reg_written(ppu: Ppu, addr: u16, value: u8) -> Ppu {
    if addr == 0xFF40 {
        Ppu { lcdc: value, ..ppu }
    } else if addr == 0xFF41 {
        Ppu { stat: value, ..ppu }
    } else if addr == 0xFF42 {
        Ppu { scy: value, ..ppu }
    } else if addr == 0xFF43 {
        Ppu { scx: value, ..ppu }
    } else if addr == 0xFF44 {
        ppu
    } else if addr == 0xFF45 {
        Ppu { lyc: value, ..ppu }
    } else if addr == 0xFF46 {
        Ppu { dma: value, ..ppu }
    } else if addr == 0xFF47 {
        Ppu { bgp: value, ..ppu }
    } else if addr == 0xFF48 {
        Ppu { obp0: value, ..ppu }
    } else if addr == 0xFF49 {
        Ppu { obp1: value, ..ppu }
    } else if addr == 0xFF4A {
        Ppu { wy: value, ..ppu }
    } else if addr == 0xFF4B {
        Ppu { wx: value, ..ppu }
    } else {
        ppu
    }
}

impl Ppu {
    /// Video RAM and object attribute memory have their full sizes.
    pub open spec fn wf(&self) -> bool {
        self.vram@.len() == VRAM_SIZE && self.oam@.len() == OAM_SIZE
    }

    /// A pixel unit with cleared memory. The scanline register starts
    /// inside the vertical blank so boot code that waits for it can
    /// proceed.
    pub fn new() -> (r: Ppu)
        ensures
            r.wf(),
            r.lcdc == 0 && r.stat == 0 && r.scy == 0 && r.scx == 0 && r.ly == 0x90 && r.lyc == 0
                && r.dma == 0 && r.bgp == 0 && r.obp0 == 0 && r.obp1 == 0 && r.wy == 0 && r.wx
                == 0,
            forall|i: int| 0 <= i < VRAM_SIZE ==> r.vram@[i] == 0u8,
            forall|i: int| 0 <= i < OAM_SIZE ==> r.oam@[i] == 0u8,
    {
        let mut vram: Vec<u8> = Vec::new();
        let mut i: usize = 0;
        while i < VRAM_SIZE
            invariant
                i <= VRAM_SIZE,
                vram@.len() == i,
                forall|j: int| 0 <= j < i ==> vram@[j] == 0u8,
            decreases VRAM_SIZE - i,
        {
            vram.push(0);
            i = i + 1;
        }
        let mut oam: Vec<u8> = Vec::new();
        let mut k: usize = 0;
        while k < OAM_SIZE
            invariant
                k <= OAM_SIZE,
                oam@.len() == k,
                forall|j: int| 0 <= j < k ==> oam@[j] == 0u8,
            decreases OAM_SIZE - k,
        {
            oam.push(0);
            k = k + 1;
        }
        Ppu {
            lcdc: 0,
            stat: 0,
            scy: 0,
            scx: 0,
            ly: 0x90,
            lyc: 0,
            dma: 0,
            bgp: 0,
            obp0: 0,
            obp1: 0,
            wy: 0,
            wx: 0,
            vram,
            oam,
        }
    }

    /// Read a byte of video RAM.
    pub fn vram_read(&self, addr: u16) -> (b: u8)
        requires
            self.wf(),
            addr < VRAM_SIZE,
        ensures
            b == self.vram@[addr as int],
    {
        self.vram[addr as usize]
    }

    /// Write a byte of video RAM.
    pub fn vram_write(&mut self, addr: u16, value: u8)
        requires
            old(self).wf(),
            addr < VRAM_SIZE,
        ensures
            final(self).wf(),
            *final(self) == (Ppu { vram: final(self).vram, ..*old(self) }),
            final(self).vram@ == old(self).vram@.update(addr as int, value),
    {
        self.vram[addr as usize] = value;
    }

    /// Read a byte of object attribute memory.
    pub fn oam_read(&self, addr: u16) -> (b: u8)
        requires
            self.wf(),
            addr < OAM_SIZE,
        ensures
            b == self.oam@[addr as int],
    {
        self.oam[addr as usize]
    }

    /// Write a byte of object attribute memory.
    pub fn oam_write(&mut self, addr: u16, value: u8)
        requires
            old(self).wf(),
            addr < OAM_SIZE,
        ensures
            final(self).wf(),
            *final(self) == (Ppu { oam: final(self).oam, ..*old(self) }),
            final(self).oam@ == old(self).oam@.update(addr as int, value),
    {
        self.oam[addr as usize] = value;
    }

    /// Read a pixel-unit register.
    pub fn reg_read(&self, addr: u16) -> (b: u8)
        ensures
            b == spec_ppu_reg_read(*self, addr),
    {
        if addr == 0xFF40 {
            self.lcdc
        } else if addr == 0xFF41 {
            self.stat
        } else if addr == 0xFF42 {
            self.scy
        } else if addr == 0xFF43 {
            self.scx
        } else if addr == 0xFF44 {
            self.ly
        } else if addr == 0xFF45 {
            self.lyc
        } else if addr == 0xFF46 {
            self.dma
        } else if addr == 0xFF47 {
            self.bgp
        } else if addr == 0xFF48 {
            self.obp0
        } else if addr == 0xFF49 {
            self.obp1
        } else if addr == 0xFF4A {
            self.wy
        } else {
            self.wx
        }
    }

    /// Write a pixel-unit register; the scanline register is read-only.
    pub fn reg_write(&mut self, addr: u16, value: u8)
        requires
            old(self).wf(),
        ensures
            final(self).wf(),
            *final(self) == spec_ppu_reg_written(*old(self), addr, value),
    {
        if addr == 0xFF40 {
            self.lcdc = value;
        } else if addr == 0xFF41 {
            self.stat = value;
        } else if addr == 0xFF42 {
            self.scy = value;
        } else if addr == 0xFF43 {
            self.scx = value;
        } else if addr == 0xFF44 {
            // LY is read-only.
        } else if addr == 0xFF45 {
            self.lyc = value;
        } else if addr == 0xFF46 {
            self.dma = value;
        } else if addr == 0xFF47 {
            self.bgp = value;
        } else if addr == 0xFF48 {
            self.obp0 = value;
        } else if addr == 0xFF49 {
            self.obp1 = value;
        } else if addr == 0xFF4A {
            self.wy = value;
        } else if addr == 0xFF4B {
            self.wx = value;
        }
    }

    /// Advance the pixel unit; the plain renderer keeps no timing state.
    pub fn tick(&mut self, cycles: TCycles, ints: &mut InterruptRegisters)
        ensures
            *final(self) == *old(self),
            *final(ints) == *old(ints),
    {
    }

    /// The shade of one pixel of one background tile.
    fn bg_tile_pixel_color(&self, tile_index: u8, x_offset: u8, y_offset: u8) -> (c: Color)
        requires
            self.wf(),
            x_offset < 8,
            y_offset < 8,
        ensures
            c == spec_bg_tile_pixel(*self, tile_index, x_offset as int, y_offset as int),
    {
        let tile_addr: usize = if self.lcdc / 16 % 2 == 1 {
            tile_index as usize * 16
        } else {
            0x800 + tile_index as usize * 16
        };
        let weight: u8 = match x_offset {
            0 => 128,
            1 => 64,
            2 => 32,
            3 => 16,
            4 => 8,
            5 => 4,
            6 => 2,
            _ => 1,
        };
        let lsb = self.vram[tile_addr + y_offset as usize * 2] / weight % 2;
        let msb = self.vram[tile_addr + y_offset as usize * 2 + 1] / weight % 2;
        let idx = 2 * msb + lsb;
        let shade: u8 = if idx == 0 {
            self.bgp % 4
        } else if idx == 1 {
            self.bgp / 4 % 4
        } else if idx == 2 {
            self.bgp / 16 % 4
        } else {
            self.bgp / 64 % 4
        };
        if shade == 0 {
            Color::White
        } else if shade == 1 {
            Color::LightGray
        } else if shade == 2 {
            Color::DarkGray
        } else {
            Color::Black
        }
    }

    /// The shade of the background at scrolled coordinates.
    fn bg_pixel_color(&self, x: u8, y: u8) -> (c: Color)
        requires
            self.wf(),
        ensures
            c == spec_bg_pixel(*self, x, y),
    {
        if self.lcdc / 128 % 2 == 1 {
            let base: usize = if self.lcdc / 8 % 2 == 1 {
                0x1C00
            } else {
                0x1800
            };
            let map_addr = base + y as usize / 8 * 32 + x as usize / 8;
            let tile_index = self.vram[map_addr];
            self.bg_tile_pixel_color(tile_index, x % 8, y % 8)
        } else {
            Color::Black
        }
    }

    /// Render the scrolled background: one shade per screen pixel, row by
    /// row. A pure read; polling the screen advances nothing.
    pub fn screen(&self) -> (r: Vec<Color>)
        requires
            self.wf(),
        ensures
            r@.len() == DISPLAY_WIDTH * DISPLAY_HEIGHT,
            forall|y: int, x: int|
                0 <= y < DISPLAY_HEIGHT && 0 <= x < DISPLAY_WIDTH ==> #[trigger] r@[y
                    * DISPLAY_WIDTH + x]
                    == spec_bg_pixel(
                    *self,
                    ((self.scx + x) % 256) as u8,
                    ((self.scy + y) % 256) as u8,
                ),
    {
        let mut screen: Vec<Color> = Vec::new();
        let mut y: usize = 0;
        while y < DISPLAY_HEIGHT
            invariant
                self.wf(),
                y <= DISPLAY_HEIGHT,
                screen@.len() == y * DISPLAY_WIDTH,
                forall|yy: int, xx: int|
                    0 <= yy < y && 0 <= xx < DISPLAY_WIDTH ==> #[trigger] screen@[yy
                        * DISPLAY_WIDTH + xx] == spec_bg_pixel(
                        *self,
                        ((self.scx + xx) % 256) as u8,
                        ((self.scy + yy) % 256) as u8,
                    ),
            decreases DISPLAY_HEIGHT - y,
        {
            let mut x: usize = 0;
            while x < DISPLAY_WIDTH
                invariant
                    self.wf(),
                    y < DISPLAY_HEIGHT,
                    x <= DISPLAY_WIDTH,
                    screen@.len() == y * DISPLAY_WIDTH + x,
                    forall|yy: int, xx: int|
                        0 <= yy < y && 0 <= xx < DISPLAY_WIDTH ==> #[trigger] screen@[yy
                            * DISPLAY_WIDTH + xx] == spec_bg_pixel(
                            *self,
                            ((self.scx + xx) % 256) as u8,
                            ((self.scy + yy) % 256) as u8,
                        ),
                    forall|xx: int|
                        0 <= xx < x ==> #[trigger] screen@[y * DISPLAY_WIDTH + xx]
                            == spec_bg_pixel(
                            *self,
                            ((self.scx + xx) % 256) as u8,
                            ((self.scy + y) % 256) as u8,
                        ),
                decreases DISPLAY_WIDTH - x,
            {
                let px = ((self.scx as usize + x) % 256) as u8;
                let py = ((self.scy as usize + y) % 256) as u8;
                screen.push(self.bg_pixel_color(px, py));
                x = x + 1;
            }
            y = y + 1;
        }
        screen
    }
}

} // verus!
