//! Joypad matrix read-back and the serial-transfer stub.
//!
//! The joypad register stores only its two select bits; the low four bits
//! are computed on every read from the pressed buttons of the selected
//! half of the matrix, pressed reading as zero. The serial stub deposits
//! the data register into a transmit log once a started transfer has been
//! ticked for a machine cycle.

use vstd::prelude::*;

use crate::TCycles;

verus! {

/// One of the eight joypad buttons.
#[derive(Debug, Clone, Copy, PartialEq, Eq, Structural)]
pub enum JoypadButton {
    Up,
    Down,
    Left,
    Right,
    A,
    B,
    Start,
    Select,
}

/// Which buttons are currently held.
#[derive(Debug, Clone, Copy, PartialEq, Eq, Structural)]
pub struct Joypad {
    pub up: bool,
    pub down: bool,
    pub left: bool,
    pub right: bool,
    pub a: bool,
    pub b: bool,
    pub start: bool,
    pub select: bool,
}

impl Joypad {
    /// No button held.
    pub fn new() -> (r: Joypad)
        ensures
            r == (Joypad {
                up: false,
                down: false,
                left: false,
                right: false,
                a: false,
                b: false,
                start: false,
                select: false,
            }),
    {
        Joypad {
            up: false,
            down: false,
            left: false,
            right: false,
            a: false,
            b: false,
            start: false,
            select: false,
        }
    }

    /// The pad with the given button held.
    pub open spec fn spec_with(self, button: JoypadButton, held: bool) -> Joypad {
        match button {
            JoypadButton::Up => Joypad { up: held, ..self },
            JoypadButton::Down => Joypad { down: held, ..self },
            JoypadButton::Left => Joypad { left: held, ..self },
            JoypadButton::Right => Joypad { right: held, ..self },
            JoypadButton::A => Joypad { a: held, ..self },
            JoypadButton::B => Joypad { b: held, ..self },
            JoypadButton::Start => Joypad { start: held, ..self },
            JoypadButton::Select => Joypad { select: held, ..self },
        }
    }

    /// Record a button press.
    pub fn button_pressed(&mut self, button: JoypadButton)
        ensures
            *final(self) == old(self).spec_with(button, true),
    {
        match button {
            JoypadButton::Up => self.up = true,
            JoypadButton::Down => self.down = true,
            JoypadButton::Left => self.left = true,
            JoypadButton::Right => self.right = true,
            JoypadButton::A => self.a = true,
            JoypadButton::B => self.b = true,
            JoypadButton::Start => self.start = true,
            JoypadButton::Select => self.select = true,
        }
    }

    /// Record a button release.
    pub fn button_released(&mut self, button: JoypadButton)
        ensures
            *final(self) == old(self).spec_with(button, false),
    {
        match button {
            JoypadButton::Up => self.up = false,
            JoypadButton::Down => self.down = false,
            JoypadButton::Left => self.left = false,
            JoypadButton::Right => self.right = false,
            JoypadButton::A => self.a = false,
            JoypadButton::B => self.b = false,
            JoypadButton::Start => self.start = false,
            JoypadButton::Select => self.select = false,
        }
    }
}

/// Zero where the button is held (pressed buttons read low), the bit
/// value otherwise.
pub open spec fn spec_released_bit(held: bool, weight: u8) -> u8 {
    if held {
        0u8
    } else {
        weight
    }
}

/// The joypad and serial-transfer handler.
pub struct IoHandler {
    /// The joypad register's stored part: bits 4 and 5 only.
    pub joy: u8,
    /// Serial transfer data (address 0xFF01).
    pub sb: u8,
    /// Serial transfer control (address 0xFF02): bits 7 and 0 only.
    pub sc: u8,
    /// Every byte sent over the serial port, in order.
    pub sent_bytes: Vec<u8>,
    /// T-cycles accumulated toward the running transfer.
    pub remaining_cycles: TCycles,
    /// Which buttons are held.
    pub joypad: Joypad,
}

/// The computed joypad register: the stored select bits over the selected
/// half of the button matrix, pressed buttons reading as zero.
pub open spec fn spec_joy_value(io: IoHandler) -> u8 {
    if io.joy / 32 % 2 == 0 {
        (io.joy + spec_released_bit(io.joypad.start, 8) + spec_released_bit(io.joypad.select, 4)
            + spec_released_bit(io.joypad.b, 2) + spec_released_bit(io.joypad.a, 1)) as u8
    } else if io.joy / 16 % 2 == 0 {
        (io.joy + spec_released_bit(io.joypad.down, 8) + spec_released_bit(io.joypad.up, 4)
            + spec_released_bit(io.joypad.left, 2) + spec_released_bit(io.joypad.right, 1)) as u8
    } else {
        io.joy
    }
}

/// The byte an I/O register reads; any unmatched address reads the serial
/// control register (the dispatcher never passes one).
pub open spec fn spec_io_read(io: IoHandler, addr: u16) -> u8 {
    if addr == 0xFF00 {
        spec_joy_value(io)
    } else if addr == 0xFF01 {
        io.sb
    } else {
        io.sc
    }
}

impl IoHandler {
    /// The stored joypad bits are only the two select bits, the serial
    /// control keeps only its start and clock bits, and no transfer cycles
    /// are carried between ticks.
    pub open spec fn wf(&self) -> bool {
        &&& self.joy % 16 == 0 && self.joy < 64
        &&& self.sc == 0 || self.sc == 1 || self.sc == 0x80 || self.sc == 0x81
        &&& self.remaining_cycles == 0
    }

    /// A handler with cleared registers, an empty transmit log and no
    /// button held.
    pub fn new() -> (r: IoHandler)
        ensures
            r.wf(),
            r.joy == 0 && r.sb == 0 && r.sc == 0,
            r.sent_bytes@.len() == 0,
            r.joypad == (Joypad {
                up: false,
                down: false,
                left: false,
                right: false,
                a: false,
                b: false,
                start: false,
                select: false,
            }),
    {
        IoHandler {
            joy: 0,
            sb: 0,
            sc: 0,
            sent_bytes: Vec::new(),
            remaining_cycles: 0,
            joypad: Joypad::new(),
        }
    }

    /// Read an I/O register.
    pub fn read(&self, addr: u16) -> (b: u8)
        requires
            self.wf(),
        ensures
            b == spec_io_read(*self, addr),
    {
        if addr == 0xFF00 {
            self.compute_joy()
        } else if addr == 0xFF01 {
            self.sb
        } else {
            self.sc
        }
    }

    /// Write an I/O register: the joypad keeps only its select bits, the
    /// serial control only its start and clock bits.
    pub fn write(&mut self, addr: u16, value: u8)
        requires
            old(self).wf(),
        ensures
            final(self).wf(),
            addr == 0xFF00 ==> *final(self) == (IoHandler {
                joy: (value / 16 % 4 * 16) as u8,
                ..*old(self)
            }),
            addr == 0xFF01 ==> *final(self) == (IoHandler { sb: value, ..*old(self) }),
            addr != 0xFF00 && addr != 0xFF01 ==> *final(self) == (IoHandler {
                sc: (value % 2 + value / 128 * 128) as u8,
                ..*old(self)
            }),
    {
        if addr == 0xFF00 {
            self.joy = value / 16 % 4 * 16;
        } else if addr == 0xFF01 {
            self.sb = value;
        } else {
            self.sc = value % 2 + value / 128 * 128;
        }
    }

    /// The low four bits computed from the selected half of the matrix.
    fn compute_joy(&self) -> (v: u8)
        requires
            self.wf(),
        ensures
            v == spec_joy_value(*self),
    {
        let mut value = self.joy;
        if self.joy / 32 % 2 == 0 {
            value = value + (if self.joypad.start {
                0
            } else {
                8
            });
            value = value + (if self.joypad.select {
                0
            } else {
                4
            });
            value = value + (if self.joypad.b {
                0
            } else {
                2
            });
            value = value + (if self.joypad.a {
                0
            } else {
                1
            });
        } else if self.joy / 16 % 2 == 0 {
            value = value + (if self.joypad.down {
                0
            } else {
                8
            });
            value = value + (if self.joypad.up {
                0
            } else {
                4
            });
            value = value + (if self.joypad.left {
                0
            } else {
                2
            });
            value = value + (if self.joypad.right {
                0
            } else {
                1
            });
        }
        value
    }

    /// Advance the serial stub: a started transfer that has been ticked a
    /// full machine cycle deposits the data byte into the transmit log,
    /// clears it, and drops the control register's start bit.
    pub fn tick(&mut self, cycles: TCycles)
        requires
            old(self).wf(),
            cycles >= 0,
        ensures
            final(self).wf(),
            old(self).sc == 0x81 && cycles >= 4 ==> final(self).sent_bytes@ == old(
                self,
            ).sent_bytes@.push(old(self).sb) && final(self).sb == 0 && final(self).sc == 1
                && final(self).joy == old(self).joy && final(self).joypad == old(self).joypad,
            !(old(self).sc == 0x81 && cycles >= 4) ==> *final(self) == *old(self),
    {
        if self.sc == 0x81 && cycles >= 4 {
            self.sent_bytes.push(self.sb);
            self.sb = 0;
            self.sc = 1;
        }
    }

    /// Record a button press.
    pub fn button_pressed(&mut self, button: JoypadButton)
        ensures
            *final(self) == (IoHandler {
                joypad: old(self).joypad.spec_with(button, true),
                ..*old(self)
            }),
    {
        self.joypad.button_pressed(button);
    }

    /// Record a button release.
    pub fn button_released(&mut self, button: JoypadButton)
        ensures
            *final(self) == (IoHandler {
                joypad: old(self).joypad.spec_with(button, false),
                ..*old(self)
            }),
    {
        self.joypad.button_released(button);
    }
}

} // verus!
