use vstd::prelude::*;

verus! {

/// The joypad register at 0xFF00: two select lines and the eight buttons they read.
#[derive(Clone, Copy, Debug)]
pub struct GamepadRegisters {
    /// Bit 4 written low: the low nibble reads the direction keys.
    pub select_dpad: bool,
    /// Bit 5 written low: the low nibble reads the action buttons.
    pub select_buttons: bool,
    pub right: bool,
    pub left: bool,
    pub up: bool,
    pub down: bool,
    pub start: bool,
    pub select: bool,
    pub a: bool,
    pub b: bool,
}

/// A low nibble with a bit cleared for each pressed key (active low): `k3` is bit 3, `k0` bit 0.
pub open spec fn active_low(k3: bool, k2: bool, k1: bool, k0: bool) -> u8 {
    (0x0F - (if k3 { 8int } else { 0 }) - (if k2 { 4int } else { 0 }) - (if k1 { 2int } else { 0 })
        - (if k0 { 1int } else { 0 })) as u8
}

impl GamepadRegisters {
    /// The register as read: the selected group's keys, pressed keys as 0 bits; 0x0F when no
    /// group is selected.
    pub open spec fn spec_read(self) -> u8 {
        if self.select_dpad {
            active_low(self.down, self.up, self.left, self.right)
        } else if self.select_buttons {
            active_low(self.start, self.select, self.b, self.a)
        } else {
            0x0F
        }
    }

    /// The register after `value` is written, no key pressed.
    pub fn new(value: u8) -> (r: GamepadRegisters)
        ensures
            r.select_dpad == (value & 0x10 == 0),
            r.select_buttons == (value & 0x20 == 0),
            !r.right && !r.left && !r.up && !r.down && !r.start && !r.select && !r.a && !r.b,
    {
        GamepadRegisters {
            select_dpad: (value & 0x10) == 0,
            select_buttons: (value & 0x20) == 0,
            right: false,
            left: false,
            up: false,
            down: false,
            start: false,
            select: false,
            a: false,
            b: false,
        }
    }

    pub fn read(&self) -> (r: u8)
        ensures
            r == self.spec_read(),
    {
        let mut v: u8 = 0x0F;
        if self.select_dpad {
            if self.down {
                v = v - 0x08;
            }
            if self.up {
                v = v - 0x04;
            }
            if self.left {
                v = v - 0x02;
            }
            if self.right {
                v = v - 0x01;
            }
        } else if self.select_buttons {
            if self.start {
                v = v - 0x08;
            }
            if self.select {
                v = v - 0x04;
            }
            if self.b {
                v = v - 0x02;
            }
            if self.a {
                v = v - 0x01;
            }
        }
        v
    }

    /// Writes the two select lines (bits 4 and 5, active low); the keys are kept.
    pub fn write(&mut self, value: u8)
        ensures
            *final(self) == (GamepadRegisters {
                select_dpad: value & 0x10 == 0,
                select_buttons: value & 0x20 == 0,
                ..*old(self)
            }),
    {
        self.select_dpad = (value & 0x10) == 0;
        self.select_buttons = (value & 0x20) == 0;
    }
}

} // verus!
