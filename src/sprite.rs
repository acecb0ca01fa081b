use vstd::prelude::*;

verus! {

/// One sprite attribute entry: bytes Y, X, tile number, flags.
#[derive(Clone, Copy, Debug)]
pub struct Sprite {
    pub x: u8,
    pub y: u8,
    pub tile_number: u8,
    pub priority_flag: bool,
    pub y_flip_flag: bool,
    pub x_flip_flag: bool,
    pub pallete_number: u8,
}

impl Sprite {
    /// The entry with the four flag fields decoded from `value`, other fields as in `self`.
    pub open spec fn with_flags(self, value: u8) -> Sprite {
        Sprite {
            priority_flag: value & 0x80 == 0x80,
            y_flip_flag: value & 0x40 == 0x40,
            x_flip_flag: value & 0x20 == 0x20,
            pallete_number: if value & 0x10 == 0x10 {
                1
            } else {
                0
            },
            ..self
        }
    }

    /// The entry after byte `address % 4` of its record is written.
    pub open spec fn with_byte(self, address: usize, value: u8) -> Sprite {
        if address % 4 == 0 {
            Sprite { y: value, ..self }
        } else if address % 4 == 1 {
            Sprite { x: value, ..self }
        } else if address % 4 == 2 {
            Sprite { tile_number: value, ..self }
        } else {
            self.with_flags(value)
        }
    }

    pub fn new() -> (r: Sprite)
        ensures
            r.x == 0 && r.y == 0 && r.tile_number == 0 && !r.priority_flag && !r.y_flip_flag
                && !r.x_flip_flag && r.pallete_number == 0,
    {
        Sprite {
            x: 0,
            y: 0,
            tile_number: 0,
            priority_flag: false,
            y_flip_flag: false,
            x_flip_flag: false,
            pallete_number: 0,
        }
    }

    /// Decodes the flag byte: bit 7 priority, bit 6 Y flip, bit 5 X flip, bit 4 palette.
    pub fn write_flags(&mut self, value: u8)
        ensures
            *final(self) == old(self).with_flags(value),
    {
        self.priority_flag = value & 0x80 == 0x80;
        self.y_flip_flag = value & 0x40 == 0x40;
        self.x_flip_flag = value & 0x20 == 0x20;
        self.pallete_number = if value & 0x10 == 0x10 {
            1
        } else {
            0
        };
    }

    /// Writes byte `address % 4` of the entry.
    pub fn write_sprite_address(&mut self, address: usize, value: u8)
        ensures
            *final(self) == old(self).with_byte(address, value),
    {
        let offset = address % 4;
        if offset == 0 {
            self.y = value;
        } else if offset == 1 {
            self.x = value;
        } else if offset == 2 {
            self.tile_number = value;
        } else {
            self.write_flags(value);
        }
    }

    /// The entry held in four attribute bytes.
    pub fn from_bytes(y: u8, x: u8, tile_number: u8, flags: u8) -> (r: Sprite)
        ensures
            r == (Sprite {
                y,
                x,
                tile_number,
                priority_flag: false,
                y_flip_flag: false,
                x_flip_flag: false,
                pallete_number: 0,
            }).with_flags(flags),
    {
        let mut s = Sprite::new();
        s.write_sprite_address(0, y);
        s.write_sprite_address(1, x);
        s.write_sprite_address(2, tile_number);
        s.write_sprite_address(3, flags);
        s
    }
}

} // verus!
