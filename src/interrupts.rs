use vstd::prelude::*;

verus! {

/// The five interrupt sources, in priority order.
#[derive(Clone, Copy, Debug, PartialEq, Eq, Structural)]
pub enum Interrupt {
    VBlank,
    LCD,
    Timer,
    Serial,
    Joypad,
}

impl Interrupt {
    /// The source's bit in IE and IF.
    pub open spec fn spec_mask(self) -> u8 {
        match self {
            Interrupt::VBlank => 0x01,
            Interrupt::LCD => 0x02,
            Interrupt::Timer => 0x04,
            Interrupt::Serial => 0x08,
            Interrupt::Joypad => 0x10,
        }
    }

    /// The address the CPU jumps to when it services the source.
    pub open spec fn spec_vector(self) -> u16 {
        match self {
            Interrupt::VBlank => 0x40,
            Interrupt::LCD => 0x48,
            Interrupt::Timer => 0x50,
            Interrupt::Serial => 0x58,
            Interrupt::Joypad => 0x60,
        }
    }

    pub fn mask(&self) -> (r: u8)
        ensures
            r == self.spec_mask(),
    {
        match self {
            Interrupt::VBlank => 0x01,
            Interrupt::LCD => 0x02,
            Interrupt::Timer => 0x04,
            Interrupt::Serial => 0x08,
            Interrupt::Joypad => 0x10,
        }
    }

    pub fn vector(&self) -> (r: u16)
        ensures
            r == self.spec_vector(),
    {
        match self {
            Interrupt::VBlank => 0x40,
            Interrupt::LCD => 0x48,
            Interrupt::Timer => 0x50,
            Interrupt::Serial => 0x58,
            Interrupt::Joypad => 0x60,
        }
    }
}

/// The highest-priority source whose bit is set in `bits`, if any of the five is.
pub open spec fn highest_priority(bits: u8) -> Option<Interrupt> {
    if bits & 0x01 != 0 {
        Some(Interrupt::VBlank)
    } else if bits & 0x02 != 0 {
        Some(Interrupt::LCD)
    } else if bits & 0x04 != 0 {
        Some(Interrupt::Timer)
    } else if bits & 0x08 != 0 {
        Some(Interrupt::Serial)
    } else if bits & 0x10 != 0 {
        Some(Interrupt::Joypad)
    } else {
        None
    }
}

/// The interrupt controller: the enable byte IE (0xFFFF) and the request byte IF (0xFF0F).
#[derive(Clone, Copy, Debug)]
pub struct Interrupts {
    pub enable: u8,
    pub flags: u8,
}

impl Interrupts {
    pub open spec fn spec_pending(self) -> u8 {
        self.enable & self.flags & 0x1F
    }

    pub fn new() -> (r: Interrupts)
        ensures
            r.enable == 0 && r.flags == 0,
    {
        Interrupts { enable: 0, flags: 0 }
    }

    /// Latches a request in IF; it stays there until serviced, enabled or not.
    pub fn request(&mut self, source: Interrupt)
        ensures
            final(self).enable == old(self).enable,
            final(self).flags == old(self).flags | source.spec_mask(),
    {
        self.flags = self.flags | source.mask();
    }

    /// Resets the source's IF bit.
    pub fn clear(&mut self, source: Interrupt)
        ensures
            final(self).enable == old(self).enable,
            final(self).flags == old(self).flags & !source.spec_mask(),
    {
        self.flags = self.flags & !source.mask();
    }

    /// The sources both requested and enabled.
    pub fn pending(&self) -> (r: u8)
        ensures
            r == self.spec_pending(),
    {
        self.enable & self.flags & 0x1F
    }

    /// The highest-priority pending source.
    pub fn next_pending(&self) -> (r: Option<Interrupt>)
        ensures
            r == highest_priority(self.spec_pending()),
    {
        let bits = self.pending();
        if bits & 0x01 != 0 {
            Some(Interrupt::VBlank)
        } else if bits & 0x02 != 0 {
            Some(Interrupt::LCD)
        } else if bits & 0x04 != 0 {
            Some(Interrupt::Timer)
        } else if bits & 0x08 != 0 {
            Some(Interrupt::Serial)
        } else if bits & 0x10 != 0 {
            Some(Interrupt::Joypad)
        } else {
            None
        }
    }

    /// The IE byte as read at 0xFFFF.
    pub fn get(&self) -> (r: u8)
        ensures
            r == self.enable,
    {
        self.enable
    }

    /// Stores the IE byte written at 0xFFFF.
    pub fn set(&mut self, ie: u8)
        ensures
            *final(self) == (Interrupts { enable: ie, ..*old(self) }),
    {
        self.enable = ie;
    }
}

} // verus!
