use vstd::prelude::*;

verus! {

pub const ZERO: u8 = 0x80;

pub const NEGATIVE: u8 = 0x40;

pub const HALF_CARRY: u8 = 0x20;

pub const CARRY: u8 = 0x10;

/// The sixteen-bit value whose high byte is `hi` and low byte is `lo`.
pub open spec fn word(hi: u8, lo: u8) -> u16 {
    (hi as int * 256 + lo as int) as u16
}

/// High byte of a sixteen-bit value.
pub open spec fn hi_byte(v: u16) -> u8 {
    (v as int / 256) as u8
}

/// Low byte of a sixteen-bit value.
pub open spec fn lo_byte(v: u16) -> u8 {
    (v as int % 256) as u8
}

/// `f` with the bits of `mask` set when `on`, cleared otherwise.
pub open spec fn with_flag(f: u8, mask: u8, on: bool) -> u8 {
    if on {
        f | mask
    } else {
        f & !mask
    }
}

pub open spec fn zero_of(f: u8) -> bool {
    f & ZERO == ZERO
}

pub open spec fn negative_of(f: u8) -> bool {
    f & NEGATIVE == NEGATIVE
}

pub open spec fn half_carry_of(f: u8) -> bool {
    f & HALF_CARRY == HALF_CARRY
}

pub open spec fn carry_of(f: u8) -> bool {
    f & CARRY == CARRY
}

/// The flag register holding exactly the four given flags, low nibble clear.
pub open spec fn flags_byte(z: bool, n: bool, h: bool, c: bool) -> u8 {
    (if z { ZERO } else { 0u8 }) | (if n { NEGATIVE } else { 0u8 }) | (if h { HALF_CARRY } else {
        0u8
    }) | (if c { CARRY } else { 0u8 })
}

/// A flag byte built from four flags reads them back, and its low nibble is zero.
pub proof fn lemma_flags_byte(z: bool, n: bool, h: bool, c: bool)
    ensures
        zero_of(flags_byte(z, n, h, c)) == z,
        negative_of(flags_byte(z, n, h, c)) == n,
        half_carry_of(flags_byte(z, n, h, c)) == h,
        carry_of(flags_byte(z, n, h, c)) == c,
        flags_byte(z, n, h, c) & 0x0F == 0,
{
    let x: u8 = if z { ZERO } else { 0u8 };
    let y: u8 = if n { NEGATIVE } else { 0u8 };
    let u: u8 = if h { HALF_CARRY } else { 0u8 };
    let w: u8 = if c { CARRY } else { 0u8 };
    assert(((x == 0u8 || x == 0x80u8) && (y == 0u8 || y == 0x40u8) && (u == 0u8 || u == 0x20u8) && (w
        == 0u8 || w == 0x10u8)) ==> ((((x | y | u | w) & 0x80u8 == 0x80u8) == (x == 0x80u8)) && (((x
        | y | u | w) & 0x40u8 == 0x40u8) == (y == 0x40u8)) && (((x | y | u | w) & 0x20u8 == 0x20u8)
        == (u == 0x20u8)) && (((x | y | u | w) & 0x10u8 == 0x10u8) == (w == 0x10u8)) && ((x | y | u
        | w) & 0x0Fu8 == 0u8))) by (bit_vector);
}

/// The register file: eight 8-bit registers, the stack pointer as two bytes
/// (`s` high, `p` low) and the program counter.
#[derive(Clone, Copy, Debug)]
pub struct Registers {
    pub a: u8,
    pub f: u8,
    pub b: u8,
    pub c: u8,
    pub d: u8,
    pub e: u8,
    pub h: u8,
    pub l: u8,
    pub s: u8,
    pub p: u8,
    pub pc: u16,
}

impl Registers {
    pub open spec fn spec_af(self) -> u16 {
        word(self.a, self.f)
    }

    pub open spec fn spec_bc(self) -> u16 {
        word(self.b, self.c)
    }

    pub open spec fn spec_de(self) -> u16 {
        word(self.d, self.e)
    }

    pub open spec fn spec_hl(self) -> u16 {
        word(self.h, self.l)
    }

    pub open spec fn spec_sp(self) -> u16 {
        word(self.s, self.p)
    }

    /// The state after boot: A=0x01, BC=0x0013, DE=0x00D8, HL=0x014D, SP=0xFFFE, PC=0x0100.
    pub open spec fn boot() -> Registers {
        Registers {
            a: 0x01,
            f: 0x00,
            b: 0x00,
            c: 0x13,
            d: 0x00,
            e: 0xD8,
            h: 0x01,
            l: 0x4D,
            s: 0xFF,
            p: 0xFE,
            pc: 0x0100,
        }
    }

    pub fn new() -> (r: Registers)
        ensures
            r == Registers::boot(),
    {
        Registers {
            a: 0x01,
            f: 0x00,
            b: 0x00,
            c: 0x13,
            d: 0x00,
            e: 0xd8,
            h: 0x01,
            l: 0x4d,
            s: 0xFF,
            p: 0xFE,
            pc: 0x0100,
        }
    }

    pub fn get_zero(&self) -> (r: bool)
        ensures
            r == zero_of(self.f),
    {
        self.f & ZERO == ZERO
    }

    pub fn get_not_zero(&self) -> (r: bool)
        ensures
            r == !zero_of(self.f),
    {
        !self.get_zero()
    }

    pub fn zero(&mut self, is_zero: bool)
        ensures
            *final(self) == (Registers { f: with_flag(old(self).f, ZERO, is_zero), ..*old(self) }),
    {
        if is_zero {
            self.f = self.f | ZERO;
        } else {
            self.f = self.f & !ZERO;
        }
    }

    pub fn negative(&mut self, is_negative: bool)
        ensures
            *final(self) == (Registers {
                f: with_flag(old(self).f, NEGATIVE, is_negative),
                ..*old(self)
            }),
    {
        if is_negative {
            self.f = self.f | NEGATIVE;
        } else {
            self.f = self.f & !NEGATIVE;
        }
    }

    pub fn get_negative(&self) -> (r: bool)
        ensures
            r == negative_of(self.f),
    {
        self.f & NEGATIVE == NEGATIVE
    }

    pub fn carry(&mut self, is_carry: bool)
        ensures
            *final(self) == (Registers { f: with_flag(old(self).f, CARRY, is_carry), ..*old(self) }),
    {
        if is_carry {
            self.f = self.f | CARRY;
        } else {
            self.f = self.f & !CARRY;
        }
    }

    pub fn get_carry(&self) -> (r: bool)
        ensures
            r == carry_of(self.f),
    {
        self.f & CARRY == CARRY
    }

    pub fn get_not_carry(&self) -> (r: bool)
        ensures
            r == !carry_of(self.f),
    {
        !self.get_carry()
    }

    pub fn get_half_carry(&self) -> (r: bool)
        ensures
            r == half_carry_of(self.f),
    {
        self.f & HALF_CARRY == HALF_CARRY
    }

    pub fn half_carry(&mut self, is_half_carry: bool)
        ensures
            *final(self) == (Registers {
                f: with_flag(old(self).f, HALF_CARRY, is_half_carry),
                ..*old(self)
            }),
    {
        if is_half_carry {
            self.f = self.f | HALF_CARRY;
        } else {
            self.f = self.f & !HALF_CARRY;
        }
    }

    /// Writes F; its low nibble is wired to ground and always reads zero.
    pub fn set_f(&mut self, value: u8)
        ensures
            *final(self) == (Registers { f: value & 0xF0, ..*old(self) }),
    {
        self.f = value & 0xF0;
    }

    pub fn af(&self) -> (r: u16)
        ensures
            r == self.spec_af(),
    {
        self.a as u16 * 256 + self.f as u16
    }

    pub fn bc(&self) -> (r: u16)
        ensures
            r == self.spec_bc(),
    {
        self.b as u16 * 256 + self.c as u16
    }

    pub fn de(&self) -> (r: u16)
        ensures
            r == self.spec_de(),
    {
        self.d as u16 * 256 + self.e as u16
    }

    pub fn hl(&self) -> (r: u16)
        ensures
            r == self.spec_hl(),
    {
        self.h as u16 * 256 + self.l as u16
    }

    pub fn sp(&self) -> (r: u16)
        ensures
            r == self.spec_sp(),
    {
        self.s as u16 * 256 + self.p as u16
    }
}

} // verus!
