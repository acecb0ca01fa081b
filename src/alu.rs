use vstd::prelude::*;
use crate::registers::{carry_of, flags_byte, half_carry_of, negative_of, zero_of};

verus! {

/// The value of bit `b` (0..=7) as a mask.
pub open spec fn bit_value(b: u8) -> u8 {
    if b == 0 {
        0x01
    } else if b == 1 {
        0x02
    } else if b == 2 {
        0x04
    } else if b == 3 {
        0x08
    } else if b == 4 {
        0x10
    } else if b == 5 {
        0x20
    } else if b == 6 {
        0x40
    } else {
        0x80
    }
}

/// 1 when the carry flag of `f` is set, 0 otherwise.
pub open spec fn carry_in(f: u8) -> int {
    if carry_of(f) {
        1
    } else {
        0
    }
}

/// The eight accumulator operations, by their index in the opcode (ADD, ADC, SUB, SBC, AND,
/// XOR, OR, CP), applied to A and an operand: the new A and the new F.
pub open spec fn alu_spec(op: u8, a: u8, v: u8, f: u8) -> (u8, u8) {
    let c = carry_in(f);
    if op == 0 {
        let r = ((a + v) % 256) as u8;
        (r, flags_byte(r == 0, false, (a & 0x0F) + (v & 0x0F) > 0x0F, a + v > 0xFF))
    } else if op == 1 {
        let r = ((a + v + c) % 256) as u8;
        (r, flags_byte(r == 0, false, (a & 0x0F) + (v & 0x0F) + c > 0x0F, a + v + c > 0xFF))
    } else if op == 2 || op == 7 {
        let r = ((a - v + 256) % 256) as u8;
        (
            if op == 2 {
                r
            } else {
                a
            },
            flags_byte(r == 0, true, (a & 0x0F) < (v & 0x0F), a < v),
        )
    } else if op == 3 {
        let r = ((a - v - c + 512) % 256) as u8;
        (r, flags_byte(r == 0, true, (a & 0x0F) < (v & 0x0F) + c, a < v + c))
    } else if op == 4 {
        let r = a & v;
        (r, flags_byte(r == 0, false, true, false))
    } else if op == 5 {
        let r = a ^ v;
        (r, flags_byte(r == 0, false, false, false))
    } else {
        let r = a | v;
        (r, flags_byte(r == 0, false, false, false))
    }
}

/// The eight rotate and shift operations of the bit-prefix table (RLC, RRC, RL, RR, SLA, SRA,
/// SWAP, SRL) on `v`: the result and whether the shifted-out bit was set.
pub open spec fn shift_spec(op: u8, v: u8, f: u8) -> (u8, bool) {
    let c = carry_in(f);
    if op == 0 {
        (((v * 2) % 256 + v / 128) as u8, v >= 128)
    } else if op == 1 {
        ((v / 2 + (v % 2) * 128) as u8, v % 2 == 1)
    } else if op == 2 {
        (((v * 2) % 256 + c) as u8, v >= 128)
    } else if op == 3 {
        ((v / 2 + c * 128) as u8, v % 2 == 1)
    } else if op == 4 {
        (((v * 2) % 256) as u8, v >= 128)
    } else if op == 5 {
        ((v / 2 + (v / 128) * 128) as u8, v % 2 == 1)
    } else if op == 6 {
        (((v % 16) * 16 + v / 16) as u8, false)
    } else {
        ((v / 2) as u8, v % 2 == 1)
    }
}

/// Flags after a rotate or shift: Z from the result, N and H clear, C the shifted-out bit.
pub open spec fn shift_flags(r: u8, c: bool) -> u8 {
    flags_byte(r == 0, false, false, c)
}

/// INC on an 8-bit value: the result and the new F (C kept).
pub open spec fn inc_spec(v: u8, f: u8) -> (u8, u8) {
    let r = ((v + 1) % 256) as u8;
    (r, flags_byte(r == 0, false, (v & 0x0F) == 0x0F, carry_of(f)))
}

/// DEC on an 8-bit value: the result and the new F (C kept).
pub open spec fn dec_spec(v: u8, f: u8) -> (u8, u8) {
    let r = ((v + 255) % 256) as u8;
    (r, flags_byte(r == 0, true, (v & 0x0F) == 0, carry_of(f)))
}

/// Decimal adjust of A after a BCD addition or subtraction: the new A and F.
pub open spec fn daa_spec(a: u8, f: u8) -> (u8, u8) {
    let n = negative_of(f);
    let h = half_carry_of(f);
    let c = carry_of(f);
    if !n {
        let hi = c || a > 0x99;
        let lo = h || (a & 0x0F) > 0x09;
        let r = ((a + (if hi { 0x60int } else { 0 }) + (if lo { 0x06int } else { 0 })) % 256) as u8;
        (r, flags_byte(r == 0, false, false, hi))
    } else {
        let r = ((a - (if c { 0x60int } else { 0 }) - (if h { 0x06int } else { 0 }) + 256) % 256) as u8;
        (r, flags_byte(r == 0, true, false, c))
    }
}

/// ADD HL, rr: the new HL and F (Z kept).
pub open spec fn add16_spec(hl: u16, v: u16, f: u8) -> (u16, u8) {
    (
        ((hl + v) % 65536) as u16,
        flags_byte(zero_of(f), false, (hl & 0x0FFF) + (v & 0x0FFF) > 0x0FFF, hl + v > 0xFFFF),
    )
}

/// The signed value of a byte read as two's complement.
pub open spec fn signed(e: u8) -> int {
    if e < 128 {
        e as int
    } else {
        e - 256
    }
}

/// SP plus a signed byte, as ADD SP, e and LD HL, SP+e compute it: the sum and the new F.
pub open spec fn sp_offset_spec(sp: u16, e: u8) -> (u16, u8) {
    (
        ((sp + signed(e) + 65536) % 65536) as u16,
        flags_byte(false, false, (sp & 0x0F) + (e & 0x0F) > 0x0F, (sp & 0xFF) + e > 0xFF),
    )
}

/// `pc` moved by the signed offset `e`, wrapping.
pub open spec fn relative(pc: u16, e: u8) -> u16 {
    ((pc + signed(e) + 65536) % 65536) as u16
}

pub fn bit_mask(b: u8) -> (r: u8)
    ensures
        r == bit_value(b),
{
    if b == 0 {
        0x01
    } else if b == 1 {
        0x02
    } else if b == 2 {
        0x04
    } else if b == 3 {
        0x08
    } else if b == 4 {
        0x10
    } else if b == 5 {
        0x20
    } else if b == 6 {
        0x40
    } else {
        0x80
    }
}

/// Builds F from four flags.
pub fn make_flags(z: bool, n: bool, h: bool, c: bool) -> (r: u8)
    ensures
        r == flags_byte(z, n, h, c),
{
    (if z { 0x80u8 } else { 0u8 }) | (if n { 0x40u8 } else { 0u8 }) | (if h { 0x20u8 } else { 0u8 })
        | (if c { 0x10u8 } else { 0u8 })
}

pub fn alu(op: u8, a: u8, v: u8, f: u8) -> (r: (u8, u8))
    requires
        op < 8,
    ensures
        r == alu_spec(op, a, v, f),
{
    let c: u16 = if f & 0x10 == 0x10 { 1 } else { 0 };
    let a16 = a as u16;
    let v16 = v as u16;
    let al = (a & 0x0F) as u16;
    let vl = (v & 0x0F) as u16;
    if op == 0 {
        let r = ((a16 + v16) % 256) as u8;
        (r, make_flags(r == 0, false, al + vl > 0x0F, a16 + v16 > 0xFF))
    } else if op == 1 {
        let r = ((a16 + v16 + c) % 256) as u8;
        (r, make_flags(r == 0, false, al + vl + c > 0x0F, a16 + v16 + c > 0xFF))
    } else if op == 2 || op == 7 {
        let r = ((a16 + 256 - v16) % 256) as u8;
        (
            if op == 2 {
                r
            } else {
                a
            },
            make_flags(r == 0, true, al < vl, a16 < v16),
        )
    } else if op == 3 {
        let r = ((a16 + 512 - v16 - c) % 256) as u8;
        (r, make_flags(r == 0, true, al < vl + c, a16 < v16 + c))
    } else if op == 4 {
        let r = a & v;
        (r, make_flags(r == 0, false, true, false))
    } else if op == 5 {
        let r = a ^ v;
        (r, make_flags(r == 0, false, false, false))
    } else {
        let r = a | v;
        (r, make_flags(r == 0, false, false, false))
    }
}

pub fn shift(op: u8, v: u8, f: u8) -> (r: (u8, bool))
    requires
        op < 8,
    ensures
        r == shift_spec(op, v, f),
{
    let c: u8 = if f & 0x10 == 0x10 { 1 } else { 0 };
    let w = v as u16;
    if op == 0 {
        (((w * 2) % 256 + w / 128) as u8, v >= 128)
    } else if op == 1 {
        (v / 2 + (v % 2) * 128, v % 2 == 1)
    } else if op == 2 {
        (((w * 2) % 256 + c as u16) as u8, v >= 128)
    } else if op == 3 {
        (v / 2 + c * 128, v % 2 == 1)
    } else if op == 4 {
        (((w * 2) % 256) as u8, v >= 128)
    } else if op == 5 {
        (v / 2 + (v / 128) * 128, v % 2 == 1)
    } else if op == 6 {
        ((v % 16) * 16 + v / 16, false)
    } else {
        (v / 2, v % 2 == 1)
    }
}

pub fn inc8(v: u8, f: u8) -> (r: (u8, u8))
    ensures
        r == inc_spec(v, f),
{
    let r = ((v as u16 + 1) % 256) as u8;
    (r, make_flags(r == 0, false, (v & 0x0F) == 0x0F, f & 0x10 == 0x10))
}

pub fn dec8(v: u8, f: u8) -> (r: (u8, u8))
    ensures
        r == dec_spec(v, f),
{
    let r = ((v as u16 + 255) % 256) as u8;
    (r, make_flags(r == 0, true, (v & 0x0F) == 0, f & 0x10 == 0x10))
}

pub fn daa(a: u8, f: u8) -> (r: (u8, u8))
    ensures
        r == daa_spec(a, f),
{
    let n = f & 0x40 == 0x40;
    let h = f & 0x20 == 0x20;
    let c = f & 0x10 == 0x10;
    if !n {
        let hi = c || a > 0x99;
        let lo = h || (a & 0x0F) > 0x09;
        let r = ((a as u16 + (if hi { 0x60u16 } else { 0 }) + (if lo { 0x06u16 } else { 0 })) % 256) as u8;
        (r, make_flags(r == 0, false, false, hi))
    } else {
        let r = ((a as u16 + 256 - (if c { 0x60u16 } else { 0 }) - (if h { 0x06u16 } else { 0 }))
            % 256) as u8;
        (r, make_flags(r == 0, true, false, c))
    }
}

pub fn add16(hl: u16, v: u16, f: u8) -> (r: (u16, u8))
    ensures
        r == add16_spec(hl, v, f),
{
    let sum = hl as u32 + v as u32;
    (
        (sum % 65536) as u16,
        make_flags(
            f & 0x80 == 0x80,
            false,
            (hl & 0x0FFF) as u32 + (v & 0x0FFF) as u32 > 0x0FFF,
            sum > 0xFFFF,
        ),
    )
}

pub fn sp_offset(sp: u16, e: u8) -> (r: (u16, u8))
    ensures
        r == sp_offset_spec(sp, e),
{
    let sum: u32 = if e < 128 {
        sp as u32 + e as u32 + 65536
    } else {
        sp as u32 + e as u32 + 65536 - 256
    };
    (
        (sum % 65536) as u16,
        make_flags(
            false,
            false,
            (sp & 0x0F) as u32 + (e & 0x0F) as u32 > 0x0F,
            (sp & 0xFF) as u32 + e as u32 > 0xFF,
        ),
    )
}

pub fn jump_relative(pc: u16, e: u8) -> (r: u16)
    ensures
        r == relative(pc, e),
{
    let sum: u32 = if e < 128 {
        pc as u32 + e as u32 + 65536
    } else {
        pc as u32 + e as u32 + 65536 - 256
    };
    (sum % 65536) as u16
}

} // verus!
