use vstd::prelude::*;

verus! {

/// Bit `i` of `byte`, as a flag.
pub open spec fn bit_of(byte: u8, i: int) -> bool {
    (byte >> (i as u8)) & 1u8 == 1u8
}

/// Splits a byte into eight flags, least significant bit first.
pub fn break_byte_into_flags(byte: u8) -> (flags: [bool; 8])
    ensures
        forall|i: int| 0 <= i < 8 ==> flags@[i] == bit_of(byte, i),
{
    let mut flags: [bool; 8] = [false, false, false, false, false, false, false, false];
    let mut i: usize = 0;
    while i < 8
        invariant
            0 <= i <= 8,
            flags@.len() == 8,
            forall|j: int| 0 <= j < i ==> flags@[j] == bit_of(byte, j),
        decreases 8 - i,
    {
        let shift = i as u8;
        flags[i] = (byte >> shift) & 1u8 == 1u8;
        i = i + 1;
    }
    flags
}

/// The byte whose bit `i` is `flags[i]`.
pub open spec fn byte_of_flags(flags: Seq<bool>) -> u8
    recommends
        flags.len() == 8,
{
    (if flags[0] { 0x01u8 } else { 0u8 }) | (if flags[1] { 0x02u8 } else { 0u8 }) | (if flags[2] {
        0x04u8
    } else {
        0u8
    }) | (if flags[3] { 0x08u8 } else { 0u8 }) | (if flags[4] { 0x10u8 } else { 0u8 }) | (if flags[5] {
        0x20u8
    } else {
        0u8
    }) | (if flags[6] { 0x40u8 } else { 0u8 }) | (if flags[7] { 0x80u8 } else { 0u8 })
}

/// Packs eight flags into a byte, the first flag in the least significant bit.
pub fn collapse_flags_into_byte(flags: [bool; 8]) -> (byte: u8)
    ensures
        byte == byte_of_flags(flags@),
{
    let mut byte: u8 = 0;
    if flags[0] {
        byte = byte | 0x01;
    }
    if flags[1] {
        byte = byte | 0x02;
    }
    if flags[2] {
        byte = byte | 0x04;
    }
    if flags[3] {
        byte = byte | 0x08;
    }
    if flags[4] {
        byte = byte | 0x10;
    }
    if flags[5] {
        byte = byte | 0x20;
    }
    if flags[6] {
        byte = byte | 0x40;
    }
    if flags[7] {
        byte = byte | 0x80;
    }
    proof {
        lemma_or_zero_identities();
    }
    byte
}

proof fn lemma_or_zero_identities()
    ensures
        forall|x: u8| #[trigger] (x | 0u8) == x,
        forall|x: u8| #[trigger] (0u8 | x) == x,
{
    assert(forall|x: u8| #[trigger] (x | 0u8) == x) by (bit_vector);
    assert(forall|x: u8| #[trigger] (0u8 | x) == x) by (bit_vector);
}

}
