//! Shared pieces of the report codecs: the error of a failed decode and the bit
//! arithmetic of packed flag bytes.

use vstd::prelude::*;

verus! {

/// Why a report could not be packed into or unpacked from bytes.
#[derive(Clone, Copy, Debug, PartialEq, Eq, Structural)]
pub enum PackingError {
    /// A field holds a value outside its legal range.
    InvalidValue,
    /// The buffer does not have the length of the report.
    BufferSizeMismatch {
        /// Length of the report in bytes.
        expected: usize,
        /// Length of the buffer in bytes.
        actual: usize,
    },
}

/// The less significant of the two bytes of a 16-bit value.
pub open spec fn low_byte(value: u16) -> u8 {
    (value % 256) as u8
}

/// The more significant of the two bytes of a 16-bit value.
pub open spec fn high_byte(value: u16) -> u8 {
    (value / 256) as u8
}

/// The less significant byte of a 16-bit value, computed.
pub fn low_byte_of(value: u16) -> (byte: u8)
    ensures
        byte == low_byte(value),
{
    assert(value & 0xFF == value % 256) by (bit_vector);
    (value & 0xFF) as u8
}

/// The more significant byte of a 16-bit value, computed.
pub fn high_byte_of(value: u16) -> (byte: u8)
    ensures
        byte == high_byte(value),
{
    assert(value >> 8 == value / 256) by (bit_vector);
    (value >> 8) as u8
}

/// A byte with bit `n` set if `flag` holds and no other bit set.
pub open spec fn bit(flag: bool, n: u8) -> u8 {
    if flag {
        1u8 << n
    } else {
        0u8
    }
}

/// Whether bit `n` of `byte` is set.
pub open spec fn has_bit(byte: u8, n: u8) -> bool {
    byte & (1u8 << n) != 0
}

/// The byte whose bits 0 to 7 are the given flags, bit 0 first.
pub open spec fn flags_byte(
    b0: bool,
    b1: bool,
    b2: bool,
    b3: bool,
    b4: bool,
    b5: bool,
    b6: bool,
    b7: bool,
) -> u8 {
    bit(b0, 0) | bit(b1, 1) | bit(b2, 2) | bit(b3, 3) | bit(b4, 4) | bit(b5, 5) | bit(b6, 6) | bit(
        b7,
        7,
    )
}

/// Each bit of a flags byte is the flag it was made from.
pub(crate) proof fn lemma_flags_byte_bits(
    b0: bool,
    b1: bool,
    b2: bool,
    b3: bool,
    b4: bool,
    b5: bool,
    b6: bool,
    b7: bool,
)
    ensures
        has_bit(flags_byte(b0, b1, b2, b3, b4, b5, b6, b7), 0) == b0,
        has_bit(flags_byte(b0, b1, b2, b3, b4, b5, b6, b7), 1) == b1,
        has_bit(flags_byte(b0, b1, b2, b3, b4, b5, b6, b7), 2) == b2,
        has_bit(flags_byte(b0, b1, b2, b3, b4, b5, b6, b7), 3) == b3,
        has_bit(flags_byte(b0, b1, b2, b3, b4, b5, b6, b7), 4) == b4,
        has_bit(flags_byte(b0, b1, b2, b3, b4, b5, b6, b7), 5) == b5,
        has_bit(flags_byte(b0, b1, b2, b3, b4, b5, b6, b7), 6) == b6,
        has_bit(flags_byte(b0, b1, b2, b3, b4, b5, b6, b7), 7) == b7,
{
    let byte = flags_byte(b0, b1, b2, b3, b4, b5, b6, b7);
    let f0 = bit(b0, 0);
    let f1 = bit(b1, 1);
    let f2 = bit(b2, 2);
    let f3 = bit(b3, 3);
    let f4 = bit(b4, 4);
    let f5 = bit(b5, 5);
    let f6 = bit(b6, 6);
    let f7 = bit(b7, 7);
    assert({
        &&& 1u8 << 0u8 == 1
        &&& 1u8 << 1u8 == 2
        &&& 1u8 << 2u8 == 4
        &&& 1u8 << 3u8 == 8
        &&& 1u8 << 4u8 == 16
        &&& 1u8 << 5u8 == 32
        &&& 1u8 << 6u8 == 64
        &&& 1u8 << 7u8 == 128
    }) by (bit_vector);
    assert({
        &&& (byte & (1u8 << 0u8) != 0) == (f0 != 0)
        &&& (byte & (1u8 << 1u8) != 0) == (f1 != 0)
        &&& (byte & (1u8 << 2u8) != 0) == (f2 != 0)
        &&& (byte & (1u8 << 3u8) != 0) == (f3 != 0)
        &&& (byte & (1u8 << 4u8) != 0) == (f4 != 0)
        &&& (byte & (1u8 << 5u8) != 0) == (f5 != 0)
        &&& (byte & (1u8 << 6u8) != 0) == (f6 != 0)
        &&& (byte & (1u8 << 7u8) != 0) == (f7 != 0)
    }) by (bit_vector)
        requires
            byte == f0 | f1 | f2 | f3 | f4 | f5 | f6 | f7,
            f0 == 0 || f0 == 1,
            f1 == 0 || f1 == 2,
            f2 == 0 || f2 == 4,
            f3 == 0 || f3 == 8,
            f4 == 0 || f4 == 16,
            f5 == 0 || f5 == 32,
            f6 == 0 || f6 == 64,
            f7 == 0 || f7 == 128,
    ;
}

/// Two bytes with the same bits are the same byte.
pub(crate) proof fn lemma_same_bits(a: u8, b: u8)
    requires
        forall|n: u8| n < 8 ==> has_bit(a, n) == has_bit(b, n),
    ensures
        a == b,
{
    assert(has_bit(a, 0) == has_bit(b, 0));
    assert(has_bit(a, 1) == has_bit(b, 1));
    assert(has_bit(a, 2) == has_bit(b, 2));
    assert(has_bit(a, 3) == has_bit(b, 3));
    assert(has_bit(a, 4) == has_bit(b, 4));
    assert(has_bit(a, 5) == has_bit(b, 5));
    assert(has_bit(a, 6) == has_bit(b, 6));
    assert(has_bit(a, 7) == has_bit(b, 7));
    assert(a == b) by (bit_vector)
        requires
            (a & (1u8 << 0u8) != 0) == (b & (1u8 << 0u8) != 0),
            (a & (1u8 << 1u8) != 0) == (b & (1u8 << 1u8) != 0),
            (a & (1u8 << 2u8) != 0) == (b & (1u8 << 2u8) != 0),
            (a & (1u8 << 3u8) != 0) == (b & (1u8 << 3u8) != 0),
            (a & (1u8 << 4u8) != 0) == (b & (1u8 << 4u8) != 0),
            (a & (1u8 << 5u8) != 0) == (b & (1u8 << 5u8) != 0),
            (a & (1u8 << 6u8) != 0) == (b & (1u8 << 6u8) != 0),
            (a & (1u8 << 7u8) != 0) == (b & (1u8 << 7u8) != 0),
    ;
}

/// Setting bit `n` of a byte sets that bit and leaves the others as they were.
pub(crate) proof fn lemma_set_bit(byte: u8, n: u8, m: u8)
    requires
        n < 8,
        m < 8,
    ensures
        has_bit(byte | (1u8 << n), m) == (m == n || has_bit(byte, m)),
{
    assert((byte | (1u8 << n)) & (1u8 << m) != 0 <==> (m == n || byte & (1u8 << m) != 0))
        by (bit_vector)
        requires
            n < 8,
            m < 8,
    ;
}

/// The byte with bit `n` set if `flag` holds, computed.
pub(crate) fn flag_bit(flag: bool, n: u8) -> (byte: u8)
    requires
        n < 8,
    ensures
        byte == bit(flag, n),
{
    if flag {
        1u8 << n
    } else {
        0
    }
}

/// Whether bit `n` of `byte` is set, computed.
pub(crate) fn test_bit(byte: u8, n: u8) -> (set: bool)
    requires
        n < 8,
    ensures
        set == has_bit(byte, n),
{
    byte & (1u8 << n) != 0
}

} // verus!
