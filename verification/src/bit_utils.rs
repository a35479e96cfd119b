//! Single-bit operations on a byte. Bits are numbered from the least
//! significant one, so bit `k` of a byte has weight `2^k`.

use vstd::prelude::*;

verus! {

/// The value of bit `bit_index` of `byte`.
pub open spec fn bit_at(byte: u8, bit_index: usize) -> bool {
    (byte >> bit_index) & 1 == 1
}

/// `byte` with bit `bit_index` forced to `value`, every other bit kept.
pub open spec fn with_bit(byte: u8, bit_index: usize, value: bool) -> u8 {
    if value {
        byte | (1u8 << bit_index)
    } else {
        byte & !(1u8 << bit_index)
    }
}

/// `byte` with bit `bit_index` inverted, every other bit kept.
pub open spec fn with_bit_flipped(byte: u8, bit_index: usize) -> u8 {
    byte ^ (1u8 << bit_index)
}

/// The zero byte has no bit set.
pub proof fn lemma_zero_byte(bit_index: usize)
    by (bit_vector)
    requires
        bit_index < 8,
    ensures
        !bit_at(0u8, bit_index),
{
}

/// Writing a bit makes that bit read back as written and leaves the other
/// seven as they were.
pub proof fn lemma_with_bit(byte: u8, bit_index: usize, value: bool, other: usize)
    by (bit_vector)
    requires
        bit_index < 8,
        other < 8,
    ensures
        bit_at(with_bit(byte, bit_index, value), other) == (if other == bit_index {
            value
        } else {
            bit_at(byte, other)
        }),
{
}

/// Flipping a bit inverts that bit and leaves the other seven as they were.
pub proof fn lemma_with_bit_flipped(byte: u8, bit_index: usize, other: usize)
    by (bit_vector)
    requires
        bit_index < 8,
        other < 8,
    ensures
        bit_at(with_bit_flipped(byte, bit_index), other) == (if other == bit_index {
            !bit_at(byte, other)
        } else {
            bit_at(byte, other)
        }),
{
}

/// Two bytes whose eight bits agree are the same byte.
pub proof fn lemma_bits_determine_byte(a: u8, b: u8)
    requires
        forall|k: usize| k < 8 ==> bit_at(a, k) == bit_at(b, k),
    ensures
        a == b,
{
    assert(bit_at(a, 0) == bit_at(b, 0));
    assert(bit_at(a, 1) == bit_at(b, 1));
    assert(bit_at(a, 2) == bit_at(b, 2));
    assert(bit_at(a, 3) == bit_at(b, 3));
    assert(bit_at(a, 4) == bit_at(b, 4));
    assert(bit_at(a, 5) == bit_at(b, 5));
    assert(bit_at(a, 6) == bit_at(b, 6));
    assert(bit_at(a, 7) == bit_at(b, 7));
    assert(a == b) by (bit_vector)
        requires
            ((a >> 0usize) & 1 == 1) == ((b >> 0usize) & 1 == 1),
            ((a >> 1usize) & 1 == 1) == ((b >> 1usize) & 1 == 1),
            ((a >> 2usize) & 1 == 1) == ((b >> 2usize) & 1 == 1),
            ((a >> 3usize) & 1 == 1) == ((b >> 3usize) & 1 == 1),
            ((a >> 4usize) & 1 == 1) == ((b >> 4usize) & 1 == 1),
            ((a >> 5usize) & 1 == 1) == ((b >> 5usize) & 1 == 1),
            ((a >> 6usize) & 1 == 1) == ((b >> 6usize) & 1 == 1),
            ((a >> 7usize) & 1 == 1) == ((b >> 7usize) & 1 == 1),
    ;
}

/// Reads one bit of a byte.
pub fn get_bit(byte: u8, bit_index: usize) -> (value: bool)
    requires
        bit_index < 8,
    ensures
        value == bit_at(byte, bit_index),
{
    let bit_mask: u8 = 0x1;
    let shifted_bit: u8 = byte >> bit_index;
    (shifted_bit & bit_mask) == 1
}

/// Writes one bit of a byte and returns the new byte.
pub fn set_bit(byte: u8, bit_index: usize, value: bool) -> (updated: u8)
    requires
        bit_index < 8,
    ensures
        updated == with_bit(byte, bit_index, value),
        bit_at(updated, bit_index) == value,
        forall|other: usize|
            other < 8 && other != bit_index ==> bit_at(updated, other) == bit_at(byte, other),
{
    proof {
        lemma_with_bit(byte, bit_index, value, bit_index);
        assert forall|other: usize| other < 8 && other != bit_index implies bit_at(
            with_bit(byte, bit_index, value),
            other,
        ) == bit_at(byte, other) by {
            lemma_with_bit(byte, bit_index, value, other);
        }
    }
    if value {
        byte | (1u8 << bit_index)
    } else {
        byte & !(1u8 << bit_index)
    }
}

/// Inverts one bit of a byte and returns the new byte.
pub fn toggle_bit(byte: u8, bit_index: usize) -> (updated: u8)
    requires
        bit_index < 8,
    ensures
        updated == with_bit_flipped(byte, bit_index),
        bit_at(updated, bit_index) == !bit_at(byte, bit_index),
        forall|other: usize|
            other < 8 && other != bit_index ==> bit_at(updated, other) == bit_at(byte, other),
{
    proof {
        lemma_with_bit_flipped(byte, bit_index, bit_index);
        assert forall|other: usize| other < 8 && other != bit_index implies bit_at(
            with_bit_flipped(byte, bit_index),
            other,
        ) == bit_at(byte, other) by {
            lemma_with_bit_flipped(byte, bit_index, other);
        }
    }
    byte ^ (1u8 << bit_index)
}

} // verus!
