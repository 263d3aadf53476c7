use vstd::prelude::*;

verus! {

/// Facts about a byte that the arithmetic solver cannot see through the bit operators.
pub proof fn lemma_byte_bits(a: u8)
    by (bit_vector)
    ensures
        a & 0x0F == a % 16,
        a & 0xFF == a,
        a & 1 == a % 2,
        (a & 1 != 0) == (a % 2 == 1),
        (a & 0x80 != 0) == (a >= 128),
        (a & 0x80 == 0) == (a < 128),
        a >= 128 ==> !a as int == 255 - a,
        (a << 1u8) | 0u8 == a << 1u8,
        (a >> 1u8) | 0u8 == a >> 1u8,
        a & 0x07 < 8,
        (a & 0x08) >> 3u8 <= 1,
        (a & 0xF8) >> 3u8 < 32,
        ((a as u16) | 0x0100) == 0x0100 + a,
{
}

/// Facts about two bytes taken together.
pub proof fn lemma_byte_pair_bits(a: u8, m: u8)
    by (bit_vector)
    ensures
        ((a ^ m) & 0x80 == 0) == ((a >= 128) == (m >= 128)),
        ((a ^ m) & 0x80 != 0) == ((a >= 128) != (m >= 128)),
        a & m <= m,
        ((m as u16) << 8u16 | (a as u16)) == m as u16 * 256 + a as u16,
{
}

/// Facts about a 16-bit word, and about the sign bit of a 16-bit sum against the byte
/// `a` it started from.
proof fn lemma_word_sum_bits(a: u8, x: u16)
    by (bit_vector)
    ensures
        x & 0xFF == x % 256,
        x & 0x00FF == x % 256,
        x >> 8u16 == x / 256,
        (x & 0x80 != 0) == ((x % 256) >= 128),
        (x & 0x80 != 0) == ((x / 128) % 2 == 1),
        x & 0xFFFF == x,
        ((a as u16 ^ x) & 0x80 != 0) == ((a >= 128) != ((x % 256) >= 128)),
        ((a as u16 ^ x) & 0x80 != 0) == ((a >= 128) != ((x / 128) % 2 == 1)),
{
}

/// Facts about a 16-bit word.
pub proof fn lemma_word_bits(x: u16)
    ensures
        x & 0xFF == x % 256,
        x & 0x00FF == x % 256,
        x >> 8u16 == x / 256,
        (x & 0x80 != 0) == ((x % 256) >= 128),
        (x & 0x80 != 0) == ((x / 128) % 2 == 1),
        x & 0xFFFF == x,
{
    lemma_word_sum_bits(0, x);
}

/// The sign bit of a 16-bit sum against the byte `a` it started from.
pub proof fn lemma_sum_sign(a: u8, t: u16)
    ensures
        ((a as u16 ^ t) & 0x80 != 0) == ((a >= 128) != ((t % 256) >= 128)),
        ((a as u16 ^ t) & 0x80 != 0) == ((a >= 128) != ((t / 128) % 2 == 1)),
{
    lemma_word_sum_bits(a, t);
}

/// A shift left by one with a carry bit in.
pub proof fn lemma_rotate_left(m: u8, c: u8)
    by (bit_vector)
    requires
        c == 0 || c == 1,
    ensures
        ((m << 1u8) | c) as int == (m as int * 2) % 256 + c as int,
{
}

/// A shift right by one with a carry bit in at the top.
pub proof fn lemma_rotate_right(m: u8, c: u8)
    by (bit_vector)
    requires
        c == 0 || c == 128,
    ensures
        ((m >> 1u8) | c) as int == m as int / 2 + c as int,
{
}

/// Facts about 16-bit words that pattern addresses and the pulse sweep need.
proof fn lemma_word_pattern_bits(high: bool, tile: u16, row: u16, x: u16, r: u16, s: u16)
    by (bit_vector)
    ensures
        ((if high { 0x1000u16 } else { 0x0000u16 }) | (tile << 4u16) | (row & 0x07u16)) & 7u16 == row & 7u16,
        (!r) + r == 0xFFFF,
        (x & 0x8000 != 0) == (x >= 0x8000),
        s < 16 ==> x >> s <= x,
{
}

/// The low bits of a pattern address built from a table bit, a tile number and a row:
/// the row's low three bits.
pub proof fn lemma_pattern_row_bits(high: bool, tile: u16, row: u16)
    ensures
        ((if high { 0x1000u16 } else { 0x0000u16 }) | (tile << 4u16) | (row & 0x07)) & 7 == row & 7,
{
    lemma_word_pattern_bits(high, tile, row, 0, 0, 0);
}

/// Words in one's complement and sign tests: `!r` is `0xFFFF - r`, bit 15 is set
/// exactly from 0x8000 up, and a shift right never grows a word.
pub proof fn lemma_complement_bits(x: u16, r: u16, s: u16)
    ensures
        (!r) as int == 0xFFFF - r as int,
        (x & 0x8000 != 0) == (x >= 0x8000),
        s < 16 ==> x >> s <= x,
{
    lemma_word_pattern_bits(false, 0, 0, x, r, s);
}

/// Masking a word never exceeds the mask.
pub proof fn lemma_and_bound16(x: u16, m: u16)
    by (bit_vector)
    ensures
        x & m <= m,
{
}

} // verus!
