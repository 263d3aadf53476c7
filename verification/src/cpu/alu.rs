use vstd::prelude::*;

use crate::bits::{lemma_byte_bits, lemma_byte_pair_bits, lemma_rotate_left, lemma_rotate_right, lemma_sum_sign, lemma_word_bits};

verus! {

// Arithmetic of the 6502 ALU, stated over integers.

/// The sign bit of a byte, read as two's complement.
pub open spec fn negative(v: u8) -> bool {
    v >= 128
}

/// Binary addition with carry: the result byte, and the N, V, Z and C flags.
pub open spec fn adc_binary(a: u8, m: u8, c: bool) -> (u8, bool, bool, bool, bool) {
    let sum = a as int + m as int + (if c { 1int } else { 0 });
    let r = (sum % 256) as u8;
    (r, negative(r), negative(a) == negative(m) && negative(r) != negative(a), r == 0, sum > 255)
}

/// Decimal-mode addition as the NMOS 6502 does it: the low digit is fixed up first,
/// N and V are taken from that intermediate sum, then the high digit is fixed up,
/// and Z comes from the plain binary sum.
pub open spec fn adc_decimal(a: u8, m: u8, c: bool) -> (u8, bool, bool, bool, bool) {
    let ci: int = if c { 1 } else { 0 };
    let sum = a as int + m as int + ci;
    let low_fix: int = if a as int % 16 + m as int % 16 + ci > 9 { 6 } else { 0 };
    let t1 = sum + low_fix;
    let t2 = if t1 > 0x99 { t1 + 96 } else { t1 };
    (
        (t2 % 256) as u8,
        (t1 / 128) % 2 == 1,
        negative(a) == negative(m) && ((t1 / 128) % 2 == 1) != negative(a),
        sum % 256 == 0,
        t1 > 0x99,
    )
}

/// Binary subtraction with borrow (carry clear means borrow): result, N, V, Z, C.
pub open spec fn sbc_binary(a: u8, m: u8, c: bool) -> (u8, bool, bool, bool, bool) {
    let diff = a as int - m as int - (if c { 0int } else { 1 });
    let r = (diff % 256) as u8;
    (r, negative(r), negative(a) != negative(m) && negative(r) != negative(a), r == 0, diff >= 0)
}

/// Decimal-mode subtraction as the NMOS 6502 does it. N, V and Z come from the binary
/// difference; the digits are fixed up on the 16-bit difference, and C reports whether
/// the fixed-up value still fits in a byte.
pub open spec fn sbc_decimal(a: u8, m: u8, c: bool) -> (u8, bool, bool, bool, bool) {
    let borrow: int = if c { 0 } else { 1 };
    let diff = a as int - m as int - borrow;
    let r = (diff % 256) as u8;
    let low_fix: int = if (a as int % 16) < (m as int % 16) + borrow { 6 } else { 0 };
    let t1 = (diff - low_fix) % 65536;
    let t2 = if t1 > 0x99 { t1 - 0x60 } else { t1 };
    (
        (t2 % 256) as u8,
        negative(r),
        negative(a) != negative(m) && negative(r) != negative(a),
        r == 0,
        t2 < 0x100,
    )
}

/// Comparison of a register with a value: N, Z, C.
pub open spec fn compare_flags(reg: u8, m: u8) -> (bool, bool, bool) {
    let d = ((reg as int - m as int) % 256) as u8;
    (negative(d), reg == m, reg >= m)
}

/// A left shift, with the carry rotated into bit 0 when asked; the bit shifted out.
pub open spec fn shifted_left(m: u8, carry_in: bool) -> (u8, bool) {
    (((m as int * 2) % 256 + (if carry_in { 1int } else { 0 })) as u8, m >= 128)
}

/// A right shift, with the carry rotated into bit 7 when asked; the bit shifted out.
pub open spec fn shifted_right(m: u8, carry_in: bool) -> (u8, bool) {
    ((m as int / 2 + (if carry_in { 128int } else { 0 })) as u8, m % 2 == 1)
}

pub open spec fn wrap_inc(v: u8) -> u8 {
    ((v as int + 1) % 256) as u8
}

pub open spec fn wrap_dec(v: u8) -> u8 {
    ((v as int + 255) % 256) as u8
}

pub proof fn lemma_adc_binary(a: u8, m: u8, c: bool, tmp: u16)
    requires
        tmp == a as u16 + m as u16 + (if c { 1u16 } else { 0u16 }),
    ensures
        adc_binary(a, m, c) == (
            (tmp & 0xFF) as u8,
            tmp & 0x80 != 0,
            (a ^ m) & 0x80 == 0 && (a as u16 ^ tmp) & 0x80 != 0,
            tmp & 0x00FF == 0,
            tmp > 0xFF,
        ),
{
    let ci: u16 = if c { 1 } else { 0 };
    lemma_word_bits(tmp);
    lemma_byte_pair_bits(a, m);
    lemma_sum_sign(a, tmp);
}

pub proof fn lemma_sbc_binary(a: u8, m: u8, c: bool, tmp: u16)
    requires
        tmp as int == (a as int - m as int - (if c { 0int } else { 1 })) % 65536,
    ensures
        sbc_binary(a, m, c).0 == (tmp & 0xFF) as u8,
        sbc_binary(a, m, c).1 == (tmp & 0x80 != 0),
        sbc_binary(a, m, c).2 == ((a as u16 ^ tmp) & 0x80 != 0 && (a ^ m) & 0x80 != 0),
        sbc_binary(a, m, c).3 == (tmp & 0x00FF == 0),
        sbc_binary(a, m, c).4 == (tmp < 0x0100),
{
    let diff = a as int - m as int - (if c { 0int } else { 1 });
    lemma_word_bits(tmp);
    lemma_byte_pair_bits(a, m);
    lemma_sum_sign(a, tmp);
    assert(diff % 256 == (tmp as int) % 256);
}

} // verus!

verus! {

pub proof fn lemma_shift_left_bits(m: u8, c: u8)
    requires
        c == 0 || c == 1,
    ensures
        ((m << 1u8) | c) as int == (m as int * 2) % 256 + c as int,
        (m & 0x80 != 0) == (m >= 128),
{
    lemma_rotate_left(m, c);
    lemma_byte_bits(m);
}

pub proof fn lemma_shift_right_bits(m: u8, c: u8)
    requires
        c == 0 || c == 128,
    ensures
        ((m >> 1u8) | c) as int == m as int / 2 + c as int,
        (m & 1 != 0) == (m % 2 == 1),
{
    lemma_rotate_right(m, c);
    lemma_byte_bits(m);
}

/// Binary subtraction is addition of the complement: SBC gives the same result and
/// flags as ADC of the inverted operand, with the carry in as the inverted borrow.
pub proof fn law_sbc_is_adc_of_complement(a: u8, m: u8, c: bool)
    ensures
        sbc_binary(a, m, c) == adc_binary(a, !m, c),
{
    assert(!m as int == 255 - m) by (bit_vector);
}

} // verus!
