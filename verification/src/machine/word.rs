//! Arithmetic on 32-bit machine words.
//!
//! A machine word is an unsigned 32-bit value; its signed reading is the
//! two's-complement interpretation of the same bit pattern.  The functions
//! here are the building blocks that instruction semantics are assembled
//! from: wrap-around addition, sign extension from a narrower width, signed
//! comparison, the arithmetic right shift and the little-endian byte order.

use vstd::prelude::*;

verus! {

/// The value of `a` read as a 32-bit two's-complement number.
pub open spec fn as_signed(a: u32) -> int {
    if a < 0x8000_0000 {
        a as int
    } else {
        a - 0x1_0000_0000
    }
}

/// `a + b` modulo 2^32.
pub open spec fn add32(a: u32, b: u32) -> u32 {
    ((a + b) % 0x1_0000_0000) as u32
}

/// `a - b` modulo 2^32.
pub open spec fn sub32(a: u32, b: u32) -> u32 {
    ((a - b) % 0x1_0000_0000) as u32
}

/// Whether bit `index` of `val` is set.
pub open spec fn bit_is_set(val: u32, index: u32) -> bool {
    (val >> index) & 1 == 1
}

/// Sign extension of `val` from `width` bits to 32: when bit `width - 1` is
/// set, every bit from `width` upwards is set as well; otherwise the value
/// is kept as it is.  Widths outside `1..=31` leave nothing to extend.
pub open spec fn sign_extend_spec(val: u32, width: u32) -> u32 {
    if 1 <= width < 32 && bit_is_set(val, (width - 1) as u32) {
        val | (u32::MAX << width)
    } else {
        val
    }
}

/// Signed order on words: the order of their two's-complement values.
pub open spec fn signed_lt_spec(a: u32, b: u32) -> bool {
    as_signed(a) < as_signed(b)
}

/// Arithmetic right shift by the low five bits of `amount`: the shift of the
/// signed reading of `val`, which fills the vacated bits with the sign.
pub open spec fn sra_spec(val: u32, amount: u32) -> u32 {
    ((val as i32) >> (amount % 32)) as u32
}

/// The 16-bit value whose little-endian bytes are `b0`, `b1`.
pub open spec fn le_u16(b0: u8, b1: u8) -> u16 {
    (b0 as u16) | ((b1 as u16) << 8)
}

/// The word whose little-endian bytes are `b0`, `b1`, `b2`, `b3`.
pub open spec fn le_u32(b0: u8, b1: u8, b2: u8, b3: u8) -> u32 {
    (b0 as u32) | ((b1 as u32) << 8) | ((b2 as u32) << 16) | ((b3 as u32) << 24)
}

/// Byte `index` of `val`, counting from the least significant byte.
pub open spec fn byte_of(val: u32, index: u32) -> u8 {
    ((val >> (8 * index) as u32) & 0xff) as u8
}

/// The low halfword of `val`.
pub open spec fn low_half(val: u32) -> u16 {
    (val & 0xffff) as u16
}

/// The sign bit of a word, as the shifts below test it.
proof fn lemma_sign_bit(a: u32)
    by (bit_vector)
    ensures
        (a >> 31) == 1 <==> a >= 0x8000_0000,
        (a >> 31) == 0 <==> a < 0x8000_0000,
        bit_is_set(a, 31) <==> a >= 0x8000_0000,
{
}

/// The masks below stay within the type they are cast to.
proof fn lemma_mask_ranges(val: u32, shift: u32)
    by (bit_vector)
    ensures
        (val >> shift) & 0xff <= 0xff,
        val & 0xffff <= 0xffff,
{
}

/// The rule that `right_shift_arithmetic` computes by, against the signed
/// shift that defines it.
proof fn lemma_sra_rule(val: u32, s: u32)
    by (bit_vector)
    requires
        s < 32,
    ensures
        (val >> 31) == 1 && s > 0 ==> ((val as i32) >> s) as u32 == (val >> s) | (0xffff_ffffu32 << (
        32 - s) as u32),
        !((val >> 31) == 1 && s > 0) ==> ((val as i32) >> s) as u32 == val >> s,
        bit_is_set(((val as i32) >> s) as u32, 31) == bit_is_set(val, 31),
{
}

/// Adds two words, wrapping around at 2^32.
pub(crate) fn wrapping_add32(a: u32, b: u32) -> (r: u32)
    ensures
        r == add32(a, b),
{
    a.wrapping_add(b)
}

/// Subtracts `b` from `a`, wrapping around at 2^32.
pub(crate) fn wrapping_sub32(a: u32, b: u32) -> (r: u32)
    ensures
        r == sub32(a, b),
{
    a.wrapping_sub(b)
}

/// Extracts byte `index` of `val`, counting from the least significant.
pub(crate) fn extract_byte(val: u32, index: u32) -> (b: u8)
    requires
        index < 4,
    ensures
        b == byte_of(val, index),
{
    let shift: u32 = 8 * index;
    proof {
        lemma_mask_ranges(val, shift);
    }
    ((val >> shift) & 0xff) as u8
}

/// Extracts the low halfword of `val`.
pub(crate) fn extract_half(val: u32) -> (h: u16)
    ensures
        h == low_half(val),
{
    proof {
        lemma_mask_ranges(val, 0);
    }
    (val & 0xffff) as u16
}

/// Assembles a halfword from its little-endian bytes.
pub(crate) fn u16_from_le(b0: u8, b1: u8) -> (v: u16)
    ensures
        v == le_u16(b0, b1),
{
    (b0 as u16) | ((b1 as u16) << 8)
}

/// Assembles a word from its little-endian bytes.
pub(crate) fn u32_from_le(b0: u8, b1: u8, b2: u8, b3: u8) -> (v: u32)
    ensures
        v == le_u32(b0, b1, b2, b3),
{
    (b0 as u32) | ((b1 as u32) << 8) | ((b2 as u32) << 16) | ((b3 as u32) << 24)
}

/// Extends `val` from a `width`-bit signed quantity to a full word.
///
/// If bit `width - 1` of `val` is set, the bits from `width` upwards are
/// set too; otherwise `val` is returned as it is, as it is for a `width`
/// of 0 or of 32 and more.
pub fn sign_extend(val: u32, width: u32) -> (r: u32)
    ensures
        r == sign_extend_spec(val, width),
{
    if 1 <= width && width < 32 && (val >> (width - 1)) & 1 == 1 {
        val | (u32::MAX << width)
    } else {
        val
    }
}

/// Whether `a` is less than `b` when both are read as signed numbers.
///
/// Words with equal sign bits compare as unsigned values; otherwise the one
/// whose sign bit is set is the smaller.
pub fn signed_lt(a: u32, b: u32) -> (r: bool)
    ensures
        r == signed_lt_spec(a, b),
{
    proof {
        lemma_sign_bit(a);
        lemma_sign_bit(b);
    }
    if (a >> 31) == (b >> 31) {
        a < b
    } else {
        (a >> 31) == 1
    }
}

/// Whether `a` is at least `b` when both are read as signed numbers.
pub fn signed_ge(a: u32, b: u32) -> (r: bool)
    ensures
        r == !signed_lt_spec(a, b),
{
    proof {
        lemma_sign_bit(a);
        lemma_sign_bit(b);
    }
    if (a >> 31) == (b >> 31) {
        !(a < b)
    } else {
        (a >> 31) == 0
    }
}

/// Shifts `val` right by `amount` modulo 32 bits, filling with the sign bit:
/// a logical shift, with the vacated bits set when `val` is negative.
pub fn right_shift_arithmetic(val: u32, amount: u32) -> (r: u32)
    ensures
        r == sra_spec(val, amount),
{
    let amount: u32 = amount % 32;
    proof {
        lemma_sra_rule(val, amount);
    }
    if ((val >> 31) == 1) && (amount > 0) {
        (val >> amount) | (u32::MAX << (32 - amount))
    } else {
        val >> amount
    }
}

/// The signed order agrees with the comparison of the words cast to `i32`.
pub proof fn lemma_signed_lt_is_i32_order(a: u32, b: u32)
    ensures
        signed_lt_spec(a, b) == ((a as i32) < (b as i32)),
{
    assert(((a as i32) < (b as i32)) == (if (a >> 31) == (b >> 31) {
        a < b
    } else {
        (a >> 31) == 1
    })) by (bit_vector);
    lemma_sign_bit(a);
    lemma_sign_bit(b);
}

/// The signed order by sign bits: words whose sign bits agree compare as
/// unsigned values, and of two words whose sign bits differ the one with
/// the sign bit set is the smaller.
pub proof fn lemma_signed_lt_by_sign_bits(a: u32, b: u32)
    ensures
        bit_is_set(a, 31) == bit_is_set(b, 31) ==> signed_lt_spec(a, b) == (a < b),
        bit_is_set(a, 31) != bit_is_set(b, 31) ==> signed_lt_spec(a, b) == bit_is_set(a, 31),
{
    lemma_sign_bit(a);
    lemma_sign_bit(b);
}

/// The arithmetic right shift as a logical shift that is then filled: for
/// an amount `s` of 1 to 31 and a word with bit 31 set, the `s` vacated
/// bits are set; otherwise the logical shift is the result.
pub proof fn lemma_sra_is_shift_and_fill(val: u32, amount: u32)
    ensures
        bit_is_set(val, 31) && amount % 32 > 0 ==> sra_spec(val, amount) == (val >> (amount % 32))
            | (u32::MAX << (32 - amount % 32) as u32),
        !(bit_is_set(val, 31) && amount % 32 > 0) ==> sra_spec(val, amount) == val >> (amount
            % 32),
{
    lemma_sra_rule(val, amount % 32);
    lemma_sign_bit(val);
}

/// An arithmetic right shift keeps the sign bit, whatever the amount: a
/// negative word stays negative and a non-negative one non-negative.
pub proof fn lemma_sra_preserves_sign(val: u32, amount: u32)
    ensures
        bit_is_set(sra_spec(val, amount), 31) == bit_is_set(val, 31),
        as_signed(sra_spec(val, amount)) < 0 <==> as_signed(val) < 0,
{
    lemma_sra_rule(val, amount % 32);
    lemma_sign_bit(val);
    lemma_sign_bit(sra_spec(val, amount));
}

/// Sign extension is two's complement: a `width`-bit pattern whose top bit
/// is clear keeps its value, and one whose top bit is set stands for that
/// value less `2^width`.
pub proof fn lemma_sign_extend_is_twos_complement(val: u32, width: u32)
    requires
        1 <= width < 32,
        val < (1u32 << width),
    ensures
        val < (1u32 << (width - 1) as u32) ==> as_signed(sign_extend_spec(val, width)) == val,
        val >= (1u32 << (width - 1) as u32) ==> as_signed(sign_extend_spec(val, width)) == val - (1u32
            << width),
{
    let r = sign_extend_spec(val, width);
    assert({
        &&& bit_is_set(val, (width - 1) as u32) <==> val >= (1u32 << (width - 1) as u32)
        &&& (1u32 << (width - 1) as u32) <= 0x4000_0000
        &&& bit_is_set(val, (width - 1) as u32) ==> (val | (0xffff_ffffu32 << width)) + (1u32
            << width) == val + 0x1_0000_0000
        &&& bit_is_set(val, (width - 1) as u32) ==> (val | (0xffff_ffffu32 << width))
            >= 0x8000_0000
    }) by (bit_vector)
        requires
            1 <= width < 32,
            val < (1u32 << width),
    ;
}

/// A word is put back together from its four bytes, and a halfword from
/// its two.
pub proof fn lemma_bytes_compose(val: u32)
    by (bit_vector)
    ensures
        le_u32(byte_of(val, 0), byte_of(val, 1), byte_of(val, 2), byte_of(val, 3)) == val,
        val <= 0xffff ==> le_u16(byte_of(val, 0), byte_of(val, 1)) == val,
{
}

} // verus!
