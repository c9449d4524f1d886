//! What the arithmetic and logic operations compute: results and condition
//! bits as functions of the operands.

use crate::bits::low_nibble;
use crate::register::FlagState;
use vstd::prelude::*;

verus! {

/// `v + 1` in 8 bits: `0xFF` wraps to `0x00`.
pub open spec fn inc8(v: u8) -> u8 {
    if v == 0xFF {
        0
    } else {
        (v + 1) as u8
    }
}

/// `v - 1` in 8 bits: `0x00` wraps to `0xFF`.
pub open spec fn dec8(v: u8) -> u8 {
    if v == 0 {
        0xFF
    } else {
        (v - 1) as u8
    }
}

/// `w + 1` in 16 bits.
pub open spec fn inc16(w: u16) -> u16 {
    if w == 0xFFFF {
        0
    } else {
        (w + 1) as u16
    }
}

/// `w + 2` in 16 bits.
pub open spec fn inc16_twice(w: u16) -> u16 {
    inc16(inc16(w))
}

/// `w - 1` in 16 bits.
pub open spec fn dec16(w: u16) -> u16 {
    if w == 0 {
        0xFFFF
    } else {
        (w - 1) as u16
    }
}

/// `w - 2` in 16 bits.
pub open spec fn dec16_twice(w: u16) -> u16 {
    dec16(dec16(w))
}

/// `base` moved by `offset` read as a signed 8-bit displacement, within the
/// 16-bit address space.
pub open spec fn offset_address(base: u16, offset: u8) -> u16 {
    let displacement: int = if offset < 0x80 {
        offset as int
    } else {
        offset - 0x100
    };
    ((base + displacement) % 0x10000) as u16
}

/// Flags after incrementing `v`: half-carry when the low nibble was `0xF`,
/// carry untouched.
pub open spec fn inc_flags(f: FlagState, v: u8) -> FlagState {
    FlagState { zero: inc8(v) == 0, sub: false, half_carry: low_nibble(v) == 0xF, carry: f.carry }
}

/// Flags after decrementing `v`: half-carry when the low nibble of the result
/// is `0xF`, carry untouched.
pub open spec fn dec_flags(f: FlagState, v: u8) -> FlagState {
    FlagState {
        zero: dec8(v) == 0,
        sub: true,
        half_carry: low_nibble(dec8(v)) == 0xF,
        carry: f.carry,
    }
}

/// Flags of a bitwise operation with result `result`.
pub open spec fn logic_flags(result: u8) -> FlagState {
    FlagState { zero: result == 0, sub: false, half_carry: false, carry: false }
}

/// Flags of comparing `a` against `v`: those of `a - v` with the difference discarded.
pub open spec fn compare_flags(a: u8, v: u8) -> FlagState {
    FlagState { zero: a == v, sub: true, half_carry: low_nibble(a) < low_nibble(v), carry: a < v }
}

/// `v` rotated left by one bit, `carry_in` entering at bit 0.
pub open spec fn rotate_left(v: u8, carry_in: bool) -> u8 {
    (v % 0x80 * 2 + if carry_in { 1int } else { 0 }) as u8
}

/// `v` rotated right by one bit, `carry_in` entering at bit 7.
pub open spec fn rotate_right(v: u8, carry_in: bool) -> u8 {
    (v / 2 + if carry_in { 0x80int } else { 0 }) as u8
}

/// Bit 7 of `v`, the bit a left rotation moves out.
pub open spec fn top_bit(v: u8) -> bool {
    v >= 0x80
}

/// Bit 0 of `v`, the bit a right rotation moves out.
pub open spec fn bottom_bit(v: u8) -> bool {
    v % 2 == 1
}

/// Flags after rotating the accumulator: only the carry can be set.
pub open spec fn rotate_a_flags(carry_out: bool) -> FlagState {
    FlagState { zero: false, sub: false, half_carry: false, carry: carry_out }
}

/// Flags after rotating a register through the prefixed table: like the
/// accumulator rotations, but zero reflects the result.
pub open spec fn rotate_flags(result: u8, carry_out: bool) -> FlagState {
    FlagState { zero: result == 0, sub: false, half_carry: false, carry: carry_out }
}

/// The value of bit `n`: 1, 2, 4, ... 128.
pub open spec fn bit_weight(n: u8) -> u8 {
    if n == 0 {
        1
    } else if n == 1 {
        2
    } else if n == 2 {
        4
    } else if n == 3 {
        8
    } else if n == 4 {
        16
    } else if n == 5 {
        32
    } else if n == 6 {
        64
    } else {
        128
    }
}

/// Whether bit `n` of `v` is set.
pub open spec fn bit_is_set(v: u8, n: u8) -> bool {
    v / bit_weight(n) % 2 == 1
}

/// Flags after testing bit `n` of `v`: zero when the bit is clear, carry untouched.
pub open spec fn bit_test_flags(f: FlagState, v: u8, n: u8) -> FlagState {
    FlagState { zero: !bit_is_set(v, n), sub: false, half_carry: true, carry: f.carry }
}

/// Any byte XORed with itself is zero.
pub proof fn lemma_xor_self(v: u8)
    by (bit_vector)
    ensures
        v ^ v == 0,
{
}

pub(crate) proof fn lemma_nibble(v: u8)
    by (bit_vector)
    ensures
        (v & 0x0F) == v % 16,
        ((v & 0x0F) == 0x0F) == (v % 16 == 15),
{
}

pub(crate) proof fn lemma_rotate(v: u8)
    by (bit_vector)
    ensures
        ((v & 0x80) == 0x80) == (v >= 0x80),
        ((v & 0x01) == 0x01) == (v % 2 == 1),
        v << 1 == v % 0x80 * 2,
        (v << 1) | 0x01 == v % 0x80 * 2 + 1,
        v >> 1 == v / 2,
        (v >> 1) | 0x80 == v / 2 + 0x80,
{
}

pub(crate) proof fn lemma_bit_mask(v: u8, n: u8)
    by (bit_vector)
    requires
        n < 8,
    ensures
        ((1u8 << n) & v != 0) == (v / bit_weight(n) % 2 == 1),
{
}

} // verus!
