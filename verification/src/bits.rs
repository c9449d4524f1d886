//! Bytes and 16-bit words as integers: the arithmetic the contracts are
//! stated in, and the lemmas that tie it to the shifts and masks the
//! executable code uses.

use vstd::prelude::*;

verus! {

/// The 16-bit word with high byte `hi` and low byte `lo`.
pub open spec fn word(hi: u8, lo: u8) -> u16 {
    (hi as int * 256 + lo as int) as u16
}

/// The high byte of `w`.
pub open spec fn high_byte(w: u16) -> u8 {
    (w / 256) as u8
}

/// The low byte of `w`.
pub open spec fn low_byte(w: u16) -> u8 {
    (w % 256) as u8
}

/// The low four bits of `b`.
pub open spec fn low_nibble(b: u8) -> int {
    b as int % 16
}

pub(crate) proof fn lemma_join(hi: u8, lo: u8)
    by (bit_vector)
    ensures
        ((hi as u16) << 8) | (lo as u16) == hi as u16 * 256 + lo as u16,
        ((hi as u16) << 8) | ((lo as u16) & 0x00FF) == hi as u16 * 256 + lo as u16,
{
}

pub(crate) proof fn lemma_split(w: u16)
    by (bit_vector)
    ensures
        (w >> 8) as u8 == w / 256,
        ((w >> 8) & 0x00FF) as u8 == w / 256,
        (w & 0x00FF) as u8 == w % 256,
        (w & 0x00F0) as u8 == (w % 256) / 16 * 16,
{
}

} // verus!
