//! Facts about bytes and words that the rest of the crate relies on.
//!
//! Bit operators are opaque to the default solver; each lemma here is settled
//! by bit-blasting once and then used wherever the fact is needed.

use vstd::prelude::*;

verus! {

/// Whether bit `n` of `v` is set.
pub open spec fn bit_set(v: u8, n: u8) -> bool {
    v & (1u8 << n) != 0
}

/// The eight one-bit masks of a byte.
pub proof fn lemma_single_bits()
    by (bit_vector)
    ensures
        1u8 << 0u8 == 0x01u8,
        1u8 << 1u8 == 0x02u8,
        1u8 << 2u8 == 0x04u8,
        1u8 << 3u8 == 0x08u8,
        1u8 << 4u8 == 0x10u8,
        1u8 << 5u8 == 0x20u8,
        1u8 << 6u8 == 0x40u8,
        1u8 << 7u8 == 0x80u8,
{
}

/// Zero is neutral for bitwise or, on either side.
pub proof fn lemma_or_zero(v: u8)
    by (bit_vector)
    ensures
        0u8 | v == v,
        v | 0u8 == v,
{
}

/// The 16-bit value whose high byte is `h` and whose low byte is `l`.
pub open spec fn pair(h: u8, l: u8) -> u16 {
    (h as u16) << 8 | (l as u16)
}

/// High byte of a 16-bit value.
pub open spec fn high(v: u16) -> u8 {
    (v >> 8) as u8
}

/// Low byte of a 16-bit value.
pub open spec fn low(v: u16) -> u8 {
    (v & 0xFF) as u8
}

/// A pair is the number 256 * high + low, and its two halves are the bytes it
/// was made of.
pub proof fn lemma_pair(h: u8, l: u8)
    ensures
        pair(h, l) == 256 * h + l,
        high(pair(h, l)) == h,
        low(pair(h, l)) == l,
{
    assert({
        let p = (h as u16) << 8 | (l as u16);
        &&& p == 256 * h + l
        &&& (p >> 8) as u8 == h
        &&& (p & 0xFF) as u8 == l
    }) by (bit_vector);
}

/// A 16-bit value is the pair of its halves.
pub proof fn lemma_halves(v: u16)
    ensures
        pair(high(v), low(v)) == v,
        high(v) == v / 256,
        low(v) == v % 256,
{
    assert({
        let h = (v >> 8) as u8;
        let l = (v & 0xFF) as u8;
        &&& (h as u16) << 8 | (l as u16) == v
        &&& h == v / 256
        &&& l == v % 256
    }) by (bit_vector);
}

/// Masking with a run of low ones takes the remainder.
pub proof fn lemma_low_masks(v: u8, w: u16)
    ensures
        v & 0x0F == v % 16,
        w & 0x000F == w % 16,
        w & 0x00FF == w % 256,
        w & 0x0FFF == w % 4096,
{
    assert({
        &&& v & 0x0F == v % 16
        &&& w & 0x000F == w % 16
        &&& w & 0x00FF == w % 256
        &&& w & 0x0FFF == w % 4096
    }) by (bit_vector);
}

/// The number that a byte stands for when it is read as a signed offset.
#[verifier::opaque]
pub open spec fn signed(v: u8) -> int {
    if v < 128 {
        v as int
    } else {
        v - 256
    }
}

/// The address `d` bytes after `a`, wrapping at the end of the address space.
#[verifier::opaque]
pub open spec fn displaced(a: u16, d: int) -> u16 {
    ((a + d) % 65536) as u16
}

/// The halves of the words that the processor holds after the boot program,
/// and the flags in 0xB0.
pub proof fn lemma_word_constants()
    by (bit_vector)
    ensures
        (0x01B0u16 >> 8u16) as u8 == 0x01u8 && (0x01B0u16 & 0xFFu16) as u8 == 0xB0u8,
        (0x0013u16 >> 8u16) as u8 == 0x00u8 && (0x0013u16 & 0xFFu16) as u8 == 0x13u8,
        (0x00D8u16 >> 8u16) as u8 == 0x00u8 && (0x00D8u16 & 0xFFu16) as u8 == 0xD8u8,
        (0x014Du16 >> 8u16) as u8 == 0x01u8 && (0x014Du16 & 0xFFu16) as u8 == 0x4Du8,
        0xB0u8 & 0x80u8 != 0u8 && 0xB0u8 & 0x40u8 == 0u8 && 0xB0u8 & 0x20u8 != 0u8 && 0xB0u8
            & 0x10u8 != 0u8,
{
}

} // verus!
