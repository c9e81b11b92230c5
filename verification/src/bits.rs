//! Bit-level facts about the mask, shift and complement operations that the
//! emulator core uses, restated in ordinary arithmetic so that the rest of
//! the crate can reason about them without leaving the default solver.

use vstd::prelude::*;

verus! {

/// Masks and complements on bytes, as division and remainder.
pub proof fn lemma_u8_masks()
    by (bit_vector)
    ensures
        forall|v: u8| #[trigger] (v & 0x0F) == v % 16,
        forall|v: u8| #[trigger] (v & 0xF0) == 16 * (v / 16),
        forall|v: u8| #[trigger] (v & 0x7F) == v % 128,
        forall|v: u8| #[trigger] (v & 0xFE) == 2 * (v / 2),
        forall|v: u8| #[trigger] (v & 0x80) == 128 * (v / 128),
        forall|v: u8| #[trigger] (v & 0x01) == v % 2,
        forall|v: u8| #[trigger] (!v) == 255 - v,
{
}

/// The two bytes of a 16-bit word, extracted by masking and shifting.
pub proof fn lemma_u16_bytes()
    by (bit_vector)
    ensures
        forall|s: u16| #[trigger] (s & 0x00FF) == s % 256,
        forall|s: u16| #[trigger] (s & 0xFF00) == 256 * (s / 256),
        forall|s: u16| #[trigger] (s >> 8) == s / 256,
        forall|s: u16| #[trigger] ((s & 0xFF00) >> 8) == s / 256,
{
}

/// A 16-bit word assembled from a high and a low byte.
pub proof fn lemma_u16_compose()
    by (bit_vector)
    ensures
        forall|hi: u8, lo: u8|
            #[trigger] (((hi as u16) << 8) | (lo as u16)) == 256 * (hi as u16) + (lo as u16),
        forall|hi: u8, lo: u8|
            #[trigger] ((lo as u16) | ((hi as u16) << 8)) == 256 * (hi as u16) + (lo as u16),
{
}

/// Replacing one byte of a 16-bit word while keeping the other.
pub proof fn lemma_u16_replace_byte()
    by (bit_vector)
    ensures
        forall|c: u16, v: u8|
            #[trigger] ((c & 0x00FF) | ((v as u16) << 8)) == 256 * (v as u16) + c % 256,
        forall|c: u16, v: u8| #[trigger] ((c & 0xFF00) | (v as u16)) == 256 * (c / 256) + v,
{
}

} // verus!
