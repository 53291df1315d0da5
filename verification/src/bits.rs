//! Bit-level facts about register arithmetic used across the crate.

use vstd::prelude::*;

verus! {

/// The low 4 bits of a byte are the byte modulo 16.
pub proof fn lemma_low_nibble(x: u8)
    by (bit_vector)
    ensures
        x & 0x0f == x % 16,
        x & 0x0f < 16,
{
}

/// Two bytes put together high byte first make `hi * 256 + lo`.
pub proof fn lemma_bytes_u16(hi: u8, lo: u8)
    by (bit_vector)
    ensures
        ((hi as u16) << 8u16) | (lo as u16) == (hi as u16) * 256 + (lo as u16),
        (lo as u16) | ((hi as u16) << 8u16) == (hi as u16) * 256 + (lo as u16),
{
}

/// Two bytes put together high byte first, as a 32-bit value.
pub proof fn lemma_bytes_u32(hi: u8, lo: u8)
    by (bit_vector)
    ensures
        ((hi as u32) << 8u32) | (lo as u32) == (hi as u32) * 256 + (lo as u32),
{
}

/// Masking twice with the same mask is masking once.
pub proof fn lemma_mask_twice(v: u8, mk: u8)
    by (bit_vector)
    ensures
        v & mk & mk == v & mk,
{
}

/// A right shift by one halves.
pub proof fn lemma_shift_halves(x: u32)
    by (bit_vector)
    ensures
        x >> 1u32 == x / 2,
{
}

/// The three 5-bit fields of a packed level word are each below 32.
pub proof fn lemma_level_fields(levels: u32)
    by (bit_vector)
    ensures
        levels & 31u32 < 32,
        (levels >> 5u32) & 31u32 < 32,
        (levels >> 10u32) & 31u32 < 32,
{
}

/// An envelope position from 1 to 64, masked to 6 bits, is its remainder
/// modulo 64.
pub proof fn lemma_wrap_64(p: i32)
    by (bit_vector)
    ensures
        0 < p <= 64 ==> p & 63i32 == p % 64,
{
}

} // verus!
