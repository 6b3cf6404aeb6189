//! What masking and shifting bytes and words computes, as arithmetic.
use vstd::prelude::*;

verus! {

proof fn lemma_byte_masks(v: u8)
    by (bit_vector)
    ensures
        v & 0x01u8 == v % 2u8,
        v & 0x03u8 == v % 4u8,
        v & 0x07u8 == v % 8u8,
        v & 0x0Fu8 == v % 16u8,
        v & 0x1Fu8 == v % 32u8,
        v & (0x60u8 >> 5u8) == v % 4u8,
        (v & 0x80u8 != 0u8) == (v >= 128u8),
        (v & 0x01u8 != 0u8) == (v % 2u8 == 1u8),
{
}

/// A byte read as a signed number: itself below 0x80, else 256 less.
pub proof fn lemma_signed_byte(v: u8)
    by (bit_vector)
    ensures
        (v as i8) as int == if v < 0x80 { v as int } else { v - 256 },
{
}

proof fn lemma_byte_shifts(v: u8)
    by (bit_vector)
    ensures
        v << 1u8 == ((v * 2) % 256) as u8,
        v >> 1u8 == v / 2u8,
        v << 4u8 | (v & 0xF0u8) >> 4u8 == ((v % 16) * 16 + v / 16) as u8,
{
}

proof fn lemma_byte_rotate_left(v: u8)
    by (bit_vector)
    ensures
        v << 1u8 | v >> 7u8 == ((v * 2) % 256 + v / 128) as u8,
{
}

proof fn lemma_byte_rotate_right(v: u8)
    by (bit_vector)
    ensures
        v >> 1u8 | v << 7u8 == (v / 2 + (v % 2) * 128) as u8,
        v >> 1u8 | v & 0x80u8 == (v / 2 + (if v >= 128u8 { 128int } else { 0int })) as u8,
{
}

/// Masks and shifts of a byte, stated as arithmetic on its value.
pub proof fn lemma_byte_bits(v: u8)
    ensures
        v & 0x01u8 == v % 2u8,
        v & 0x03u8 == v % 4u8,
        v & 0x07u8 == v % 8u8,
        v & 0x0Fu8 == v % 16u8,
        v & 0x1Fu8 == v % 32u8,
        v & (0x60u8 >> 5u8) == v % 4u8,
        (v & 0x80u8 != 0u8) == (v >= 128u8),
        (v & 0x01u8 != 0u8) == (v % 2u8 == 1u8),
        v << 1u8 == ((v * 2) % 256) as u8,
        v >> 1u8 == v / 2u8,
        v << 4u8 | (v & 0xF0u8) >> 4u8 == ((v % 16) * 16 + v / 16) as u8,
        v << 1u8 | v >> 7u8 == ((v * 2) % 256 + v / 128) as u8,
        v >> 1u8 | v << 7u8 == (v / 2 + (v % 2) * 128) as u8,
        v >> 1u8 | v & 0x80u8 == (v / 2 + (if v >= 128u8 { 128int } else { 0int })) as u8,
{
    lemma_byte_masks(v);
    lemma_byte_shifts(v);
    lemma_byte_rotate_left(v);
    lemma_byte_rotate_right(v);
}

proof fn lemma_carry_into_low(v: u8, cin: u8)
    by (bit_vector)
    requires
        cin <= 1,
    ensures
        v << 1u8 | cin == ((v * 2) % 256 + cin) as u8,
{
}

proof fn lemma_carry_into_high(v: u8, cin: u8)
    by (bit_vector)
    requires
        cin <= 1,
    ensures
        v >> 1u8 | cin << 7u8 == (v / 2 + cin * 128) as u8,
{
}

/// A one-bit carry shifted into either end of a byte.
pub proof fn lemma_byte_carry_in(v: u8, cin: u8)
    requires
        cin <= 1,
    ensures
        v << 1u8 | cin == ((v * 2) % 256 + cin) as u8,
        v >> 1u8 | cin << 7u8 == (v / 2 + cin * 128) as u8,
{
    lemma_carry_into_low(v, cin);
    lemma_carry_into_high(v, cin);
}

/// The low bits of a word, stated as remainders.
pub proof fn lemma_word_bits(v: u16)
    by (bit_vector)
    ensures
        v & 0x000Fu16 == v % 16u16,
        v & 0x00FFu16 == v % 256u16,
        v & 0x0FFFu16 == v % 4096u16,
{
}

} // verus!
