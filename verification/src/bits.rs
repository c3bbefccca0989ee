//! Facts about masks and shifts that several modules use.
use vstd::prelude::*;

verus! {

/// A byte masked is at most the mask and at most the byte.
pub proof fn lemma_u8_and_bound(value: u8, mask: u8)
    by (bit_vector)
    ensures
        value & mask <= mask,
        value & mask <= value,
{
}

/// A byte's upper nibble and its top two bits.
pub proof fn lemma_u8_shr_bound(value: u8)
    by (bit_vector)
    ensures
        value >> 4u8 <= 0x0f,
        value >> 6u8 <= 3,
{
}

/// The low bits of a byte as a remainder.
pub proof fn lemma_u8_low_bits(value: u8)
    by (bit_vector)
    ensures
        value & 0x0f == value % 16,
        value & 0x1f == value % 32,
        value & 0x07 == value % 8,
        value & 0x04 == 0x04 <==> value & 0x04 != 0,
{
}

} // verus!
