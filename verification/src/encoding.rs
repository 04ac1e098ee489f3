//! The little-endian layout of a 32-bit counter, as mathematics.
//!
//! Everything the crate proves about stored bytes is stated over the two
//! functions [`le_bytes`] and [`le_value`].

use vstd::prelude::*;

verus! {

/// The four little-endian bytes of `value`, least significant first.
pub open spec fn le_bytes(value: u32) -> Seq<u8> {
    seq![
        (value % 256) as u8,
        ((value / 256) % 256) as u8,
        ((value / 65536) % 256) as u8,
        ((value / 16777216) % 256) as u8,
    ]
}

/// The number that the first four bytes of `bytes` spell in little-endian
/// order. Later bytes do not count.
pub open spec fn le_value(bytes: Seq<u8>) -> u32
    recommends
        bytes.len() >= 4,
{
    (bytes[0] + bytes[1] * 256 + bytes[2] * 65536 + bytes[3] * 16777216) as u32
}

/// The successor of `value` in 32-bit arithmetic: the largest value wraps to
/// zero.
pub open spec fn wrapping_succ(value: u32) -> u32 {
    if value == u32::MAX {
        0
    } else {
        (value + 1) as u32
    }
}

/// Encoding takes four bytes, and decoding them gives the value back.
pub proof fn lemma_le_value_of_le_bytes(value: u32)
    ensures
        le_bytes(value).len() == 4,
        le_value(le_bytes(value)) == value,
{
}

/// The wrapped successor is the successor modulo 2^32.
pub proof fn lemma_wrapping_succ_is_modular(value: u32)
    ensures
        wrapping_succ(value) == (value + 1) % 0x1_0000_0000,
{
}

} // verus!
